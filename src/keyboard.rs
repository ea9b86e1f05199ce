use vstd::prelude::*;

verus! {

/// The abstract keyboard: typed characters, the modifier bitmask, the keys
/// held down, and those that went down or up since the last frame boundary.
pub struct KeyboardView {
    pub buffer: Seq<char>,
    pub modifiers: u8,
    pub pressed: Seq<u32>,
    pub just_pressed: Seq<u32>,
    pub just_released: Seq<u32>,
}

/// No key held, nothing typed, no modifier.
pub open spec fn empty_keyboard() -> KeyboardView {
    KeyboardView {
        buffer: Seq::empty(),
        modifiers: 0,
        pressed: Seq::empty(),
        just_pressed: Seq::empty(),
        just_released: Seq::empty(),
    }
}

/// `s` without any occurrence of `k`, the rest in order.
pub open spec fn without(s: Seq<u32>, k: u32) -> Seq<u32>
    decreases s.len(),
{
    if s.len() == 0 {
        s
    } else if s.last() == k {
        without(s.drop_last(), k)
    } else {
        without(s.drop_last(), k).push(s.last())
    }
}

/// A key is never listed twice; a key that just went down is held; a key
/// that just went up is not.
pub open spec fn keyboard_wf(v: KeyboardView) -> bool {
    &&& v.pressed.no_duplicates()
    &&& v.just_pressed.no_duplicates()
    &&& v.just_released.no_duplicates()
    &&& forall|k: u32| #[trigger] v.just_pressed.contains(k) ==> v.pressed.contains(k)
    &&& forall|k: u32| #[trigger] v.just_released.contains(k) ==> !v.pressed.contains(k)
}

/// A key goes down. A key already held changes nothing.
pub open spec fn press_spec(v: KeyboardView, k: u32) -> KeyboardView {
    if v.pressed.contains(k) {
        v
    } else {
        KeyboardView {
            pressed: v.pressed.push(k),
            just_pressed: v.just_pressed.push(k),
            just_released: without(v.just_released, k),
            ..v
        }
    }
}

/// A key goes up. A key that is not held changes nothing.
pub open spec fn release_spec(v: KeyboardView, k: u32) -> KeyboardView {
    if v.pressed.contains(k) {
        KeyboardView {
            pressed: without(v.pressed, k),
            just_pressed: without(v.just_pressed, k),
            just_released: v.just_released.push(k),
            ..v
        }
    } else {
        v
    }
}

/// The frame boundary: no key has just gone down or up.
pub open spec fn clear_spec(v: KeyboardView) -> KeyboardView {
    KeyboardView { just_pressed: Seq::empty(), just_released: Seq::empty(), ..v }
}

pub proof fn lemma_without(s: Seq<u32>, k: u32)
    ensures
        forall|x: u32| #[trigger] without(s, k).contains(x) <==> (s.contains(x) && x != k),
        s.no_duplicates() ==> without(s, k).no_duplicates(),
        !s.contains(k) ==> without(s, k) == s,
    decreases s.len(),
{
    if s.len() > 0 {
        let p = s.drop_last();
        lemma_without(p, k);
        assert(s =~= p.push(s.last()));
        lemma_push_contains(p, s.last());
        lemma_push_contains(without(p, k), s.last());
        if s.no_duplicates() {
            assert(p.no_duplicates());
            assert(!p.contains(s.last())) by {
                if p.contains(s.last()) {
                    let j = choose|j: int| 0 <= j < p.len() && p[j] == s.last();
                    assert(s[j] == s[s.len() - 1]);
                }
            }
        }
    }
}

proof fn lemma_push_contains(s: Seq<u32>, k: u32)
    ensures
        forall|x: u32| #[trigger] s.push(k).contains(x) <==> (s.contains(x) || x == k),
        s.no_duplicates() && !s.contains(k) ==> s.push(k).no_duplicates(),
{
    assert forall|x: u32| #[trigger] s.push(k).contains(x) <==> (s.contains(x) || x == k) by {
        if s.contains(x) {
            let j = choose|j: int| 0 <= j < s.len() && s[j] == x;
            assert(s.push(k)[j] == x);
        }
        if x == k {
            assert(s.push(k)[s.len() as int] == k);
        }
        if s.push(k).contains(x) && x != k {
            let j = choose|j: int| 0 <= j < s.len() + 1 && s.push(k)[j] == x;
            assert(s[j] == x);
        }
    }
}

pub proof fn lemma_press_wf(v: KeyboardView, k: u32)
    requires
        keyboard_wf(v),
    ensures
        keyboard_wf(press_spec(v, k)),
        press_spec(v, k).pressed.contains(k),
{
    lemma_without(v.just_released, k);
    lemma_push_contains(v.pressed, k);
    lemma_push_contains(v.just_pressed, k);
}

pub proof fn lemma_release_wf(v: KeyboardView, k: u32)
    requires
        keyboard_wf(v),
    ensures
        keyboard_wf(release_spec(v, k)),
        !release_spec(v, k).pressed.contains(k),
{
    lemma_without(v.pressed, k);
    lemma_without(v.just_pressed, k);
    lemma_push_contains(v.just_released, k);
}

/// A key going down or up, as the window reports it.
#[derive(Clone, Copy, Debug, PartialEq, Eq, Structural)]
pub enum KeyEvent {
    Press(u32),
    Release(u32),
}

pub open spec fn apply_event(v: KeyboardView, e: KeyEvent) -> KeyboardView {
    match e {
        KeyEvent::Press(k) => press_spec(v, k),
        KeyEvent::Release(k) => release_spec(v, k),
    }
}

/// The events applied one after the other, in order.
pub open spec fn apply_events(v: KeyboardView, evs: Seq<KeyEvent>) -> KeyboardView
    decreases evs.len(),
{
    if evs.len() == 0 {
        v
    } else {
        apply_event(apply_events(v, evs.drop_last()), evs.last())
    }
}

proof fn lemma_events_since(v: KeyboardView, evs: Seq<KeyEvent>)
    requires
        keyboard_wf(v),
        v.just_pressed.len() == 0,
        v.just_released.len() == 0,
    ensures
        keyboard_wf(apply_events(v, evs)),
        forall|k: u32| #[trigger] apply_events(v, evs).just_pressed.contains(k) ==> evs.contains(KeyEvent::Press(k)),
        forall|k: u32| #[trigger] apply_events(v, evs).just_released.contains(k) ==> evs.contains(KeyEvent::Release(k)),
    decreases evs.len(),
{
    if evs.len() > 0 {
        let p = evs.drop_last();
        let w = apply_events(v, p);
        lemma_events_since(v, p);
        let e = evs.last();
        assert forall|x: KeyEvent| p.contains(x) implies #[trigger] evs.contains(x) by {
            let j = choose|j: int| 0 <= j < p.len() && p[j] == x;
            assert(evs[j] == x);
        }
        assert(evs.contains(e)) by {
            assert(evs[evs.len() - 1] == e);
        }
        match e {
            KeyEvent::Press(k) => {
                lemma_press_wf(w, k);
                lemma_without(w.just_released, k);
                lemma_push_contains(w.just_pressed, k);
            },
            KeyEvent::Release(k) => {
                lemma_release_wf(w, k);
                lemma_without(w.just_pressed, k);
                lemma_push_contains(w.just_released, k);
            },
        }
    }
}

/// Since the last frame boundary, a key counts as just pressed only if it
/// went down since, and as just released only if it went up since; a key
/// whose latest event was going down is held.
pub proof fn lemma_transitions_since_boundary(v: KeyboardView, evs: Seq<KeyEvent>, k: u32)
    requires
        keyboard_wf(v),
    ensures
        keyboard_wf(apply_events(clear_spec(v), evs)),
        forall|x: u32| #[trigger] apply_events(clear_spec(v), evs).just_pressed.contains(x)
            ==> evs.contains(KeyEvent::Press(x)),
        forall|x: u32| #[trigger] apply_events(clear_spec(v), evs).just_released.contains(x)
            ==> evs.contains(KeyEvent::Release(x)),
        evs.len() > 0 && evs.last() == KeyEvent::Press(k) ==> apply_events(clear_spec(v), evs).pressed.contains(k),
{
    lemma_events_since(clear_spec(v), evs);
    if evs.len() > 0 && evs.last() == KeyEvent::Press(k) {
        lemma_events_since(clear_spec(v), evs.drop_last());
        lemma_press_wf(apply_events(clear_spec(v), evs.drop_last()), k);
    }
}

/// Whether `k` occurs in `v`.
fn contains_key(v: &Vec<u32>, k: u32) -> (r: bool)
    ensures
        r == v@.contains(k),
{
    let mut i: usize = 0;
    while i < v.len()
        invariant
            i <= v@.len(),
            forall|j: int| 0 <= j < i ==> v@[j] != k,
        decreases v@.len() - i,
    {
        if v[i] == k {
            return true;
        }
        i = i + 1;
    }
    false
}

/// `v` without any occurrence of `k`.
fn remove_key(v: &Vec<u32>, k: u32) -> (r: Vec<u32>)
    ensures
        r@ == without(v@, k),
{
    let mut r: Vec<u32> = Vec::new();
    let mut i: usize = 0;
    while i < v.len()
        invariant
            i <= v@.len(),
            r@ == without(v@.take(i as int), k),
        decreases v@.len() - i,
    {
        proof {
            assert(v@.take(i as int + 1).drop_last() =~= v@.take(i as int));
        }
        if v[i] != k {
            r.push(v[i]);
        }
        i = i + 1;
    }
    proof {
        assert(v@.take(i as int) =~= v@);
    }
    r
}

fn copy_keys(v: &Vec<u32>) -> (r: Vec<u32>)
    ensures
        r@ == v@,
{
    let mut r: Vec<u32> = Vec::new();
    let mut i: usize = 0;
    while i < v.len()
        invariant
            i <= v@.len(),
            r@ == v@.take(i as int),
        decreases v@.len() - i,
    {
        r.push(v[i]);
        i = i + 1;
        proof {
            assert(r@ =~= v@.take(i as int));
        }
    }
    proof {
        assert(v@.take(i as int) =~= v@);
    }
    r
}

/// Whether no key occurs twice in `v`.
fn distinct_keys(v: &Vec<u32>) -> (r: bool)
    ensures
        r == v@.no_duplicates(),
{
    let mut i: usize = 0;
    while i < v.len()
        invariant
            i <= v@.len(),
            forall|a: int, b: int| 0 <= a < b < v@.len() && a < i ==> v@[a] != v@[b],
        decreases v@.len() - i,
    {
        let mut j: usize = i + 1;
        while j < v.len()
            invariant
                i < v@.len(),
                i + 1 <= j <= v@.len(),
                forall|a: int, b: int| 0 <= a < b < v@.len() && a < i ==> v@[a] != v@[b],
                forall|b: int| i < b < j ==> v@[i as int] != v@[b],
            decreases v@.len() - j,
        {
            if v[i] == v[j] {
                return false;
            }
            j = j + 1;
        }
        i = i + 1;
    }
    true
}

/// Whether every key of `a` is held in `b` (`held`), or none is (`!held`).
fn keys_held(a: &Vec<u32>, b: &Vec<u32>, held: bool) -> (r: bool)
    ensures
        r == (forall|k: u32| #[trigger] a@.contains(k) ==> b@.contains(k) == held),
{
    let mut i: usize = 0;
    while i < a.len()
        invariant
            i <= a@.len(),
            forall|j: int| 0 <= j < i ==> b@.contains(#[trigger] a@[j]) == held,
        decreases a@.len() - i,
    {
        if contains_key(b, a[i]) != held {
            assert(a@.contains(a@[i as int]));
            return false;
        }
        i = i + 1;
    }
    assert forall|k: u32| #[trigger] a@.contains(k) implies b@.contains(k) == held by {
        let j = choose|j: int| 0 <= j < a@.len() && a@[j] == k;
    }
    true
}

/// The state of the keyboard as the window reports it, and as remote peers
/// query it. Keys are identified by number.
#[derive(Debug)]
pub struct Keyboard {
    buffer: Vec<char>,
    modifiers: u8,
    pressed: Vec<u32>,
    just_pressed: Vec<u32>,
    just_released: Vec<u32>,
}

impl View for Keyboard {
    type V = KeyboardView;

    closed spec fn view(&self) -> KeyboardView {
        KeyboardView {
            buffer: self.buffer@,
            modifiers: self.modifiers,
            pressed: self.pressed@,
            just_pressed: self.just_pressed@,
            just_released: self.just_released@,
        }
    }
}

impl Keyboard {
    /// No key held, nothing typed, no modifier.
    pub fn new() -> (k: Keyboard)
        ensures
            k@ == empty_keyboard(),
            keyboard_wf(k@),
    {
        let k = Keyboard {
            buffer: Vec::new(),
            modifiers: 0,
            pressed: Vec::new(),
            just_pressed: Vec::new(),
            just_released: Vec::new(),
        };
        proof {
            assert(k@ =~= empty_keyboard());
        }
        k
    }

    /// Marks the frame boundary.
    pub fn clear(&mut self)
        requires
            keyboard_wf(old(self)@),
        ensures
            final(self)@ == clear_spec(old(self)@),
            keyboard_wf(final(self)@),
    {
        self.just_pressed.clear();
        self.just_released.clear();
    }

    pub fn press(&mut self, button: u32)
        requires
            keyboard_wf(old(self)@),
        ensures
            final(self)@ == press_spec(old(self)@, button),
            keyboard_wf(final(self)@),
    {
        proof {
            lemma_press_wf(self@, button);
        }
        if !contains_key(&self.pressed, button) {
            self.pressed.push(button);
            self.just_pressed.push(button);
            self.just_released = remove_key(&self.just_released, button);
        }
    }

    pub fn release(&mut self, button: u32)
        requires
            keyboard_wf(old(self)@),
        ensures
            final(self)@ == release_spec(old(self)@, button),
            keyboard_wf(final(self)@),
    {
        proof {
            lemma_release_wf(self@, button);
        }
        if contains_key(&self.pressed, button) {
            self.pressed = remove_key(&self.pressed, button);
            self.just_pressed = remove_key(&self.just_pressed, button);
            self.just_released.push(button);
        }
    }

    /// Appends a typed character to the input buffer.
    pub fn push_char(&mut self, c: char)
        requires
            keyboard_wf(old(self)@),
        ensures
            final(self)@ == (KeyboardView { buffer: old(self)@.buffer.push(c), ..old(self)@ }),
            keyboard_wf(final(self)@),
    {
        self.buffer.push(c);
    }

    pub fn set_modifiers(&mut self, modifiers: u8)
        requires
            keyboard_wf(old(self)@),
        ensures
            final(self)@ == (KeyboardView { modifiers, ..old(self)@ }),
            keyboard_wf(final(self)@),
    {
        self.modifiers = modifiers;
    }

    pub fn is_pressed(&self, key: u32) -> (r: bool)
        ensures
            r == self@.pressed.contains(key),
    {
        contains_key(&self.pressed, key)
    }

    pub fn was_just_pressed(&self, key: u32) -> (r: bool)
        ensures
            r == self@.just_pressed.contains(key),
    {
        contains_key(&self.just_pressed, key)
    }

    pub fn was_just_released(&self, key: u32) -> (r: bool)
        ensures
            r == self@.just_released.contains(key),
    {
        contains_key(&self.just_released, key)
    }

    pub fn buffer(&self) -> (r: &Vec<char>)
        ensures
            r@ == self@.buffer,
    {
        &self.buffer
    }

    pub fn modifiers(&self) -> (r: u8)
        ensures
            r == self@.modifiers,
    {
        self.modifiers
    }

    pub fn pressed(&self) -> (r: &Vec<u32>)
        ensures
            r@ == self@.pressed,
    {
        &self.pressed
    }

    pub fn just_pressed(&self) -> (r: &Vec<u32>)
        ensures
            r@ == self@.just_pressed,
    {
        &self.just_pressed
    }

    pub fn just_released(&self) -> (r: &Vec<u32>)
        ensures
            r@ == self@.just_released,
    {
        &self.just_released
    }

    /// An independent copy of the state.
    pub fn snapshot(&self) -> (r: Keyboard)
        ensures
            r@ == self@,
    {
        let mut buffer: Vec<char> = Vec::new();
        let mut i: usize = 0;
        while i < self.buffer.len()
            invariant
                i <= self.buffer@.len(),
                buffer@ == self.buffer@.take(i as int),
            decreases self.buffer@.len() - i,
        {
            buffer.push(self.buffer[i]);
            i = i + 1;
            proof {
                assert(buffer@ =~= self.buffer@.take(i as int));
            }
        }
        proof {
            assert(self.buffer@.take(i as int) =~= self.buffer@);
        }
        Keyboard {
            buffer,
            modifiers: self.modifiers,
            pressed: copy_keys(&self.pressed),
            just_pressed: copy_keys(&self.just_pressed),
            just_released: copy_keys(&self.just_released),
        }
    }
}

impl Keyboard {
    /// A keyboard state from its parts, where they are consistent: no key
    /// listed twice, every key that just went down held, none that just went
    /// up held.
    pub fn from_parts(
        buffer: Vec<char>,
        modifiers: u8,
        pressed: Vec<u32>,
        just_pressed: Vec<u32>,
        just_released: Vec<u32>,
    ) -> (r: Option<Keyboard>)
        ensures
            r is Some <==> keyboard_wf(
                KeyboardView {
                    buffer: buffer@,
                    modifiers,
                    pressed: pressed@,
                    just_pressed: just_pressed@,
                    just_released: just_released@,
                },
            ),
            r matches Some(k) ==> k@ == (KeyboardView {
                buffer: buffer@,
                modifiers,
                pressed: pressed@,
                just_pressed: just_pressed@,
                just_released: just_released@,
            }),
    {
        if distinct_keys(&pressed) && distinct_keys(&just_pressed) && distinct_keys(&just_released)
            && keys_held(&just_pressed, &pressed, true) && keys_held(&just_released, &pressed, false) {
            Some(Keyboard { buffer, modifiers, pressed, just_pressed, just_released })
        } else {
            None
        }
    }
}

} // verus!
