use vstd::prelude::*;

verus! {

/// One action of the command language, applied to the cursor and grid.
#[derive(Clone, Copy, Debug, PartialEq, Eq, Structural)]
pub enum Command {
    Write,
    Up,
    Down,
    Left,
    Right,
}

/// The word that names a command.
pub open spec fn letter_spec(c: Command) -> char {
    match c {
        Command::Write => 'w',
        Command::Up => 'u',
        Command::Down => 'd',
        Command::Left => 'l',
        Command::Right => 'r',
    }
}

impl Command {
    /// The one-letter word that names the command.
    pub fn letter(&self) -> (r: char)
        ensures
            r == letter_spec(*self),
    {
        match self {
            Command::Write => 'w',
            Command::Up => 'u',
            Command::Down => 'd',
            Command::Left => 'l',
            Command::Right => 'r',
        }
    }
}

/// The command that a remote controller sends for the keys it sees held:
/// the first of right, left, up and down whose key is held, or a write.
pub open spec fn steer_spec(pressed: Seq<u32>, right: u32, left: u32, up: u32, down: u32) -> Command {
    if pressed.contains(right) {
        Command::Right
    } else if pressed.contains(left) {
        Command::Left
    } else if pressed.contains(up) {
        Command::Up
    } else if pressed.contains(down) {
        Command::Down
    } else {
        Command::Write
    }
}

fn holds_key(v: &Vec<u32>, k: u32) -> (r: bool)
    ensures
        r == v@.contains(k),
{
    let mut i: usize = 0;
    while i < v.len()
        invariant
            i <= v@.len(),
            forall|j: int| 0 <= j < i ==> v@[j] != k,
        decreases v@.len() - i,
    {
        if v[i] == k {
            return true;
        }
        i = i + 1;
    }
    false
}

pub fn steer(pressed: &Vec<u32>, right: u32, left: u32, up: u32, down: u32) -> (r: Command)
    ensures
        r == steer_spec(pressed@, right, left, up, down),
{
    if holds_key(pressed, right) {
        Command::Right
    } else if holds_key(pressed, left) {
        Command::Left
    } else if holds_key(pressed, up) {
        Command::Up
    } else if holds_key(pressed, down) {
        Command::Down
    } else {
        Command::Write
    }
}

/// A word of a command line: either a known command or text to be shown.
#[derive(Clone, Debug)]
pub enum Token {
    Command(Command),
    Literal(Vec<char>),
}

/// Segments are separated by `-`, words inside a segment by a space.
pub open spec fn is_separator(c: char) -> bool {
    c == '-' || c == ' '
}

/// The words of `s`. Splitting on `-` and then splitting every segment on
/// spaces yields the pieces between any two separators, so one pass that
/// treats both characters as separators gives the same words. Neighbouring
/// separators produce empty words, and there is always at least one word.
pub open spec fn words(s: Seq<char>) -> Seq<Seq<char>>
    decreases s.len(),
{
    if s.len() == 0 {
        seq![Seq::<char>::empty()]
    } else {
        let w = words(s.drop_last());
        if is_separator(s.last()) {
            w.push(Seq::<char>::empty())
        } else {
            w.update(w.len() - 1, w.last().push(s.last()))
        }
    }
}

pub proof fn lemma_words_nonempty(s: Seq<char>)
    ensures
        words(s).len() >= 1,
    decreases s.len(),
{
    if s.len() > 0 {
        lemma_words_nonempty(s.drop_last());
    }
}

/// The command that a word names, if any.
pub open spec fn command_of(w: Seq<char>) -> Option<Command> {
    if w == seq!['w'] {
        Some(Command::Write)
    } else if w == seq!['u'] {
        Some(Command::Up)
    } else if w == seq!['d'] {
        Some(Command::Down)
    } else if w == seq!['l'] {
        Some(Command::Left)
    } else if w == seq!['r'] {
        Some(Command::Right)
    } else {
        None
    }
}

/// `t` is the token for the word `w`.
pub open spec fn token_of(t: Token, w: Seq<char>) -> bool {
    match t {
        Token::Command(c) => command_of(w) == Some(c),
        Token::Literal(text) => command_of(w) is None && text@ == w,
    }
}

/// Classifies one word.
pub fn parse_word(w: &Vec<char>) -> (t: Token)
    ensures
        token_of(t, w@),
{
    if w.len() == 1 {
        let c = w[0];
        proof {
            assert(w@ == seq![c]);
        }
        if c == 'w' {
            return Token::Command(Command::Write);
        } else if c == 'u' {
            return Token::Command(Command::Up);
        } else if c == 'd' {
            return Token::Command(Command::Down);
        } else if c == 'l' {
            return Token::Command(Command::Left);
        } else if c == 'r' {
            return Token::Command(Command::Right);
        }
    }
    let mut text: Vec<char> = Vec::new();
    let mut i: usize = 0;
    while i < w.len()
        invariant
            i <= w@.len(),
            text@ == w@.subrange(0, i as int),
        decreases w@.len() - i,
    {
        text.push(w[i]);
        i = i + 1;
        proof {
            assert(text@ =~= w@.subrange(0, i as int));
        }
    }
    proof {
        assert(text@ =~= w@);
        if w@.len() == 1 {
            assert(w@ =~= seq![w@[0]]);
        }
    }
    Token::Literal(text)
}

/// Splits a command line into its tokens, in order.
pub fn tokenize(line: &str) -> (r: Vec<Token>)
    ensures
        r@.len() == words(line@).len(),
        forall|i: int| 0 <= i < r@.len() ==> token_of(#[trigger] r@[i], words(line@)[i]),
{
    let n = line.unicode_len();
    let mut done: Vec<Token> = Vec::new();
    let mut current: Vec<char> = Vec::new();
    let mut i: usize = 0;
    while i < n
        invariant
            n == line@.len(),
            i <= n,
            done@.len() + 1 == words(line@.subrange(0, i as int)).len(),
            forall|j: int|
                0 <= j < done@.len() ==> token_of(
                    #[trigger] done@[j],
                    words(line@.subrange(0, i as int))[j],
                ),
            current@ == words(line@.subrange(0, i as int)).last(),
        decreases n - i,
    {
        let c = line.get_char(i);
        proof {
            let s = line@.subrange(0, i as int + 1);
            assert(s.drop_last() =~= line@.subrange(0, i as int));
            assert(s.last() == c);
            lemma_words_nonempty(s.drop_last());
        }
        if c == '-' || c == ' ' {
            let t = parse_word(&current);
            done.push(t);
            current = Vec::new();
        } else {
            current.push(c);
        }
        i = i + 1;
        proof {
            assert(current@ =~= words(line@.subrange(0, i as int)).last());
        }
    }
    let t = parse_word(&current);
    done.push(t);
    proof {
        assert(line@.subrange(0, n as int) =~= line@);
    }
    done
}

} // verus!
