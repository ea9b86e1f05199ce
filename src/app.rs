use vstd::prelude::*;
use vstd::utf8::encode_utf8;

use crate::command::words;
use crate::config::Config;
use crate::game::{apply_words, game_wf, initial_game, Game, GameView};
use crate::keyboard::{
    clear_spec, empty_keyboard, keyboard_wf, press_spec, release_spec, Keyboard, KeyboardView,
};

verus! {

/// A request of the control protocol.
#[derive(Clone, Debug)]
pub enum AppRequest {
    Shutdown,
    GetKeyboard,
    Ping,
    Command(String),
}

/// The answer to one request.
#[derive(Debug)]
pub enum Response {
    Pong,
    Done,
    Keyboard(Keyboard),
    Echo(String),
    Error,
}

pub enum ReplyView {
    Pong,
    Done,
    Keyboard(KeyboardView),
    Echo(Seq<char>),
    Error,
}

impl View for Response {
    type V = ReplyView;

    open spec fn view(&self) -> ReplyView {
        match self {
            Response::Pong => ReplyView::Pong,
            Response::Done => ReplyView::Done,
            Response::Keyboard(k) => ReplyView::Keyboard(k@),
            Response::Echo(t) => ReplyView::Echo(t@),
            Response::Error => ReplyView::Error,
        }
    }
}

/// The bytes of a reply that has a fixed text: `Pong`, `OK`, `ERROR`, or the
/// command that was received. A keyboard state is encoded elsewhere.
pub open spec fn payload_spec(r: ReplyView) -> Option<Seq<u8>> {
    match r {
        ReplyView::Pong => Some(seq![80u8, 111u8, 110u8, 103u8]),
        ReplyView::Done => Some(seq![79u8, 75u8]),
        ReplyView::Error => Some(seq![69u8, 82u8, 82u8, 79u8, 82u8]),
        ReplyView::Echo(t) => Some(encode_utf8(t)),
        ReplyView::Keyboard(_) => None,
    }
}

impl Response {
    pub fn payload(&self) -> (r: Option<Vec<u8>>)
        ensures
            r matches Some(b) ==> payload_spec(self@) == Some(b@),
            r is None ==> payload_spec(self@) is None,
    {
        match self {
            Response::Pong => Some(vec![80u8, 111u8, 110u8, 103u8]),
            Response::Done => Some(vec![79u8, 75u8]),
            Response::Error => Some(vec![69u8, 82u8, 82u8, 79u8, 82u8]),
            Response::Echo(t) => Some(t.as_str().as_bytes_vec()),
            Response::Keyboard(_) => None,
        }
    }
}

/// A reply on the wire: the payload and one zero byte after it.
pub fn frame(payload: &Vec<u8>) -> (r: Vec<u8>)
    ensures
        r@ == payload@.push(0u8),
{
    let mut r: Vec<u8> = Vec::new();
    let mut i: usize = 0;
    while i < payload.len()
        invariant
            i <= payload@.len(),
            r@ == payload@.take(i as int),
        decreases payload@.len() - i,
    {
        r.push(payload[i]);
        i = i + 1;
        proof {
            assert(r@ =~= payload@.take(i as int));
        }
    }
    r.push(0u8);
    proof {
        assert(payload@.take(i as int) =~= payload@);
    }
    r
}

/// The received bytes without the zero bytes that pad their end.
pub fn strip_padding(bytes: &[u8]) -> (r: Vec<u8>)
    ensures
        r@ == bytes@.take(r@.len() as int),
        r@.len() == 0 || r@.last() != 0u8,
        forall|i: int| r@.len() <= i < bytes@.len() ==> bytes@[i] == 0u8,
{
    let mut end: usize = bytes.len();
    while end > 0 && bytes[end - 1] == 0u8
        invariant
            end <= bytes@.len(),
            forall|i: int| end <= i < bytes@.len() ==> bytes@[i] == 0u8,
        decreases end,
    {
        end = end - 1;
    }
    let mut r: Vec<u8> = Vec::new();
    let mut i: usize = 0;
    while i < end
        invariant
            end <= bytes@.len(),
            i <= end,
            r@ == bytes@.take(i as int),
        decreases end - i,
    {
        r.push(bytes[i]);
        i = i + 1;
        proof {
            assert(r@ =~= bytes@.take(i as int));
        }
    }
    r
}

/// The abstract state of the running program.
pub struct AppView {
    pub viewport: (u32, u32),
    pub current_frame: u64,
    pub sleep_ms_per_frame: u64,
    pub keyboard: KeyboardView,
    pub is_fullscreen: bool,
    pub is_inputting_text: bool,
    pub is_shutting_down: bool,
    pub game: GameView,
}

pub open spec fn app_wf(v: AppView) -> bool {
    game_wf(v.game) && keyboard_wf(v.keyboard)
}

/// The state after a request has been served.
pub open spec fn next_state(v: AppView, req: AppRequest) -> AppView {
    match req {
        AppRequest::Shutdown => AppView { is_shutting_down: true, ..v },
        AppRequest::Command(text) => AppView { game: apply_words(v.game, words(text@)), ..v },
        _ => v,
    }
}

/// The answer to a request.
pub open spec fn reply_of(v: AppView, req: AppRequest) -> ReplyView {
    match req {
        AppRequest::Ping => ReplyView::Pong,
        AppRequest::Shutdown => ReplyView::Done,
        AppRequest::GetKeyboard => ReplyView::Keyboard(v.keyboard),
        AppRequest::Command(text) => ReplyView::Echo(text@),
    }
}

/// The listener keeps nothing from one connection to the next: a ping
/// leaves the state as it was, so a second ping on a fresh connection is
/// answered `Pong` as the first one was.
pub proof fn lemma_ping_stateless(v: AppView)
    ensures
        next_state(v, AppRequest::Ping) == v,
        reply_of(v, AppRequest::Ping) == ReplyView::Pong,
        reply_of(next_state(v, AppRequest::Ping), AppRequest::Ping) == ReplyView::Pong,
        next_state(next_state(v, AppRequest::Ping), AppRequest::Ping) == v,
{
}

/// A keyboard query made while a key is held, after it went down, reports
/// that key among the pressed ones and among those that just went down,
/// as long as no frame boundary came between.
pub proof fn lemma_query_sees_held_key(v: AppView, k: u32)
    requires
        app_wf(v),
        !v.keyboard.pressed.contains(k),
    ensures
        ({
            let w = AppView { keyboard: press_spec(v.keyboard, k), ..v };
            &&& reply_of(w, AppRequest::GetKeyboard) matches ReplyView::Keyboard(kb)
            &&& kb.pressed.contains(k)
            &&& kb.just_pressed.contains(k)
            &&& !kb.just_released.contains(k)
        }),
{
    crate::keyboard::lemma_press_wf(v.keyboard, k);
    assert(press_spec(v.keyboard, k).just_pressed == v.keyboard.just_pressed.push(k));
    assert(press_spec(v.keyboard, k).just_pressed[v.keyboard.just_pressed.len() as int] == k);
}

/// The state of the running program that the frame loop, the window and
/// the control protocol act on.
pub struct AppState {
    viewport: (u32, u32),
    current_frame: u64,
    sleep_ms_per_frame: u64,
    keyboard: Keyboard,
    is_fullscreen: bool,
    is_inputting_text: bool,
    is_shutting_down: bool,
    game: Game,
}

impl View for AppState {
    type V = AppView;

    closed spec fn view(&self) -> AppView {
        AppView {
            viewport: self.viewport,
            current_frame: self.current_frame,
            sleep_ms_per_frame: self.sleep_ms_per_frame,
            keyboard: self.keyboard@,
            is_fullscreen: self.is_fullscreen,
            is_inputting_text: self.is_inputting_text,
            is_shutting_down: self.is_shutting_down,
            game: self.game@,
        }
    }
}

impl AppState {
    pub fn new(viewport_width: u32, viewport_height: u32, config: Config) -> (s: AppState)
        ensures
            app_wf(s@),
            s@.viewport == (viewport_width, viewport_height),
            s@.current_frame == 0,
            s@.sleep_ms_per_frame == config.sleep_ms_per_frame,
            s@.keyboard == empty_keyboard(),
            !s@.is_fullscreen,
            !s@.is_inputting_text,
            !s@.is_shutting_down,
            s@.game == initial_game((config.window_width, config.window_height)),
    {
        let sleep_ms_per_frame = config.sleep_ms_per_frame;
        AppState {
            viewport: (viewport_width, viewport_height),
            current_frame: 0,
            sleep_ms_per_frame,
            keyboard: Keyboard::new(),
            is_fullscreen: false,
            is_inputting_text: false,
            is_shutting_down: false,
            game: Game::new(config),
        }
    }

    /// Serves one request of the control protocol.
    pub fn handle_request(&mut self, req: AppRequest) -> (r: Response)
        requires
            app_wf(old(self)@),
        ensures
            final(self)@ == next_state(old(self)@, req),
            r@ == reply_of(old(self)@, req),
            app_wf(final(self)@),
    {
        match req {
            AppRequest::Ping => Response::Pong,
            AppRequest::Shutdown => {
                self.is_shutting_down = true;
                Response::Done
            },
            AppRequest::GetKeyboard => Response::Keyboard(self.keyboard.snapshot()),
            AppRequest::Command(text) => {
                self.game.apply_command(text.as_str());
                proof {
                    crate::game::lemma_apply_words_wf(old(self)@.game, words(text@));
                }
                Response::Echo(text)
            },
        }
    }
}

impl AppState {
    pub closed spec fn spec_game(&self) -> Game {
        self.game
    }

    pub closed spec fn spec_keyboard(&self) -> Keyboard {
        self.keyboard
    }

    pub fn game(&self) -> (r: &Game)
        ensures
            *r == self.spec_game(),
            r@ == self@.game,
    {
        &self.game
    }

    pub fn keyboard(&self) -> (r: &Keyboard)
        ensures
            *r == self.spec_keyboard(),
            r@ == self@.keyboard,
    {
        &self.keyboard
    }

    pub fn current_frame(&self) -> (r: u64)
        ensures
            r == self@.current_frame,
    {
        self.current_frame
    }

    pub fn sleep_ms_per_frame(&self) -> (r: u64)
        ensures
            r == self@.sleep_ms_per_frame,
    {
        self.sleep_ms_per_frame
    }

    pub fn viewport(&self) -> (r: (u32, u32))
        ensures
            r == self@.viewport,
    {
        self.viewport
    }

    pub fn is_fullscreen(&self) -> (r: bool)
        ensures
            r == self@.is_fullscreen,
    {
        self.is_fullscreen
    }

    pub fn is_shutting_down(&self) -> (r: bool)
        ensures
            r == self@.is_shutting_down,
    {
        self.is_shutting_down
    }

    /// Whether the frame loop is to stop: the quit key is held, or a peer
    /// asked for a shutdown.
    pub fn should_terminate(&self, quit_key: u32) -> (r: bool)
        ensures
            r == (self@.keyboard.pressed.contains(quit_key) || self@.is_shutting_down),
    {
        self.keyboard.is_pressed(quit_key) || self.is_shutting_down
    }

    /// Whether this is the first frame, which sets the display up.
    pub fn is_first_frame(&self) -> (r: bool)
        ensures
            r == (self@.current_frame == 0),
    {
        self.current_frame == 0
    }

    /// Whether a screenshot is due: the capture key went down this frame.
    pub fn wants_capture(&self, capture_key: u32) -> (r: bool)
        ensures
            r == self@.keyboard.just_pressed.contains(capture_key),
    {
        self.keyboard.was_just_pressed(capture_key)
    }

    /// Shows the lines of a text on the grid, one per row from the top.
    pub fn setup(&mut self, lines: &Vec<String>)
        requires
            app_wf(old(self)@),
        ensures
            final(self)@ == (AppView {
                game: GameView {
                    grid: crate::game::show_lines(old(self)@.game.grid, lines@.take(
                        if lines@.len() < crate::game::GRID_HEIGHT { lines@.len() as int } else { crate::game::GRID_HEIGHT as int },
                    ).map_values(|l: String| l@)),
                    ..old(self)@.game
                },
                ..old(self)@
            }),
            app_wf(final(self)@),
    {
        self.game.setup(lines);
    }

    /// Hands the frame's input to the game: the viewport size, and the line
    /// that came from the console, if one did.
    pub fn input(&mut self, console_line: Option<String>)
        requires
            app_wf(old(self)@),
        ensures
            final(self)@ == (AppView {
                game: match console_line {
                    Some(line) => apply_words(
                        GameView { viewport: old(self)@.viewport, ..old(self)@.game },
                        words(line@),
                    ),
                    None => GameView { viewport: old(self)@.viewport, ..old(self)@.game },
                },
                ..old(self)@
            }),
            app_wf(final(self)@),
    {
        self.game.input(self.viewport.0, self.viewport.1);
        match console_line {
            Some(line) => {
                self.game.apply_command(line.as_str());
                proof {
                    crate::game::lemma_apply_words_wf(
                        GameView { viewport: old(self)@.viewport, ..old(self)@.game },
                        words(line@),
                    );
                }
            },
            None => {},
        }
    }

    /// Applies the commands queued for this frame.
    pub fn update(&mut self)
        requires
            app_wf(old(self)@),
        ensures
            final(self)@ == (AppView {
                game: crate::game::run(
                    GameView { pending: Seq::empty(), ..old(self)@.game },
                    old(self)@.game.pending,
                ),
                ..old(self)@
            }),
            app_wf(final(self)@),
    {
        self.game.update(self.current_frame);
    }

    /// Closes the frame: counts it (the count stops at `u64::MAX`) and marks
    /// the frame boundary on the keyboard.
    pub fn end_frame(&mut self)
        requires
            app_wf(old(self)@),
        ensures
            final(self)@ == (AppView {
                current_frame: if old(self)@.current_frame < u64::MAX {
                    (old(self)@.current_frame + 1) as u64
                } else {
                    old(self)@.current_frame
                },
                keyboard: clear_spec(old(self)@.keyboard),
                ..old(self)@
            }),
            app_wf(final(self)@),
    {
        if self.current_frame < u64::MAX {
            self.current_frame = self.current_frame + 1;
        }
        self.keyboard.clear();
    }

    pub fn on_resize(&mut self, width: u32, height: u32)
        ensures
            final(self)@ == (AppView { viewport: (width, height), ..old(self)@ }),
    {
        self.viewport = (width, height);
    }

    pub fn on_fullscreen_status_changed(&mut self, fullscreen: bool)
        ensures
            final(self)@ == (AppView { is_fullscreen: fullscreen, ..old(self)@ }),
    {
        self.is_fullscreen = fullscreen;
    }

    /// A key went down; keys the window cannot name are ignored.
    pub fn on_key_down(&mut self, key: Option<u32>)
        requires
            app_wf(old(self)@),
        ensures
            final(self)@ == (AppView {
                keyboard: match key {
                    Some(k) => press_spec(old(self)@.keyboard, k),
                    None => old(self)@.keyboard,
                },
                ..old(self)@
            }),
            app_wf(final(self)@),
    {
        if let Some(k) = key {
            self.keyboard.press(k);
        }
    }

    /// A key went up; keys the window cannot name are ignored.
    pub fn on_key_up(&mut self, key: Option<u32>)
        requires
            app_wf(old(self)@),
        ensures
            final(self)@ == (AppView {
                keyboard: match key {
                    Some(k) => release_spec(old(self)@.keyboard, k),
                    None => old(self)@.keyboard,
                },
                ..old(self)@
            }),
            app_wf(final(self)@),
    {
        if let Some(k) = key {
            self.keyboard.release(k);
        }
    }

    /// A character was typed: it is kept only while text is being entered.
    pub fn on_keyboard_char(&mut self, c: char)
        requires
            app_wf(old(self)@),
        ensures
            final(self)@ == (AppView {
                keyboard: if old(self)@.is_inputting_text {
                    KeyboardView { buffer: old(self)@.keyboard.buffer.push(c), ..old(self)@.keyboard }
                } else {
                    old(self)@.keyboard
                },
                ..old(self)@
            }),
            app_wf(final(self)@),
    {
        if self.is_inputting_text {
            self.keyboard.push_char(c);
        }
    }

    pub fn on_keyboard_modifiers_changed(&mut self, modifiers: u8)
        requires
            app_wf(old(self)@),
        ensures
            final(self)@ == (AppView {
                keyboard: KeyboardView { modifiers, ..old(self)@.keyboard },
                ..old(self)@
            }),
            app_wf(final(self)@),
    {
        self.keyboard.set_modifiers(modifiers);
    }
}

} // verus!
