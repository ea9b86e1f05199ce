use vstd::prelude::*;

use crate::command::{command_of, parse_word, token_of, tokenize, words, Command, Token};
use crate::config::Config;
use crate::tile::{black, blue, white, Color, Tile};

verus! {

/// Columns of the character grid.
pub const GRID_WIDTH: usize = 80;

/// Rows of the character grid; the status line is shown below them.
pub const GRID_HEIGHT: usize = 40;

/// The writing head: the tile it stamps and where it stands.
#[derive(Clone, Copy, Debug, PartialEq, Eq, Structural)]
pub struct Cursor {
    pub character: char,
    pub foreground: Color,
    pub background: Color,
    pub x: u8,
    pub y: u8,
}

impl Cursor {
    pub fn new(character: char, foreground: Color, background: Color, x: u8, y: u8) -> (c: Cursor)
        ensures
            c == (Cursor { character, foreground, background, x, y }),
    {
        Cursor { character, foreground, background, x, y }
    }
}

pub open spec fn cursor_on_grid(c: Cursor) -> bool {
    (c.x as int) < GRID_WIDTH && (c.y as int) < GRID_HEIGHT
}

pub open spec fn cursor_tile(c: Cursor) -> Tile {
    Tile { ch: c.character, fg: c.foreground, bg: c.background }
}

pub open spec fn blank() -> Tile {
    Tile { ch: ' ', fg: white(), bg: black() }
}

/// The abstract state of a game: the grid in row-major order, the status
/// line, the cursor, the commands waiting for the next frame and the size of
/// the viewport.
pub struct GameView {
    pub grid: Seq<Tile>,
    pub status: Seq<Tile>,
    pub cursor: Cursor,
    pub pending: Seq<Command>,
    pub viewport: (u32, u32),
}

pub open spec fn game_wf(v: GameView) -> bool {
    &&& v.grid.len() == GRID_WIDTH * GRID_HEIGHT
    &&& v.status.len() == GRID_WIDTH
    &&& cursor_on_grid(v.cursor)
}

/// `buf` with the characters of `text` written from index `base + x` on,
/// within the row of `GRID_WIDTH` tiles that starts at `base`; what would
/// pass the end of the row is dropped.
pub open spec fn write_span(buf: Seq<Tile>, base: int, x: int, text: Seq<char>, fg: Color, bg: Color) -> Seq<Tile> {
    Seq::new(buf.len(), |i: int| span_tile(buf, base, x, text, fg, bg, i))
}

pub open spec fn span_tile(buf: Seq<Tile>, base: int, x: int, text: Seq<char>, fg: Color, bg: Color, i: int) -> Tile {
    let start = base + x;
    let end = if x + text.len() < GRID_WIDTH { start + text.len() } else { base + GRID_WIDTH };
    if start <= i < end {
        Tile { ch: text[i - start], fg, bg }
    } else {
        buf[i]
    }
}

/// The grid after `text` is displayed from column `x` of row `y`. Nothing
/// wraps: characters past the last column, and text that starts off the
/// grid, are not shown.
pub open spec fn write_text(grid: Seq<Tile>, text: Seq<char>, x: int, y: int, fg: Color, bg: Color) -> Seq<Tile> {
    if 0 <= x < GRID_WIDTH && 0 <= y < GRID_HEIGHT {
        write_span(grid, y * GRID_WIDTH, x, text, fg, bg)
    } else {
        grid
    }
}

/// One command applied to the state. Moves saturate at the edges of the
/// grid; `Write` stamps the cursor's tile where it stands.
pub open spec fn step(v: GameView, c: Command) -> GameView {
    let cur = v.cursor;
    match c {
        Command::Write => GameView {
            grid: v.grid.update(cur.y * GRID_WIDTH + cur.x, cursor_tile(cur)),
            ..v
        },
        Command::Up => GameView {
            cursor: Cursor { y: if cur.y > 0 { (cur.y - 1) as u8 } else { 0 }, ..cur },
            ..v
        },
        Command::Down => GameView {
            cursor: Cursor { y: if cur.y + 1 < GRID_HEIGHT { (cur.y + 1) as u8 } else { cur.y }, ..cur },
            ..v
        },
        Command::Left => GameView {
            cursor: Cursor { x: if cur.x > 0 { (cur.x - 1) as u8 } else { 0 }, ..cur },
            ..v
        },
        Command::Right => GameView {
            cursor: Cursor { x: if cur.x + 1 < GRID_WIDTH { (cur.x + 1) as u8 } else { cur.x }, ..cur },
            ..v
        },
    }
}

/// The commands applied one after the other, in order.
pub open spec fn run(v: GameView, cmds: Seq<Command>) -> GameView
    decreases cmds.len(),
{
    if cmds.len() == 0 {
        v
    } else {
        step(run(v, cmds.drop_last()), cmds.last())
    }
}

/// One word of a command line: a command waits for the next frame, any
/// other word is shown on the status line, blue on white.
pub open spec fn apply_word_spec(v: GameView, w: Seq<char>) -> GameView {
    match command_of(w) {
        Some(c) => GameView { pending: v.pending.push(c), ..v },
        None => GameView { status: write_span(v.status, 0, 0, w, blue(), white()), ..v },
    }
}

pub open spec fn apply_words(v: GameView, ws: Seq<Seq<char>>) -> GameView
    decreases ws.len(),
{
    if ws.len() == 0 {
        v
    } else {
        apply_word_spec(apply_words(v, ws.drop_last()), ws.last())
    }
}

/// The lines of a text shown from the top left corner, one per row, as far
/// as the grid reaches.
pub open spec fn show_lines(grid: Seq<Tile>, lines: Seq<Seq<char>>) -> Seq<Tile>
    decreases lines.len(),
{
    if lines.len() == 0 {
        grid
    } else {
        write_text(show_lines(grid, lines.drop_last()), lines.last(), 0, lines.len() - 1, white(), black())
    }
}

/// A blank grid and status line, the cursor an `a` white on black in the
/// top left corner, nothing queued.
pub open spec fn initial_game(viewport: (u32, u32)) -> GameView {
    GameView {
        grid: Seq::new((GRID_WIDTH * GRID_HEIGHT) as nat, |i: int| blank()),
        status: Seq::new(GRID_WIDTH as nat, |i: int| blank()),
        cursor: Cursor { character: 'a', foreground: white(), background: black(), x: 0, y: 0 },
        pending: Seq::empty(),
        viewport,
    }
}

/// Writes `text` into `buf` as `write_span` says.
fn fill_span(buf: &mut Vec<Tile>, base: usize, x: usize, text: &Vec<char>, fg: Color, bg: Color)
    requires
        x < GRID_WIDTH,
        base + GRID_WIDTH <= old(buf)@.len(),
    ensures
        final(buf)@ == write_span(old(buf)@, base as int, x as int, text@, fg, bg),
{
    let room = GRID_WIDTH - x;
    let n = if text.len() < room { text.len() } else { room };
    let len = buf.len();
    let mut k: usize = 0;
    while k < n
        invariant
            len == old(buf)@.len(),
            n <= text@.len(),
            x + n <= GRID_WIDTH,
            base + GRID_WIDTH <= old(buf)@.len(),
            n == (if x + text@.len() < GRID_WIDTH { text@.len() as int } else { GRID_WIDTH - x }),
            k <= n,
            buf@.len() == old(buf)@.len(),
            forall|i: int|
                0 <= i < buf@.len() ==> #[trigger] buf@[i] == (if base + x <= i < base + x + k {
                    Tile { ch: text@[i - base - x], fg, bg }
                } else {
                    old(buf)@[i]
                }),
        decreases n - k,
    {
        buf[base + x + k] = Tile { ch: text[k], fg, bg };
        k = k + 1;
    }
    proof {
        let w = write_span(old(buf)@, base as int, x as int, text@, fg, bg);
        assert forall|i: int| 0 <= i < buf@.len() implies buf@[i] == w[i] by {
            assert(buf@[i] == (if base + x <= i < base + x + k {
                Tile { ch: text@[i - base - x], fg, bg }
            } else {
                old(buf)@[i]
            }));
        }
        assert(buf@ =~= w);
    }
}

/// The characters of a string, in order.
pub fn chars_of(s: &str) -> (r: Vec<char>)
    ensures
        r@ == s@,
{
    let n = s.unicode_len();
    let mut r: Vec<char> = Vec::new();
    let mut i: usize = 0;
    while i < n
        invariant
            n == s@.len(),
            i <= n,
            r@ == s@.subrange(0, i as int),
        decreases n - i,
    {
        r.push(s.get_char(i));
        i = i + 1;
        proof {
            assert(r@ =~= s@.subrange(0, i as int));
        }
    }
    proof {
        assert(r@ =~= s@);
    }
    r
}

/// The character grid with its cursor, status line and queue of commands.
pub struct Game {
    config: Config,
    grid: Vec<Tile>,
    status: Vec<Tile>,
    cursor: Cursor,
    commands: Vec<Command>,
    viewport: (u32, u32),
}

impl View for Game {
    type V = GameView;

    closed spec fn view(&self) -> GameView {
        GameView {
            grid: self.grid@,
            status: self.status@,
            cursor: self.cursor,
            pending: self.commands@,
            viewport: self.viewport,
        }
    }
}

fn blank_row(n: usize) -> (r: Vec<Tile>)
    ensures
        r@ == Seq::new(n as nat, |i: int| blank()),
{
    let mut r: Vec<Tile> = Vec::new();
    let mut i: usize = 0;
    while i < n
        invariant
            i <= n,
            r@ == Seq::new(i as nat, |j: int| blank()),
        decreases n - i,
    {
        r.push(Tile::new(' '));
        i = i + 1;
        proof {
            assert(r@ =~= Seq::new(i as nat, |j: int| blank()));
        }
    }
    r
}

impl Game {
    pub closed spec fn spec_config(&self) -> Config {
        self.config
    }

    /// A blank grid with the cursor, an `a` white on black, in the top left
    /// corner; the viewport has the window's size.
    pub fn new(config: Config) -> (g: Game)
        ensures
            game_wf(g@),
            g@ == initial_game((config.window_width, config.window_height)),
            g.spec_config() == config,
    {
        let viewport = (config.window_width, config.window_height);
        let g = Game {
            config,
            grid: blank_row(GRID_WIDTH * GRID_HEIGHT),
            status: blank_row(GRID_WIDTH),
            cursor: Cursor::new('a', Color::white(), Color::black(), 0, 0),
            commands: Vec::new(),
            viewport,
        };
        proof {
            assert(g@ =~= initial_game(viewport));
        }
        g
    }

    pub fn config(&self) -> (r: &Config)
        ensures
            *r == self.spec_config(),
    {
        &self.config
    }

    pub fn cursor(&self) -> (c: Cursor)
        ensures
            c == self@.cursor,
    {
        self.cursor
    }

    pub fn viewport(&self) -> (r: (u32, u32))
        ensures
            r == self@.viewport,
    {
        self.viewport
    }

    /// The tile in column `x` of row `y`.
    pub fn tile_at(&self, x: usize, y: usize) -> (t: Tile)
        requires
            game_wf(self@),
            x < GRID_WIDTH,
            y < GRID_HEIGHT,
        ensures
            t == self@.grid[y * GRID_WIDTH + x],
    {
        self.grid[y * GRID_WIDTH + x]
    }

    /// The tile in column `x` of the status line.
    pub fn status_tile(&self, x: usize) -> (t: Tile)
        requires
            game_wf(self@),
            x < GRID_WIDTH,
        ensures
            t == self@.status[x as int],
    {
        self.status[x]
    }

    /// The commands that the next frame will apply, in order.
    pub fn pending(&self) -> (r: &Vec<Command>)
        ensures
            r@ == self@.pending,
    {
        &self.commands
    }
}

impl Game {
    /// Shows `text` from column `x` of row `y`, without wrapping.
    pub fn display_string(&mut self, text: &str, x: u32, y: u32, color: &Color, bg_color: &Color)
        requires
            game_wf(old(self)@),
        ensures
            final(self)@ == (GameView {
                grid: write_text(old(self)@.grid, text@, x as int, y as int, *color, *bg_color),
                ..old(self)@
            }),
            final(self).spec_config() == old(self).spec_config(),
    {
        let chars = chars_of(text);
        if (x as usize) < GRID_WIDTH && (y as usize) < GRID_HEIGHT {
            fill_span(&mut self.grid, (y as usize) * GRID_WIDTH, x as usize, &chars, *color, *bg_color);
        }
        proof {
            if !((x as int) < GRID_WIDTH && (y as int) < GRID_HEIGHT) {
                assert(self.grid@ == old(self).grid@);
            }
        }
    }

    /// Stamps the cursor's tile where the cursor stands.
    fn display_cursor(&mut self)
        requires
            game_wf(old(self)@),
        ensures
            final(self)@ == step(old(self)@, Command::Write),
            final(self).spec_config() == old(self).spec_config(),
    {
        let c = self.cursor;
        let i = (c.y as usize) * GRID_WIDTH + (c.x as usize);
        self.grid[i] = Tile { ch: c.character, fg: c.foreground, bg: c.background };
    }

    /// Blanks the grid and the status line.
    pub fn clear_buffer(&mut self)
        ensures
            final(self)@ == (GameView {
                grid: Seq::new((GRID_WIDTH * GRID_HEIGHT) as nat, |i: int| blank()),
                status: Seq::new(GRID_WIDTH as nat, |i: int| blank()),
                ..old(self)@
            }),
            final(self).spec_config() == old(self).spec_config(),
    {
        self.grid = blank_row(GRID_WIDTH * GRID_HEIGHT);
        self.status = blank_row(GRID_WIDTH);
    }

    /// Records the size of the viewport for the coming frame.
    pub fn input(&mut self, viewport_width: u32, viewport_height: u32)
        ensures
            final(self)@ == (GameView { viewport: (viewport_width, viewport_height), ..old(self)@ }),
            final(self).spec_config() == old(self).spec_config(),
    {
        self.viewport = (viewport_width, viewport_height);
    }

    /// Shows the lines of a text, white on black, one per row from the top.
    pub fn setup(&mut self, lines: &Vec<String>)
        requires
            game_wf(old(self)@),
        ensures
            final(self)@ == (GameView {
                grid: show_lines(old(self)@.grid, lines@.take(
                    if lines@.len() < GRID_HEIGHT { lines@.len() as int } else { GRID_HEIGHT as int },
                ).map_values(|l: String| l@)),
                ..old(self)@
            }),
            final(self).spec_config() == old(self).spec_config(),
            game_wf(final(self)@),
    {
        let n = if lines.len() < GRID_HEIGHT { lines.len() } else { GRID_HEIGHT };
        let mut y: usize = 0;
        while y < n
            invariant
                n <= lines@.len(),
                n <= GRID_HEIGHT,
                y <= n,
                game_wf(self@),
                self@ == (GameView {
                    grid: show_lines(old(self)@.grid, lines@.take(y as int).map_values(|l: String| l@)),
                    ..old(self)@
                }),
                self.spec_config() == old(self).spec_config(),
            decreases n - y,
        {
            let white = Color::white();
            let black = Color::black();
            self.display_string(lines[y].as_str(), 0, y as u32, &white, &black);
            proof {
                let ls = lines@.take(y as int + 1).map_values(|l: String| l@);
                assert(ls.drop_last() =~= lines@.take(y as int).map_values(|l: String| l@));
                assert(ls.last() == lines@[y as int]@);
            }
            y = y + 1;
        }
    }

    /// Applies one token of a command line.
    fn apply_token(&mut self, t: &Token, Ghost(w): Ghost<Seq<char>>)
        requires
            game_wf(old(self)@),
            token_of(*t, w),
        ensures
            final(self)@ == apply_word_spec(old(self)@, w),
            final(self).spec_config() == old(self).spec_config(),
    {
        match t {
            Token::Command(c) => {
                self.commands.push(*c);
            },
            Token::Literal(text) => {
                fill_span(&mut self.status, 0, 0, text, Color::blue(), Color::white());
            },
        }
    }

    /// Applies one word: a command is queued for the next frame, any other
    /// word is shown on the status line.
    pub fn apply_word(&mut self, word: &str)
        requires
            game_wf(old(self)@),
        ensures
            final(self)@ == apply_word_spec(old(self)@, word@),
            final(self).spec_config() == old(self).spec_config(),
    {
        let chars = chars_of(word);
        let t = parse_word(&chars);
        self.apply_token(&t, Ghost(word@));
    }

    /// Applies every word of a command line, in order.
    pub fn apply_command(&mut self, command: &str)
        requires
            game_wf(old(self)@),
        ensures
            final(self)@ == apply_words(old(self)@, words(command@)),
            final(self).spec_config() == old(self).spec_config(),
    {
        let tokens = tokenize(command);
        let ghost ws = words(command@);
        let mut i: usize = 0;
        while i < tokens.len()
            invariant
                tokens@.len() == ws.len(),
                forall|j: int| 0 <= j < tokens@.len() ==> token_of(#[trigger] tokens@[j], ws[j]),
                i <= tokens@.len(),
                game_wf(self@),
                self@ == apply_words(old(self)@, ws.take(i as int)),
                self.spec_config() == old(self).spec_config(),
            decreases tokens@.len() - i,
        {
            self.apply_token(&tokens[i], Ghost(ws[i as int]));
            proof {
                assert(ws.take(i as int + 1).drop_last() =~= ws.take(i as int));
            }
            i = i + 1;
        }
        proof {
            assert(ws.take(i as int) =~= ws);
        }
    }
}

proof fn lemma_step_wf(v: GameView, c: Command)
    requires
        game_wf(v),
    ensures
        game_wf(step(v, c)),
{
}

proof fn lemma_run_wf(v: GameView, cmds: Seq<Command>)
    requires
        game_wf(v),
    ensures
        game_wf(run(v, cmds)),
    decreases cmds.len(),
{
    if cmds.len() > 0 {
        lemma_run_wf(v, cmds.drop_last());
        lemma_step_wf(run(v, cmds.drop_last()), cmds.last());
    }
}

/// Whatever commands are applied, the cursor stays on the grid after each
/// of them: moves saturate at the edges, never wrap and never leave it.
pub proof fn lemma_cursor_stays_on_grid(v: GameView, cmds: Seq<Command>)
    requires
        game_wf(v),
    ensures
        forall|i: int| 0 <= i <= cmds.len() ==> #[trigger] cursor_on_grid(run(v, cmds.take(i)).cursor),
{
    assert forall|i: int| 0 <= i <= cmds.len() implies #[trigger] cursor_on_grid(run(v, cmds.take(i)).cursor) by {
        lemma_run_wf(v, cmds.take(i));
    }
}

/// Writing again where the cursor stands changes nothing: any number of
/// `Write`s in a row, one or more, leave the state as a single one does.
pub proof fn lemma_write_idempotent(v: GameView, n: nat)
    requires
        game_wf(v),
        n >= 1,
    ensures
        run(v, Seq::new(n, |i: int| Command::Write)) == step(v, Command::Write),
    decreases n,
{
    let writes = Seq::new(n, |i: int| Command::Write);
    assert(writes.drop_last() =~= Seq::new((n - 1) as nat, |i: int| Command::Write));
    if n == 1 {
        assert(run(v, writes.drop_last()) == v);
    } else {
        lemma_write_idempotent(v, (n - 1) as nat);
        let once = step(v, Command::Write);
        let c = v.cursor;
        let k = c.y * GRID_WIDTH + c.x;
        assert(once.grid.update(k, cursor_tile(c)) =~= once.grid);
    }
}

pub proof fn lemma_apply_words_wf(v: GameView, ws: Seq<Seq<char>>)
    requires
        game_wf(v),
    ensures
        game_wf(apply_words(v, ws)),
    decreases ws.len(),
{
    if ws.len() > 0 {
        lemma_apply_words_wf(v, ws.drop_last());
    }
}

impl Game {
    /// Applies one command.
    fn execute(&mut self, c: Command)
        requires
            game_wf(old(self)@),
        ensures
            final(self)@ == step(old(self)@, c),
            final(self).spec_config() == old(self).spec_config(),
    {
        match c {
            Command::Write => self.display_cursor(),
            Command::Up => {
                self.cursor.y = if self.cursor.y > 0 { self.cursor.y - 1 } else { 0 };
            },
            Command::Down => {
                self.cursor.y = if (self.cursor.y as usize) + 1 < GRID_HEIGHT { self.cursor.y + 1 } else { self.cursor.y };
            },
            Command::Left => {
                self.cursor.x = if self.cursor.x > 0 { self.cursor.x - 1 } else { 0 };
            },
            Command::Right => {
                self.cursor.x = if (self.cursor.x as usize) + 1 < GRID_WIDTH { self.cursor.x + 1 } else { self.cursor.x };
            },
        }
    }

    /// Runs one frame: every queued command is applied in the order it came,
    /// and the queue is left empty.
    pub fn update(&mut self, current_frame: u64)
        requires
            game_wf(old(self)@),
        ensures
            final(self)@ == run(GameView { pending: Seq::empty(), ..old(self)@ }, old(self)@.pending),
            game_wf(final(self)@),
            final(self).spec_config() == old(self).spec_config(),
    {
        let mut cmds: Vec<Command> = Vec::new();
        core::mem::swap(&mut self.commands, &mut cmds);
        let ghost start = self@;
        proof {
            assert(start == (GameView { pending: Seq::empty(), ..old(self)@ }));
        }
        let mut i: usize = 0;
        while i < cmds.len()
            invariant
                i <= cmds@.len(),
                cmds@ == old(self)@.pending,
                game_wf(start),
                game_wf(self@),
                self@ == run(start, cmds@.take(i as int)),
                self.spec_config() == old(self).spec_config(),
            decreases cmds@.len() - i,
        {
            proof {
                lemma_step_wf(self@, cmds@[i as int]);
                assert(cmds@.take(i as int + 1).drop_last() =~= cmds@.take(i as int));
            }
            self.execute(cmds[i]);
            i = i + 1;
        }
        proof {
            assert(cmds@.take(i as int) =~= cmds@);
        }
    }
}

} // verus!
