use floating::command::{steer, tokenize, Command, Token};
use floating::config::Config;
use floating::game::{Cursor, Game, GRID_HEIGHT, GRID_WIDTH};
use floating::tile::{Color, Tile};

fn fresh() -> Game {
    Game::new(Config::default())
}

fn grid_of(g: &Game) -> Vec<Tile> {
    let mut v = Vec::new();
    for y in 0..GRID_HEIGHT {
        for x in 0..GRID_WIDTH {
            v.push(g.tile_at(x, y));
        }
    }
    v
}

#[test]
fn new_game_is_blank_with_cursor_at_origin() {
    let g = fresh();
    let c = g.cursor();
    assert_eq!((c.x, c.y), (0, 0));
    assert_eq!(c.character, 'a');
    assert_eq!(g.tile_at(5, 5), Tile::new(' '));
    assert_eq!(g.status_tile(0), Tile::new(' '));
    assert_eq!(g.viewport(), (640, 640));
    assert!(g.pending().is_empty());
}

#[test]
fn up_then_write_moves_and_stamps() {
    let mut g = fresh();
    g.apply_command("d-d");
    g.update(0);
    assert_eq!(g.cursor().y, 2);
    g.apply_command("u-w");
    assert_eq!(g.pending(), &vec![Command::Up, Command::Write]);
    g.update(1);
    let c = g.cursor();
    assert_eq!((c.x, c.y), (0, 1));
    assert_eq!(g.tile_at(0, 1), Tile { ch: 'a', fg: Color::white(), bg: Color::black() });
    assert_eq!(g.tile_at(0, 2), Tile::new(' '));
    assert!(g.pending().is_empty());
}

#[test]
fn unknown_word_goes_to_status_line() {
    let mut g = fresh();
    let before = g.cursor();
    let grid_before = grid_of(&g);
    g.apply_command("hello");
    g.update(0);
    assert_eq!(g.cursor(), before);
    assert_eq!(grid_of(&g), grid_before);
    for (i, ch) in "hello".chars().enumerate() {
        assert_eq!(g.status_tile(i), Tile { ch, fg: Color::blue(), bg: Color::white() });
    }
    assert_eq!(g.status_tile(5), Tile::new(' '));
}

#[test]
fn moves_saturate_at_the_edges() {
    let mut g = fresh();
    g.apply_command("l l u u");
    g.update(0);
    assert_eq!((g.cursor().x, g.cursor().y), (0, 0));
    let rights = vec!["r"; 200].join(" ");
    let downs = vec!["d"; 200].join("-");
    g.apply_command(&rights);
    g.apply_command(&downs);
    g.update(1);
    assert_eq!(g.cursor().x as usize, GRID_WIDTH - 1);
    assert_eq!(g.cursor().y as usize, GRID_HEIGHT - 1);
    g.apply_command("w");
    g.update(2);
    assert_eq!(g.tile_at(GRID_WIDTH - 1, GRID_HEIGHT - 1).ch, 'a');
}

#[test]
fn repeated_writes_equal_one_write() {
    let mut once = fresh();
    let mut thrice = fresh();
    once.apply_command("r d w");
    thrice.apply_command("r d w w-w");
    once.update(0);
    thrice.update(0);
    assert_eq!(grid_of(&once), grid_of(&thrice));
    assert_eq!(once.cursor(), thrice.cursor());
}

#[test]
fn tokenize_splits_on_dash_and_space() {
    let t = tokenize("u-w x");
    assert_eq!(t.len(), 3);
    assert!(matches!(t[0], Token::Command(Command::Up)));
    assert!(matches!(t[1], Token::Command(Command::Write)));
    match &t[2] {
        Token::Literal(text) => assert_eq!(text, &vec!['x']),
        _ => panic!("expected a literal"),
    }
}

#[test]
fn tokenize_keeps_empty_words() {
    let t = tokenize("");
    assert_eq!(t.len(), 1);
    assert!(matches!(&t[0], Token::Literal(v) if v.is_empty()));
    let t = tokenize("l--r");
    assert_eq!(t.len(), 3);
    assert!(matches!(t[0], Token::Command(Command::Left)));
    assert!(matches!(&t[1], Token::Literal(v) if v.is_empty()));
    assert!(matches!(t[2], Token::Command(Command::Right)));
    let t = tokenize("ww");
    assert!(matches!(&t[0], Token::Literal(v) if v == &vec!['w', 'w']));
}

#[test]
fn display_string_does_not_wrap() {
    let mut g = fresh();
    g.display_string("abc", 78, 3, &Color::blue(), &Color::black());
    assert_eq!(g.tile_at(78, 3), Tile { ch: 'a', fg: Color::blue(), bg: Color::black() });
    assert_eq!(g.tile_at(79, 3).ch, 'b');
    assert_eq!(g.tile_at(0, 4), Tile::new(' '));
    let before = grid_of(&g);
    g.display_string("zz", 80, 0, &Color::blue(), &Color::black());
    g.display_string("zz", 0, 40, &Color::blue(), &Color::black());
    assert_eq!(grid_of(&g), before);
}

#[test]
fn setup_shows_lines_from_the_top() {
    let mut g = fresh();
    let lines: Vec<String> = (0..50).map(|i| format!("line {i}")).collect();
    g.setup(&lines);
    assert_eq!(g.tile_at(0, 0).ch, 'l');
    assert_eq!(g.tile_at(5, 12).ch, '1');
    assert_eq!(g.tile_at(6, 12).ch, '2');
    assert_eq!(g.tile_at(5, 39).ch, '3');
}

#[test]
fn apply_word_single() {
    let mut g = fresh();
    g.apply_word("d");
    g.apply_word("zz");
    assert_eq!(g.pending(), &vec![Command::Down]);
    assert_eq!(g.status_tile(1).ch, 'z');
}

#[test]
fn clear_buffer_blanks_everything() {
    let mut g = fresh();
    g.apply_command("w hi");
    g.update(0);
    g.clear_buffer();
    assert_eq!(g.tile_at(0, 0), Tile::new(' '));
    assert_eq!(g.status_tile(0), Tile::new(' '));
}

#[test]
fn tiles_and_cursor_builders() {
    let t = Tile::new('q').with_fg(Color::blue()).with_bg(Color::white());
    assert_eq!(t, Tile { ch: 'q', fg: Color::blue(), bg: Color::white() });
    assert_eq!(Tile::default(), Tile::new(' '));
    let c = Cursor::new('x', Color::white(), Color::black(), 3, 4);
    assert_eq!((c.x, c.y, c.character), (3, 4, 'x'));
    assert_eq!(Color::blue(), Color { r: 0, g: 0, b: 255, a: 255 });
}

#[test]
fn steer_picks_first_held_direction() {
    assert_eq!(steer(&vec![9, 2], 1, 2, 3, 4), Command::Left);
    assert_eq!(steer(&vec![4, 3, 1], 1, 2, 3, 4), Command::Right);
    assert_eq!(steer(&vec![4], 1, 2, 3, 4), Command::Down);
    assert_eq!(steer(&vec![], 1, 2, 3, 4), Command::Write);
    assert_eq!(Command::Up.letter(), 'u');
}
