use floating::config::{parse_decimal, Config, ConfigError, RawConfig};
use floating::screenshot::{Format, Screenshot};
use floating::server::{ascii_uppercase, reversed, route, HttpMethod, Route};
use floating::spritesheet::sprite_size;

fn raw(sleep: &str, ww: &str, wh: &str, gw: &str, gh: &str) -> RawConfig {
    RawConfig {
        title: "T".to_string(),
        sleep_ms_per_frame: sleep.to_string(),
        window_width: ww.to_string(),
        window_height: wh.to_string(),
        grid_width: gw.to_string(),
        grid_height: gh.to_string(),
    }
}

#[test]
fn default_config_values() {
    let c = Config::default();
    assert_eq!(c.title, "FLOATING");
    assert_eq!(c.sleep_ms_per_frame, 5);
    assert_eq!((c.window_width, c.window_height), (640, 640));
    assert_eq!((c.grid_width, c.grid_height), (8, 16));
    assert!(c.path.is_none());
}

#[test]
fn reload_parses_every_value() {
    let c = Config::default().reload(&raw("7", "+800", "600", "9", "18")).unwrap();
    assert_eq!(c.title, "T");
    assert_eq!(c.sleep_ms_per_frame, 7);
    assert_eq!((c.window_width, c.window_height, c.grid_width, c.grid_height), (800, 600, 9, 18));
}

#[test]
fn reload_names_first_bad_value() {
    let d = || Config::default();
    assert_eq!(d().reload(&raw("x", "1", "1", "1", "1")).unwrap_err(), ConfigError::SleepMsPerFrame);
    assert_eq!(d().reload(&raw("1", "", "x", "1", "1")).unwrap_err(), ConfigError::WindowWidth);
    assert_eq!(d().reload(&raw("1", "1", "-1", "1", "1")).unwrap_err(), ConfigError::WindowHeight);
    assert_eq!(d().reload(&raw("1", "1", "1", "4294967296", "1")).unwrap_err(), ConfigError::GridWidth);
    assert_eq!(d().reload(&raw("1", "1", "1", "1", "1.5")).unwrap_err(), ConfigError::GridHeight);
}

#[test]
fn new_config_falls_back_to_defaults() {
    let c = Config::new("config.txt".to_string(), &raw("1", "2", "bad", "4", "5"));
    assert_eq!(c.path.as_deref(), Some("config.txt"));
    assert_eq!(c.title, "FLOATING");
    assert_eq!(c.window_height, 640);
    let c = Config::new("c".to_string(), &raw("1", "2", "3", "4", "5"));
    assert_eq!((c.sleep_ms_per_frame, c.window_width, c.grid_height), (1, 2, 5));
}

#[test]
fn decimal_parsing() {
    assert_eq!(parse_decimal("0", 10), Some(0));
    assert_eq!(parse_decimal("+42", 100), Some(42));
    assert_eq!(parse_decimal("18446744073709551615", u64::MAX), Some(u64::MAX));
    assert_eq!(parse_decimal("18446744073709551616", u64::MAX), None);
    assert_eq!(parse_decimal("101", 100), None);
    assert_eq!(parse_decimal("+", 100), None);
    assert_eq!(parse_decimal("", 100), None);
    assert_eq!(parse_decimal("1 ", 100), None);
}

#[test]
fn screenshot_names_count_up() {
    let mut s = Screenshot::new("shots".to_string());
    assert_eq!(s.folder, "shots");
    assert!(s.needs_cleaning());
    assert_eq!(s.file_name(Format::Jpeg), "0.jpeg");
    for _ in 0..12 {
        s.record_capture();
    }
    assert_eq!(s.counter(), 12);
    assert!(!s.needs_cleaning());
    assert_eq!(s.file_name(Format::Png), "12.png");
    assert_eq!(Format::Jpeg.extension(), "jpeg");
}

#[test]
fn echo_routes() {
    assert_eq!(route(HttpMethod::Get, "/"), Route::Usage);
    assert_eq!(route(HttpMethod::Post, "/echo"), Route::Echo);
    assert_eq!(route(HttpMethod::Post, "/echo/uppercase"), Route::EchoUppercase);
    assert_eq!(route(HttpMethod::Post, "/echo/reverse"), Route::EchoReverse);
    assert_eq!(route(HttpMethod::Get, "/echo"), Route::NotFound);
    assert_eq!(route(HttpMethod::Other, "/"), Route::NotFound);
    assert_eq!(route(HttpMethod::Post, "/nope"), Route::NotFound);
}

#[test]
fn echo_transforms() {
    assert_eq!(ascii_uppercase(b"hello, World 1z{"), b"HELLO, WORLD 1Z{".to_vec());
    assert_eq!(reversed(b"abc"), b"cba".to_vec());
    assert_eq!(reversed(b""), Vec::<u8>::new());
}

#[test]
fn sprite_cells() {
    assert_eq!(sprite_size(8, 4096, 1, 256), Some((8, 16)));
    assert_eq!(sprite_size(8, 4096, 3, 256), None);
    assert_eq!(sprite_size(8, 4096, 0, 256), None);
}
