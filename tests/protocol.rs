use floating::app::{frame, strip_padding, AppRequest, AppState, Response};
use floating::config::Config;
use floating::keyboard::Keyboard;

fn state() -> AppState {
    AppState::new(640, 480, Config::default())
}

#[test]
fn ping_twice_both_pong() {
    let mut s = state();
    let r1 = s.handle_request(AppRequest::Ping);
    let r2 = s.handle_request(AppRequest::Ping);
    assert!(matches!(r1, Response::Pong));
    assert!(matches!(r2, Response::Pong));
    assert_eq!(r1.payload(), Some(b"Pong".to_vec()));
    assert_eq!(frame(&r2.payload().unwrap()), b"Pong\0".to_vec());
    assert!(!s.is_shutting_down());
}

#[test]
fn shutdown_sets_flag_and_answers_ok() {
    let mut s = state();
    let r = s.handle_request(AppRequest::Shutdown);
    assert_eq!(r.payload(), Some(b"OK".to_vec()));
    assert!(s.is_shutting_down());
    assert!(s.should_terminate(999));
}

#[test]
fn get_keyboard_reports_held_key() {
    let mut s = state();
    s.on_key_down(Some(21));
    let r = s.handle_request(AppRequest::GetKeyboard);
    match &r {
        Response::Keyboard(k) => {
            assert_eq!(k.pressed(), &vec![21]);
            assert_eq!(k.just_pressed(), &vec![21]);
            assert!(k.just_released().is_empty());
        }
        _ => panic!("expected a keyboard state"),
    }
    assert_eq!(r.payload(), None);
    s.end_frame();
    match s.handle_request(AppRequest::GetKeyboard) {
        Response::Keyboard(k) => {
            assert_eq!(k.pressed(), &vec![21]);
            assert!(k.just_pressed().is_empty());
            assert!(k.just_released().is_empty());
        }
        _ => panic!("expected a keyboard state"),
    }
}

#[test]
fn command_request_is_queued_and_echoed() {
    let mut s = state();
    let r = s.handle_request(AppRequest::Command("d w".to_string()));
    assert_eq!(r.payload(), Some(b"d w".to_vec()));
    s.update();
    assert_eq!(s.game().cursor().y, 1);
    assert_eq!(s.game().tile_at(0, 1).ch, 'a');
}

#[test]
fn error_reply_bytes() {
    assert_eq!(Response::Error.payload(), Some(b"ERROR".to_vec()));
    assert_eq!(frame(&vec![]), vec![0u8]);
}

#[test]
fn padding_is_stripped() {
    let mut buf = [0u8; 16];
    buf[..6].copy_from_slice(b"\"Ping\"");
    assert_eq!(strip_padding(&buf), b"\"Ping\"".to_vec());
    assert_eq!(strip_padding(&[0u8; 4]), Vec::<u8>::new());
    assert_eq!(strip_padding(b"a\0b\0\0"), b"a\0b".to_vec());
}

#[test]
fn frame_loop_decisions() {
    let mut s = state();
    assert!(s.is_first_frame());
    assert!(!s.should_terminate(1));
    s.on_key_down(Some(1));
    assert!(s.should_terminate(1));
    assert!(s.wants_capture(1));
    s.end_frame();
    assert_eq!(s.current_frame(), 1);
    assert!(!s.is_first_frame());
    assert!(!s.wants_capture(1));
    s.on_key_up(Some(1));
    assert!(!s.should_terminate(1));
    assert_eq!(s.keyboard().just_released(), &vec![1]);
}

#[test]
fn console_line_is_applied_on_input() {
    let mut s = state();
    s.on_resize(100, 200);
    s.input(Some("r-r w".to_string()));
    s.update();
    assert_eq!(s.game().viewport(), (100, 200));
    assert_eq!(s.game().tile_at(2, 0).ch, 'a');
    s.input(None);
    assert!(s.game().pending().is_empty());
}

#[test]
fn typed_characters_only_while_inputting_text() {
    let mut s = state();
    s.on_keyboard_char('x');
    assert!(s.keyboard().buffer().is_empty());
    s.on_keyboard_modifiers_changed(5);
    assert_eq!(s.keyboard().modifiers(), 5);
    s.on_fullscreen_status_changed(true);
    assert!(s.is_fullscreen());
    assert_eq!(s.sleep_ms_per_frame(), 5);
    assert_eq!(s.viewport(), (640, 480));
    s.setup(&vec!["hi".to_string()]);
    assert_eq!(s.game().tile_at(1, 0).ch, 'i');
}

#[test]
fn keyboard_press_release_clear() {
    let mut k = Keyboard::new();
    k.press(3);
    k.press(3);
    assert_eq!(k.pressed(), &vec![3]);
    k.release(3);
    assert!(k.pressed().is_empty());
    assert!(k.just_pressed().is_empty());
    assert_eq!(k.just_released(), &vec![3]);
    k.press(3);
    assert_eq!(k.just_pressed(), &vec![3]);
    assert!(k.just_released().is_empty());
    k.release(9);
    assert_eq!(k.pressed(), &vec![3]);
    k.clear();
    assert!(k.just_pressed().is_empty());
    assert!(k.is_pressed(3));
    assert!(!k.was_just_pressed(3));
    assert!(!k.was_just_released(3));
}

#[test]
fn keyboard_parts_round_trip() {
    let mut k = Keyboard::new();
    k.press(4);
    k.press(7);
    k.release(4);
    k.push_char('q');
    k.set_modifiers(2);
    let back = Keyboard::from_parts(
        k.buffer().clone(),
        k.modifiers(),
        k.pressed().clone(),
        k.just_pressed().clone(),
        k.just_released().clone(),
    )
    .unwrap();
    assert_eq!(back.pressed(), k.pressed());
    assert_eq!(back.just_pressed(), k.just_pressed());
    assert_eq!(back.just_released(), k.just_released());
    assert_eq!(back.buffer(), &vec!['q']);
    assert_eq!(back.modifiers(), 2);
    let copy = k.snapshot();
    assert_eq!(copy.pressed(), &vec![7]);
}

#[test]
fn keyboard_parts_must_be_consistent() {
    assert!(Keyboard::from_parts(vec![], 0, vec![1, 1], vec![], vec![]).is_none());
    assert!(Keyboard::from_parts(vec![], 0, vec![1], vec![2], vec![]).is_none());
    assert!(Keyboard::from_parts(vec![], 0, vec![1], vec![], vec![1]).is_none());
    assert!(Keyboard::from_parts(vec![], 0, vec![1], vec![1], vec![2]).is_some());
}
