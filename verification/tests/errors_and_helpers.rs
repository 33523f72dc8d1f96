//! The error surface, key-press helper and log-directory resolution.

use oxide::keyboard_pressed;
use oxide::resolve_log_directory;
use oxide::Event;
use oxide::NeutonError;

#[test]
fn error_messages_name_the_failed_stage() {
    assert_eq!(NeutonError::Sdl2Error("boom".to_string()).message(), "SDL2 error: boom");
    assert_eq!(
        NeutonError::WindowError("boom".to_string()).message(),
        "Window creation failed: boom"
    );
    assert_eq!(
        NeutonError::CanvasError("boom".to_string()).message(),
        "Canvas creation failed: boom"
    );
    assert_eq!(
        NeutonError::LoggerError("boom".to_string()).message(),
        "Failed to initialize logger: boom"
    );
    assert_eq!(NeutonError::Other("boom".to_string()).message(), "Other error: boom");
}

#[test]
fn a_bare_string_converts_to_the_catch_all_variant() {
    let e: NeutonError = NeutonError::from("went wrong".to_string());
    assert_eq!(e, NeutonError::Other("went wrong".to_string()));
}

#[test]
fn an_io_error_converts_to_the_catch_all_variant() {
    let io = std::io::Error::new(std::io::ErrorKind::NotFound, "gone");
    let e = NeutonError::from(io);
    assert!(matches!(e, NeutonError::Other(_)));
    let io = std::io::Error::new(std::io::ErrorKind::PermissionDenied, "locked");
    let e = NeutonError::from_io_error(io);
    assert!(matches!(e, NeutonError::Other(_)));
}

#[test]
fn keyboard_pressed_matches_only_the_exact_key() {
    let down_3 = Event::KeyDown { keycode: Some(3) };
    assert!(keyboard_pressed(&down_3, 3));
    assert!(!keyboard_pressed(&down_3, 4));
    assert!(!keyboard_pressed(&Event::KeyDown { keycode: None }, 3));
    assert!(!keyboard_pressed(&Event::KeyUp { keycode: Some(3) }, 3));
    assert!(!keyboard_pressed(&Event::Quit, 3));
    assert!(!keyboard_pressed(&Event::Other, 3));
}

#[test]
fn configured_log_directory_wins() {
    let r = resolve_log_directory(Some("/var/log/shell".to_string()), Some("/home/u".to_string()));
    assert_eq!(r.unwrap(), "/var/log/shell");
}

#[test]
fn missing_configuration_falls_back_to_the_home_directory() {
    let r = resolve_log_directory(None, Some("/home/u".to_string()));
    assert_eq!(r.unwrap(), "/home/u/.oxide/logs");
}

#[test]
fn no_directory_at_all_is_a_logger_error() {
    let r = resolve_log_directory(None, None);
    assert_eq!(
        r.unwrap_err(),
        NeutonError::LoggerError("No available log directory".to_string())
    );
}
