use ones_riscv::logger::{max_level, LogLevel};

#[test]
fn log_level_names() {
    assert_eq!(max_level(Some(b"error".as_slice())), LogLevel::Error);
    assert_eq!(max_level(Some(b"warn".as_slice())), LogLevel::Warn);
    assert_eq!(max_level(Some(b"info".as_slice())), LogLevel::Info);
    assert_eq!(max_level(Some(b"debug".as_slice())), LogLevel::Debug);
    assert_eq!(max_level(Some(b"trace".as_slice())), LogLevel::Trace);
}

#[test]
fn log_level_other_names_turn_logging_off() {
    assert_eq!(max_level(None), LogLevel::Off);
    assert_eq!(max_level(Some(b"INFO".as_slice())), LogLevel::Off);
    assert_eq!(max_level(Some(b"inf".as_slice())), LogLevel::Off);
    assert_eq!(max_level(Some(b"".as_slice())), LogLevel::Off);
    assert_eq!(max_level(Some(b"traces".as_slice())), LogLevel::Off);
}
