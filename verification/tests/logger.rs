use hydra_nexus::logger::{LogLevel, Logger};

#[test]
fn test_logger() {
    let logger = Logger::new("Hydra", "Backend");
    logger.error("Test error message");
    logger.warn("Test warning message");
    logger.info("Test info message");
    logger.debug("Test debug message");
}

#[test]
fn logger_keeps_names() {
    let logger = Logger::new("Hydra", "Backend");
    assert_eq!(logger.ecosystem, "Hydra");
    assert_eq!(logger.service, "Backend");
}

#[test]
fn format_entry_exact() {
    let logger = Logger::new("Hydra", "Backend");
    let line = logger.format_entry(LogLevel::Warning, "2024-01-02 03:04:05", "disk low");
    assert_eq!(
        line,
        "\x1b[90m\x1b[1m[2024-01-02 03:04:05]\x1b[0m \x1b[93mWARN \x1b[0m \x1b[35m[Hydra]\x1b[0m \x1b[36m[Backend]\x1b[0m disk low"
    );
}

#[test]
fn entry_ends_with_message() {
    let logger = Logger::new("Eco", "Svc");
    for line in [logger.error("boom"), logger.warn("boom"), logger.info("boom"), logger.debug("boom")] {
        assert!(line.ends_with(" boom"));
        assert!(line.contains("[Eco]"));
        assert!(line.contains("[Svc]"));
    }
    assert!(logger.error("x").contains("\x1b[91mERROR\x1b[0m"));
    assert!(logger.debug("x").contains("\x1b[90mDEBUG\x1b[0m"));
}

#[test]
fn level_labels_icons_colors() {
    assert_eq!(LogLevel::Error.label(), "ERROR");
    assert_eq!(LogLevel::Warning.label(), "WARN ");
    assert_eq!(LogLevel::Info.label(), "INFO ");
    assert_eq!(LogLevel::Debug.label(), "DEBUG");
    assert_eq!(LogLevel::Error.icon(), "❌");
    assert_eq!(LogLevel::Warning.icon(), "⚠️");
    assert_eq!(LogLevel::Info.icon(), "ℹ️");
    assert_eq!(LogLevel::Debug.icon(), "🔍");
    assert_eq!(LogLevel::Error.color_ansi(), "\x1b[91m");
    assert_eq!(LogLevel::Warning.color_ansi(), "\x1b[93m");
    assert_eq!(LogLevel::Info.color_ansi(), "\x1b[96m");
    assert_eq!(LogLevel::Debug.color_ansi(), "\x1b[90m");
}

#[test]
fn log_timestamp_has_date_and_time_shape() {
    let logger = Logger::new("E", "S");
    let line = logger.info("m");
    // "\x1b[90m\x1b[1m[" is 10 characters; the stamp "YYYY-MM-DD HH:MM:SS" follows.
    let stamp: String = line.chars().skip(10).take(19).collect();
    let bytes = stamp.as_bytes();
    assert_eq!(bytes[4], b'-');
    assert_eq!(bytes[7], b'-');
    assert_eq!(bytes[10], b' ');
    assert_eq!(bytes[13], b':');
    assert_eq!(bytes[16], b':');
}
