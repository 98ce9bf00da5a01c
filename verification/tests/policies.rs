use alex_crm::policies::logging::{
    render_log_file_name, render_log_line, ConsoleLogger, FileLogger, LoggingPolicy, NoLogging,
};
use std::path::PathBuf;

#[test]
fn log_line_layout() {
    assert_eq!(render_log_line("2024-01-02 03:04:05", "INFO", "hello"), "[2024-01-02 03:04:05] INFO: hello");
    assert_eq!(render_log_file_name("2024-01-02"), "2024-01-02.log");
}

#[test]
fn no_logging_drops_messages() {
    assert!(!NoLogging.is_enabled());
    assert!(NoLogging.entry("INFO", "x").is_none());
}

#[test]
fn console_logger_writes_only_when_enabled() {
    let on = ConsoleLogger::new(true);
    assert!(on.is_enabled());
    let line = on.entry("WARN", "disk low").unwrap();
    assert!(line.starts_with('['));
    assert!(line.ends_with("] WARN: disk low"));
    assert_eq!(line.len(), "[2024-01-02 03:04:05] WARN: disk low".len());
    let off = ConsoleLogger::new(false);
    assert!(!off.is_enabled());
    assert!(off.entry("WARN", "disk low").is_none());
}

#[test]
fn file_logger_writes_every_message_in_a_daily_file() {
    let logger = FileLogger::new(PathBuf::from("logs"));
    assert!(logger.is_enabled());
    assert_eq!(logger.log_dir(), &PathBuf::from("logs"));
    let line = logger.entry("ERROR", "boom").unwrap();
    assert!(line.ends_with("] ERROR: boom"));
    let name = logger.daily_log_name();
    assert!(name.ends_with(".log"));
    assert_eq!(name.len(), "2024-01-02.log".len());
}
