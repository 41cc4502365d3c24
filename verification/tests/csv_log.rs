use std::path::Path;

use runner_orchestrator::csv_log::{
    csv_line, escape_csv_field, CsvLogError, CsvLogger, LogEntry, LogEvent,
};
use runner_orchestrator::time::Timestamp;

#[test]
fn test_escape_csv_field() {
    assert_eq!(escape_csv_field("simple"), "simple");
    assert_eq!(escape_csv_field("with,comma"), "\"with,comma\"");
    assert_eq!(escape_csv_field("with\"quote"), "\"with\"\"quote\"");
}

#[test]
fn escapes_line_ends_and_leaves_the_rest() {
    assert_eq!(escape_csv_field("two\nlines"), "\"two\nlines\"");
    assert_eq!(escape_csv_field(""), "");
    assert_eq!(escape_csv_field("caf\u{e9}; a b"), "caf\u{e9}; a b");
    assert_eq!(escape_csv_field("\""), "\"\"\"\"");
}

#[test]
fn logs_a_start() {
    let at = Timestamp::new(1431648000, 0).unwrap();
    let entry = LogEntry::start(at, 42, "owner/repo", 7, "pipeline_pending");
    assert_eq!(
        CsvLogger::new("logs").log(&entry),
        "2015-05-15T00:00:00+00:00,START,42,owner/repo,7,pipeline_pending,\n"
    );
}

#[test]
fn logs_a_stop() {
    let at = Timestamp::new(1431648000, 120_000_000).unwrap();
    let entry = LogEntry::stop(at, 42, "done, really", 61);
    assert_eq!(
        CsvLogger::new("logs").log(&entry),
        "2015-05-15T00:00:00.120+00:00,STOP,42,,,\"done, really\",61\n"
    );
}

#[test]
fn formats_an_entry_without_values() {
    let entry = LogEntry {
        timestamp: Timestamp::new(0, 0).unwrap(),
        event: LogEvent::Start,
        server_id: None,
        project: None,
        pipeline_id: None,
        reason: String::new(),
        duration_minutes: None,
    };
    assert_eq!(csv_line("now".to_string(), &entry), "now,START,,,,,");
}

#[test]
fn logs_at_the_current_time() {
    let logger = CsvLogger::new("logs");
    let start = logger.log_start(1, "a/b", 2, "pipeline_pending");
    assert!(start.ends_with("+00:00,START,1,a/b,2,pipeline_pending,\n"));
    assert!(start.starts_with("2"));
    let stop = logger.log_stop(1, "optimal_billing_time", 55);
    assert!(stop.ends_with("+00:00,STOP,1,,,optimal_billing_time,55\n"));
}

#[test]
fn header_only_for_a_new_file() {
    let logger = CsvLogger::new("logs");
    assert_eq!(
        logger.initial_text(false).unwrap(),
        "timestamp,event,server_id,project,pipeline_id,reason,duration_minutes\n"
    );
    assert!(logger.initial_text(true).is_none());
    assert_eq!(logger.write_header(), logger.initial_text(false).unwrap());
}

#[test]
fn log_file_stands_in_its_directory() {
    let logger = CsvLogger::new("logs");
    assert_eq!(logger.log_dir, "logs");
    assert_eq!(logger.file_name, "runner_usage.csv");
    let path = Path::new(&logger.log_dir).join(logger.file_name);
    assert_eq!(path, Path::new("logs").join("runner_usage.csv"));
    assert_eq!(CsvLogger::new("").log_dir, "");
    assert_eq!(CsvLogger::new("C:").log_dir, "C:");
}

#[test]
fn event_names() {
    assert_eq!(LogEvent::Start.name(), "START");
    assert_eq!(LogEvent::Stop.name(), "STOP");
}

#[test]
fn csv_error_message() {
    let error = CsvLogError::FileError("permission denied".to_string());
    assert_eq!(
        error.describe(),
        "Failed to open/create log file: permission denied"
    );
}

/// Splits a log into records and fields, as a CSV reader does.
fn read(content: &str) -> Vec<Vec<String>> {
    let mut records = Vec::new();
    let mut fields = Vec::new();
    let mut field = String::new();
    let mut quoted = false;
    let mut chars = content.chars().peekable();
    while let Some(c) = chars.next() {
        if quoted {
            if c != '"' {
                field.push(c);
            } else if chars.peek() == Some(&'"') {
                chars.next();
                field.push('"');
            } else {
                quoted = false;
            }
        } else if c == '"' && field.is_empty() {
            quoted = true;
        } else if c == ',' {
            fields.push(field.clone());
            field.clear();
        } else if c == '\n' {
            fields.push(field.clone());
            field.clear();
            records.push(fields.clone());
            fields.clear();
        } else {
            field.push(c);
        }
    }
    records
}

#[test]
fn log_reads_back() {
    let logger = CsvLogger::new("logs");
    let at = Timestamp::new(60, 0).unwrap();
    let reason = "a \"quoted\", odd\nreason";
    let mut content = logger.write_header();
    content.push_str(&logger.log(&LogEntry::start(at, 1, "o/r", 2, reason)));
    content.push_str(&logger.log(&LogEntry::stop(at, 1, reason, 3)));
    let records = read(&content);
    assert_eq!(records.len(), 3);
    assert_eq!(records[0][0], "timestamp");
    assert_eq!(
        records[1],
        vec!["1970-01-01T00:01:00+00:00", "START", "1", "o/r", "2", reason, ""]
    );
    assert_eq!(
        records[2],
        vec!["1970-01-01T00:01:00+00:00", "STOP", "1", "", "", reason, "3"]
    );
}
