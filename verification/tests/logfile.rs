use oct_classifier::logfile::{
    assemble, bracket, log_entry, log_file_name, log_line, name_file, time_stamp, LogEntry,
};
use oct_classifier::relay::MsgStatus;

#[test]
fn epoch_is_half_past_five_in_kolkata() {
    assert_eq!(log_file_name(0), Some("ophthalmic.classifier.19700101.log".to_string()));
    assert_eq!(time_stamp(0), Some("[1970-01-01 05:30:00]".to_string()));
}

#[test]
fn a_recent_instant_is_written_in_local_time() {
    let name = log_file_name(1_700_000_000);
    assert_eq!(name, Some("ophthalmic.classifier.20231115.log".to_string()));
    assert_eq!(time_stamp(1_700_000_000), Some("[2023-11-15 03:43:20]".to_string()));
}

#[test]
fn the_log_file_changes_at_local_midnight() {
    let before = log_file_name(1_704_047_399);
    assert_eq!(before, Some("ophthalmic.classifier.20231231.log".to_string()));
    assert_eq!(time_stamp(1_704_047_399), Some("[2023-12-31 23:59:59]".to_string()));
    let after = log_file_name(1_704_047_400);
    assert_eq!(after, Some("ophthalmic.classifier.20240101.log".to_string()));
    assert_eq!(time_stamp(1_704_047_400), Some("[2024-01-01 00:00:00]".to_string()));
}

#[test]
fn an_instant_before_the_epoch_is_written_too() {
    assert_eq!(log_file_name(-1), Some("ophthalmic.classifier.19700101.log".to_string()));
    assert_eq!(time_stamp(-1), Some("[1970-01-01 05:29:59]".to_string()));
}

#[test]
fn an_instant_out_of_range_has_no_text() {
    assert_eq!(log_file_name(i64::MAX), None);
    assert_eq!(time_stamp(i64::MAX), None);
    assert_eq!(log_file_name(i64::MIN), None);
    assert_eq!(time_stamp(i64::MIN), None);
}

#[test]
fn line_has_stamp_tag_text_and_break() {
    assert_eq!(
        log_line("[2024-01-01 00:00:00]", MsgStatus::RESPONSE, "{\"success\":true}"),
        "[2024-01-01 00:00:00] RESPONSE {\"success\":true}\n"
    );
    assert_eq!(log_line("[t]", MsgStatus::ERROR, "bad"), "[t] ERROR bad\n");
    assert_eq!(log_line("[t]", MsgStatus::LOG, ""), "[t] LOG \n");
}

#[test]
fn file_name_wraps_the_date() {
    assert_eq!(name_file("20240101"), "ophthalmic.classifier.20240101.log");
    assert_eq!(name_file(""), "ophthalmic.classifier..log");
}

#[test]
fn stamp_is_the_clock_in_brackets() {
    assert_eq!(bracket("2024-01-01 00:00:00"), "[2024-01-01 00:00:00]");
    assert_eq!(bracket(""), "[]");
}

#[test]
fn assemble_needs_both_texts() {
    let date = Some("20240101".to_string());
    let clock = Some("2024-01-01 09:30:00".to_string());
    assert_eq!(
        assemble(date.clone(), clock.clone(), MsgStatus::LOG, "m"),
        Some(LogEntry {
            file: "ophthalmic.classifier.20240101.log".to_string(),
            line: "[2024-01-01 09:30:00] LOG m\n".to_string()
        })
    );
    assert_eq!(assemble(None, clock, MsgStatus::LOG, "m"), None);
    assert_eq!(assemble(date, None, MsgStatus::LOG, "m"), None);
    assert_eq!(assemble(None, None, MsgStatus::LOG, "m"), None);
}

#[test]
fn entry_puts_file_and_line_together() {
    let made = log_entry(1_700_000_000, MsgStatus::LOG, "warming up").unwrap();
    assert_eq!(made.file, "ophthalmic.classifier.20231115.log");
    assert_eq!(made.line, "[2023-11-15 03:43:20] LOG warming up\n");
}

#[test]
fn entry_is_tagged_by_the_status_given() {
    let made = log_entry(0, MsgStatus::RESPONSE, "{}").unwrap();
    assert_eq!(made.line, "[1970-01-01 05:30:00] RESPONSE {}\n");
}

#[test]
fn entry_out_of_range_is_none() {
    assert_eq!(log_entry(i64::MAX, MsgStatus::LOG, "x"), None);
}
