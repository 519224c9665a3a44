use pywire_servo::console::{payload_of, show_console_message, ConsoleOutcome};

#[test]
fn line_without_prefix_is_only_logged() {
    for line in ["", "hello", "PW_MSG", "pw_msg:lower", "W_MSG:x", "PW-MSG:x", "P", "\u{1f600}"] {
        assert_eq!(show_console_message(line, true), ConsoleOutcome::Log, "{:?}", line);
        assert_eq!(show_console_message(line, false), ConsoleOutcome::Log, "{:?}", line);
        assert_eq!(payload_of(line), None);
    }
}

#[test]
fn prefixed_line_is_delivered_without_the_prefix() {
    for payload in ["", "x", "{\"a\":1}", "PW_MSG:twice", " lead", "\u{e9}t\u{e9} \u{1f600}", "a\0b"] {
        let line = format!("PW_MSG:{}", payload);
        assert_eq!(
            show_console_message(&line, true),
            ConsoleOutcome::Deliver(payload.to_string()),
            "{:?}",
            line
        );
        assert_eq!(payload_of(&line), Some(payload.to_string()));
    }
}

#[test]
fn prefixed_line_without_a_callback_is_dropped() {
    assert_eq!(show_console_message("PW_MSG:ping", false), ConsoleOutcome::Discard);
    assert_eq!(show_console_message("PW_MSG:", false), ConsoleOutcome::Discard);
}

#[test]
fn prefix_counts_only_at_the_start() {
    assert_eq!(show_console_message(" PW_MSG:x", true), ConsoleOutcome::Log);
    assert_eq!(show_console_message("xPW_MSG:x", true), ConsoleOutcome::Log);
    assert_eq!(show_console_message("\u{e9}PW_MSG:x", true), ConsoleOutcome::Log);
}

#[test]
fn payload_behind_wide_characters_is_cut_by_characters() {
    assert_eq!(payload_of("PW_MSG:\u{4e16}\u{754c}"), Some("\u{4e16}\u{754c}".to_string()));
}
