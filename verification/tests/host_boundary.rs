use pywire_servo::host::{
    exit_status, LoopOutcome, Resources, STATUS_FAULT, STATUS_INVALID_INPUT, STATUS_NOT_READY,
    STATUS_OK, STATUS_SEND_FAILED,
};
use pywire_servo::mailbox::{Command, Lifecycle, Mailbox, PostError};
use pywire_servo::text::{decode_text, decode_text_or, TextError};
use pywire_servo::ui::{Phase, WindowSize};
use pywire_servo::{
    pw_execute_javascript, pw_resize_window, pw_set_title, pw_start_app, pw_version, InitParams,
};

fn open_mailbox() -> Mailbox {
    let mut mailbox = Mailbox::new();
    mailbox.publish();
    mailbox
}

fn params(title: Option<&[u8]>, url: Option<&[u8]>) -> InitParams {
    InitParams {
        title: title.map(|t| t.to_vec()),
        url: url.map(|u| u.to_vec()),
        width: 800,
        height: 600,
        on_event: true,
    }
}

#[test]
fn status_codes_are_distinct_and_stable() {
    assert_eq!(STATUS_OK, 0);
    assert_eq!(STATUS_INVALID_INPUT, -1);
    assert_eq!(STATUS_SEND_FAILED, -2);
    assert_eq!(STATUS_NOT_READY, -3);
    assert_eq!(STATUS_FAULT, -1);
}

#[test]
fn version_is_fixed() {
    assert_eq!(pw_version(), "0.2.0");
    assert_eq!(pw_version(), pw_version());
}

#[test]
fn execute_before_publication_is_not_ready() {
    let mut mailbox = Mailbox::new();
    assert_eq!(pw_execute_javascript(Some(b"1 + 1"), &mut mailbox), STATUS_NOT_READY);
    assert_eq!(mailbox.pending(), 0);
    assert_eq!(mailbox.lifecycle(), Lifecycle::Unpublished);
    assert_eq!(mailbox.take(), None);
}

#[test]
fn set_title_and_resize_before_publication_are_not_ready() {
    let mut mailbox = Mailbox::new();
    assert_eq!(pw_set_title(Some(b"A"), &mut mailbox), STATUS_NOT_READY);
    assert_eq!(pw_resize_window(10, 20, &mut mailbox), STATUS_NOT_READY);
    assert_eq!(mailbox.pending(), 0);
}

#[test]
fn absent_text_is_invalid_input_and_posts_nothing() {
    let mut mailbox = open_mailbox();
    assert_eq!(pw_execute_javascript(None, &mut mailbox), STATUS_INVALID_INPUT);
    assert_eq!(pw_set_title(None, &mut mailbox), STATUS_INVALID_INPUT);
    assert_eq!(mailbox.pending(), 0);
}

#[test]
fn malformed_text_is_invalid_input_and_posts_nothing() {
    let mut mailbox = open_mailbox();
    assert_eq!(pw_execute_javascript(Some(&[0x66, 0xff, 0x6f]), &mut mailbox), STATUS_INVALID_INPUT);
    assert_eq!(pw_set_title(Some(&[0xc3]), &mut mailbox), STATUS_INVALID_INPUT);
    assert_eq!(mailbox.pending(), 0);
}

#[test]
fn invalid_text_wins_over_an_unpublished_mailbox() {
    let mut mailbox = Mailbox::new();
    assert_eq!(pw_execute_javascript(None, &mut mailbox), STATUS_INVALID_INPUT);
    assert_eq!(pw_set_title(Some(&[0x80]), &mut mailbox), STATUS_INVALID_INPUT);
}

#[test]
fn calls_on_an_open_mailbox_post_their_command() {
    let mut mailbox = open_mailbox();
    assert_eq!(pw_execute_javascript(Some(b"document.title"), &mut mailbox), STATUS_OK);
    assert_eq!(pw_set_title(Some("Gr\u{fc}\u{df}e".as_bytes()), &mut mailbox), STATUS_OK);
    assert_eq!(pw_resize_window(640, 480, &mut mailbox), STATUS_OK);
    assert_eq!(mailbox.pending(), 3);
    assert_eq!(mailbox.take(), Some(Command::ExecuteScript("document.title".to_string())));
    assert_eq!(mailbox.take(), Some(Command::SetTitle("Gr\u{fc}\u{df}e".to_string())));
    assert_eq!(mailbox.take(), Some(Command::Resize(640, 480)));
    assert_eq!(mailbox.take(), None);
}

#[test]
fn empty_text_is_valid() {
    let mut mailbox = open_mailbox();
    assert_eq!(pw_set_title(Some(b""), &mut mailbox), STATUS_OK);
    assert_eq!(mailbox.take(), Some(Command::SetTitle(String::new())));
}

#[test]
fn calls_after_the_loop_has_gone_fail_to_send() {
    let mut mailbox = open_mailbox();
    assert_eq!(pw_resize_window(1, 2, &mut mailbox), STATUS_OK);
    mailbox.close();
    assert_eq!(pw_execute_javascript(Some(b"x"), &mut mailbox), STATUS_SEND_FAILED);
    assert_eq!(pw_set_title(Some(b"x"), &mut mailbox), STATUS_SEND_FAILED);
    assert_eq!(pw_resize_window(3, 4, &mut mailbox), STATUS_SEND_FAILED);
    assert_eq!(mailbox.pending(), 1);
    assert_eq!(mailbox.take(), Some(Command::Resize(1, 2)));
}

#[test]
fn post_errors_name_the_lifecycle() {
    let mut mailbox = Mailbox::new();
    assert_eq!(mailbox.post(Command::Wake), Err(PostError::Unpublished));
    mailbox.publish();
    assert_eq!(mailbox.post(Command::Wake), Ok(()));
    mailbox.close();
    assert_eq!(mailbox.post(Command::Wake), Err(PostError::Closed));
    assert_eq!(mailbox.pending(), 1);
}

#[test]
fn publish_counts_once() {
    let mut mailbox = Mailbox::new();
    mailbox.publish();
    assert_eq!(mailbox.post(Command::Resize(1, 1)), Ok(()));
    mailbox.publish();
    assert_eq!(mailbox.lifecycle(), Lifecycle::Open);
    assert_eq!(mailbox.pending(), 1);
    mailbox.close();
    mailbox.publish();
    assert_eq!(mailbox.lifecycle(), Lifecycle::Closed);
}

#[test]
fn commands_leave_in_posting_order() {
    let mut mailbox = open_mailbox();
    for n in 0..5u32 {
        assert_eq!(mailbox.post(Command::Resize(n, n + 1)), Ok(()));
    }
    for n in 0..5u32 {
        assert_eq!(mailbox.take(), Some(Command::Resize(n, n + 1)));
    }
    assert_eq!(mailbox.take(), None);
    assert_eq!(mailbox.pending(), 0);
}

#[test]
fn decode_text_tells_absent_from_malformed() {
    assert_eq!(decode_text(None), Err(TextError::Absent));
    assert_eq!(decode_text(Some(&[0xe2, 0x82])), Err(TextError::Malformed));
    assert_eq!(decode_text(Some(&[0xed, 0xa0, 0x80])), Err(TextError::Malformed));
    assert_eq!(decode_text(Some(&[0xc0, 0xaf])), Err(TextError::Malformed));
    assert_eq!(decode_text(Some(&[0xe2, 0x82, 0xac])), Ok("\u{20ac}".to_string()));
    assert_eq!(decode_text(Some(b"plain")), Ok("plain".to_string()));
}

#[test]
fn decode_text_or_falls_back() {
    assert_eq!(decode_text_or(None, "fallback"), "fallback");
    assert_eq!(decode_text_or(Some(&[0xff]), "fallback"), "fallback");
    assert_eq!(decode_text_or(Some(b"given"), "fallback"), "given");
}

#[test]
fn start_without_resources_fails_and_publishes_nothing() {
    let mut mailbox = Mailbox::new();
    let unset = pw_start_app(params(Some(b"T"), Some(b"about:blank")), Resources::Unset, &mut mailbox);
    assert_eq!(unset.err(), Some(STATUS_FAULT));
    let missing = pw_start_app(params(None, None), Resources::Missing, &mut mailbox);
    assert_eq!(missing.err(), Some(STATUS_FAULT));
    assert_eq!(mailbox.lifecycle(), Lifecycle::Unpublished);
    assert_eq!(pw_resize_window(1, 1, &mut mailbox), STATUS_NOT_READY);
}

#[test]
fn start_publishes_the_mailbox_and_builds_the_first_state() {
    let mut mailbox = Mailbox::new();
    let started = pw_start_app(
        params(Some(b"Shell"), Some(b"https://example.com/")),
        Resources::Present,
        &mut mailbox,
    );
    let state = started.expect("resources are present");
    assert_eq!(mailbox.lifecycle(), Lifecycle::Open);
    assert_eq!(state.phase(), Phase::Uninitialized);
    assert_eq!(state.title(), "Shell");
    assert_eq!(state.url(), "https://example.com/");
    assert_eq!(state.initial_size(), WindowSize { width: 800, height: 600 });
    assert_eq!(state.requested_size(), None);
    assert!(state.callback_registered());
    assert!(!state.needs_repaint());
    assert_eq!(state.modifiers(), 0);
    assert_eq!(state.pointer().x_bits, 0.0f32.to_bits());
    assert_eq!(state.pointer().y_bits, 0.0f32.to_bits());
}

#[test]
fn start_fills_in_defaults() {
    let mut mailbox = Mailbox::new();
    let state = pw_start_app(params(None, None), Resources::Present, &mut mailbox)
        .expect("resources are present");
    assert_eq!(state.title(), "untitled");
    assert_eq!(state.url(), "about:blank");
    let mut other = Mailbox::new();
    let state = pw_start_app(params(Some(&[0xff]), Some(&[0xfe])), Resources::Present, &mut other)
        .expect("resources are present");
    assert_eq!(state.title(), "untitled");
    assert_eq!(state.url(), "about:blank");
}

#[test]
fn start_keeps_a_negative_height_and_an_absent_callback() {
    let mut mailbox = Mailbox::new();
    let given = InitParams { title: None, url: None, width: 0, height: -5, on_event: false };
    let state = pw_start_app(given, Resources::Present, &mut mailbox).expect("resources are present");
    assert_eq!(state.initial_size(), WindowSize { width: 0, height: -5 });
    assert!(!state.callback_registered());
}

#[test]
fn exit_status_tells_a_close_from_a_fault() {
    assert_eq!(exit_status(LoopOutcome::Finished), STATUS_OK);
    assert_eq!(exit_status(LoopOutcome::Faulted), STATUS_FAULT);
}

#[test]
fn close_unsent_takes_back_the_last_post() {
    let mut mailbox = open_mailbox();
    assert_eq!(mailbox.post(Command::Resize(1, 2)), Ok(()));
    assert_eq!(mailbox.post(Command::SetTitle("late".to_string())), Ok(()));
    assert_eq!(mailbox.close_unsent(), Some(Command::SetTitle("late".to_string())));
    assert_eq!(mailbox.lifecycle(), Lifecycle::Closed);
    assert_eq!(mailbox.pending(), 1);
    assert_eq!(mailbox.take(), Some(Command::Resize(1, 2)));
    assert_eq!(mailbox.post(Command::Wake), Err(PostError::Closed));
}

#[test]
fn close_unsent_on_an_empty_mailbox_only_closes() {
    let mut mailbox = open_mailbox();
    assert_eq!(mailbox.close_unsent(), None);
    assert_eq!(mailbox.lifecycle(), Lifecycle::Closed);
    assert_eq!(mailbox.pending(), 0);
}
