//! The host boundary: what a controller may call.
//!
//! Each call checks its input, turns it into a [`Command`], posts it and
//! answers with a status: [`STATUS_OK`], or a negative number that says what
//! went wrong. Texts arrive as raw bytes, `None` standing for no text at all.

use crate::mailbox::{posted, published, Command, CommandView, Lifecycle, Mailbox, PostError};
use crate::text::{decode_text, decode_text_or, decoded, raw_view};
use crate::ui::{initial_state, UiState};
use vstd::prelude::*;

verus! {

/// The call did what it was asked to.
pub const STATUS_OK: i32 = 0;

/// A text was absent or not UTF-8.
pub const STATUS_INVALID_INPUT: i32 = -1;

/// The application could not start, or its UI loop ended in a fault.
pub const STATUS_FAULT: i32 = -1;

/// The command could not be posted: the UI loop has gone.
pub const STATUS_SEND_FAILED: i32 = -2;

/// The mailbox is not published yet: the application was not started.
pub const STATUS_NOT_READY: i32 = -3;

/// The build's identifier.
pub open spec fn version_text() -> Seq<char> {
    "0.2.0"@
}

/// The title of a window that was given none.
pub open spec fn default_title() -> Seq<char> {
    "untitled"@
}

/// The address that is opened where none was given.
pub open spec fn default_url() -> Seq<char> {
    "about:blank"@
}

/// What an application is started with. The texts are raw bytes as the
/// controller handed them over, `None` where it gave none.
#[derive(Clone, Debug, PartialEq, Eq)]
pub struct InitParams {
    pub title: Option<Vec<u8>>,
    pub url: Option<Vec<u8>>,
    pub width: u32,
    pub height: i32,
    /// Whether the controller registered a callback for outbound messages.
    pub on_event: bool,
}

/// What is known of the directory of the engine's static resources.
#[derive(Clone, Copy, Debug, PartialEq, Eq, Structural)]
pub enum Resources {
    /// The hosting environment names no directory.
    Unset,
    /// It names one that does not exist.
    Missing,
    Present,
}

/// How the UI loop ended.
#[derive(Clone, Copy, Debug, PartialEq, Eq, Structural)]
pub enum LoopOutcome {
    /// The window was closed.
    Finished,
    /// Something inside the loop failed for good.
    Faulted,
}

/// The status of a call that posts a command: a text that does not decode is
/// refused before the mailbox is looked at; else the mailbox decides.
pub open spec fn call_status(text_ok: bool, lifecycle: Lifecycle) -> i32 {
    if !text_ok {
        STATUS_INVALID_INPUT
    } else {
        match lifecycle {
            Lifecycle::Unpublished => STATUS_NOT_READY,
            Lifecycle::Open => STATUS_OK,
            Lifecycle::Closed => STATUS_SEND_FAILED,
        }
    }
}

/// The bytes of a text that may be absent.
pub open spec fn bytes_view(raw: Option<Vec<u8>>) -> Option<Seq<u8>> {
    match raw {
        None => None,
        Some(bytes) => Some(bytes@),
    }
}

/// The text that `raw` decodes to, or `fallback` where it is absent or not
/// UTF-8.
pub open spec fn text_or(raw: Option<Seq<u8>>, fallback: Seq<char>) -> Seq<char> {
    match decoded(raw) {
        Ok(text) => text,
        Err(_) => fallback,
    }
}

fn post_status(result: Result<(), PostError>) -> (status: i32)
    ensures
        status == match result {
            Ok(_) => STATUS_OK,
            Err(PostError::Unpublished) => STATUS_NOT_READY,
            Err(PostError::Closed) => STATUS_SEND_FAILED,
        },
{
    match result {
        Ok(_) => STATUS_OK,
        Err(PostError::Unpublished) => STATUS_NOT_READY,
        Err(PostError::Closed) => STATUS_SEND_FAILED,
    }
}

fn borrowed(raw: &Option<Vec<u8>>) -> (bytes: Option<&[u8]>)
    ensures
        raw_view(bytes) == bytes_view(*raw),
{
    match raw {
        Some(bytes) => Some(bytes.as_slice()),
        None => None,
    }
}

/// Asks the content view to run a script.
///
/// Answers [`STATUS_INVALID_INPUT`] if the script is absent or not UTF-8,
/// [`STATUS_NOT_READY`] if the mailbox is not published,
/// [`STATUS_SEND_FAILED`] if it is closed, and else [`STATUS_OK`]. Only in the
/// last case anything is posted: the script, behind all that waits already.
pub fn pw_execute_javascript(script: Option<&[u8]>, mailbox: &mut Mailbox) -> (status: i32)
    ensures
        status == call_status(decoded(raw_view(script)) is Ok, old(mailbox)@.lifecycle),
        status == STATUS_OK ==> final(mailbox)@ == posted(
            old(mailbox)@,
            CommandView::ExecuteScript(decoded(raw_view(script))->Ok_0),
        ),
        status != STATUS_OK ==> final(mailbox)@ == old(mailbox)@,
{
    match decode_text(script) {
        Err(_) => STATUS_INVALID_INPUT,
        Ok(text) => post_status(mailbox.post(Command::ExecuteScript(text))),
    }
}

/// Asks for a new window title.
///
/// Answers [`STATUS_INVALID_INPUT`] if the title is absent or not UTF-8,
/// [`STATUS_NOT_READY`] if the mailbox is not published,
/// [`STATUS_SEND_FAILED`] if it is closed, and else [`STATUS_OK`]. Only in the
/// last case anything is posted: the title, behind all that waits already.
pub fn pw_set_title(title: Option<&[u8]>, mailbox: &mut Mailbox) -> (status: i32)
    ensures
        status == call_status(decoded(raw_view(title)) is Ok, old(mailbox)@.lifecycle),
        status == STATUS_OK ==> final(mailbox)@ == posted(
            old(mailbox)@,
            CommandView::SetTitle(decoded(raw_view(title))->Ok_0),
        ),
        status != STATUS_OK ==> final(mailbox)@ == old(mailbox)@,
{
    match decode_text(title) {
        Err(_) => STATUS_INVALID_INPUT,
        Ok(text) => post_status(mailbox.post(Command::SetTitle(text))),
    }
}

/// Asks for a new logical window size.
///
/// Answers [`STATUS_NOT_READY`] if the mailbox is not published,
/// [`STATUS_SEND_FAILED`] if it is closed, and else [`STATUS_OK`]. Only in the
/// last case anything is posted: the size, behind all that waits already.
pub fn pw_resize_window(width: u32, height: u32, mailbox: &mut Mailbox) -> (status: i32)
    ensures
        status == call_status(true, old(mailbox)@.lifecycle),
        status == STATUS_OK ==> final(mailbox)@ == posted(
            old(mailbox)@,
            CommandView::Resize(width, height),
        ),
        status != STATUS_OK ==> final(mailbox)@ == old(mailbox)@,
{
    post_status(mailbox.post(Command::Resize(width, height)))
}

/// The build's identifier, `0.2.0`.
pub fn pw_version() -> (version: &'static str)
    ensures
        version@ == version_text(),
{
    "0.2.0"
}

/// Prepares the application: the one-time setup that comes before the UI
/// loop.
///
/// Without the engine's resources nothing can run: unless they are present
/// the answer is [`STATUS_FAULT`] and the mailbox is left alone.
/// Otherwise the mailbox is published and the loop's first state is handed
/// out. In it the title is the given one, or `untitled` where none was given
/// or it is not UTF-8, and the address is the given one under the same rule,
/// with `about:blank` as the fallback.
pub fn pw_start_app(params: InitParams, resources: Resources, mailbox: &mut Mailbox) -> (started:
    Result<UiState, i32>)
    ensures
        started is Ok <==> resources == Resources::Present,
        started matches Err(status) ==> status == STATUS_FAULT && final(mailbox)@ == old(
            mailbox,
        )@,
        started matches Ok(state) ==> final(mailbox)@ == published(old(mailbox)@) && state@
            == initial_state(
            text_or(bytes_view(params.title), default_title()),
            text_or(bytes_view(params.url), default_url()),
            params.width,
            params.height,
            params.on_event,
        ),
{
    let title = decode_text_or(borrowed(&params.title), "untitled");
    let url = decode_text_or(borrowed(&params.url), "about:blank");
    match resources {
        Resources::Present => {
            mailbox.publish();
            Ok(UiState::new(title, url, params.width, params.height, params.on_event))
        },
        _ => Err(STATUS_FAULT),
    }
}

/// The status with which the application ends: [`STATUS_OK`] once the window
/// was closed, [`STATUS_FAULT`] after a fault.
pub fn exit_status(outcome: LoopOutcome) -> (status: i32)
    ensures
        status == match outcome {
            LoopOutcome::Finished => STATUS_OK,
            LoopOutcome::Faulted => STATUS_FAULT,
        },
{
    match outcome {
        LoopOutcome::Finished => STATUS_OK,
        LoopOutcome::Faulted => STATUS_FAULT,
    }
}

} // verus!
