//! Console lines of the engine, some of which carry a message for the
//! controller.
//!
//! A line that starts with the reserved prefix is an outbound message: what
//! follows the prefix goes to the controller's callback. Every other line is
//! diagnostic output.

use vstd::prelude::*;
use vstd::string::*;

verus! {

/// The reserved prefix, `PW_MSG:`.
pub open spec fn outbound_prefix() -> Seq<char> {
    seq!['P', 'W', '_', 'M', 'S', 'G', ':']
}

/// Whether `needle` stands somewhere in `text`.
pub open spec fn occurs_in(needle: Seq<char>, text: Seq<char>) -> bool {
    exists|at: int|
        0 <= at && at + needle.len() <= text.len() && #[trigger] text.subrange(
            at,
            at + needle.len(),
        ) == needle
}

/// What a console line carries for the controller: the text behind the
/// reserved prefix, if the line starts with it.
pub open spec fn outbound_payload(line: Seq<char>) -> Option<Seq<char>> {
    if outbound_prefix().is_prefix_of(line) {
        Some(line.subrange(outbound_prefix().len() as int, line.len() as int))
    } else {
        None
    }
}

/// What becomes of a console line.
#[derive(Clone, Debug, PartialEq, Eq)]
pub enum ConsoleOutcome {
    /// Call the controller's callback once, with this payload.
    Deliver(String),
    /// An outbound message, but no callback is registered: do nothing.
    Discard,
    /// Diagnostic output: log it, nothing else.
    Log,
}

/// A [`ConsoleOutcome`] with its payload as a sequence of characters.
pub enum ConsoleOutcomeView {
    Deliver(Seq<char>),
    Discard,
    Log,
}

impl View for ConsoleOutcome {
    type V = ConsoleOutcomeView;

    open spec fn view(&self) -> ConsoleOutcomeView {
        match *self {
            ConsoleOutcome::Deliver(payload) => ConsoleOutcomeView::Deliver(payload@),
            ConsoleOutcome::Discard => ConsoleOutcomeView::Discard,
            ConsoleOutcome::Log => ConsoleOutcomeView::Log,
        }
    }
}

/// What becomes of `line`, given whether a callback is registered.
pub open spec fn console_outcome(line: Seq<char>, callback_registered: bool) -> ConsoleOutcomeView {
    match outbound_payload(line) {
        Some(payload) => if callback_registered {
            ConsoleOutcomeView::Deliver(payload)
        } else {
            ConsoleOutcomeView::Discard
        },
        None => ConsoleOutcomeView::Log,
    }
}

/// The text behind the reserved prefix, or `None` where `line` does not start
/// with the prefix.
pub fn payload_of(line: &str) -> (payload: Option<String>)
    ensures
        match payload {
            Some(text) => outbound_payload(line@) == Some(text@),
            None => outbound_payload(line@) is None,
        },
{
    let prefix = "PW_MSG:";
    proof {
        reveal_strlit("PW_MSG:");
    }
    assert(prefix@ =~= outbound_prefix());
    let length = line.unicode_len();
    if length < 7 {
        return None;
    }
    let mut at: usize = 0;
    while at < 7
        invariant
            at <= 7,
            length == line@.len(),
            length >= 7,
            prefix@ == outbound_prefix(),
            forall|k: int| 0 <= k < at ==> line@[k] == outbound_prefix()[k],
        decreases 7 - at,
    {
        if line.get_char(at) != prefix.get_char(at) {
            assert(line@.subrange(0, 7)[at as int] != outbound_prefix()[at as int]);
            return None;
        }
        at += 1;
    }
    assert(line@.subrange(0, 7) =~= outbound_prefix());
    let rest = line.substring_char(7, length);
    Some(String::from_str(rest))
}

/// Decides what becomes of a console line of the engine: a line with the
/// reserved prefix is delivered without the prefix, once, if a callback is
/// registered, and is dropped if none is; any other line is only logged.
pub fn show_console_message(line: &str, callback_registered: bool) -> (outcome: ConsoleOutcome)
    ensures
        outcome@ == console_outcome(line@, callback_registered),
{
    match payload_of(line) {
        Some(payload) => if callback_registered {
            ConsoleOutcome::Deliver(payload)
        } else {
            ConsoleOutcome::Discard
        },
        None => ConsoleOutcome::Log,
    }
}

/// A line in which the reserved prefix does not occur reaches no callback,
/// registered or not: it is only logged.
pub proof fn line_without_prefix_is_logged(line: Seq<char>, callback_registered: bool)
    requires
        !occurs_in(outbound_prefix(), line),
    ensures
        console_outcome(line, callback_registered) == ConsoleOutcomeView::Log,
{
    if outbound_prefix().is_prefix_of(line) {
        let at: int = 0;
        assert(line.subrange(at, at + outbound_prefix().len()) =~= outbound_prefix());
    }
}

/// The reserved prefix followed by any text is delivered as exactly that text
/// where a callback is registered.
pub proof fn prefixed_line_is_delivered(payload: Seq<char>)
    ensures
        console_outcome(outbound_prefix() + payload, true) == ConsoleOutcomeView::Deliver(payload),
        console_outcome(outbound_prefix() + payload, false) == ConsoleOutcomeView::Discard,
{
    let line = outbound_prefix() + payload;
    assert(line.subrange(0, outbound_prefix().len() as int) =~= outbound_prefix());
    assert(line.subrange(outbound_prefix().len() as int, line.len() as int) =~= payload);
}

} // verus!
