//! Decisions taken while reading the text that the user has selected in
//! another application: first through UI Automation, then, as the fallback,
//! through the clipboard.

use vstd::prelude::*;
use vstd::string::StringExecFns;
use crate::text::{trim_whitespace, trim_ws};

verus! {

broadcast use vstd::string::group_string_axioms;

/// How long to wait for the copy shortcut to change the clipboard.
pub const COPY_TIMEOUT_MS: u64 = 500;

/// How long to sleep between two looks at the clipboard.
pub const COPY_POLL_INTERVAL_MS: u64 = 10;

/// The outcome of one way of reading the selection.
#[derive(Clone, Debug)]
pub enum Attempt {
    /// It gave this text (possibly empty).
    Text(String),
    /// It failed.
    Failed,
}

/// The selection that an attempt yields: its text when that is not empty.
pub open spec fn yielded(a: Attempt) -> Option<Seq<char>> {
    match a {
        Attempt::Text(t) => if t@.len() > 0 {
            Some(t@)
        } else {
            None
        },
        Attempt::Failed => None,
    }
}

/// An attempt yields its text exactly when that text is not empty; a failed
/// attempt yields nothing.
pub proof fn lemma_yielded(t: String)
    ensures
        t@.len() > 0 ==> yielded(Attempt::Text(t)) == Some(t@),
        t@.len() == 0 ==> yielded(Attempt::Text(t)) is None,
        yielded(Attempt::Failed) is None,
{
}

/// What to do after UI Automation was tried.
#[derive(Debug)]
pub enum ProbeStep {
    /// The selection is this text.
    Found(String),
    /// Fall back to the clipboard.
    TryClipboard,
}

/// After the UI Automation attempt: a non-empty text is the selection; an
/// empty text or a failure leads to the clipboard.
pub fn after_automation(a: Attempt) -> (r: ProbeStep)
    ensures
        match yielded(a) {
            Some(t) => r matches ProbeStep::Found(s) && s@ == t,
            None => r is TryClipboard,
        },
{
    match a {
        Attempt::Text(t) => {
            if t.as_str().is_empty() {
                ProbeStep::TryClipboard
            } else {
                ProbeStep::Found(t)
            }
        },
        Attempt::Failed => ProbeStep::TryClipboard,
    }
}

/// After the clipboard attempt: a non-empty text is the selection;
/// otherwise there is none and the selection is the empty text.
pub fn after_clipboard(a: Attempt) -> (r: String)
    ensures
        match yielded(a) {
            Some(t) => r@ == t,
            None => r@ == Seq::<char>::empty(),
        },
{
    match a {
        Attempt::Text(t) => {
            if t.as_str().is_empty() {
                String::new()
            } else {
                t
            }
        },
        Attempt::Failed => String::new(),
    }
}

/// What is put back on the clipboard once the selection has been copied.
#[derive(Clone, Copy, Debug, PartialEq, Eq)]
pub enum ClipboardRestore {
    /// The text that was there before.
    Text,
    /// The image that was there before.
    Image,
    /// Nothing: the clipboard is cleared.
    Clear,
}

/// The earlier clipboard content comes back: its text if it held text, else
/// its image if it held one, else the clipboard is cleared.
pub fn restore_plan(had_text: bool, had_image: bool) -> (r: ClipboardRestore)
    ensures
        had_text ==> r == ClipboardRestore::Text,
        !had_text && had_image ==> r == ClipboardRestore::Image,
        !had_text && !had_image ==> r == ClipboardRestore::Clear,
{
    if had_text {
        ClipboardRestore::Text
    } else if had_image {
        ClipboardRestore::Image
    } else {
        ClipboardRestore::Clear
    }
}

/// Why reading the selection through the clipboard failed.
#[derive(Clone, Copy, Debug, PartialEq, Eq)]
pub enum ClipboardFailure {
    /// The copy shortcut did not change the clipboard in time.
    CopyFailed,
    /// After the copy the clipboard held no text.
    NotText,
}

impl ClipboardFailure {
    /// The message that describes the failure.
    pub fn message(&self) -> (r: String)
        ensures
            *self == ClipboardFailure::CopyFailed ==> r@ == "Copy Failed"@,
            *self == ClipboardFailure::NotText ==> r@ == "New clipboard is not Text"@,
    {
        match self {
            ClipboardFailure::CopyFailed => String::from_str("Copy Failed"),
            ClipboardFailure::NotText => String::from_str("New clipboard is not Text"),
        }
    }
}

/// The selection read from the clipboard after the copy: its text trimmed of
/// white space, or `NotText` when the clipboard held no text.
pub fn copied_text(new_text: Option<&str>) -> (r: Result<String, ClipboardFailure>)
    ensures
        match new_text {
            Some(t) => r matches Ok(s) && s@ == trim_ws(t@),
            None => r == Err::<String, ClipboardFailure>(ClipboardFailure::NotText),
        },
{
    match new_text {
        Some(t) => Ok(trim_whitespace(t)),
        None => Err(ClipboardFailure::NotText),
    }
}

/// What one look at the clipboard decides while waiting for the copy.
#[derive(Clone, Copy, Debug, PartialEq, Eq)]
pub enum CopyPoll {
    /// The clipboard changed: the copy happened.
    Copied,
    /// The clipboard did not change in time: the copy failed.
    TimedOut,
    /// Look again after a pause.
    Wait,
}

/// The clipboard's sequence number tells whether it changed since the copy
/// shortcut was sent; a change wins over the timeout.
pub fn poll_copy(seq_before: u32, seq_now: u32, elapsed_ms: u64, timeout_ms: u64) -> (r: CopyPoll)
    ensures
        seq_now != seq_before ==> r == CopyPoll::Copied,
        seq_now == seq_before && elapsed_ms >= timeout_ms ==> r == CopyPoll::TimedOut,
        seq_now == seq_before && elapsed_ms < timeout_ms ==> r == CopyPoll::Wait,
{
    if seq_now != seq_before {
        CopyPoll::Copied
    } else if elapsed_ms >= timeout_ms {
        CopyPoll::TimedOut
    } else {
        CopyPoll::Wait
    }
}

} // verus!
