//! The ways in which a start can fail.

use vstd::prelude::*;
use vstd::string::StringExecFns;
use crate::text::{
    decimal,
    joined,
    lemma_occurs_in_middle,
    occurs_in,
    push_decimal,
    push_joined,
    push_signed_decimal,
    signed_decimal,
    texts,
};

verus! {

/// Why a start did not bring the backend up. Every one of these ends the
/// start attempt; none is retried.
#[derive(Clone, Debug, PartialEq, Eq)]
pub enum StartError {
    /// No port of the range could be bound.
    PortExhausted {
        /// The lowest port tried.
        start: u16,
        /// The highest port tried.
        end: u16,
    },
    /// The backend directory or its entry script is not on disk.
    PathResolution {
        /// Every path that was looked for, in the order of looking.
        tried: Vec<String>,
    },
    /// The operating system could not launch the interpreter.
    SpawnFailure {
        /// The operating system's own words.
        reason: String,
    },
    /// The backend did not answer in time. The child is left running.
    StartupTimeout {
        /// The port the backend was told to listen on.
        port: u16,
        /// The ceiling that elapsed, in milliseconds.
        timeout_ms: u64,
    },
    /// The child ended before it ever answered.
    EarlyExit {
        /// The exit code, where the child left one.
        code: Option<i32>,
        /// The first lines of what the child wrote to standard error.
        stderr: Vec<String>,
    },
    /// The port hint could not be written, so the shell cannot learn the port.
    IpcWriteFailure {
        /// The operating system's own words.
        reason: String,
    },
}

/// The mathematical content of a [`StartError`].
pub enum StartErrorView {
    PortExhausted { start: u16, end: u16 },
    PathResolution { tried: Seq<Seq<char>> },
    SpawnFailure { reason: Seq<char> },
    StartupTimeout { port: u16, timeout_ms: u64 },
    EarlyExit { code: Option<i32>, stderr: Seq<Seq<char>> },
    IpcWriteFailure { reason: Seq<char> },
}

impl View for StartError {
    type V = StartErrorView;

    open spec fn view(&self) -> StartErrorView {
        match self {
            StartError::PortExhausted { start, end } => StartErrorView::PortExhausted {
                start: *start,
                end: *end,
            },
            StartError::PathResolution { tried } => StartErrorView::PathResolution {
                tried: texts(tried@),
            },
            StartError::SpawnFailure { reason } => StartErrorView::SpawnFailure {
                reason: reason@,
            },
            StartError::StartupTimeout { port, timeout_ms } => StartErrorView::StartupTimeout {
                port: *port,
                timeout_ms: *timeout_ms,
            },
            StartError::EarlyExit { code, stderr } => StartErrorView::EarlyExit {
                code: *code,
                stderr: texts(stderr@),
            },
            StartError::IpcWriteFailure { reason } => StartErrorView::IpcWriteFailure {
                reason: reason@,
            },
        }
    }
}

impl StartErrorView {
    /// The sentence that reports the failure to a caller.
    pub open spec fn message_text(self) -> Seq<char> {
        match self {
            StartErrorView::PortExhausted { start, end } => "No available port between "@
                + decimal(start as nat) + " and "@ + decimal(end as nat),
            StartErrorView::PathResolution { tried } => "Python backend files not found; tried: "@
                + joined(tried, ", "@),
            StartErrorView::SpawnFailure { reason } => "Failed to start Python backend: "@ + reason,
            StartErrorView::StartupTimeout { port, timeout_ms } => "Python backend on port "@ + decimal(
                port as nat,
            ) + " did not become ready within "@ + decimal(timeout_ms as nat) + " ms"@,
            StartErrorView::EarlyExit { code, stderr } => {
                let head = match code {
                    Some(code) => "Python backend exited with code "@ + signed_decimal(code as int)
                        + " before becoming ready"@,
                    None => "Python backend exited before becoming ready"@,
                };
                if stderr.len() == 0 {
                    head
                } else {
                    head + ": "@ + joined(stderr, "\n"@)
                }
            },
            StartErrorView::IpcWriteFailure { reason } => "Failed to write port file: "@ + reason,
        }
    }
}

impl StartError {
    /// The sentence that reports the failure to a caller.
    pub fn message(&self) -> (message: String)
        ensures
            message@ == self@.message_text(),
    {
        match self {
            StartError::PortExhausted { start, end } => {
                let mut message = String::from_str("No available port between ");
                push_decimal(&mut message, *start as u64);
                message.append(" and ");
                push_decimal(&mut message, *end as u64);
                message
            },
            StartError::PathResolution { tried } => {
                let mut message = String::from_str("Python backend files not found; tried: ");
                push_joined(&mut message, tried, ", ");
                message
            },
            StartError::SpawnFailure { reason } => {
                let mut message = String::from_str("Failed to start Python backend: ");
                message.append(reason.as_str());
                message
            },
            StartError::StartupTimeout { port, timeout_ms } => {
                let mut message = String::from_str("Python backend on port ");
                push_decimal(&mut message, *port as u64);
                message.append(" did not become ready within ");
                push_decimal(&mut message, *timeout_ms);
                message.append(" ms");
                message
            },
            StartError::EarlyExit { code, stderr } => {
                let mut message = match code {
                    Some(code) => {
                        let mut head = String::from_str("Python backend exited with code ");
                        push_signed_decimal(&mut head, *code);
                        head.append(" before becoming ready");
                        head
                    },
                    None => String::from_str("Python backend exited before becoming ready"),
                };
                if stderr.len() > 0 {
                    message.append(": ");
                    push_joined(&mut message, stderr, "\n");
                }
                message
            },
            StartError::IpcWriteFailure { reason } => {
                let mut message = String::from_str("Failed to write port file: ");
                message.append(reason.as_str());
                message
            },
        }
    }
}

/// The report of a child that ended with an exit code shows that code,
/// sign and all digits, whatever the child wrote to standard error.
pub proof fn law_early_exit_message_shows_code(code: i32, stderr: Seq<Seq<char>>)
    ensures
        occurs_in(
            signed_decimal(code as int),
            (StartErrorView::EarlyExit { code: Some(code), stderr }).message_text(),
        ),
{
    let shown = signed_decimal(code as int);
    let before = "Python backend exited with code "@;
    let rest = " before becoming ready"@;
    let message = (StartErrorView::EarlyExit { code: Some(code), stderr }).message_text();
    if stderr.len() == 0 {
        lemma_occurs_in_middle(before, shown, rest);
    } else {
        let tail = rest + ": "@ + joined(stderr, "\n"@);
        assert(message =~= before + shown + tail);
        lemma_occurs_in_middle(before, shown, tail);
    }
}

/// Every text occurs in the joining of a list that holds it.
pub proof fn lemma_occurs_in_joined(items: Seq<Seq<char>>, separator: Seq<char>, index: int)
    requires
        0 <= index < items.len(),
    ensures
        occurs_in(items[index], joined(items, separator)),
    decreases items.len(),
{
    if items.len() == 1 {
        lemma_occurs_in_middle(Seq::empty(), items[0], Seq::empty());
        assert(Seq::<char>::empty() + items[0] + Seq::<char>::empty() =~= items[0]);
    } else if index == items.len() - 1 {
        let before = joined(items.drop_last(), separator) + separator;
        lemma_occurs_in_middle(before, items.last(), Seq::empty());
        assert(before + items.last() + Seq::<char>::empty() =~= joined(items, separator));
    } else {
        let front = joined(items.drop_last(), separator);
        lemma_occurs_in_joined(items.drop_last(), separator, index);
        let needle = items[index];
        assert(items.drop_last()[index] == needle);
        let at = choose|i: int|
            0 <= i && i + needle.len() <= front.len() && #[trigger] front.subrange(
                i,
                i + needle.len(),
            ) == needle;
        let whole = joined(items, separator);
        assert(whole.subrange(at, at + needle.len()) =~= front.subrange(at, at + needle.len()));
    }
}

/// The report of a failed path resolution names every path that was
/// looked for.
pub proof fn law_path_resolution_message_names_paths(tried: Seq<Seq<char>>, index: int)
    requires
        0 <= index < tried.len(),
    ensures
        occurs_in(tried[index], (StartErrorView::PathResolution { tried }).message_text()),
{
    let list = joined(tried, ", "@);
    lemma_occurs_in_joined(tried, ", "@, index);
    let needle = tried[index];
    let at = choose|i: int|
        0 <= i && i + needle.len() <= list.len() && #[trigger] list.subrange(i, i + needle.len())
            == needle;
    let lead = "Python backend files not found; tried: "@;
    let message = lead + list;
    let shifted = lead.len() + at;
    assert(message.subrange(shifted, shifted + needle.len()) =~= list.subrange(
        at,
        at + needle.len(),
    ));
}

} // verus!
