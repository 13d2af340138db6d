//! Containment of fatal violations at the boundary with the host.
//!
//! Nothing abnormal may travel back into the host's frames. Whatever ended an
//! entry point before its time is turned, here, into a poisoned holder, one
//! diagnostic and the absence of a result, which the entry point answers with
//! the code that is reserved for internal faults.

use vstd::prelude::*;
use vstd::slice::slice_to_vec;
use crate::holder::{mark_panicked, ModuleHolder};

verus! {

/// The code of an entry point that did its work.
pub const SUCCESS: i32 = 0;

/// The code of an entry point whose work failed in the ordinary way.
pub const FAILURE: i32 = 1;

/// The code of an entry point that was ended by a fatal violation. The host
/// should no longer rely on the module.
pub const FAULT: i32 = 65;

/// What an unwind carried with it.
#[derive(Debug)]
pub enum Payload {
    /// A message.
    Text(String),
    /// Something that is no text.
    Opaque,
}

/// One line for the host's diagnostics.
#[derive(Debug)]
pub struct Diagnostic {
    /// The name that the line is tagged with: that of the module or of the
    /// builtin, as the host knows it.
    pub label: Vec<u8>,
    /// What went wrong.
    pub message: String,
}

/// A diagnostic, by what it holds.
pub struct DiagnosticView {
    pub label: Seq<u8>,
    pub message: Seq<char>,
}

impl View for Diagnostic {
    type V = DiagnosticView;

    open spec fn view(&self) -> DiagnosticView {
        DiagnosticView { label: self.label@, message: self.message@ }
    }
}

/// The answer of an entry point to the host.
#[derive(Debug)]
pub struct Reply {
    /// The code that the host receives.
    pub code: i32,
    /// The line to report, if any.
    pub diagnostic: Option<Diagnostic>,
}

/// A reply, by what it holds.
pub struct ReplyView {
    pub code: int,
    pub diagnostic: Option<DiagnosticView>,
}

impl View for Reply {
    type V = ReplyView;

    open spec fn view(&self) -> ReplyView {
        ReplyView {
            code: self.code as int,
            diagnostic: match self.diagnostic {
                Some(d) => Some(d@),
                None => None,
            },
        }
    }
}

impl ReplyView {
    /// A reply with `code` and nothing to report.
    pub open spec fn silent(code: int) -> ReplyView {
        ReplyView { code, diagnostic: None }
    }

    /// A reply with `code` that reports `message` under `label`.
    pub open spec fn reporting(code: int, label: Seq<u8>, message: Seq<char>) -> ReplyView {
        ReplyView { code, diagnostic: Some(DiagnosticView { label, message }) }
    }

    /// The reply of an entry point that was ended by an unwind of which
    /// `detail` is known.
    pub open spec fn fault(label: Seq<u8>, detail: Seq<char>) -> ReplyView {
        ReplyView::reporting(FAULT as int, label, panic_message(detail))
    }
}

impl Payload {
    /// What is known of the unwind: the message that it carried, or that
    /// there is none.
    pub open spec fn detail(self) -> Seq<char> {
        match self {
            Payload::Text(msg) => msg@,
            Payload::Opaque => "no additional information"@,
        }
    }
}

/// The message that is reported for an unwind of which `detail` is known.
pub open spec fn panic_message(detail: Seq<char>) -> Seq<char> {
    "Panic: "@ + detail
}

/// Settles how the work of an entry point ended. Work that ran to its end
/// keeps its result, and nothing else happens. For work that an unwind
/// ended, the holder is poisoned, the payload's message, where it has one,
/// is reported under `name`, and there is no result.
pub fn handle_panic<U, H, R>(
    holder: &mut ModuleHolder<U, H>,
    name: &[u8],
    outcome: Result<R, Payload>,
) -> (settled: (Option<R>, Option<Diagnostic>))
    ensures
        match outcome {
            Ok(ret) => {
                &&& settled.0 == Some(ret)
                &&& settled.1 is None
                &&& final(holder)@ == old(holder)@
            },
            Err(payload) => {
                &&& settled.0 is None
                &&& settled.1 matches Some(d)
                &&& d@.label == name@
                &&& d@.message == panic_message(payload.detail())
                &&& final(holder)@ == old(holder)@.poison()
            },
        },
{
    match outcome {
        Ok(ret) => (Some(ret), None),
        Err(payload) => {
            mark_panicked(holder);
            let mut message = String::from_str("Panic: ");
            match payload {
                Payload::Text(msg) => message.append(msg.as_str()),
                Payload::Opaque => message.append("no additional information"),
            }
            (None, Some(Diagnostic { label: slice_to_vec(name), message }))
        },
    }
}

} // verus!
