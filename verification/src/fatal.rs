//! Violations of the contract with the host that end an entry point at once.

use vstd::prelude::*;

verus! {

/// A broken invariant of the boundary. None of these is an error that the
/// plugin can recover from: each one ends the running entry point and is
/// contained at the boundary, where it poisons the module holder.
#[derive(Clone, Copy, Debug, PartialEq, Eq, Structural)]
pub enum Fatal {
    /// An argument of a builtin call is not valid UTF-8.
    ParseArg,
    /// The name of the invoked builtin is not valid UTF-8.
    ParseName,
    /// No module instance is installed.
    NoModule,
    /// The dispatch table has no handler under the invoked name.
    NoBuiltin,
}

impl Fatal {
    /// The text that describes the violation in diagnostics.
    pub open spec fn text(self) -> Seq<char> {
        match self {
            Fatal::ParseArg => "Failed to parse arg"@,
            Fatal::ParseName => "Failed to parse binary name"@,
            Fatal::NoModule => "No module set"@,
            Fatal::NoBuiltin => "Failed to find binary name"@,
        }
    }

    /// The text that describes the violation in diagnostics.
    pub fn message(self) -> (msg: &'static str)
        ensures
            msg@ == self.text(),
    {
        match self {
            Fatal::ParseArg => "Failed to parse arg",
            Fatal::ParseName => "Failed to parse binary name",
            Fatal::NoModule => "No module set",
            Fatal::NoBuiltin => "Failed to find binary name",
        }
    }
}

} // verus!
