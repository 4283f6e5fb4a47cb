//! The helper's fatal error kinds and the messages it aborts with.
//!
//! Every kind here is fatal: the helper does not retry, and a single
//! failure aborts the whole invocation. A failed manifest lookup for the
//! display name is the one non-fatal condition; it is modelled as an
//! absent optional value and degrades to a placeholder name instead of
//! appearing here.

use vstd::prelude::*;

verus! {

/// The fatal failure kinds of one invocation.
#[derive(Clone, Copy, Debug, PartialEq, Eq, Structural)]
pub enum ErrorKind {
    /// The program location does not denote an existing directory.
    Resolution,
    /// The build tool could not be started.
    Spawn,
    /// Reading one of the tool's output streams failed mid-relay.
    StreamRead,
    /// The tool exited with a non-zero status, or waiting on it failed.
    BuildFailed,
}

/// The abort message for a fatal error, naming its subject: the original
/// location for a resolution failure, the program's display name for the
/// others.
pub open spec fn spec_fatal_message(kind: ErrorKind, subject: Seq<char>) -> Seq<char> {
    match kind {
        ErrorKind::Resolution => "Failed to get the absolute path of the program directory `"@
            + subject + "`."@,
        ErrorKind::Spawn => "Failed to build `"@ + subject + "`."@,
        ErrorKind::StreamRead => "Failed to relay the build output of `"@ + subject + "`."@,
        ErrorKind::BuildFailed => "Failed to build `"@ + subject + "`."@,
    }
}

/// Render the abort message for a fatal error.
pub fn fatal_message(kind: ErrorKind, subject: &str) -> (r: String)
    ensures
        r@ == spec_fatal_message(kind, subject@),
{
    let mut s: String;
    match kind {
        ErrorKind::Resolution => {
            s = "Failed to get the absolute path of the program directory `".to_owned();
        },
        ErrorKind::Spawn => {
            s = "Failed to build `".to_owned();
        },
        ErrorKind::StreamRead => {
            s = "Failed to relay the build output of `".to_owned();
        },
        ErrorKind::BuildFailed => {
            s = "Failed to build `".to_owned();
        },
    }
    s.append(subject);
    s.append("`.");
    s
}

} // verus!
