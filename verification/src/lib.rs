//! A small system-integration shim for a desktop application: it writes text
//! to the operating system clipboard through whichever external mechanism is
//! available on the current platform, and it resolves logical, possibly
//! relative storage paths against well-known base directories before the
//! surrounding application performs the file operation.
//!
//! The library holds the decision logic, fully verified: candidate fallback
//! for the clipboard, outcome-to-result mapping for child processes, the
//! scope-token table and path resolution. The surrounding application spawns
//! the processes and touches the filesystem, feeding outcomes back in.

use vstd::prelude::*;

pub mod clipboard;
pub mod linux;
pub mod macos;
pub mod store;
pub mod text;
pub mod windows;

verus! {

/// Builds the greeting shown by the demo command: the caller's name framed by
/// a fixed salutation.
pub fn greet(name: &str) -> (r: String)
    ensures
        r@ == "Hello, "@ + name@ + "! You've been greeted from Rust!"@,
{
    let mut r = String::new();
    r.append("Hello, ");
    r.append(name);
    r.append("! You've been greeted from Rust!");
    proof {
        assert(r@ =~= "Hello, "@ + name@ + "! You've been greeted from Rust!"@);
    }
    r
}

/// The message of a failed folder-picker dialog invocation, caused by
/// `cause`. The dialog itself belongs to the host shell; only its failure
/// wording is decided here.
pub fn dialog_error_message(cause: &str) -> (m: String)
    ensures
        m@ == "failed to open dialog: "@ + cause@,
        m@.len() > 0,
{
    proof {
        reveal_strlit("failed to open dialog: ");
    }
    let mut m = String::new();
    m.append("failed to open dialog: ");
    m.append(cause);
    proof {
        assert(m@ =~= "failed to open dialog: "@ + cause@);
    }
    m
}

} // verus!
