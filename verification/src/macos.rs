//! The macOS clipboard strategy: the single native copy utility.

use vstd::prelude::*;
use crate::clipboard::{ClipboardRun, Mechanism};

verus! {

/// Begins a clipboard-write of `text` on macOS: exactly one candidate, the
/// native `pbcopy` utility with no arguments; its failure is the operation's
/// failure.
pub fn set_clipboard(text: String) -> (run: ClipboardRun)
    ensures
        run.wf(),
        run.text == text,
        !run.spec_finished(),
        run.next == 0,
        !run.any_started,
        !run.succeeded,
        run.candidates@.len() == 1,
        run.candidates@[0].command@ == "pbcopy"@,
        run.candidates@[0].args@.len() == 0,
{
    let mut candidates: Vec<Mechanism> = Vec::new();
    candidates.push(Mechanism { command: "pbcopy".to_owned(), args: Vec::new() });
    ClipboardRun::new(text, candidates)
}

} // verus!
