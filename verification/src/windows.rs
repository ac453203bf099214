//! The Windows clipboard strategy: the shell's built-in `clip` filter.

use vstd::prelude::*;
use crate::clipboard::{ClipboardRun, Mechanism};

verus! {

/// Begins a clipboard-write of `text` on Windows: exactly one candidate, the
/// command interpreter running its built-in `clip` filter; its failure is the
/// operation's failure.
pub fn set_clipboard(text: String) -> (run: ClipboardRun)
    ensures
        run.wf(),
        run.text == text,
        !run.spec_finished(),
        run.next == 0,
        !run.any_started,
        !run.succeeded,
        run.candidates@.len() == 1,
        run.candidates@[0].command@ == "cmd"@,
        run.candidates@[0].args@.len() == 2,
        run.candidates@[0].args@[0]@ == "/C"@,
        run.candidates@[0].args@[1]@ == "clip"@,
{
    let mut args: Vec<String> = Vec::new();
    args.push("/C".to_owned());
    args.push("clip".to_owned());
    let mut candidates: Vec<Mechanism> = Vec::new();
    candidates.push(Mechanism { command: "cmd".to_owned(), args });
    ClipboardRun::new(text, candidates)
}

} // verus!
