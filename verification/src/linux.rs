//! The clipboard strategy for Linux and the other Unix desktops: no single
//! copy utility exists across display servers, so an ordered list of
//! candidates is tried — the Wayland copy tool first, then the two X
//! selection tools — and the first to start and exit successfully wins.

use vstd::prelude::*;
use crate::clipboard::{ClipboardRun, Mechanism};

verus! {

/// Begins a clipboard-write of `text` on a Unix desktop, with the candidates
/// `wl-copy`, then `xclip -selection clipboard`, then
/// `xsel --clipboard --input`, in that priority order.
pub fn set_clipboard(text: String) -> (run: ClipboardRun)
    ensures
        run.wf(),
        run.text == text,
        !run.spec_finished(),
        run.next == 0,
        !run.any_started,
        !run.succeeded,
        run.candidates@.len() == 3,
        run.candidates@[0].command@ == "wl-copy"@,
        run.candidates@[0].args@.len() == 0,
        run.candidates@[1].command@ == "xclip"@,
        run.candidates@[1].args@.len() == 2,
        run.candidates@[1].args@[0]@ == "-selection"@,
        run.candidates@[1].args@[1]@ == "clipboard"@,
        run.candidates@[2].command@ == "xsel"@,
        run.candidates@[2].args@.len() == 2,
        run.candidates@[2].args@[0]@ == "--clipboard"@,
        run.candidates@[2].args@[1]@ == "--input"@,
{
    let mut candidates: Vec<Mechanism> = Vec::new();
    candidates.push(Mechanism { command: "wl-copy".to_owned(), args: Vec::new() });
    let mut xclip_args: Vec<String> = Vec::new();
    xclip_args.push("-selection".to_owned());
    xclip_args.push("clipboard".to_owned());
    candidates.push(Mechanism { command: "xclip".to_owned(), args: xclip_args });
    let mut xsel_args: Vec<String> = Vec::new();
    xsel_args.push("--clipboard".to_owned());
    xsel_args.push("--input".to_owned());
    candidates.push(Mechanism { command: "xsel".to_owned(), args: xsel_args });
    ClipboardRun::new(text, candidates)
}

} // verus!
