//! Clipboard-write decision logic.
//!
//! Setting the system clipboard goes through an external copy utility: the
//! text is piped to the child's standard input and success is a zero exit
//! status. No single utility exists everywhere, so a platform carries an
//! ordered list of candidate mechanisms and the first one that both starts
//! and exits successfully wins; only when every candidate has failed is the
//! last failure surfaced — and when no candidate ever started, because none
//! could spawn or none existed, the failure is instead the fixed message
//! that no clipboard mechanism is available.
//!
//! The library cannot spawn processes itself, so the exchange is split: a
//! [`ClipboardRun`] holds the text, the candidate list and the progress so
//! far, and the surrounding application alternates between asking for the
//! current candidate, attempting it, and recording the outcome, until the run
//! is finished. Every decision — which candidate is next, when the run ends,
//! what the final result is — is made and verified here.

use vstd::prelude::*;

verus! {

/// One way of setting the clipboard: an executable name and the fixed
/// argument list it is invoked with.
pub struct Mechanism {
    pub command: String,
    pub args: Vec<String>,
}

/// What happened when one candidate mechanism was attempted: the terminal
/// event of the spawn / write-stdin / wait sequence. Each failing variant
/// carries the underlying cause as text.
pub enum RunEvent {
    /// The executable could not be started.
    SpawnFailed(String),
    /// The child started but its standard input could not be obtained.
    StdinUnavailable,
    /// Writing the text to the child's standard input failed.
    WriteFailed(String),
    /// Waiting for the child to exit failed.
    WaitFailed(String),
    /// The child exited; `success` is whether the status was zero, `status`
    /// its textual rendering.
    Exited { success: bool, status: String },
}

/// The message reported when one attempt ends in `event`, as a sequence of
/// characters; meaningful only for failing events.
pub open spec fn spec_run_error(command: Seq<char>, event: RunEvent) -> Seq<char> {
    match event {
        RunEvent::SpawnFailed(e) => "failed to spawn "@ + command + ": "@ + e@,
        RunEvent::StdinUnavailable => command + " stdin unavailable"@,
        RunEvent::WriteFailed(e) => "failed to write to "@ + command + ": "@ + e@,
        RunEvent::WaitFailed(e) => command + " wait failed: "@ + e@,
        RunEvent::Exited { success, status } => command + " exited with status "@ + status@,
    }
}

/// Whether an attempt ending in `event` succeeded: only a zero exit status
/// counts.
pub open spec fn spec_run_success(event: RunEvent) -> bool {
    match event {
        RunEvent::Exited { success, status } => success,
        _ => false,
    }
}

/// Maps the terminal event of one attempt to the attempt's result: `Ok` for
/// a zero exit status, otherwise a non-empty message naming the executable
/// and the cause.
pub fn run_command_result(command: &str, event: RunEvent) -> (r: Result<(), String>)
    ensures
        r is Ok <==> spec_run_success(event),
        r matches Err(m) ==> m@ == spec_run_error(command@, event),
        r matches Err(m) ==> m@.len() > 0,
{
    proof {
        reveal_strlit("failed to spawn ");
        reveal_strlit(" stdin unavailable");
        reveal_strlit("failed to write to ");
        reveal_strlit(" wait failed: ");
        reveal_strlit(" exited with status ");
    }
    match event {
        RunEvent::SpawnFailed(e) => {
            let mut m = String::new();
            m.append("failed to spawn ");
            m.append(command);
            m.append(": ");
            m.append(e.as_str());
            proof {
                assert(m@ =~= spec_run_error(command@, RunEvent::SpawnFailed(e)));
            }
            Err(m)
        },
        RunEvent::StdinUnavailable => {
            let mut m = String::new();
            m.append(command);
            m.append(" stdin unavailable");
            proof {
                assert(m@ =~= spec_run_error(command@, RunEvent::StdinUnavailable));
            }
            Err(m)
        },
        RunEvent::WriteFailed(e) => {
            let mut m = String::new();
            m.append("failed to write to ");
            m.append(command);
            m.append(": ");
            m.append(e.as_str());
            proof {
                assert(m@ =~= spec_run_error(command@, RunEvent::WriteFailed(e)));
            }
            Err(m)
        },
        RunEvent::WaitFailed(e) => {
            let mut m = String::new();
            m.append(command);
            m.append(" wait failed: ");
            m.append(e.as_str());
            proof {
                assert(m@ =~= spec_run_error(command@, RunEvent::WaitFailed(e)));
            }
            Err(m)
        },
        RunEvent::Exited { success, status } => {
            if success {
                Ok(())
            } else {
                let mut m = String::new();
                m.append(command);
                m.append(" exited with status ");
                m.append(status.as_str());
                proof {
                    assert(m@ =~= spec_run_error(
                        command@,
                        RunEvent::Exited { success, status },
                    ));
                }
                Err(m)
            }
        },
    }
}

/// One clipboard-write operation in progress: the text to place on the
/// clipboard, the ordered candidate mechanisms, and how far the attempts have
/// come. Candidates before `next` have failed; `succeeded` records that the
/// candidate at `next` won; `any_started` records that some failed candidate
/// at least started (spawned) before failing, which decides whether
/// exhaustion surfaces the last cause or the no-mechanism message.
pub struct ClipboardRun {
    pub text: String,
    pub candidates: Vec<Mechanism>,
    pub next: usize,
    pub last_error: Option<String>,
    pub any_started: bool,
    pub succeeded: bool,
}

impl ClipboardRun {
    /// Well-formedness: progress stays within the candidate list, an error is
    /// retained exactly when some candidate has failed, a retained error is
    /// never empty, and a start can only have been seen on a failed
    /// candidate.
    pub open spec fn wf(self) -> bool {
        &&& self.next <= self.candidates@.len()
        &&& (self.last_error is Some <==> self.next > 0)
        &&& (self.last_error matches Some(e) ==> e@.len() > 0)
        &&& (self.any_started ==> self.next > 0)
        &&& (self.succeeded ==> self.next < self.candidates@.len())
    }

    /// A run is finished when a candidate has succeeded or none are left to
    /// try.
    pub open spec fn spec_finished(self) -> bool {
        self.succeeded || self.next >= self.candidates@.len()
    }

    /// The result of a finished run, over views: success if some candidate
    /// succeeded; otherwise the last failure observed, provided some failed
    /// candidate at least started; otherwise — no candidate ever started,
    /// because none could spawn or none existed — the fixed no-mechanism
    /// message.
    pub open spec fn spec_result(self) -> Result<(), Seq<char>> {
        if self.succeeded {
            Ok(())
        } else if self.any_started {
            match self.last_error {
                Some(e) => Err(e@),
                None => Err("no clipboard command available"@),
            }
        } else {
            Err("no clipboard command available"@)
        }
    }

    /// Begins a clipboard-write of `text` through `candidates`, to be tried
    /// in order.
    pub fn new(text: String, candidates: Vec<Mechanism>) -> (run: ClipboardRun)
        ensures
            run.wf(),
            run.text == text,
            run.candidates == candidates,
            run.next == 0,
            run.last_error is None,
            !run.any_started,
            !run.succeeded,
            !run.spec_finished() <==> candidates@.len() > 0,
    {
        ClipboardRun {
            text,
            candidates,
            next: 0,
            last_error: None,
            any_started: false,
            succeeded: false,
        }
    }

    /// Whether the run is over: a candidate succeeded, or every one failed.
    pub fn is_finished(&self) -> (b: bool)
        requires
            self.wf(),
        ensures
            b == self.spec_finished(),
    {
        self.succeeded || self.next >= self.candidates.len()
    }

    /// The text this run places on the clipboard; every attempt feeds exactly
    /// this text to its child.
    pub fn text(&self) -> (t: &String)
        ensures
            t == self.text,
    {
        &self.text
    }

    /// The candidate to attempt now.
    pub fn current(&self) -> (m: &Mechanism)
        requires
            self.wf(),
            !self.spec_finished(),
        ensures
            m == self.candidates@[self.next as int],
    {
        &self.candidates[self.next]
    }

    /// Records that the current candidate failed with the non-empty message
    /// `error`; `started` says whether the candidate at least spawned before
    /// failing. The run moves on to the next candidate and retains `error` as
    /// the latest cause.
    pub fn record_failure(&mut self, error: String, started: bool)
        requires
            old(self).wf(),
            !old(self).spec_finished(),
            error@.len() > 0,
        ensures
            final(self).wf(),
            spec_records_failure(*old(self), *final(self), error@, started),
    {
        proof {
            // `next` stays a valid index bound: the candidate count fits in
            // usize, and an unfinished run sits strictly below it.
            assert(self.candidates.len() == self.candidates@.len());
        }
        self.last_error = Some(error);
        self.any_started = self.any_started || started;
        self.next = self.next + 1;
    }

    /// Records that the current candidate succeeded; the run is finished and
    /// its result is success.
    pub fn record_success(&mut self)
        requires
            old(self).wf(),
            !old(self).spec_finished(),
        ensures
            final(self).wf(),
            spec_records_success(*old(self), *final(self)),
            final(self).spec_finished(),
            final(self).spec_result() == Ok::<(), Seq<char>>(()),
    {
        self.succeeded = true;
    }

    /// The result of a finished run: `Ok` if a candidate succeeded; otherwise
    /// the last failure message, provided some failed candidate at least
    /// started; otherwise the fixed message that no clipboard mechanism was
    /// available.
    pub fn into_result(self) -> (r: Result<(), String>)
        requires
            self.wf(),
            self.spec_finished(),
        ensures
            r is Ok <==> self.spec_result() is Ok,
            r matches Err(m) ==> Err::<(), Seq<char>>(m@) == self.spec_result(),
            r matches Err(m) ==> m@.len() > 0,
    {
        proof {
            reveal_strlit("no clipboard command available");
        }
        if self.succeeded {
            Ok(())
        } else if self.any_started {
            match self.last_error {
                Some(e) => Err(e),
                None => Err("no clipboard command available".to_owned()),
            }
        } else {
            Err("no clipboard command available".to_owned())
        }
    }
}

/// How a run changes when its current candidate fails with message `error`,
/// having started or not: the text and the candidates stay, the failure is
/// retained as the latest cause, a start is remembered, the run moves past
/// the candidate, and nothing has succeeded.
pub open spec fn spec_records_failure(
    pre: ClipboardRun,
    post: ClipboardRun,
    error: Seq<char>,
    started: bool,
) -> bool {
    &&& post.text == pre.text
    &&& post.candidates == pre.candidates
    &&& post.next == pre.next + 1
    &&& (post.last_error matches Some(e) && e@ == error)
    &&& post.any_started == (pre.any_started || started)
    &&& post.succeeded == pre.succeeded
}

/// How a run changes when its current candidate succeeds: only the success
/// flag moves; in particular the retained error of earlier failed candidates
/// no longer reaches the result, which is success.
pub open spec fn spec_records_success(pre: ClipboardRun, post: ClipboardRun) -> bool {
    &&& post.text == pre.text
    &&& post.candidates == pre.candidates
    &&& post.next == pre.next
    &&& post.last_error == pre.last_error
    &&& post.any_started == pre.any_started
    &&& post.succeeded
}

/// The first success wins: when a candidate fails and the one after it
/// succeeds, the run is finished with plain success — the result carries no
/// trace of the earlier failure.
pub proof fn lemma_first_success_wins(
    s0: ClipboardRun,
    error: Seq<char>,
    started: bool,
    s1: ClipboardRun,
    s2: ClipboardRun,
)
    requires
        s0.wf(),
        !s0.spec_finished(),
        spec_records_failure(s0, s1, error, started),
        !s1.spec_finished(),
        spec_records_success(s1, s2),
    ensures
        s2.spec_finished(),
        s2.spec_result() == Ok::<(), Seq<char>>(()),
{
}

/// Exhaustion is loud: a finished run in which no candidate succeeded yields
/// a non-empty error. When some failed candidate at least started, that error
/// is the last underlying cause observed; when none ever started — every
/// candidate failed to spawn, or none existed — it is the fixed message that
/// no clipboard mechanism was available.
pub proof fn lemma_exhaustion_error(s: ClipboardRun)
    requires
        s.wf(),
        s.spec_finished(),
        !s.succeeded,
    ensures
        s.spec_result() is Err,
        s.spec_result()->Err_0.len() > 0,
        s.any_started ==> Some(s.spec_result()->Err_0) == match s.last_error {
            Some(e) => Some(e@),
            None => None,
        },
        !s.any_started ==> s.spec_result() == Err::<(), Seq<char>>(
            "no clipboard command available"@,
        ),
{
    reveal_strlit("no clipboard command available");
}

/// The text of a run never changes while outcomes are recorded: what a
/// successful run placed on the clipboard is exactly the text it was begun
/// with.
pub proof fn lemma_text_preserved(
    s0: ClipboardRun,
    error: Seq<char>,
    started: bool,
    s1: ClipboardRun,
)
    requires
        spec_records_failure(s0, s1, error, started) || spec_records_success(s0, s1),
    ensures
        s1.text == s0.text,
{
}

/// The narrow capability the clipboard writer needs from its surroundings:
/// run one mechanism's executable with its arguments, feed `text` to its
/// standard input, await its exit, and report what happened. Implementations
/// live outside the library — a real process spawner, or a stand-in under
/// test — and nothing is promised of the outcome: the writer is verified
/// against every event a runner can report.
pub trait CommandRunner {
    fn run_command(&mut self, mechanism: &Mechanism, text: &str) -> RunEvent;
}

/// Whether an attempt's terminal event shows the candidate at least started:
/// everything past a spawn failure means the child existed.
pub open spec fn spec_event_started(event: RunEvent) -> bool {
    !(event is SpawnFailed)
}

/// Tests whether an attempt's terminal event shows the candidate started.
pub fn event_started(event: &RunEvent) -> (b: bool)
    ensures
        b == spec_event_started(*event),
{
    match event {
        RunEvent::SpawnFailed(_) => false,
        _ => true,
    }
}

/// The view of one attempt's result.
pub open spec fn spec_result_view(r: Result<(), String>) -> Result<(), Seq<char>> {
    match r {
        Ok(u) => Ok(()),
        Err(m) => Err(m@),
    }
}

/// What one attempted candidate came to: it won, it started (spawned) but
/// failed with the given message, or it never started and failed with the
/// given message.
pub enum AttemptRecord {
    Succeeded,
    FailedAfterStart(Seq<char>),
    FailedToStart(Seq<char>),
}

/// Whether an attempt failed.
pub open spec fn spec_attempt_failed(a: AttemptRecord) -> bool {
    !(a is Succeeded)
}

/// The message a failed attempt left (meaningless for a success).
pub open spec fn spec_attempt_message(a: AttemptRecord) -> Seq<char> {
    match a {
        AttemptRecord::Succeeded => Seq::empty(),
        AttemptRecord::FailedAfterStart(m) => m,
        AttemptRecord::FailedToStart(m) => m,
    }
}

/// A complete record of one fallback pass over `n` candidates: at most `n`
/// attempts were made, every attempt before the last failed, a failing
/// attempt left a non-empty message, and the pass stopped before the `n`-th
/// candidate only on a success.
pub open spec fn spec_attempt_record(n: int, outcomes: Seq<AttemptRecord>) -> bool {
    &&& outcomes.len() <= n
    &&& forall|i: int| 0 <= i < outcomes.len() - 1 ==> spec_attempt_failed(#[trigger] outcomes[i])
    &&& forall|i: int|
        0 <= i < outcomes.len() ==> (spec_attempt_failed(#[trigger] outcomes[i])
            ==> spec_attempt_message(outcomes[i]).len() > 0)
    &&& outcomes.len() < n ==> outcomes.len() > 0 && outcomes.last() is Succeeded
}

/// The `i`-th attempt's message is one the attempt judgement produces for the
/// `i`-th candidate: a failure before starting carries a spawn-failure
/// message for that candidate's command, and a failure after starting carries
/// the message of some non-spawn, non-success event for it.
pub open spec fn spec_attempt_explained(
    candidates: Seq<Mechanism>,
    outcomes: Seq<AttemptRecord>,
    i: int,
) -> bool
    recommends
        0 <= i < outcomes.len(),
        outcomes.len() <= candidates.len(),
{
    match outcomes[i] {
        AttemptRecord::Succeeded => true,
        AttemptRecord::FailedToStart(e) => exists|ev: RunEvent|
            ev is SpawnFailed && e == spec_run_error(candidates[i].command@, ev),
        AttemptRecord::FailedAfterStart(e) => exists|ev: RunEvent|
            !(ev is SpawnFailed) && !spec_run_success(ev) && e == spec_run_error(
                candidates[i].command@,
                ev,
            ),
    }
}

/// Every attempt in the record is explained by its own candidate.
pub open spec fn spec_attempts_explained(
    candidates: Seq<Mechanism>,
    outcomes: Seq<AttemptRecord>,
) -> bool {
    forall|i: int| 0 <= i < outcomes.len() ==> #[trigger] spec_attempt_explained(
        candidates,
        outcomes,
        i,
    )
}

/// The result a fallback pass with record `outcomes` yields: success as soon
/// as any attempt succeeded; otherwise the last failure observed, provided
/// some failed attempt at least started; otherwise — no candidate ever
/// started, because none could spawn or none existed — the fixed
/// no-mechanism message.
pub open spec fn spec_fallback_result(outcomes: Seq<AttemptRecord>) -> Result<(), Seq<char>> {
    if outcomes.len() == 0 {
        Err("no clipboard command available"@)
    } else if outcomes.last() is Succeeded {
        Ok(())
    } else if exists|i: int|
        0 <= i < outcomes.len() && (#[trigger] outcomes[i]) is FailedAfterStart {
        Err(spec_attempt_message(outcomes.last()))
    } else {
        Err("no clipboard command available"@)
    }
}

/// Attempts a fresh run's candidates in priority order through `runner`,
/// feeding each the run's text: the first candidate to both run and exit
/// successfully wins; when every candidate has failed the last failure is
/// surfaced, unless none ever started, in which case no mechanism was
/// available. The result is exactly what some complete attempt record of the
/// pass — each failure message explained by its own candidate — yields.
pub fn set_clipboard_through<R: CommandRunner>(run: ClipboardRun, runner: &mut R) -> (r: Result<
    (),
    String,
>)
    requires
        run.wf(),
        run.next == 0,
        !run.succeeded,
    ensures
        exists|outcomes: Seq<AttemptRecord>|
            {
                &&& #[trigger] spec_attempt_record(run.candidates@.len() as int, outcomes)
                &&& spec_attempts_explained(run.candidates@, outcomes)
                &&& spec_result_view(r) == spec_fallback_result(outcomes)
            },
        r matches Err(m) ==> m@.len() > 0,
        run.candidates@.len() == 0 ==> spec_result_view(r) == Err::<(), Seq<char>>(
            "no clipboard command available"@,
        ),
{
    let mut run = run;
    let ghost candidates = run.candidates@;
    let ghost mut outcomes: Seq<AttemptRecord> = Seq::empty();
    while !run.is_finished()
        invariant
            run.wf(),
            run.candidates@ == candidates,
            !run.succeeded ==> outcomes.len() == run.next,
            run.succeeded ==> outcomes.len() == run.next + 1 && outcomes.last() is Succeeded,
            forall|i: int|
                0 <= i < outcomes.len() ==> (((#[trigger] outcomes[i]) is Succeeded) <==> (i
                    == outcomes.len() - 1 && run.succeeded)),
            forall|i: int|
                0 <= i < outcomes.len() ==> (spec_attempt_failed(#[trigger] outcomes[i])
                    ==> spec_attempt_message(outcomes[i]).len() > 0),
            !run.succeeded && run.next > 0 ==> (run.last_error matches Some(e)
                && spec_attempt_message(outcomes.last()) == e@),
            run.any_started <==> exists|i: int|
                0 <= i < outcomes.len() && (#[trigger] outcomes[i]) is FailedAfterStart,
            spec_attempts_explained(candidates, outcomes),
        decreases candidates.len() - run.next + (if run.succeeded { 0int } else { 1int }),
    {
        let event = runner.run_command(run.current(), run.text().as_str());
        let ghost ev = event;
        let started = event_started(&event);
        let command = run.current().command.as_str();
        let ghost at = run.next as int;
        match run_command_result(command, event) {
            Ok(()) => {
                proof {
                    let prev = outcomes;
                    outcomes = outcomes.push(AttemptRecord::Succeeded);
                    assert(forall|i: int| 0 <= i < prev.len() ==> outcomes[i] == prev[i]);
                    assert(spec_attempt_explained(candidates, outcomes, prev.len() as int));
                    assert(forall|i: int|
                        0 <= i < prev.len() && spec_attempt_explained(candidates, prev, i)
                            ==> #[trigger] spec_attempt_explained(candidates, outcomes, i));
                }
                run.record_success();
            },
            Err(error) => {
                proof {
                    let prev = outcomes;
                    if started {
                        outcomes = outcomes.push(AttemptRecord::FailedAfterStart(error@));
                    } else {
                        outcomes = outcomes.push(AttemptRecord::FailedToStart(error@));
                    }
                    assert(forall|i: int| 0 <= i < prev.len() ==> outcomes[i] == prev[i]);
                    assert(error@ == spec_run_error(candidates[at].command@, ev));
                    assert(!spec_run_success(ev));
                    assert(spec_attempt_explained(candidates, outcomes, at));
                    assert(forall|i: int|
                        0 <= i < prev.len() && spec_attempt_explained(candidates, prev, i)
                            ==> #[trigger] spec_attempt_explained(candidates, outcomes, i));
                    if started {
                        assert(outcomes[outcomes.len() - 1] is FailedAfterStart);
                    }
                }
                run.record_failure(error, started);
            },
        }
    }
    proof {
        assert(spec_attempt_record(candidates.len() as int, outcomes));
    }
    let r = run.into_result();
    proof {
        assert(spec_result_view(r) == spec_fallback_result(outcomes));
    }
    r
}

} // verus!
