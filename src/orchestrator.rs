use vstd::prelude::*;
use crate::error::CopyError;
use crate::outcome::{check_outcome, decode_clipboard, RunOutcome};
use crate::step::{step_order, Delays, Step, GRACE_PERIOD_MS, SETTLE_DELAY_MS};
use crate::text::{lossy_text, utf8_text};

verus! {

/// Where a run stands: what it waits for next.
#[derive(Clone, Copy, Debug, PartialEq, Eq, Structural)]
pub enum Phase {
    /// The grace period is being waited out.
    AwaitGrace,
    /// The select-all keystroke was launched.
    AwaitSelectAll,
    /// The delay after the select-all keystroke is being waited out.
    AwaitSelectSettle,
    /// The copy keystroke was launched.
    AwaitCopy,
    /// The delay after the copy keystroke is being waited out.
    AwaitCopySettle,
    /// The clipboard read was launched.
    AwaitRead,
    /// The run handed out its result; `succeeded` tells whether it was text.
    Finished { succeeded: bool },
}

/// What the caller reports back after performing an action.
#[derive(Debug)]
pub enum Event {
    /// The requested wait is over.
    Slept,
    /// The requested tool was launched, with this outcome.
    Ran { outcome: RunOutcome },
}

/// What the caller is to do next.
#[derive(Debug)]
pub enum Action {
    /// Wait this many milliseconds, then report `Event::Slept`.
    Sleep { ms: u64 },
    /// Launch the tool of `step`, wait for it to exit, collect both of its
    /// outputs, and report `Event::Ran`.
    Launch { step: Step },
    /// The run is over: hand `result` to the user.
    Finish { result: Result<String, CopyError> },
}

/// Whether a tool ran and exited with success.
pub open spec fn outcome_succeeded(o: RunOutcome) -> bool {
    o matches RunOutcome::Exited { success: true, .. }
}

/// Whether `e` is the error that a failed launch of `step` ends the run with.
pub open spec fn failure_error(step: Step, o: RunOutcome, e: CopyError) -> bool {
    match o {
        RunOutcome::LaunchFailed { reason } => e matches CopyError::ToolLaunch {
            step: s,
            reason: m,
        } && s == step && m@ == reason@,
        RunOutcome::Exited { stderr, .. } => e matches CopyError::ToolExecution {
            step: s,
            stderr: m,
        } && s == step && m@ == lossy_text(stderr@),
    }
}

/// Whether `r` is the result of a run whose clipboard read printed `stdout`.
pub open spec fn clipboard_result(stdout: Seq<u8>, r: Result<String, CopyError>) -> bool {
    match r {
        Ok(t) => utf8_text(stdout) == Some(t@),
        Err(e) => utf8_text(stdout) is None && e is TextDecode,
    }
}

/// The phase that waits for the outcome of `step`.
pub open spec fn awaiting(step: Step) -> Phase {
    match step {
        Step::SelectAll => Phase::AwaitSelectAll,
        Step::Copy => Phase::AwaitCopy,
        Step::ReadClipboard => Phase::AwaitRead,
    }
}

/// The phase that waits out the delay after `step`.
pub open spec fn settling(step: Step) -> Phase {
    match step {
        Step::SelectAll => Phase::AwaitSelectSettle,
        _ => Phase::AwaitCopySettle,
    }
}

/// Drives one run. Each run launches at most the three steps, in their
/// order, and launches none after one has failed.
pub struct Orchestrator {
    delays: Delays,
    phase: Phase,
    /// The steps launched so far, in order.
    launched: Ghost<Seq<Step>>,
    /// The milliseconds of waiting requested so far.
    slept: Ghost<int>,
}

impl Orchestrator {
    pub closed spec fn delays_spec(&self) -> Delays {
        self.delays
    }

    pub closed spec fn phase_spec(&self) -> Phase {
        self.phase
    }

    /// The steps launched so far, in order.
    pub closed spec fn launched(&self) -> Seq<Step> {
        self.launched@
    }

    /// The milliseconds of waiting requested so far.
    pub closed spec fn slept_ms(&self) -> int {
        self.slept@
    }

    /// How many steps have been launched when a run that has not finished
    /// stands in `p`.
    pub open spec fn launches_before(p: Phase) -> int {
        match p {
            Phase::AwaitGrace => 0,
            Phase::AwaitSelectAll | Phase::AwaitSelectSettle => 1,
            Phase::AwaitCopy | Phase::AwaitCopySettle => 2,
            _ => 3,
        }
    }

    /// How many settle delays have been requested when a run that has not
    /// finished stands in `p`.
    pub open spec fn settles_before(p: Phase) -> int {
        match p {
            Phase::AwaitGrace | Phase::AwaitSelectAll => 0,
            Phase::AwaitSelectSettle | Phase::AwaitCopy => 1,
            _ => 2,
        }
    }

    pub open spec fn wf(&self) -> bool {
        let n = self.launched().len();
        let d = self.delays_spec();
        &&& n <= 3
        &&& self.launched() == step_order().take(n as int)
        &&& match self.phase_spec() {
            Phase::Finished { succeeded: true } => n == 3 && self.slept_ms() == d.successful_run_ms(),
            Phase::Finished { succeeded: false } => n >= 1 && self.slept_ms() == d.grace_ms + (n - 1) * d.settle_ms,
            p => n == Self::launches_before(p) && self.slept_ms() == d.grace_ms + Self::settles_before(p) * d.settle_ms,
        }
    }

    /// Whether the run waits for `e` now.
    pub open spec fn accepts_spec(&self, e: &Event) -> bool {
        match self.phase_spec() {
            Phase::AwaitGrace | Phase::AwaitSelectSettle | Phase::AwaitCopySettle => e is Slept,
            Phase::AwaitSelectAll | Phase::AwaitCopy | Phase::AwaitRead => e is Ran,
            Phase::Finished { .. } => false,
        }
    }

    /// Begins a run: the first action is the grace period.
    pub fn start(delays: Delays) -> (r: (Orchestrator, Action))
        ensures
            r.0.wf(),
            r.0.delays_spec() == delays,
            r.0.phase_spec() == Phase::AwaitGrace,
            r.0.launched() == Seq::<Step>::empty(),
            r.0.slept_ms() == delays.grace_ms,
            r.1 matches Action::Sleep { ms } && ms == delays.grace_ms,
    {
        let o = Orchestrator {
            delays,
            phase: Phase::AwaitGrace,
            launched: Ghost(Seq::empty()),
            slept: Ghost(delays.grace_ms as int),
        };
        assert(o.launched() =~= step_order().take(0));
        (o, Action::Sleep { ms: delays.grace_ms })
    }

    pub fn phase(&self) -> (r: Phase)
        ensures
            r == self.phase_spec(),
    {
        self.phase
    }

    pub fn delays(&self) -> (r: Delays)
        ensures
            r == self.delays_spec(),
    {
        self.delays
    }

    pub fn is_finished(&self) -> (r: bool)
        ensures
            r == self.phase_spec() is Finished,
    {
        match self.phase {
            Phase::Finished { .. } => true,
            _ => false,
        }
    }

    /// Whether the run waits for `e` now.
    pub fn accepts(&self, e: &Event) -> (r: bool)
        ensures
            r == self.accepts_spec(e),
    {
        let slept = match e {
            Event::Slept => true,
            Event::Ran { .. } => false,
        };
        match self.phase {
            Phase::AwaitGrace | Phase::AwaitSelectSettle | Phase::AwaitCopySettle => slept,
            Phase::AwaitSelectAll | Phase::AwaitCopy | Phase::AwaitRead => !slept,
            Phase::Finished { .. } => false,
        }
    }
    /// Takes the report of the last action and hands out the next one.
    ///
    /// After a wait, the next step in order is launched. After a launch that
    /// failed, the run finishes with the error that says which step failed
    /// and how. After a keystroke that succeeded, the settle delay is
    /// requested. After a clipboard read that succeeded, the run finishes
    /// with the decoded text, or with a decoding error.
    pub fn advance(&mut self, event: Event) -> (a: Action)
        requires
            old(self).wf(),
            old(self).accepts_spec(&event),
        ensures
            final(self).wf(),
            final(self).delays_spec() == old(self).delays_spec(),
            match event {
                Event::Slept => {
                    let next = step_order()[old(self).launched().len() as int];
                    &&& a matches Action::Launch { step } && step == next
                    &&& final(self).launched() == old(self).launched().push(next)
                    &&& final(self).slept_ms() == old(self).slept_ms()
                    &&& final(self).phase_spec() == awaiting(next)
                },
                Event::Ran { outcome } => {
                    let step = old(self).launched().last();
                    &&& final(self).launched() == old(self).launched()
                    &&& if !outcome_succeeded(outcome) {
                        &&& a matches Action::Finish { result: Err(e) } && failure_error(step, outcome, e)
                        &&& final(self).phase_spec() == (Phase::Finished { succeeded: false })
                        &&& final(self).slept_ms() == old(self).slept_ms()
                    } else if step != Step::ReadClipboard {
                        &&& a matches Action::Sleep { ms } && ms == old(self).delays_spec().settle_ms
                        &&& final(self).phase_spec() == settling(step)
                        &&& final(self).slept_ms() == old(self).slept_ms() + old(self).delays_spec().settle_ms
                    } else {
                        &&& a matches Action::Finish { result } && clipboard_result(
                            outcome->Exited_stdout@,
                            result,
                        ) && final(self).phase_spec() == (Phase::Finished { succeeded: result is Ok })
                        &&& final(self).slept_ms() == old(self).slept_ms()
                    }
                },
            },
    {
        match event {
            Event::Slept => {
                let step = match self.phase {
                    Phase::AwaitGrace => Step::SelectAll,
                    Phase::AwaitSelectSettle => Step::Copy,
                    _ => Step::ReadClipboard,
                };
                self.phase = match step {
                    Step::SelectAll => Phase::AwaitSelectAll,
                    Step::Copy => Phase::AwaitCopy,
                    Step::ReadClipboard => Phase::AwaitRead,
                };
                self.launched = Ghost(self.launched@.push(step));
                assert(self.launched@ =~= step_order().take(self.launched@.len() as int));
                Action::Launch { step }
            },
            Event::Ran { outcome } => {
                let step = match self.phase {
                    Phase::AwaitSelectAll => Step::SelectAll,
                    Phase::AwaitCopy => Step::Copy,
                    _ => Step::ReadClipboard,
                };
                assert(step == self.launched@.last());
                match check_outcome(step, outcome) {
                    Err(e) => {
                        self.phase = Phase::Finished { succeeded: false };
                        Action::Finish { result: Err(e) }
                    },
                    Ok(stdout) => match step {
                        Step::ReadClipboard => {
                            let result = decode_clipboard(stdout);
                            let succeeded = match &result {
                                Ok(_) => true,
                                Err(_) => false,
                            };
                            self.phase = Phase::Finished { succeeded };
                            Action::Finish { result }
                        },
                        _ => {
                            self.phase = if step == Step::SelectAll {
                                Phase::AwaitSelectSettle
                            } else {
                                Phase::AwaitCopySettle
                            };
                            self.slept = Ghost(self.slept@ + self.delays.settle_ms);
                            Action::Sleep { ms: self.delays.settle_ms }
                        },
                    },
                }
            },
        }
    }
}

/// The steps that a run has launched are the first of select-all, copy and
/// clipboard read, in that order: at most three, none twice, none skipped.
pub proof fn lemma_launches_in_order(o: &Orchestrator)
    requires
        o.wf(),
    ensures
        o.launched().len() <= step_order().len(),
        forall|i: int| 0 <= i < o.launched().len() ==> #[trigger] o.launched()[i] == step_order()[i],
{
}

/// A finished run takes no further report, so it launches nothing more:
/// after a step fails, no later step runs.
pub proof fn lemma_finished_run_is_over(o: &Orchestrator, e: &Event)
    requires
        o.phase_spec() is Finished,
    ensures
        !o.accepts_spec(e),
{
}

/// A run that ends with the clipboard's text has launched all three steps,
/// and has requested the grace period and two settle delays in waits; with
/// the standard delays, that is at least three seconds and two tenths.
pub proof fn lemma_successful_run_waits(o: &Orchestrator)
    requires
        o.wf(),
        o.phase_spec() == (Phase::Finished { succeeded: true }),
    ensures
        o.launched() == step_order(),
        o.slept_ms() == o.delays_spec().grace_ms + 2 * o.delays_spec().settle_ms,
        o.delays_spec() == (Delays { grace_ms: GRACE_PERIOD_MS, settle_ms: SETTLE_DELAY_MS })
            ==> o.slept_ms() >= GRACE_PERIOD_MS + 2 * SETTLE_DELAY_MS,
{
    assert(step_order().take(3) =~= step_order());
}

} // verus!
