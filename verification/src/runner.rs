//! The run of a plan: from what the driver reports to what it does next.
//!
//! A driver starts a run with `Event::Begin`, carries out the step that a
//! `Directive::Perform` names, and reports how it ended. The run hands out
//! the steps in order, stops at the first failure, and never resumes.

use crate::error::WorkflowError;
use crate::plan::{compute, Ending, Plan, PlanView, Step, StepView, Task};
use vstd::prelude::*;

verus! {

/// The exit status of a command that completed.
pub const EXIT_SUCCESS: i32 = 0;

/// The exit status of a verification that found the proof invalid.
pub const EXIT_PROOF_INVALID: i32 = 400;

/// Where a run stands.
#[derive(Clone, Copy, Debug, PartialEq, Eq, Structural)]
pub enum Progress {
    /// Nothing has been handed out yet.
    Ready,
    /// The step at position `step` of the plan is being carried out.
    Awaiting { step: usize },
    /// The run has finished or was aborted.
    Stopped,
}

/// What the driver reports.
#[derive(Clone, Copy, Debug, PartialEq, Eq, Structural)]
pub enum Event {
    /// The run is to start.
    Begin,
    /// The step in flight was carried out.
    Succeeded,
    /// The engine carried out a proof check and answered.
    Answered { valid: bool },
    /// The step in flight could not be carried out.
    Failed,
}

/// How a run ends where it is not aborted.
#[derive(Clone, Copy, Debug, PartialEq, Eq, Structural)]
pub enum Outcome {
    /// Every step was carried out; a checked proof is valid.
    Completed,
    /// The engine checked the proof and found it invalid.
    ProofInvalid,
}

/// What the driver does next.
#[derive(Clone, Copy, Debug, PartialEq, Eq, Structural)]
pub enum Directive {
    /// Carry out the step at position `step` of the plan and report back.
    Perform { step: usize },
    /// Report `outcome` and exit with its status.
    Finish { outcome: Outcome },
    /// Give up with `error`; nothing more is to be done.
    Abort { error: WorkflowError },
}

/// The exit status that goes with `outcome`.
pub open spec fn exit_status(outcome: Outcome) -> i32 {
    match outcome {
        Outcome::Completed => EXIT_SUCCESS,
        Outcome::ProofInvalid => EXIT_PROOF_INVALID,
    }
}

/// The error of a run whose step at position `index` failed: by what the
/// step was doing.
pub open spec fn failure_of(step: StepView, index: usize) -> WorkflowError {
    match step {
        StepView::Load { .. } => WorkflowError::InputUnavailable { step: index },
        StepView::Compute { .. } => WorkflowError::EngineFailure { step: index },
        StepView::Store { .. } => WorkflowError::OutputFailure { step: index },
    }
}

/// A run that stops with `error`.
pub open spec fn halt(error: WorkflowError) -> (Progress, Directive) {
    (Progress::Stopped, Directive::Abort { error })
}

/// Hands out the step at position `next`, or ends the run as the plan says
/// where no step is left.
pub open spec fn issue(plan: PlanView, next: int) -> (Progress, Directive) {
    if 0 <= next < plan.steps.len() && next <= usize::MAX {
        (Progress::Awaiting { step: next as usize }, Directive::Perform { step: next as usize })
    } else {
        match plan.ending {
            Ending::Complete => (
                Progress::Stopped,
                Directive::Finish { outcome: Outcome::Completed },
            ),
            Ending::Refuse { error } => halt(error),
        }
    }
}

/// The run after `event`, and what the driver does next.
///
/// A run starts on `Begin`. A step that succeeded is followed by the next
/// one; a proof check is answered, not merely succeeded, and an invalid proof
/// finishes the run with `ProofInvalid`. A failed step aborts the run with
/// the error of its kind. Every other report aborts it with
/// `UnexpectedEvent`, and so does any report to a run that has stopped.
pub open spec fn transition(plan: PlanView, progress: Progress, event: Event) -> (
    Progress,
    Directive,
) {
    match progress {
        Progress::Ready => match event {
            Event::Begin => issue(plan, 0),
            _ => halt(WorkflowError::UnexpectedEvent),
        },
        Progress::Awaiting { step } => if step >= plan.steps.len() {
            halt(WorkflowError::UnexpectedEvent)
        } else {
            let check = plan.steps[step as int] == compute(Task::CheckProof);
            match event {
                Event::Failed => halt(failure_of(plan.steps[step as int], step)),
                Event::Succeeded => if check {
                    halt(WorkflowError::UnexpectedEvent)
                } else {
                    issue(plan, step + 1)
                },
                Event::Answered { valid } => if !check {
                    halt(WorkflowError::UnexpectedEvent)
                } else if valid {
                    issue(plan, step + 1)
                } else {
                    (Progress::Stopped, Directive::Finish { outcome: Outcome::ProofInvalid })
                },
                Event::Begin => halt(WorkflowError::UnexpectedEvent),
            }
        },
        Progress::Stopped => halt(WorkflowError::UnexpectedEvent),
    }
}

impl Outcome {
    /// The exit status of the process: 0 where the command completed, 400
    /// where the proof was found invalid.
    pub fn exit_code(&self) -> (code: i32)
        ensures
            code == exit_status(*self),
            code == 0 <==> *self == Outcome::Completed,
            code == 400 <==> *self == Outcome::ProofInvalid,
    {
        match self {
            Outcome::Completed => EXIT_SUCCESS,
            Outcome::ProofInvalid => EXIT_PROOF_INVALID,
        }
    }
}

impl Step {
    /// The error of a run in which this step, at position `index`, failed.
    pub fn failure(&self, index: usize) -> (error: WorkflowError)
        ensures
            error == failure_of(self@, index),
    {
        match self {
            Step::Load { .. } => WorkflowError::InputUnavailable { step: index },
            Step::Compute { .. } => WorkflowError::EngineFailure { step: index },
            Step::Store { .. } => WorkflowError::OutputFailure { step: index },
        }
    }
}

impl Plan {
    /// Hands out the step at position `next`, or ends the run.
    fn issue(&self, next: usize) -> (answer: (Progress, Directive))
        ensures
            answer == issue(self@, next as int),
    {
        if next < self.steps.len() {
            (Progress::Awaiting { step: next }, Directive::Perform { step: next })
        } else {
            match self.ending {
                Ending::Complete => (
                    Progress::Stopped,
                    Directive::Finish { outcome: Outcome::Completed },
                ),
                Ending::Refuse { error } => (Progress::Stopped, Directive::Abort { error }),
            }
        }
    }

    /// Takes the run of this plan one report further: the new state of the
    /// run and what the driver does next.
    pub fn advance(&self, progress: Progress, event: Event) -> (answer: (Progress, Directive))
        ensures
            answer == transition(self@, progress, event),
    {
        let unexpected = (
            Progress::Stopped,
            Directive::Abort { error: WorkflowError::UnexpectedEvent },
        );
        match progress {
            Progress::Ready => match event {
                Event::Begin => self.issue(0),
                _ => unexpected,
            },
            Progress::Awaiting { step } => {
                if step >= self.steps.len() {
                    return unexpected;
                }
                let current = &self.steps[step];
                let check = current.is_proof_check();
                match event {
                    Event::Failed => (
                        Progress::Stopped,
                        Directive::Abort { error: current.failure(step) },
                    ),
                    Event::Succeeded => if check {
                        unexpected
                    } else {
                        self.issue(step + 1)
                    },
                    Event::Answered { valid } => if !check {
                        unexpected
                    } else if valid {
                        self.issue(step + 1)
                    } else {
                        (Progress::Stopped, Directive::Finish { outcome: Outcome::ProofInvalid })
                    },
                    Event::Begin => unexpected,
                }
            },
            Progress::Stopped => unexpected,
        }
    }
}

/// The directives that a run hands out, from `progress` on, for the reports
/// `events` in turn.
pub open spec fn run(plan: PlanView, progress: Progress, events: Seq<Event>) -> Seq<Directive>
    decreases events.len(),
{
    if events.len() == 0 {
        Seq::empty()
    } else {
        let answer = transition(plan, progress, events[0]);
        seq![answer.1] + run(plan, answer.0, events.drop_first())
    }
}

/// The position of the step that a run at `progress` hands out next.
pub open spec fn upcoming(progress: Progress) -> int {
    match progress {
        Progress::Ready => 0,
        Progress::Awaiting { step } => step + 1,
        Progress::Stopped => 0,
    }
}

/// A failed step aborts the run, with the error of the step's kind, and the
/// run has stopped.
pub proof fn lemma_failure_aborts(plan: PlanView, step: usize)
    requires
        step < plan.steps.len(),
    ensures
        transition(plan, Progress::Awaiting { step }, Event::Failed) == halt(
            failure_of(plan.steps[step as int], step),
        ),
{
}

/// A run that has stopped hands out no further step, whatever is reported.
pub proof fn lemma_stopped_is_final(plan: PlanView, event: Event)
    ensures
        transition(plan, Progress::Stopped, event) == halt(WorkflowError::UnexpectedEvent),
{
}

/// The answer to a proof check decides the run: an invalid proof finishes it
/// at once with the status 400 and is no error; a valid one lets it go on.
pub proof fn lemma_check_answer_decides(plan: PlanView, step: usize)
    requires
        step < plan.steps.len(),
        plan.steps[step as int] == compute(Task::CheckProof),
    ensures
        transition(plan, Progress::Awaiting { step }, Event::Answered { valid: false }) == (
            Progress::Stopped,
            Directive::Finish { outcome: Outcome::ProofInvalid },
        ),
        exit_status(Outcome::ProofInvalid) == 400,
        transition(plan, Progress::Awaiting { step }, Event::Answered { valid: true }) == issue(
            plan,
            step + 1,
        ),
        exit_status(Outcome::Completed) == 0,
{
}

/// One report either hands out the upcoming step and waits for it, or hands
/// out no step and stops the run.
pub proof fn lemma_one_step_at_a_time(plan: PlanView, progress: Progress, event: Event)
    ensures
        ({
            let answer = transition(plan, progress, event);
            if answer.1 is Perform {
                &&& progress != Progress::Stopped
                &&& upcoming(progress) < plan.steps.len()
                &&& answer.1 == (Directive::Perform { step: upcoming(progress) as usize })
                &&& answer.0 == (Progress::Awaiting { step: upcoming(progress) as usize })
            } else {
                answer.0 == Progress::Stopped
            }
        }),
{
}

/// A run has one directive for each report.
pub proof fn lemma_run_len(plan: PlanView, progress: Progress, events: Seq<Event>)
    ensures
        run(plan, progress, events).len() == events.len(),
    decreases events.len(),
{
    if events.len() > 0 {
        let answer = transition(plan, progress, events[0]);
        lemma_run_len(plan, answer.0, events.drop_first());
    }
}

/// Steps are carried out in the order of the plan, each after all before it
/// were carried out, and none after the run has stopped: in any run the
/// directive at position `k` names a step only if it names the `k`-th step
/// from where the run stood and every earlier directive named a step too;
/// once a directive names no step, every later one is an abort for an
/// unexpected report.
pub proof fn lemma_run_in_order(plan: PlanView, progress: Progress, events: Seq<Event>, k: int)
    requires
        0 <= k < events.len(),
    ensures
        run(plan, progress, events).len() == events.len(),
        run(plan, progress, events)[k] is Perform ==> {
            &&& progress != Progress::Stopped
            &&& upcoming(progress) + k < plan.steps.len()
            &&& run(plan, progress, events)[k] == (Directive::Perform {
                step: (upcoming(progress) + k) as usize,
            })
            &&& forall|j: int| 0 <= j < k ==> run(plan, progress, events)[j] is Perform
        },
        (progress == Progress::Stopped || exists|j: int|
            0 <= j < k && !(run(plan, progress, events)[j] is Perform)) ==> run(
            plan,
            progress,
            events,
        )[k] == (Directive::Abort { error: WorkflowError::UnexpectedEvent }),
    decreases events.len(),
{
    let all = run(plan, progress, events);
    let answer = transition(plan, progress, events[0]);
    let rest = events.drop_first();
    let tail = run(plan, answer.0, rest);
    lemma_run_len(plan, progress, events);
    lemma_run_len(plan, answer.0, rest);
    lemma_one_step_at_a_time(plan, progress, events[0]);
    assert(all[0] == answer.1);
    assert(forall|i: int| 1 <= i < events.len() ==> all[i] == tail[i - 1]);
    if k > 0 {
        lemma_run_in_order(plan, answer.0, rest, k - 1);
        if all[k] is Perform {
            assert forall|j: int| 0 <= j < k implies all[j] is Perform by {
                if j > 0 {
                    assert(all[j] == tail[j - 1]);
                }
            }
        }
        if answer.0 != Progress::Stopped && exists|j: int| 0 <= j < k && !(all[j] is Perform) {
            let j = choose|j: int| 0 <= j < k && !(all[j] is Perform);
            assert(0 <= j - 1 < k - 1 && !(tail[j - 1] is Perform));
        }
    }
}

/// The report that lets a run go on past `step`: a proof check is answered
/// with valid, every other step has succeeded.
pub open spec fn success_of(step: StepView) -> Event {
    if step == compute(Task::CheckProof) {
        Event::Answered { valid: true }
    } else {
        Event::Succeeded
    }
}

/// The reports of a run in which every step from position `from` on succeeds.
pub open spec fn successes(plan: PlanView, from: int) -> Seq<Event> {
    Seq::new((plan.steps.len() - from) as nat, |i: int| success_of(plan.steps[from + i]))
}

/// While the steps succeed the run hands out the next one, and after the
/// last it ends as the plan says.
pub proof fn lemma_unbroken_run(plan: PlanView, from: int, k: int)
    requires
        0 <= from < plan.steps.len() <= usize::MAX,
        0 <= k < plan.steps.len() - from,
    ensures
        run(plan, Progress::Awaiting { step: from as usize }, successes(plan, from))[k] == issue(
            plan,
            from + 1 + k,
        ).1,
    decreases plan.steps.len() - from,
{
    let events = successes(plan, from);
    let answer = transition(plan, Progress::Awaiting { step: from as usize }, events[0]);
    assert(answer == issue(plan, from + 1));
    let all = run(plan, Progress::Awaiting { step: from as usize }, events);
    let tail = run(plan, answer.0, events.drop_first());
    assert(all == seq![answer.1] + tail);
    lemma_run_len(plan, answer.0, events.drop_first());
    if k > 0 {
        assert(events.drop_first() =~= successes(plan, from + 1));
        lemma_unbroken_run(plan, from + 1, k - 1);
        assert(all[k] == tail[k - 1]);
    } else {
        assert(all[0] == answer.1);
    }
}

/// A run in which nothing fails carries out every step of the plan, in
/// order, and then ends as the plan says: completed, or refused with the
/// plan's error.
pub proof fn lemma_successful_run_ends_as_planned(plan: PlanView)
    requires
        plan.steps.len() <= usize::MAX,
    ensures
        ({
            let all = run(plan, Progress::Ready, seq![Event::Begin] + successes(plan, 0));
            &&& all.len() == plan.steps.len() + 1
            &&& forall|k: int|
                0 <= k < plan.steps.len() ==> #[trigger] all[k] == (Directive::Perform {
                    step: k as usize,
                })
            &&& all[plan.steps.len() as int] == match plan.ending {
                Ending::Complete => Directive::Finish { outcome: Outcome::Completed },
                Ending::Refuse { error } => Directive::Abort { error },
            }
        }),
{
    let events = seq![Event::Begin] + successes(plan, 0);
    let all = run(plan, Progress::Ready, events);
    let n = plan.steps.len() as int;
    lemma_run_len(plan, Progress::Ready, events);
    assert(events[0] == Event::Begin);
    assert(events.drop_first() =~= successes(plan, 0));
    let answer = transition(plan, Progress::Ready, events[0]);
    assert(answer == issue(plan, 0));
    assert(all[0] == answer.1);
    if n > 0 {
        let tail = run(plan, Progress::Awaiting { step: 0 }, successes(plan, 0));
        assert(forall|i: int| 1 <= i <= n ==> all[i] == tail[i - 1]);
        assert forall|k: int| 0 <= k <= n implies all[k] == issue(plan, k).1 by {
            if k > 0 {
                lemma_unbroken_run(plan, 0, k - 1);
            }
        }
    }
}


} // verus!
