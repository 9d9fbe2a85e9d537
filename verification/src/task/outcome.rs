//! Outcomes of handling a task, and the status a tracked task goes through.

use vstd::prelude::*;
use vstd::string::*;

verus! {

/// What handling a task yielded.
#[derive(Debug)]
pub enum TaskOutcome {
    Ongoing,
    Succeeded,
    Failed { reason: String },
}

/// A task outcome with its failure reason as text.
pub enum OutcomeView {
    Ongoing,
    Succeeded,
    Failed(Seq<char>),
}

impl View for TaskOutcome {
    type V = OutcomeView;

    open spec fn view(&self) -> OutcomeView {
        match self {
            TaskOutcome::Ongoing => OutcomeView::Ongoing,
            TaskOutcome::Succeeded => OutcomeView::Succeeded,
            TaskOutcome::Failed { reason } => OutcomeView::Failed(reason@),
        }
    }
}

impl TaskOutcome {
    /// Whether the task is over (succeeded or failed).
    pub fn finished(&self) -> (r: bool)
        ensures
            r == !(self@ is Ongoing),
    {
        match self {
            TaskOutcome::Succeeded | TaskOutcome::Failed { .. } => true,
            TaskOutcome::Ongoing => false,
        }
    }

    /// A copy of this outcome.
    pub fn duplicate(&self) -> (r: TaskOutcome)
        ensures
            r@ == self@,
    {
        match self {
            TaskOutcome::Ongoing => TaskOutcome::Ongoing,
            TaskOutcome::Succeeded => TaskOutcome::Succeeded,
            TaskOutcome::Failed { reason } => TaskOutcome::Failed { reason: reason.clone() },
        }
    }
}

/// An error of a tracked task, kept as its message.
#[derive(Debug)]
pub struct TrackedAnyhowError {
    pub message: String,
}

impl TrackedAnyhowError {
    /// The error with this message.
    pub fn new(message: &str) -> (r: TrackedAnyhowError)
        ensures
            r.message@ == message@,
    {
        TrackedAnyhowError { message: String::from_str(message) }
    }

    /// The message, as the error is displayed.
    pub fn describe(&self) -> (r: String)
        ensures
            r@ == self.message@,
    {
        String::from_str(self.message.as_str())
    }
}

/// Where a tracked task stands.
#[derive(Debug)]
pub enum TrackedTaskStatus {
    NotStartedYet,
    Running,
    Concluded { outcome: TaskOutcome },
    Errored { error: TrackedAnyhowError },
    Discarded,
    Interrupted,
}

/// A tracked status with texts as character sequences.
pub enum StatusView {
    NotStartedYet,
    Running,
    Concluded(OutcomeView),
    Errored(Seq<char>),
    Discarded,
    Interrupted,
}

impl View for TrackedTaskStatus {
    type V = StatusView;

    open spec fn view(&self) -> StatusView {
        match self {
            TrackedTaskStatus::NotStartedYet => StatusView::NotStartedYet,
            TrackedTaskStatus::Running => StatusView::Running,
            TrackedTaskStatus::Concluded { outcome } => StatusView::Concluded(outcome@),
            TrackedTaskStatus::Errored { error } => StatusView::Errored(error.message@),
            TrackedTaskStatus::Discarded => StatusView::Discarded,
            TrackedTaskStatus::Interrupted => StatusView::Interrupted,
        }
    }
}

/// Status after starting the task: running, or errored with the start error.
pub open spec fn spec_after_start(s: StatusView, result: Result<(), Seq<char>>) -> StatusView {
    match result {
        Ok(_) => StatusView::Running,
        Err(e) => StatusView::Errored(e),
    }
}

/// Status after handling an event: a finished outcome concludes the task, an error
/// marks it errored, and an ongoing outcome changes nothing.
pub open spec fn spec_after_handle(s: StatusView, result: Result<OutcomeView, Seq<char>>) -> StatusView {
    match result {
        Ok(OutcomeView::Ongoing) => s,
        Ok(o) => StatusView::Concluded(o),
        Err(e) => StatusView::Errored(e),
    }
}

/// Status after stopping the task: interrupted, unless it had already concluded with
/// success or failure; an error marks it errored.
pub open spec fn spec_after_stop(s: StatusView, result: Result<(), Seq<char>>) -> StatusView {
    match result {
        Ok(_) => match s {
            StatusView::Concluded(OutcomeView::Succeeded) => s,
            StatusView::Concluded(OutcomeView::Failed(_)) => s,
            _ => StatusView::Interrupted,
        },
        Err(e) => StatusView::Errored(e),
    }
}

/// Status after discarding the task: discarded, unless it concluded or was
/// interrupted; an error marks it errored.
pub open spec fn spec_after_discard(s: StatusView, result: Result<(), Seq<char>>) -> StatusView {
    match result {
        Ok(_) => match s {
            StatusView::Concluded(_) => s,
            StatusView::Interrupted => s,
            _ => StatusView::Discarded,
        },
        Err(e) => StatusView::Errored(e),
    }
}

/// Status after telling the task that another one waits: only an error changes it.
pub open spec fn spec_after_new_task_waiting(s: StatusView, result: Result<(), Seq<char>>) -> StatusView {
    match result {
        Ok(_) => s,
        Err(e) => StatusView::Errored(e),
    }
}

/// View of a result whose error is a message.
pub open spec fn unit_result_view(r: &Result<(), String>) -> Result<(), Seq<char>> {
    match r {
        Ok(_) => Ok(()),
        Err(e) => Err(e@),
    }
}

/// View of a handling result whose error is a message.
pub open spec fn outcome_result_view(r: &Result<TaskOutcome, String>) -> Result<OutcomeView, Seq<char>> {
    match r {
        Ok(o) => Ok(o@),
        Err(e) => Err(e@),
    }
}

impl TrackedTaskStatus {
    /// The outcome, if the task concluded.
    pub fn outcome(&self) -> (r: Option<&TaskOutcome>)
        ensures
            match self@ {
                StatusView::Concluded(o) => r matches Some(out) && out@ == o,
                _ => r is None,
            },
    {
        if let TrackedTaskStatus::Concluded { outcome } = self { Some(outcome) } else { None }
    }

    /// The error, if the task errored.
    pub fn error(&self) -> (r: Option<&TrackedAnyhowError>)
        ensures
            match self@ {
                StatusView::Errored(e) => r matches Some(err) && err.message@ == e,
                _ => r is None,
            },
    {
        if let TrackedTaskStatus::Errored { error } = self { Some(error) } else { None }
    }

    /// Whether the task was interrupted.
    pub fn is_interrupted(&self) -> (r: bool)
        ensures
            r == (self@ is Interrupted),
    {
        matches!(self, TrackedTaskStatus::Interrupted)
    }

    /// Whether the task still runs (or is yet to start).
    pub fn is_running(&self) -> (r: bool)
        ensures
            r == (self@ is NotStartedYet || self@ is Running),
    {
        matches!(self, TrackedTaskStatus::NotStartedYet | TrackedTaskStatus::Running)
    }

    /// Whether the task is yet to (re)start: not started, or interrupted.
    pub fn is_not_started_yet(&self) -> (r: bool)
        ensures
            r == (self@ is Interrupted || self@ is NotStartedYet),
    {
        matches!(self, TrackedTaskStatus::Interrupted | TrackedTaskStatus::NotStartedYet)
    }

    /// Whether the task is over: concluded, errored or discarded.
    pub fn is_finished(&self) -> (r: bool)
        ensures
            r == (self@ is Concluded || self@ is Errored || self@ is Discarded),
    {
        matches!(self, TrackedTaskStatus::Concluded { .. } | TrackedTaskStatus::Errored { .. } | TrackedTaskStatus::Discarded)
    }

    /// Whether the task was discarded.
    pub fn is_abandoned(&self) -> (r: bool)
        ensures
            r == (self@ is Discarded),
    {
        matches!(self, TrackedTaskStatus::Discarded)
    }

    /// A copy of this status.
    pub fn duplicate(&self) -> (r: TrackedTaskStatus)
        ensures
            r@ == self@,
    {
        match self {
            TrackedTaskStatus::NotStartedYet => TrackedTaskStatus::NotStartedYet,
            TrackedTaskStatus::Running => TrackedTaskStatus::Running,
            TrackedTaskStatus::Concluded { outcome } => TrackedTaskStatus::Concluded { outcome: outcome.duplicate() },
            TrackedTaskStatus::Errored { error } => TrackedTaskStatus::Errored { error: TrackedAnyhowError::new(error.message.as_str()) },
            TrackedTaskStatus::Discarded => TrackedTaskStatus::Discarded,
            TrackedTaskStatus::Interrupted => TrackedTaskStatus::Interrupted,
        }
    }

    /// Records the result of starting the task.
    pub fn on_started(&mut self, result: &Result<(), String>)
        ensures
            final(self)@ == spec_after_start(old(self)@, unit_result_view(result)),
    {
        match result {
            Ok(_) => *self = TrackedTaskStatus::Running,
            Err(e) => *self = TrackedTaskStatus::Errored { error: TrackedAnyhowError::new(e.as_str()) },
        }
    }

    /// Records the result of handling an event.
    pub fn on_handled(&mut self, result: &Result<TaskOutcome, String>)
        ensures
            final(self)@ == spec_after_handle(old(self)@, outcome_result_view(result)),
    {
        match result {
            Ok(outcome) => {
                if !matches!(outcome, TaskOutcome::Ongoing) {
                    *self = TrackedTaskStatus::Concluded { outcome: outcome.duplicate() };
                }
            },
            Err(e) => *self = TrackedTaskStatus::Errored { error: TrackedAnyhowError::new(e.as_str()) },
        }
    }

    /// Records the result of stopping the task.
    pub fn on_stopped(&mut self, result: &Result<(), String>)
        ensures
            final(self)@ == spec_after_stop(old(self)@, unit_result_view(result)),
    {
        match result {
            Ok(_) => {
                let allow_interrupt_change = match self {
                    TrackedTaskStatus::Concluded { outcome } => match outcome {
                        TaskOutcome::Failed { .. } | TaskOutcome::Succeeded => false,
                        _ => true,
                    },
                    _ => true,
                };
                if allow_interrupt_change {
                    *self = TrackedTaskStatus::Interrupted;
                }
            },
            Err(e) => *self = TrackedTaskStatus::Errored { error: TrackedAnyhowError::new(e.as_str()) },
        }
    }

    /// Records the result of discarding the task.
    pub fn on_discarded(&mut self, result: &Result<(), String>)
        ensures
            final(self)@ == spec_after_discard(old(self)@, unit_result_view(result)),
    {
        match result {
            Ok(_) => {
                if !matches!(self, TrackedTaskStatus::Concluded { .. } | TrackedTaskStatus::Interrupted) {
                    *self = TrackedTaskStatus::Discarded;
                }
            },
            Err(e) => *self = TrackedTaskStatus::Errored { error: TrackedAnyhowError::new(e.as_str()) },
        }
    }

    /// Records the result of telling the task that another one waits.
    pub fn on_new_task_waiting(&mut self, result: &Result<(), String>)
        ensures
            final(self)@ == spec_after_new_task_waiting(old(self)@, unit_result_view(result)),
    {
        if let Err(e) = result {
            *self = TrackedTaskStatus::Errored { error: TrackedAnyhowError::new(e.as_str()) };
        }
    }
}

/// Once concluded with success or failure, a task keeps its outcome whatever
/// stopping or discarding it does without error, and ongoing outcomes.
pub proof fn law_conclusion_is_final(s: StatusView, o: OutcomeView)
    requires
        s == StatusView::Concluded(o),
        !(o is Ongoing),
    ensures
        spec_after_stop(s, Ok(())) == s,
        spec_after_discard(s, Ok(())) == s,
        spec_after_handle(s, Ok(OutcomeView::Ongoing)) == s,
        spec_after_new_task_waiting(s, Ok(())) == s,
{
}

/// A running task that is stopped counts as not started yet, and no longer as running.
pub proof fn law_stop_interrupts_running(s: StatusView)
    requires
        s is Running || s is NotStartedYet,
    ensures
        spec_after_stop(s, Ok(())) is Interrupted,
{
}

} // verus!
