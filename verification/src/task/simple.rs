//! Simple tasks: waiting for ticks or a duration, and running functions once.

use vstd::prelude::*;
use vstd::string::*;
use crate::text::{dec, dec_padded, join, lemma_join_push, push_dec, push_dec_padded};
use crate::clock::{instant_now, elapsed_millis};
use crate::task::outcome::{TaskOutcome, OutcomeView};

verus! {

/// Waits for a number of ticks.
#[derive(Debug)]
pub struct DelayTicksTask {
    pub ticks: u32,
    pub elapsed: u32,
}

impl DelayTicksTask {
    /// A task waiting `ticks` ticks.
    pub fn new(ticks: u32) -> (r: DelayTicksTask)
        ensures
            r.ticks == ticks,
            r.elapsed == 0,
    {
        DelayTicksTask { ticks, elapsed: 0 }
    }

    /// Starts (or restarts) waiting.
    pub fn start(&mut self)
        ensures
            final(self).ticks == old(self).ticks,
            final(self).elapsed == 0,
    {
        self.elapsed = 0;
    }

    /// Counts a tick; succeeds once enough ticks passed. Other events change nothing.
    pub fn handle(&mut self, is_tick: bool) -> (r: TaskOutcome)
        requires
            old(self).elapsed < u32::MAX,
        ensures
            final(self).ticks == old(self).ticks,
            final(self).elapsed == if is_tick { old(self).elapsed + 1 } else { old(self).elapsed as int },
            r@ == if is_tick && final(self).elapsed >= final(self).ticks {
                OutcomeView::Succeeded
            } else {
                OutcomeView::Ongoing
            },
    {
        if is_tick {
            self.elapsed = self.elapsed + 1;
            if self.elapsed >= self.ticks {
                return TaskOutcome::Succeeded;
            }
        }
        TaskOutcome::Ongoing
    }

    /// `DelayTicks (<ticks>)`.
    pub fn describe(&self) -> (r: String)
        ensures
            r@ == "DelayTicks ("@ + dec(self.ticks as nat) + ")"@,
    {
        let mut r = String::from_str("DelayTicks (");
        push_dec(&mut r, self.ticks as u64);
        r.append(")");
        r
    }
}

/// Waits for a duration (in milliseconds) from its start.
#[derive(Debug)]
pub struct DelayDurationTask {
    pub duration_millis: u64,
    pub started_at: std::time::Instant,
}

/// The parts of a duration text: minutes, seconds and milliseconds, each only when
/// not zero.
pub open spec fn duration_components(millis: nat) -> Seq<Seq<char>> {
    let mins = millis / 60000;
    let secs = (millis % 60000) / 1000;
    let ms = millis % 1000;
    let a: Seq<Seq<char>> = if mins > 0 { seq![dec_padded(mins, 2) + "m"@] } else { Seq::empty() };
    let b: Seq<Seq<char>> = if secs > 0 { a.push(dec_padded(secs, 2) + "s"@) } else { a };
    if ms > 0 { b.push(dec_padded(ms, 3) + "ms"@) } else { b }
}

/// Outcome of waiting `duration` milliseconds once `elapsed` milliseconds passed.
pub open spec fn delay_outcome(duration: u64, elapsed: u64) -> OutcomeView {
    if elapsed >= duration { OutcomeView::Succeeded } else { OutcomeView::Ongoing }
}

impl DelayDurationTask {
    /// A task waiting `duration_millis` milliseconds from now.
    pub fn new(duration_millis: u64) -> (r: DelayDurationTask)
        ensures
            r.duration_millis == duration_millis,
    {
        DelayDurationTask { duration_millis, started_at: instant_now() }
    }

    /// Starts (or restarts) waiting from now.
    pub fn start(&mut self)
        ensures
            final(self).duration_millis == old(self).duration_millis,
    {
        self.started_at = instant_now();
    }

    /// Succeeds once `elapsed_millis` reaches the duration.
    pub fn outcome_after(&self, elapsed_millis: u64) -> (r: TaskOutcome)
        ensures
            r@ == delay_outcome(self.duration_millis, elapsed_millis),
    {
        if elapsed_millis >= self.duration_millis {
            TaskOutcome::Succeeded
        } else {
            TaskOutcome::Ongoing
        }
    }

    /// Succeeds once the duration has passed since the start.
    pub fn handle(&self) -> (r: TaskOutcome)
        ensures
            exists|elapsed: u64| r@ == #[trigger] delay_outcome(self.duration_millis, elapsed),
    {
        let elapsed = elapsed_millis(&self.started_at);
        self.outcome_after(elapsed)
    }

    /// `DelayDuration (<mm>m <ss>s <mmm>ms)`, leaving out zero parts.
    pub fn describe(&self) -> (r: String)
        ensures
            r@ == "DelayDuration ("@ + join(duration_components(self.duration_millis as nat), " "@) + ")"@,
    {
        proof {
            reveal_strlit("DelayDuration (");
            reveal_strlit("m");
            reveal_strlit("s");
            reveal_strlit("ms");
            reveal_strlit(" ");
            reveal_strlit(")");
        }
        let millis = self.duration_millis;
        let mins = millis / 60000;
        let secs = (millis % 60000) / 1000;
        let ms = millis % 1000;
        let mut r = String::from_str("DelayDuration (");
        let ghost comps = duration_components(millis as nat);
        let ghost mut done: Seq<Seq<char>> = Seq::empty();
        let ghost prefix = r@;
        if mins > 0 {
            push_dec_padded(&mut r, mins, 2);
            r.append("m");
            proof {
                lemma_join_push(done, " "@, dec_padded(mins as nat, 2) + "m"@);
                done = done.push(dec_padded(mins as nat, 2) + "m"@);
                assert(r@ =~= prefix + join(done, " "@));
            }
        }
        if secs > 0 {
            if mins > 0 {
                r.append(" ");
            }
            push_dec_padded(&mut r, secs, 2);
            r.append("s");
            proof {
                lemma_join_push(done, " "@, dec_padded(secs as nat, 2) + "s"@);
                done = done.push(dec_padded(secs as nat, 2) + "s"@);
                assert(r@ =~= prefix + join(done, " "@));
            }
        }
        if ms > 0 {
            if mins > 0 || secs > 0 {
                r.append(" ");
            }
            push_dec_padded(&mut r, ms, 3);
            r.append("ms");
            proof {
                lemma_join_push(done, " "@, dec_padded(ms as nat, 3) + "ms"@);
                done = done.push(dec_padded(ms as nat, 3) + "ms"@);
                assert(r@ =~= prefix + join(done, " "@));
            }
        }
        proof {
            assert(done =~= comps);
            assert(r@ =~= prefix + join(comps, " "@));
        }
        r.append(")");
        r
    }
}

/// A task made of functions for starting, handling and stopping it.
#[derive(Debug)]
pub struct FuncTask<B, H, E> {
    pub display: String,
    pub start_func: Option<B>,
    pub handle_func: H,
    pub stop_func: Option<E>,
}

impl<B, H, E> FuncTask<B, H, E> {
    /// A task that only handles events.
    pub fn new_handle(name: &str, handle_func: H) -> (r: FuncTask<B, H, E>)
        ensures
            r.display@ == name@,
            r.start_func is None,
            r.handle_func == handle_func,
            r.stop_func is None,
    {
        FuncTask { display: String::from_str(name), start_func: None, handle_func, stop_func: None }
    }

    /// A task with functions for starting, handling and stopping.
    pub fn new_all(name: &str, start_func: B, handle_func: H, end_func: E) -> (r: FuncTask<B, H, E>)
        ensures
            r.display@ == name@,
            r.start_func == Some(start_func),
            r.handle_func == handle_func,
            r.stop_func == Some(end_func),
    {
        FuncTask { display: String::from_str(name), start_func: Some(start_func), handle_func, stop_func: Some(end_func) }
    }
}

/// What a one-shot task does with an event.
#[derive(Debug)]
pub enum OnceStep<F> {
    /// Run the function now (it was taken out of the task).
    Run(F),
    /// The function already ran.
    Done,
    /// Wait for a tick.
    Wait,
}

/// What a one-shot task does on an event.
pub enum OnceKind {
    /// Runs its function now.
    Run,
    /// Waits for a tick.
    Wait,
    /// Its function already ran.
    Done,
}

/// The step of a one-shot task (`pending`: its function is still there): whether it is
/// still there afterwards, and what the task does.
pub open spec fn once_step_spec(pending: bool, is_tick: bool) -> (bool, OnceKind) {
    if !pending {
        (false, OnceKind::Done)
    } else if is_tick {
        (false, OnceKind::Run)
    } else {
        (true, OnceKind::Wait)
    }
}

/// The kind of a one-shot step.
pub open spec fn once_kind_of<F>(r: OnceStep<F>) -> OnceKind {
    match r {
        OnceStep::Run(_) => OnceKind::Run,
        OnceStep::Wait => OnceKind::Wait,
        OnceStep::Done => OnceKind::Done,
    }
}

/// A fresh one-shot task through events (`ticks[i]`: event `i` is a tick): whether its
/// function is still there after them, and what it did on each.
pub open spec fn once_run(ticks: Seq<bool>) -> (bool, Seq<OnceKind>)
    decreases ticks.len(),
{
    if ticks.len() == 0 {
        (true, Seq::empty())
    } else {
        let (pending, kinds) = once_run(ticks.drop_last());
        let (after, kind) = once_step_spec(pending, ticks.last());
        (after, kinds.push(kind))
    }
}

/// Whether one of the first `i` events is a tick.
pub open spec fn tick_before(ticks: Seq<bool>, i: int) -> bool {
    exists|j: int| 0 <= j < i && #[trigger] ticks[j]
}

/// A one-shot task runs its function exactly once, on the first tick: it waits on every
/// event before that tick and is done on every event after it, whatever the events.
pub proof fn law_once_runs_on_first_tick(ticks: Seq<bool>)
    ensures
        once_run(ticks).1.len() == ticks.len(),
        once_run(ticks).0 == !tick_before(ticks, ticks.len() as int),
        forall|i: int| 0 <= i < ticks.len() ==> #[trigger] once_run(ticks).1[i] == if tick_before(ticks, i) {
            OnceKind::Done
        } else if ticks[i] {
            OnceKind::Run
        } else {
            OnceKind::Wait
        },
    decreases ticks.len(),
{
    if ticks.len() > 0 {
        let prev = ticks.drop_last();
        law_once_runs_on_first_tick(prev);
        let n = ticks.len() - 1;
        assert forall|i: int| 0 <= i <= n implies tick_before(ticks, i) == tick_before(prev, i) by {
            if tick_before(ticks, i) {
                let j = choose|j: int| 0 <= j < i && #[trigger] ticks[j];
                assert(prev[j]);
            }
            if tick_before(prev, i) {
                let j = choose|j: int| 0 <= j < i && #[trigger] prev[j];
                assert(ticks[j]);
            }
        }
        if ticks[n] && !tick_before(ticks, n) {
            assert(ticks[n]);
        }
        if tick_before(ticks, n + 1) && !tick_before(ticks, n) {
            let j = choose|j: int| 0 <= j < n + 1 && #[trigger] ticks[j];
            assert(j == n);
        }
    }
}

/// Takes the function out of a one-shot task on a tick; reports whether it already ran.
pub fn once_step<F>(once_func: &mut Option<F>, is_tick: bool) -> (r: OnceStep<F>)
    ensures
        is_tick && *old(once_func) is Some ==> r == OnceStep::Run((*old(once_func))->0) && *final(once_func) is None,
        !(is_tick && *old(once_func) is Some) ==> *final(once_func) == *old(once_func)
            && (if *old(once_func) is None { r is Done } else { r is Wait }),
        (*final(once_func) is Some, once_kind_of(r)) == once_step_spec(*old(once_func) is Some, is_tick),
{
    if is_tick && once_func.is_some() {
        match once_func.take() {
            Some(f) => OnceStep::Run(f),
            None => OnceStep::Done,
        }
    } else if once_func.is_none() {
        OnceStep::Done
    } else {
        OnceStep::Wait
    }
}

/// Runs a function once, on the first tick.
#[derive(Debug)]
pub struct OnceFuncTask<F> {
    pub display: String,
    pub once_func: Option<F>,
}

impl<F> OnceFuncTask<F> {
    /// A task running `once_func` on the next tick.
    pub fn new(name: &str, once_func: F) -> (r: OnceFuncTask<F>)
        ensures
            r.display@ == name@,
            r.once_func == Some(once_func),
    {
        OnceFuncTask { display: String::from_str(name), once_func: Some(once_func) }
    }

    /// The failure reason when the function returned an error.
    pub fn failure_reason(&self) -> (r: String)
        ensures
            r@ == "OnceFunc error: Running OnceFunc ("@ + self.display@ + ")"@,
    {
        let mut r = String::from_str("OnceFunc error: Running OnceFunc (");
        r.append(self.display.as_str());
        r.append(")");
        r
    }

    /// Handles an event: on the first tick the function is taken out and run with
    /// `arg` (success, or failure with `failure_reason`); once it ran the task has
    /// succeeded; before, it waits for a tick.
    pub fn handle<A>(&mut self, is_tick: bool, arg: A) -> (r: TaskOutcome)
        where F: FnOnce(A) -> Result<(), String>,
        requires
            is_tick ==> (old(self).once_func matches Some(f) ==> call_requires(f, (arg,))),
        ensures
            final(self).display == old(self).display,
            match old(self).once_func {
                Some(f) => if is_tick {
                    final(self).once_func is None && exists|res: Result<(), String>| #[trigger] call_ensures(f, (arg,), res)
                        && r@ == match res {
                            Ok(()) => OutcomeView::Succeeded,
                            Err(_) => OutcomeView::Failed("OnceFunc error: Running OnceFunc ("@ + old(self).display@ + ")"@),
                        }
                } else {
                    final(self).once_func == old(self).once_func && r@ == OutcomeView::Ongoing
                },
                None => final(self).once_func is None && r@ == OutcomeView::Succeeded,
            },
    {
        match once_step(&mut self.once_func, is_tick) {
            OnceStep::Run(f) => {
                let res = f(arg);
                match res {
                    Ok(()) => TaskOutcome::Succeeded,
                    Err(_) => TaskOutcome::Failed { reason: self.failure_reason() },
                }
            },
            OnceStep::Done => TaskOutcome::Succeeded,
            OnceStep::Wait => TaskOutcome::Ongoing,
        }
    }
}

/// Checks an expectation once, on the first tick.
#[derive(Debug)]
pub struct ValidateTask<F> {
    pub expectation: String,
    pub once_func: Option<F>,
}

impl<F> ValidateTask<F> {
    /// A task checking `once_func` on the next tick.
    pub fn new(name: &str, once_func: F) -> (r: ValidateTask<F>)
        ensures
            r.expectation@ == name@,
            r.once_func == Some(once_func),
    {
        ValidateTask { expectation: String::from_str(name), once_func: Some(once_func) }
    }

    /// `Validate: <expectation>`.
    pub fn describe(&self) -> (r: String)
        ensures
            r@ == "Validate: "@ + self.expectation@,
    {
        let mut r = String::from_str("Validate: ");
        r.append(self.expectation.as_str());
        r
    }

    /// The outcome for what the check returned: success when it holds.
    pub fn outcome_for(&self, holds: bool) -> (r: TaskOutcome)
        ensures
            r@ == if holds {
                OutcomeView::Succeeded
            } else {
                OutcomeView::Failed("Failed to validate expectation: "@ + self.expectation@)
            },
    {
        if holds {
            TaskOutcome::Succeeded
        } else {
            let mut reason = String::from_str("Failed to validate expectation: ");
            reason.append(self.expectation.as_str());
            TaskOutcome::Failed { reason }
        }
    }

    /// Handles an event: on the first tick the check is taken out and run with `arg`
    /// (see `outcome_for`; an error of the check is returned, told with the task's
    /// status line); once it ran the task has succeeded; before, it waits for a tick.
    pub fn handle<A>(&mut self, is_tick: bool, arg: A) -> (r: Result<TaskOutcome, String>)
        where F: FnOnce(A) -> Result<bool, String>,
        requires
            is_tick ==> (old(self).once_func matches Some(f) ==> call_requires(f, (arg,))),
        ensures
            final(self).expectation == old(self).expectation,
            match old(self).once_func {
                Some(f) => if is_tick {
                    final(self).once_func is None && exists|res: Result<bool, String>| #[trigger] call_ensures(f, (arg,), res)
                        && match res {
                            Ok(true) => r matches Ok(o) && o@ == OutcomeView::Succeeded,
                            Ok(false) => r matches Ok(o)
                                && o@ == OutcomeView::Failed("Failed to validate expectation: "@ + old(self).expectation@),
                            Err(e) => r matches Err(m)
                                && m@ == "Running func of (Validate: "@ + old(self).expectation@ + "): "@ + e@,
                        }
                } else {
                    final(self).once_func == old(self).once_func && (r matches Ok(o) && o@ == OutcomeView::Ongoing)
                },
                None => final(self).once_func is None && (r matches Ok(o) && o@ == OutcomeView::Succeeded),
            },
    {
        match once_step(&mut self.once_func, is_tick) {
            OnceStep::Run(f) => {
                let res = f(arg);
                match res {
                    Ok(holds) => Ok(self.outcome_for(holds)),
                    Err(e) => {
                        let mut m = String::from_str("Running func of (");
                        let d = self.describe();
                        m.append(d.as_str());
                        m.append("): ");
                        m.append(e.as_str());
                        assert(m@ =~= "Running func of (Validate: "@ + self.expectation@ + "): "@ + e@) by {
                            reveal_strlit("Running func of (");
                            reveal_strlit("Running func of (Validate: ");
                            reveal_strlit("Validate: ");
                        }
                        Err(m)
                    },
                }
            },
            OnceStep::Done => Ok(TaskOutcome::Succeeded),
            OnceStep::Wait => Ok(TaskOutcome::Ongoing),
        }
    }
}

/// Closes the inventory and waits (up to 5 seconds) for the server to send the
/// inventory's contents again.
#[derive(Debug)]
pub struct CloseInventoryAndSyncTask {
    pub started_at: std::time::Instant,
}

/// What the sync task waits on.
#[derive(Debug, Copy, Clone, PartialEq, Eq, Structural)]
pub enum SyncEvent {
    Tick,
    /// The server sent a container's contents.
    ContainerContent,
    Other,
}

/// Outcome of the sync task on an event `elapsed_millis` after its start.
pub open spec fn sync_outcome(event: SyncEvent, elapsed_millis: u64) -> OutcomeView {
    match event {
        SyncEvent::Tick => if elapsed_millis > 5000 {
            OutcomeView::Failed("Waited over 5s waiting for inventory to sync!"@)
        } else {
            OutcomeView::Ongoing
        },
        SyncEvent::ContainerContent => OutcomeView::Succeeded,
        SyncEvent::Other => OutcomeView::Ongoing,
    }
}

impl CloseInventoryAndSyncTask {
    /// A task that has not started.
    pub fn new() -> (r: CloseInventoryAndSyncTask) {
        CloseInventoryAndSyncTask { started_at: instant_now() }
    }

    /// `CloseInventoryAndSync`.
    pub fn describe(&self) -> (r: String)
        ensures
            r@ == "CloseInventoryAndSync"@,
    {
        String::from_str("CloseInventoryAndSync")
    }

    /// Starts now (the caller closes the inventory and asks for a resync).
    pub fn start(&mut self) {
        self.started_at = instant_now();
    }

    /// Outcome of an event `elapsed_millis` after the start (see `sync_outcome`).
    pub fn outcome_after(&self, event: SyncEvent, elapsed_millis: u64) -> (r: TaskOutcome)
        ensures
            r@ == sync_outcome(event, elapsed_millis),
    {
        match event {
            SyncEvent::Tick => {
                if elapsed_millis > 5000 {
                    TaskOutcome::Failed { reason: String::from_str("Waited over 5s waiting for inventory to sync!") }
                } else {
                    TaskOutcome::Ongoing
                }
            },
            SyncEvent::ContainerContent => TaskOutcome::Succeeded,
            SyncEvent::Other => TaskOutcome::Ongoing,
        }
    }

    /// Outcome of an event now.
    pub fn handle(&self, event: SyncEvent) -> (r: TaskOutcome)
        ensures
            exists|elapsed: u64| r@ == #[trigger] sync_outcome(event, elapsed),
    {
        let elapsed = elapsed_millis(&self.started_at);
        self.outcome_after(event, elapsed)
    }
}

} // verus!
