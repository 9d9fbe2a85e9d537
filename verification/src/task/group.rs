//! A group of subtasks worked through in order, with a cursor on the current one.
//!
//! The step functions decide which subtask to start or handle next from what the last
//! one did; `handle` runs the subtasks through the `Task` trait along those steps.

use vstd::prelude::*;
use vstd::string::*;
use crate::text::{dec, push_dec};
use crate::task::outcome::{TaskOutcome, OutcomeView, unit_result_view};

verus! {

/// Subtasks in order, the position of the current one, and whether it was started.
/// A group without a name is the root group.
#[derive(Debug)]
pub struct TaskGroup<T> {
    pub name: Option<String>,
    pub subtasks: Vec<T>,
    pub subtask_index: usize,
    pub subtask_started: bool,
}

/// A task the bot works on: started, handed events of type `E` until it concludes, and
/// stopped where it is cut short. Errors are their messages.
pub trait Task<E> {
    /// Prepares the task before its first event.
    fn start(&mut self) -> Result<(), String>;
    /// Handles an event (`is_tick`: the event is a game tick).
    fn handle(&mut self, event: &E, is_tick: bool) -> Result<TaskOutcome, String>;
    /// Stops the task before it concluded.
    fn stop(&mut self) -> Result<(), String>;
    /// The task's status line.
    fn describe_task(&self) -> String;
}

/// What a handled subtask did (with the reason where it failed).
#[derive(Debug)]
pub enum SubtaskResult {
    Ongoing,
    Succeeded,
    Failed(String),
    Errored,
}

/// What the group asks its caller to do next.
#[derive(Debug)]
pub enum GroupStep {
    /// Start the subtask at this position, report it with `mark_started`, then handle it.
    Start(usize),
    /// Handle the event with the subtask at this position and report the result.
    Handle(usize),
    /// Handling this event is over: the group is still going.
    Ongoing,
    /// All subtasks succeeded.
    Succeeded,
    /// A subtask of a named group failed: the group fails with this reason.
    Failed(String),
    /// A subtask errored: the group stops its current subtask and fails.
    Errored,
}

/// The text of a group name (`<Root>` for the root group).
pub open spec fn spec_group_name(name: Option<Seq<char>>) -> Seq<char> {
    match name {
        Some(n) => n,
        None => "<Root>"@,
    }
}

/// View of an optional string.
pub open spec fn name_view(name: Option<String>) -> Option<Seq<char>> {
    match name {
        Some(n) => Some(n@),
        None => None,
    }
}

/// Subtasks left: those from the cursor on.
pub open spec fn spec_remaining(len: nat, index: nat) -> int {
    if len >= index { len - index } else { 0 }
}

impl<T> TaskGroup<T> {
    /// The cursor stays within the subtasks (it may point just past the last one).
    pub open spec fn wf(&self) -> bool {
        self.subtask_index <= self.subtasks@.len()
    }

    /// Position of the current subtask.
    pub open spec fn cursor(&self) -> nat {
        self.subtask_index as nat
    }

    /// Whether the current subtask was started.
    pub open spec fn started(&self) -> bool {
        self.subtask_started
    }

    /// The root group, with no subtasks.
    pub fn new_root() -> (r: TaskGroup<T>)
        ensures
            r.wf(),
            r.name is None,
            r.subtasks@.len() == 0,
            r.cursor() == 0,
            !r.started(),
    {
        TaskGroup { name: None, subtasks: Vec::new(), subtask_index: 0, subtask_started: false }
    }

    /// A named group, with no subtasks.
    pub fn new(name: &str) -> (r: TaskGroup<T>)
        ensures
            r.wf(),
            name_view(r.name) == Some(name@),
            r.subtasks@.len() == 0,
            r.cursor() == 0,
            !r.started(),
    {
        TaskGroup { name: Some(String::from_str(name)), subtasks: Vec::new(), subtask_index: 0, subtask_started: false }
    }

    /// The group's name, `<Root>` for the root group.
    pub fn name(&self) -> (r: String)
        ensures
            r@ == spec_group_name(name_view(self.name)),
    {
        match &self.name {
            Some(n) => n.clone(),
            None => String::from_str("<Root>"),
        }
    }

    /// Whether this is the root group.
    pub fn is_root(&self) -> (r: bool)
        ensures
            r == (self.name is None),
    {
        self.name.is_none()
    }

    /// Position of the current subtask.
    pub fn subtask_index(&self) -> (r: usize)
        ensures
            r == self.cursor(),
    {
        self.subtask_index
    }

    /// Whether the current subtask was started.
    pub fn subtask_started(&self) -> (r: bool)
        ensures
            r == self.started(),
    {
        self.subtask_started
    }

    /// The group with one more subtask at the end.
    pub fn with(self, subtask: T) -> (r: TaskGroup<T>)
        requires
            self.wf(),
        ensures
            r.wf(),
            r.name == self.name,
            r.subtasks@ == self.subtasks@.push(subtask),
            r.cursor() == self.cursor(),
            r.started() == self.started(),
    {
        let mut g = self;
        g.subtasks.push(subtask);
        g
    }

    /// Adds a subtask at the end.
    pub fn add(&mut self, subtask: T)
        requires
            old(self).wf(),
        ensures
            final(self).wf(),
            final(self).name == old(self).name,
            final(self).subtasks@ == old(self).subtasks@.push(subtask),
            final(self).cursor() == old(self).cursor(),
            final(self).started() == old(self).started(),
    {
        self.subtasks.push(subtask);
    }

    /// Whether the current subtask was started and must be stopped before another
    /// subtask is put in front of it.
    pub fn must_stop_current(&self) -> (r: bool)
        ensures
            r == (self.cursor() < self.subtasks@.len() && self.started()),
    {
        self.subtask_index < self.subtasks.len() && self.subtask_started
    }

    /// Puts a subtask at the cursor, so that it runs next (after the current
    /// subtask was stopped, if `must_stop_current` said so).
    pub fn put_at_cursor(&mut self, subtask: T)
        requires
            old(self).wf(),
        ensures
            final(self).wf(),
            final(self).name == old(self).name,
            final(self).subtasks@ == old(self).subtasks@.insert(old(self).cursor() as int, subtask),
            final(self).cursor() == old(self).cursor(),
            !final(self).started(),
    {
        self.subtasks.insert(self.subtask_index, subtask);
        self.subtask_started = false;
    }

    /// Subtasks left, counting the current one.
    pub fn remaining(&self) -> (r: u64)
        requires
            self.wf(),
        ensures
            r == spec_remaining(self.subtasks@.len(), self.cursor()),
    {
        (self.subtasks.len() - self.subtask_index) as u64
    }

    /// Moves on to the next subtask, without stopping the current one.
    pub fn next_unchecked(&mut self)
        requires
            old(self).wf(),
        ensures
            final(self).wf(),
            final(self).name == old(self).name,
            final(self).subtasks@ == old(self).subtasks@,
            old(self).cursor() >= old(self).subtasks@.len() ==> final(self).cursor() == old(self).cursor()
                && final(self).started() == old(self).started(),
            old(self).cursor() < old(self).subtasks@.len() ==> final(self).cursor() == old(self).cursor() + 1
                && !final(self).started(),
    {
        if self.subtask_index >= self.subtasks.len() {
            return;
        }
        self.subtask_index = self.subtask_index + 1;
        self.subtask_started = false;
    }

    /// On a tick, when more than 512 subtasks piled up behind a cursor past 512,
    /// drops the first 256.
    pub fn cleanup(&mut self, is_tick: bool)
        ensures
            old(self).wf() ==> final(self).wf(),
            final(self).name == old(self).name,
            final(self).started() == old(self).started(),
            if is_tick && old(self).cursor() >= 512 && old(self).subtasks@.len() > 512 {
                final(self).subtasks@ == old(self).subtasks@.subrange(256, old(self).subtasks@.len() as int)
                    && final(self).cursor() == old(self).cursor() - 256
            } else {
                final(self).subtasks@ == old(self).subtasks@ && final(self).cursor() == old(self).cursor()
            },
    {
        if is_tick && self.subtask_index >= 512 && self.subtasks.len() > 512 {
            let mut rest: Vec<T> = Vec::new();
            std::mem::swap(&mut rest, &mut self.subtasks);
            let tail = rest.split_off(256);
            self.subtasks = tail;
            self.subtask_index = self.subtask_index - 256;
        }
    }

    /// The step for the subtask at the cursor: finished when none is left; otherwise
    /// start it on a tick if it was not started, wait for a tick if not, or handle it.
    fn step_at_cursor(&self, is_tick: bool) -> (r: GroupStep)
        requires
            self.wf(),
        ensures
            r == spec_step_at_cursor(self.subtasks@.len(), self.cursor(), self.started(), is_tick),
    {
        if self.subtask_index >= self.subtasks.len() {
            GroupStep::Succeeded
        } else if !self.subtask_started {
            if is_tick { GroupStep::Start(self.subtask_index) } else { GroupStep::Ongoing }
        } else {
            GroupStep::Handle(self.subtask_index)
        }
    }

    /// Begins handling an event: cleans up on ticks, then decides the first step.
    pub fn begin_handle(&mut self, is_tick: bool) -> (r: GroupStep)
        requires
            old(self).wf(),
        ensures
            final(self).wf(),
            final(self).name == old(self).name,
            final(self).started() == old(self).started(),
            final(self).subtasks@.len() == cleaned_len(*old(self), is_tick),
            final(self).subtasks@ == cleaned_tasks(*old(self), is_tick),
            final(self).cursor() == cleaned_cursor(*old(self), is_tick),
            r == spec_step_at_cursor(final(self).subtasks@.len(), final(self).cursor(), final(self).started(), is_tick),
    {
        self.cleanup(is_tick);
        self.step_at_cursor(is_tick)
    }

    /// Records that the current subtask was started; it is handled next.
    pub fn mark_started(&mut self) -> (r: GroupStep)
        requires
            old(self).wf(),
            old(self).cursor() < old(self).subtasks@.len(),
        ensures
            final(self).wf(),
            final(self).name == old(self).name,
            final(self).subtasks@ == old(self).subtasks@,
            final(self).cursor() == old(self).cursor(),
            final(self).started(),
            r == GroupStep::Handle(old(self).cursor() as usize),
    {
        self.subtask_started = true;
        GroupStep::Handle(self.subtask_index)
    }

    /// Decides what follows from handling the current subtask (whose status line is
    /// `current`): an ongoing subtask ends the handling; a success moves to the next
    /// subtask (finishing the group after the last); a failure skips to the next subtask
    /// in the root group and fails a named group, with the group's status line,
    /// ` failed: ` and the subtask's reason; an error fails the group.
    pub fn on_subtask_result(&mut self, result: SubtaskResult, current: &str, is_tick: bool) -> (r: GroupStep)
        requires
            old(self).wf(),
            old(self).cursor() < old(self).subtasks@.len(),
        ensures
            final(self).wf(),
            final(self).name == old(self).name,
            final(self).subtasks@ == old(self).subtasks@,
            match result {
                SubtaskResult::Ongoing => r == GroupStep::Ongoing && final(self).cursor() == old(self).cursor()
                    && final(self).started() == old(self).started(),
                SubtaskResult::Succeeded => final(self).cursor() == old(self).cursor() + 1 && !final(self).started()
                    && r == spec_step_at_cursor(final(self).subtasks@.len(), final(self).cursor(), false, is_tick),
                SubtaskResult::Failed(reason) => if old(self).name is None {
                    r == GroupStep::Ongoing && final(self).cursor() == old(self).cursor() + 1 && !final(self).started()
                } else {
                    (r matches GroupStep::Failed(text) && text@ == spec_describe(name_view(old(self).name),
                        old(self).subtasks@.len(), old(self).cursor(), old(self).started(), current@)
                        + " failed: "@ + reason@)
                    && final(self).cursor() == old(self).cursor() && final(self).started() == old(self).started()
                },
                SubtaskResult::Errored => r == GroupStep::Errored && final(self).cursor() == old(self).cursor()
                    && final(self).started() == old(self).started(),
            },
    {
        match result {
            SubtaskResult::Ongoing => GroupStep::Ongoing,
            SubtaskResult::Failed(reason) => {
                if self.is_root() {
                    self.next_unchecked();
                    GroupStep::Ongoing
                } else {
                    let mut text = self.describe(Some(current));
                    text.append(" failed: ");
                    text.append(reason.as_str());
                    GroupStep::Failed(text)
                }
            },
            SubtaskResult::Succeeded => {
                let len = self.subtasks.len();
                assert(self.subtask_index < len);
                self.subtask_index = self.subtask_index + 1;
                self.subtask_started = false;
                self.step_at_cursor(is_tick)
            },
            SubtaskResult::Errored => GroupStep::Errored,
        }
    }

    /// Records that the current subtask was stopped (when `must_stop_current` held).
    pub fn mark_stopped(&mut self)
        requires
            old(self).wf(),
        ensures
            final(self).wf(),
            final(self).name == old(self).name,
            final(self).subtasks@ == old(self).subtasks@,
            final(self).cursor() == old(self).cursor(),
            !final(self).started(),
    {
        self.subtask_started = false;
    }

    /// Marks the current subtask for a restart (what starting the group does).
    pub fn restart(&mut self)
        requires
            old(self).wf(),
        ensures
            final(self).wf(),
            final(self).name == old(self).name,
            final(self).subtasks@ == old(self).subtasks@,
            final(self).cursor() == old(self).cursor(),
            !final(self).started(),
    {
        self.subtask_started = false;
    }

    /// The status line of the group, given the text of its current subtask (if any).
    pub fn describe(&self, current: Option<&str>) -> (r: String)
        requires
            self.wf(),
        ensures
            r@ == spec_describe(
                name_view(self.name),
                self.subtasks@.len(),
                self.cursor(),
                self.started(),
                match current { Some(c) => c@, None => "<None>"@ },
            ),
    {
        proof {
            reveal_strlit(": Finished (");
            reveal_strlit(")");
            reveal_strlit(": [");
            reveal_strlit("/");
            reveal_strlit("] ");
            reveal_strlit("...");
            reveal_strlit("");
            reveal_strlit("Finished");
            reveal_strlit("[..");
            reveal_strlit("<None>");
        }
        let remaining = self.remaining();
        let len = self.subtasks.len();
        let current_text: &str = match current { Some(c) => c, None => "<None>" };
        match &self.name {
            Some(name) => {
                let mut r = name.clone();
                if remaining == 0 {
                    r.append(": Finished (");
                    push_dec(&mut r, self.subtasks.len() as u64);
                    r.append(")");
                } else {
                    r.append(": [");
                    assert(self.subtask_index < len);
                    push_dec(&mut r, self.subtask_index as u64 + 1);
                    r.append("/");
                    push_dec(&mut r, self.subtasks.len() as u64);
                    r.append("] ");
                    if !self.subtask_started {
                        r.append("...");
                    }
                    r.append(current_text);
                }
                r
            },
            None => {
                if remaining == 0 {
                    String::from_str("Finished")
                } else {
                    let mut r = String::from_str("[..");
                    push_dec(&mut r, remaining);
                    r.append("] ");
                    r.append(current_text);
                    r
                }
            },
        }
    }
}

/// Whether a step to start or handle a subtask names the current one, in the state the
/// step calls for.
pub open spec fn step_fits<T>(g: TaskGroup<T>, step: GroupStep) -> bool {
    match step {
        GroupStep::Start(i) => i == g.cursor() && g.cursor() < g.subtasks@.len() && !g.started(),
        GroupStep::Handle(i) => i == g.cursor() && g.cursor() < g.subtasks@.len() && g.started(),
        _ => true,
    }
}

/// The cursor after the cleanup on an event (`is_tick`).
pub open spec fn cleaned_cursor<T>(g: TaskGroup<T>, is_tick: bool) -> nat {
    if is_tick && g.cursor() >= 512 && g.subtasks@.len() > 512 { (g.cursor() - 256) as nat } else { g.cursor() }
}

/// The number of subtasks after the cleanup on an event (`is_tick`).
pub open spec fn cleaned_len<T>(g: TaskGroup<T>, is_tick: bool) -> nat {
    if is_tick && g.cursor() >= 512 && g.subtasks@.len() > 512 { (g.subtasks@.len() - 256) as nat } else { g.subtasks@.len() }
}

impl<T> TaskGroup<T> {
    /// Puts a subtask at the cursor, so that it runs next. A subtask already started
    /// there is stopped first; where stopping it fails, nothing is added and the error
    /// is told with the group's status line.
    pub fn add_now<E>(&mut self, subtask: T) -> (r: Result<(), String>)
        where T: Task<E>,
        requires
            old(self).wf(),
        ensures
            final(self).wf(),
            final(self).name == old(self).name,
            final(self).cursor() == old(self).cursor(),
            !(old(self).cursor() < old(self).subtasks@.len() && old(self).started()) ==> r is Ok
                && final(self).subtasks@ == old(self).subtasks@.insert(old(self).cursor() as int, subtask)
                && !final(self).started(),
            r is Ok ==> !final(self).started() && (final(self).subtasks@ == old(self).subtasks@.insert(old(self).cursor() as int, subtask)
                || exists|stopped: T| final(self).subtasks@ == #[trigger] old(self).subtasks@.update(old(self).cursor() as int, stopped)
                    .insert(old(self).cursor() as int, subtask)),
            r matches Err(m) ==> final(self).subtasks@.len() == old(self).subtasks@.len()
                && final(self).started() == old(self).started()
                && m@.len() >= 23 && m@.subrange(0, 23) == "Stopping current Task: "@,
            old(self).cursor() < old(self).subtasks@.len() && old(self).started() ==>
                exists|text: Seq<char>, res: Result<(), Seq<char>>, stopped: T|
                    #[trigger] add_now_as(unit_result_view(&r), group_view(*old(self)), text, res,
                        final(self).subtasks@, old(self).subtasks@, subtask, stopped),
    {
        if self.subtask_index < self.subtasks.len() && self.subtask_started {
            let i = self.subtask_index;
            let current = self.subtasks[i].describe_task();
            let text = self.describe(Some(current.as_str()));
            let ghost before = self.subtasks@;
            let sub = &mut self.subtasks[i];
            let stopped = sub.stop();
            proof {
                assert(self.subtasks@ == before.update(i as int, self.subtasks@[i as int]));
            }
            if let Err(e) = stopped {
                let mut m = String::from_str("Stopping current Task: ");
                m.append(text.as_str());
                m.append(": ");
                m.append(e.as_str());
                proof {
                    reveal_strlit("Stopping current Task: ");
                    assert(m@.subrange(0, 23) =~= "Stopping current Task: "@);
                    assert(m@ =~= "Stopping current Task: "@ + view_describe(group_view(*old(self)), current@) + ": "@ + e@);
                }
                let r: Result<(), String> = Err(m);
                assert(add_now_as(unit_result_view(&r), group_view(*old(self)), current@, Err(e@),
                    self.subtasks@, old(self).subtasks@, subtask, self.subtasks@[i as int]));
                return r;
            }
            let ghost st = self.subtasks@[i as int];
            self.put_at_cursor(subtask);
            assert(self.subtasks@ == old(self).subtasks@.update(i as int, st).insert(i as int, subtask));
            let r: Result<(), String> = Ok(());
            assert(add_now_as(unit_result_view(&r), group_view(*old(self)), current@, Ok(()),
                self.subtasks@, old(self).subtasks@, subtask, st));
            return r;
        } else {
            self.put_at_cursor(subtask);
        }
        Ok(())
    }

    /// Stops the current subtask where it was started; an error stopping it is told
    /// with the subtask's status line (see `stop_fits`).
    pub fn stop<E>(&mut self) -> (r: Result<(), String>)
        where T: Task<E>,
        ensures
            final(self).name == old(self).name,
            final(self).subtasks@.len() == old(self).subtasks@.len(),
            final(self).cursor() == old(self).cursor(),
            old(self).cursor() < old(self).subtasks@.len() && old(self).started() ==>
                exists|text: Seq<char>, res: Result<(), Seq<char>>, stopped: T|
                    #[trigger] stopped_as(unit_result_view(&r), final(self).started(), final(self).subtasks@,
                        old(self).subtasks@, old(self).cursor(), text, res, stopped),
            !(old(self).cursor() < old(self).subtasks@.len() && old(self).started()) ==> r is Ok
                && final(self).started() == old(self).started() && final(self).subtasks@ == old(self).subtasks@,
    {
        if self.subtask_index < self.subtasks.len() && self.subtask_started {
            let i = self.subtask_index;
            let text = self.subtasks[i].describe_task();
            let ghost before = self.subtasks@;
            let sub = &mut self.subtasks[i];
            let stopped = sub.stop();
            proof {
                assert(self.subtasks@ == before.update(i as int, self.subtasks@[i as int]));
            }
            let ghost task = self.subtasks@[i as int];
            match stopped {
                Ok(()) => {
                    self.subtask_started = false;
                    let r: Result<(), String> = Ok(());
                    assert(stopped_as(unit_result_view(&r), self.started(), self.subtasks@, before, i as nat, text@, Ok(()), task));
                    r
                },
                Err(e) => {
                    let mut m = String::from_str("Stop ");
                    m.append(text.as_str());
                    m.append(": ");
                    m.append(e.as_str());
                    let r: Result<(), String> = Err(m);
                    assert(stopped_as(unit_result_view(&r), self.started(), self.subtasks@, before, i as nat, text@, Err(e@), task));
                    r
                },
            }
        } else {
            Ok(())
        }
    }

    /// Handles an event: cleans up on ticks, then works along the steps: starts the
    /// current subtask on a tick (waiting for one otherwise), hands it the event, and
    /// after each success goes on with the next subtask within the same event. A
    /// subtask's failure skips it in the root group and fails a named group; an error
    /// of a subtask stops it and fails the group; an error starting it is returned.
    /// The subtasks' answers decide the run, as `handle_outcome` folds the steps over
    /// them.
    #[verifier::spinoff_prover]
    #[verifier::rlimit(100)]
    pub fn handle<E>(&mut self, event: &E, is_tick: bool) -> (r: Result<TaskOutcome, String>)
        where T: Task<E>,
        ensures
            final(self).name == old(self).name,
            !old(self).wf() ==> r matches Ok(TaskOutcome::Succeeded),
            old(self).wf() ==> final(self).wf(),
            old(self).wf() ==> exists|answers: Seq<SubtaskAnswer<T>>|
                #[trigger] handled_as(*old(self), is_tick, answers, *final(self), result_view(r)),
    {
        if self.subtask_index > self.subtasks.len() {
            self.cleanup(is_tick);
            return Ok(TaskOutcome::Succeeded);
        }
        let ghost v0 = handle_start(*old(self), is_tick).0;
        let ghost s0 = handle_start(*old(self), is_tick).1;
        let ghost t0 = cleaned_tasks(*old(self), is_tick);
        let mut step = self.begin_handle(is_tick);
        let ghost mut answers: Seq<SubtaskAnswer<T>> = Seq::empty();
        assert(reach(v0, s0, answers, is_tick) == Some((group_view(*self), HandleNext::Step(step_view(step)))));
        loop
            invariant
                old(self).wf(),
                self.wf(),
                self.name == old(self).name,
                v0 == handle_start(*old(self), is_tick).0,
                s0 == handle_start(*old(self), is_tick).1,
                t0 == cleaned_tasks(*old(self), is_tick),
                step_fits(*self, step),
                !(step is Errored),
                reach(v0, s0, answers, is_tick) == Some((group_view(*self), HandleNext::Step(step_view(step)))),
                self.subtasks@ == tasks_after(t0, v0, s0, answers, is_tick),
            decreases 4 * (self.subtasks@.len() - self.cursor()) + (if self.started() { 1int } else { 2int })
                + (if step is Start || step is Handle { 1int } else { 0int }),
        {
            let ghost v = group_view(*self);
            let ghost before = self.subtasks@;
            match step {
                GroupStep::Succeeded => {
                    let r: Result<TaskOutcome, String> = Ok(TaskOutcome::Succeeded);
                    assert(handled_as(*old(self), is_tick, answers, *self, result_view(r)));
                    return r;
                },
                GroupStep::Ongoing => {
                    let r: Result<TaskOutcome, String> = Ok(TaskOutcome::Ongoing);
                    assert(handled_as(*old(self), is_tick, answers, *self, result_view(r)));
                    return r;
                },
                GroupStep::Failed(reason) => {
                    let r: Result<TaskOutcome, String> = Ok(TaskOutcome::Failed { reason });
                    assert(handled_as(*old(self), is_tick, answers, *self, result_view(r)));
                    return r;
                },
                GroupStep::Start(i) => {
                    let current = self.subtasks[i].describe_task();
                    let text = self.describe(Some(current.as_str()));
                    let sub = &mut self.subtasks[i];
                    let started = sub.start();
                    proof {
                        assert(self.subtasks@ == before.update(i as int, self.subtasks@[i as int]));
                    }
                    let ghost a = SubtaskAnswer::Started { text: current@, result: unit_result_view(&started), task: self.subtasks@[i as int] };
                    proof {
                        assert(answers.push(a).drop_last() =~= answers);
                    }
                    if let Err(e) = started {
                        let mut m = String::from_str("Start ");
                        m.append(text.as_str());
                        m.append(": ");
                        m.append(e.as_str());
                        proof {
                            assert(m@ =~= "Start "@ + view_describe(v, current@) + ": "@ + e@);
                            answers = answers.push(a);
                        }
                        let r: Result<TaskOutcome, String> = Err(m);
                        assert(handled_as(*old(self), is_tick, answers, *self, result_view(r)));
                        return r;
                    }
                    step = self.mark_started();
                    proof {
                        answers = answers.push(a);
                    }
                },
                GroupStep::Handle(i) => {
                    let current = self.subtasks[i].describe_task();
                    let text = self.describe(Some(current.as_str()));
                    let sub = &mut self.subtasks[i];
                    let handled = sub.handle(event, is_tick);
                    proof {
                        assert(self.subtasks@ == before.update(i as int, self.subtasks@[i as int]));
                    }
                    match handled {
                        Ok(o) => {
                            let ghost a = SubtaskAnswer::Handled { text: current@, outcome: o@, task: self.subtasks@[i as int] };
                            proof {
                                assert(answers.push(a).drop_last() =~= answers);
                            }
                            let result = match o {
                                TaskOutcome::Ongoing => SubtaskResult::Ongoing,
                                TaskOutcome::Succeeded => SubtaskResult::Succeeded,
                                TaskOutcome::Failed { reason } => SubtaskResult::Failed(reason),
                            };
                            step = self.on_subtask_result(result, current.as_str(), is_tick);
                            proof {
                                answers = answers.push(a);
                            }
                        },
                        Err(e) => {
                            let after = self.subtasks[i].describe_task();
                            let ghost mid = self.subtasks@;
                            let stopped = self.stop();
                            let ghost (stop_text, stop_res, stopped_task) = choose|t: Seq<char>, res: Result<(), Seq<char>>, st: T|
                                #[trigger] stopped_as(unit_result_view(&stopped), self.started(), self.subtasks@, mid, i as nat, t, res, st);
                            let ghost a = SubtaskAnswer::HandleErrored {
                                text: current@, error: e@, after: after@, stop_text, stop: stop_res, task: stopped_task,
                            };
                            proof {
                                assert(answers.push(a).drop_last() =~= answers);
                                assert(self.subtasks@ =~= before.update(i as int, stopped_task));
                                answers = answers.push(a);
                            }
                            if let Err(m) = stopped {
                                let r: Result<TaskOutcome, String> = Err(m);
                                assert(handled_as(*old(self), is_tick, answers, *self, result_view(r)));
                                return r;
                            }
                            let mut reason = String::from_str("Error when handling subtask ");
                            reason.append(after.as_str());
                            reason.append(": Handle ");
                            reason.append(text.as_str());
                            reason.append(": ");
                            reason.append(e.as_str());
                            proof {
                                assert(reason@ =~= "Error when handling subtask "@ + after@ + ": Handle "@
                                    + view_describe(v, current@) + ": "@ + e@);
                            }
                            let r: Result<TaskOutcome, String> = Ok(TaskOutcome::Failed { reason });
                            assert(handled_as(*old(self), is_tick, answers, *self, result_view(r)));
                            return r;
                        },
                    }
                },
                GroupStep::Errored => {
                    proof {
                        assert(false);
                    }
                    return Ok(TaskOutcome::Ongoing);
                },
            }
        }
    }
}

/// What processing the root group on an event came to.
#[derive(Debug)]
pub enum RootReport {
    /// No tasks were left.
    Idle,
    /// The bot had no position: all tasks were canceled.
    Canceled,
    /// The tasks go on.
    Ongoing,
    /// All tasks are done; the group starts afresh.
    Done,
    /// The tasks failed with this reason; the group starts afresh.
    Failed(String),
    /// Handling the tasks gave this error; the group starts afresh.
    Errored(String),
}

/// A root report as values.
pub enum RootReportView {
    Idle,
    Canceled,
    Ongoing,
    Done,
    Failed(Seq<char>),
    Errored(Seq<char>),
}

impl View for RootReport {
    type V = RootReportView;

    open spec fn view(&self) -> RootReportView {
        match self {
            RootReport::Idle => RootReportView::Idle,
            RootReport::Canceled => RootReportView::Canceled,
            RootReport::Ongoing => RootReportView::Ongoing,
            RootReport::Done => RootReportView::Done,
            RootReport::Failed(t) => RootReportView::Failed(t@),
            RootReport::Errored(t) => RootReportView::Errored(t@),
        }
    }
}

/// Whether a root report and the group's view after it follow from a handling that
/// ended as `handled` says (see `root_after`).
pub open spec fn root_fits(handled: Option<(GroupView, Result<OutcomeView, Seq<char>>)>, r: Result<RootReport, String>, after: GroupView) -> bool {
    match handled {
        Some((v, res)) => match r {
            Ok(rep) => (rep@, after) == root_after(v, res),
            Err(_) => false,
        },
        None => false,
    }
}

/// Whether processing the root group went as the subtasks' answers say: the report
/// and view as `root_fits` gives them, and, where the tasks go on, the subtasks as
/// `tasks_after` gives them.
pub open spec fn root_handled<T>(old: TaskGroup<T>, is_tick: bool, answers: Seq<SubtaskAnswer<T>>, after: TaskGroup<T>,
    r: Result<RootReport, String>) -> bool
{
    let (v0, s0) = handle_start(old, is_tick);
    let handled = handle_outcome(v0, s0, answers, is_tick);
    &&& root_fits(handled, r, group_view(after))
    &&& (handled matches Some((_, res)) && res == Ok::<OutcomeView, Seq<char>>(OutcomeView::Ongoing))
        ==> after.subtasks@ == tasks_after(cleaned_tasks(old, is_tick), v0, s0, answers, is_tick)
}

/// A root report result, with the report left out.
pub open spec fn root_unit(r: Result<RootReport, String>) -> Result<(), Seq<char>> {
    match r {
        Ok(_) => Ok(()),
        Err(e) => Err(e@),
    }
}

/// The view of an empty root group.
pub open spec fn empty_root() -> GroupView {
    GroupView { name: None, len: 0, cursor: 0, started: false }
}

/// The report, and the group's view after it, for a handling of the root group that
/// ended in view `v` with `res`: the group starts afresh unless the tasks go on.
pub open spec fn root_after(v: GroupView, res: Result<OutcomeView, Seq<char>>) -> (RootReportView, GroupView) {
    match res {
        Ok(OutcomeView::Ongoing) => (RootReportView::Ongoing, v),
        Ok(OutcomeView::Succeeded) => (RootReportView::Done, empty_root()),
        Ok(OutcomeView::Failed(t)) => (RootReportView::Failed(t), empty_root()),
        Err(e) => (RootReportView::Errored(e), empty_root()),
    }
}

impl<T> TaskGroup<T> {
    /// Processes the root group on an event, where tasks are left: with no position
    /// (`has_position` false) the current task is stopped and all tasks are dropped;
    /// otherwise the event is handled, and the group starts afresh once the tasks
    /// succeeded, failed or gave an error. An error stopping the current task is
    /// returned, the group left as it was.
    #[verifier::spinoff_prover]
    #[verifier::rlimit(100)]
    pub fn process_root<E>(&mut self, event: &E, is_tick: bool, has_position: bool) -> (r: Result<RootReport, String>)
        where T: Task<E>,
        requires
            old(self).wf(),
            old(self).name is None,
        ensures
            final(self).wf(),
            final(self).name is None,
            spec_remaining(old(self).subtasks@.len(), old(self).cursor()) == 0 ==> (r matches Ok(rep) && rep@ == RootReportView::Idle
                && group_view(*final(self)) == group_view(*old(self))),
            spec_remaining(old(self).subtasks@.len(), old(self).cursor()) > 0 && !has_position ==> {
                &&& r matches Ok(rep) ==> rep@ == RootReportView::Canceled && group_view(*final(self)) == empty_root()
                &&& !old(self).started() ==> r is Ok
                &&& old(self).started() ==> exists|text: Seq<char>, res: Result<(), Seq<char>>|
                    #[trigger] stop_fits(root_unit(r), final(self).started(), text, res)
                &&& r is Err ==> exists|text: Seq<char>, res: Result<(), Seq<char>>, stopped: T|
                    #[trigger] stopped_as(root_unit(r), final(self).started(), final(self).subtasks@,
                        old(self).subtasks@, old(self).cursor(), text, res, stopped)
            },
            spec_remaining(old(self).subtasks@.len(), old(self).cursor()) > 0 && has_position ==>
                exists|answers: Seq<SubtaskAnswer<T>>| #[trigger] root_handled(*old(self), is_tick, answers, *final(self), r),
    {
        if self.remaining() == 0 {
            return Ok(RootReport::Idle);
        }
        if !has_position {
            let stopped = self.stop();
            let ghost started_after_stop = self.started();
            match stopped {
                Ok(()) => {
                    let ghost tasks_after_stop = self.subtasks@;
                    *self = TaskGroup::new_root();
                    let r: Result<RootReport, String> = Ok(RootReport::Canceled);
                    proof {
                        if old(self).started() {
                            let (t, res, st) = choose|t: Seq<char>, res: Result<(), Seq<char>>, st: T|
                                #[trigger] stopped_as(unit_result_view(&stopped), started_after_stop, tasks_after_stop,
                                    old(self).subtasks@, old(self).cursor(), t, res, st);
                            assert(stop_fits(root_unit(r), self.started(), t, res));
                        }
                    }
                    return r;
                },
                Err(m) => {
                    let r: Result<RootReport, String> = Err(m);
                    proof {
                        let (t, res, st) = choose|t: Seq<char>, res: Result<(), Seq<char>>, st: T|
                            #[trigger] stopped_as(unit_result_view(&stopped), self.started(), self.subtasks@,
                                old(self).subtasks@, old(self).cursor(), t, res, st);
                        assert(stop_fits(root_unit(r), self.started(), t, res));
                        assert(stopped_as(root_unit(r), self.started(), self.subtasks@, old(self).subtasks@, old(self).cursor(), t, res, st));
                    }
                    return r;
                },
            }
        }
        let handled = self.handle(event, is_tick);
        let ghost after = *self;
        let ghost answers = choose|answers: Seq<SubtaskAnswer<T>>| #[trigger] handled_as(*old(self), is_tick, answers, after, result_view(handled));
        let report = match handled {
            Ok(TaskOutcome::Ongoing) => RootReport::Ongoing,
            Ok(TaskOutcome::Succeeded) => {
                *self = TaskGroup::new_root();
                RootReport::Done
            },
            Ok(TaskOutcome::Failed { reason }) => {
                *self = TaskGroup::new_root();
                RootReport::Failed(reason)
            },
            Err(e) => {
                *self = TaskGroup::new_root();
                RootReport::Errored(e)
            },
        };
        let r: Result<RootReport, String> = Ok(report);
        proof {
            assert(root_handled(*old(self), is_tick, answers, *self, r));
        }
        r
    }
}

impl<E, T: Task<E>> Task<E> for TaskGroup<T> {
    fn start(&mut self) -> Result<(), String> {
        self.subtask_started = false;
        Ok(())
    }

    fn handle(&mut self, event: &E, is_tick: bool) -> Result<TaskOutcome, String> {
        TaskGroup::handle(self, event, is_tick)
    }

    fn stop(&mut self) -> Result<(), String> {
        TaskGroup::stop(self)
    }

    fn describe_task(&self) -> String {
        if self.subtask_index < self.subtasks.len() {
            let current = self.subtasks[self.subtask_index].describe_task();
            self.describe(Some(current.as_str()))
        } else if self.subtask_index == self.subtasks.len() {
            self.describe(None)
        } else {
            match &self.name {
                Some(n) => {
                    let mut r = n.clone();
                    r.append(": Finished (");
                    push_dec(&mut r, self.subtasks.len() as u64);
                    r.append(")");
                    r
                },
                None => String::from_str("Finished"),
            }
        }
    }
}

/// A group as the steps see it: its name, how many subtasks it has, the cursor and
/// whether the current subtask was started.
pub struct GroupView {
    pub name: Option<Seq<char>>,
    pub len: nat,
    pub cursor: nat,
    pub started: bool,
}

/// The group's view.
pub open spec fn group_view<T>(g: TaskGroup<T>) -> GroupView {
    GroupView { name: name_view(g.name), len: g.subtasks@.len(), cursor: g.cursor(), started: g.started() }
}

/// A step as values.
pub enum StepView {
    Start(nat),
    Handle(nat),
    Ongoing,
    Succeeded,
    Failed(Seq<char>),
    Errored,
}

/// The step's view.
pub open spec fn step_view(s: GroupStep) -> StepView {
    match s {
        GroupStep::Start(i) => StepView::Start(i as nat),
        GroupStep::Handle(i) => StepView::Handle(i as nat),
        GroupStep::Ongoing => StepView::Ongoing,
        GroupStep::Succeeded => StepView::Succeeded,
        GroupStep::Failed(t) => StepView::Failed(t@),
        GroupStep::Errored => StepView::Errored,
    }
}

/// What the subtask at the cursor answered when the group called it: its status line
/// as read just before, what the call gave back, and the subtask as the call left it.
pub enum SubtaskAnswer<T> {
    /// Starting it.
    Started { text: Seq<char>, result: Result<(), Seq<char>>, task: T },
    /// Handing it the event, which it handled.
    Handled { text: Seq<char>, outcome: OutcomeView, task: T },
    /// Handing it the event, which gave an error; then its status line again, and
    /// stopping it (with the status line read by the stop); `task` is the subtask as
    /// the stop left it.
    HandleErrored { text: Seq<char>, error: Seq<char>, after: Seq<char>, stop_text: Seq<char>, stop: Result<(), Seq<char>>, task: T },
}

/// The subtask as the call that gave this answer left it.
pub open spec fn answer_task<T>(a: SubtaskAnswer<T>) -> T {
    match a {
        SubtaskAnswer::Started { task, .. } => task,
        SubtaskAnswer::Handled { task, .. } => task,
        SubtaskAnswer::HandleErrored { task, .. } => task,
    }
}

/// Where handling goes after a step: on with another step, or done with a result.
pub enum HandleNext {
    Step(StepView),
    Done(Result<OutcomeView, Seq<char>>),
}

/// The group's status line with current subtask `text`.
pub open spec fn view_describe(v: GroupView, text: Seq<char>) -> Seq<char> {
    spec_describe(v.name, v.len, v.cursor, v.started, text)
}

/// One step of handling an event with the subtask's answer to it (`None`: the answer
/// does not fit the step).
pub open spec fn advance<T>(v: GroupView, s: StepView, a: SubtaskAnswer<T>, is_tick: bool) -> Option<(GroupView, HandleNext)> {
    match s {
        StepView::Start(i) => match a {
            SubtaskAnswer::Started { text, result, .. } => match result {
                Err(e) => Some((v, HandleNext::Done(Err("Start "@ + view_describe(v, text) + ": "@ + e)))),
                Ok(_) => Some((GroupView { started: true, ..v }, HandleNext::Step(StepView::Handle(i)))),
            },
            _ => None,
        },
        StepView::Handle(i) => match a {
            SubtaskAnswer::Handled { text, outcome, .. } => match outcome {
                OutcomeView::Ongoing => Some((v, HandleNext::Step(StepView::Ongoing))),
                OutcomeView::Succeeded => {
                    let v2 = GroupView { cursor: v.cursor + 1, started: false, ..v };
                    Some((v2, HandleNext::Step(step_view(spec_step_at_cursor(v2.len, v2.cursor, false, is_tick)))))
                },
                OutcomeView::Failed(reason) => if v.name is None {
                    Some((GroupView { cursor: v.cursor + 1, started: false, ..v }, HandleNext::Step(StepView::Ongoing)))
                } else {
                    Some((v, HandleNext::Step(StepView::Failed(view_describe(v, text) + " failed: "@ + reason))))
                },
            },
            SubtaskAnswer::HandleErrored { text, error, after, stop_text, stop, .. } => match stop {
                Err(e) => Some((v, HandleNext::Done(Err("Stop "@ + stop_text + ": "@ + e)))),
                Ok(_) => Some((GroupView { started: false, ..v }, HandleNext::Done(Ok(OutcomeView::Failed(
                    "Error when handling subtask "@ + after + ": Handle "@ + view_describe(v, text) + ": "@ + error))))),
            },
            _ => None,
        },
        _ => None,
    }
}

/// Where handling stands after the subtasks gave `answers`, from view `v0` and step `s0`.
pub open spec fn reach<T>(v0: GroupView, s0: StepView, answers: Seq<SubtaskAnswer<T>>, is_tick: bool) -> Option<(GroupView, HandleNext)>
    decreases answers.len(),
{
    if answers.len() == 0 {
        Some((v0, HandleNext::Step(s0)))
    } else {
        match reach(v0, s0, answers.drop_last(), is_tick) {
            Some((v, HandleNext::Step(s))) => advance(v, s, answers.last(), is_tick),
            _ => None,
        }
    }
}

/// The result a step ends handling with, if it is a final one.
pub open spec fn finish(s: StepView) -> Option<Result<OutcomeView, Seq<char>>> {
    match s {
        StepView::Ongoing => Some(Ok(OutcomeView::Ongoing)),
        StepView::Succeeded => Some(Ok(OutcomeView::Succeeded)),
        StepView::Failed(t) => Some(Ok(OutcomeView::Failed(t))),
        _ => None,
    }
}

/// How handling an event ends when the subtasks give `answers`: the group's view after
/// it and the result (`None`: the answers do not make a whole run).
pub open spec fn handle_outcome<T>(v0: GroupView, s0: StepView, answers: Seq<SubtaskAnswer<T>>, is_tick: bool)
    -> Option<(GroupView, Result<OutcomeView, Seq<char>>)>
{
    match reach(v0, s0, answers, is_tick) {
        Some((v, HandleNext::Done(res))) => Some((v, res)),
        Some((v, HandleNext::Step(s))) => match finish(s) {
            Some(res) => Some((v, res)),
            None => None,
        },
        None => None,
    }
}

/// The subtasks after the subtasks gave `answers` (from view `v0` at step `s0`): each
/// answer replaces the subtask at the cursor of the step it answered, all others stay.
pub open spec fn tasks_after<T>(tasks: Seq<T>, v0: GroupView, s0: StepView, answers: Seq<SubtaskAnswer<T>>, is_tick: bool) -> Seq<T>
    decreases answers.len(),
{
    if answers.len() == 0 {
        tasks
    } else {
        let before = tasks_after(tasks, v0, s0, answers.drop_last(), is_tick);
        match reach(v0, s0, answers.drop_last(), is_tick) {
            Some((v, _)) => before.update(v.cursor as int, answer_task(answers.last())),
            None => before,
        }
    }
}

/// The subtasks after the cleanup on an event.
pub open spec fn cleaned_tasks<T>(g: TaskGroup<T>, is_tick: bool) -> Seq<T> {
    if is_tick && g.cursor() >= 512 && g.subtasks@.len() > 512 { g.subtasks@.subrange(256, g.subtasks@.len() as int) } else { g.subtasks@ }
}

/// Whether handling an event ended as the subtasks' answers say: the group's view and
/// result as `handle_outcome` gives them, and the subtasks as `tasks_after` gives them.
pub open spec fn handled_as<T>(old: TaskGroup<T>, is_tick: bool, answers: Seq<SubtaskAnswer<T>>,
    after: TaskGroup<T>, r: Result<OutcomeView, Seq<char>>) -> bool
{
    let (v0, s0) = handle_start(old, is_tick);
    &&& handle_outcome(v0, s0, answers, is_tick) == Some((group_view(after), r))
    &&& after.subtasks@ == tasks_after(cleaned_tasks(old, is_tick), v0, s0, answers, is_tick)
}

/// Whether stopping the current subtask went as `stop_fits` says, with the subtask at
/// `cursor` replaced by `stopped`, as the stop left it, and all others unchanged.
pub open spec fn stopped_as<T>(r: Result<(), Seq<char>>, started_after: bool, after: Seq<T>, before: Seq<T>, cursor: nat,
    text: Seq<char>, res: Result<(), Seq<char>>, stopped: T) -> bool
{
    stop_fits(r, started_after, text, res) && after == before.update(cursor as int, stopped)
}

/// How `add_now` went where it had to stop the current subtask first: `res` is what
/// the subtask's stop gave back, and `text` its status line before: added where the
/// stop succeeded, else told with the group's status line.
pub open spec fn add_now_fits(r: Result<(), Seq<char>>, v: GroupView, text: Seq<char>, res: Result<(), Seq<char>>) -> bool {
    match res {
        Ok(_) => r is Ok,
        Err(e) => r == Err::<(), Seq<char>>("Stopping current Task: "@ + view_describe(v, text) + ": "@ + e),
    }
}

/// How `add_now` went where it had to stop the current subtask first (`add_now_fits`),
/// with `stopped` the subtask as its stop left it: where it succeeded, the new subtask
/// went in at the cursor; where it failed, only the stopped subtask changed.
pub open spec fn add_now_as<T>(r: Result<(), Seq<char>>, v: GroupView, text: Seq<char>, res: Result<(), Seq<char>>,
    after: Seq<T>, before: Seq<T>, subtask: T, stopped: T) -> bool
{
    &&& add_now_fits(r, v, text, res)
    &&& after == if r is Ok {
        before.update(v.cursor as int, stopped).insert(v.cursor as int, subtask)
    } else {
        before.update(v.cursor as int, stopped)
    }
}

/// How stopping the current subtask went: `res` is what its stop gave back, and
/// `text` its status line as read by the stop.
pub open spec fn stop_fits(r: Result<(), Seq<char>>, started_after: bool, text: Seq<char>, res: Result<(), Seq<char>>) -> bool {
    match res {
        Ok(_) => r is Ok && !started_after,
        Err(e) => r == Err::<(), Seq<char>>("Stop "@ + text + ": "@ + e) && started_after,
    }
}

/// The group's view after the cleanup on an event, and the first step.
pub open spec fn handle_start<T>(g: TaskGroup<T>, is_tick: bool) -> (GroupView, StepView) {
    let v = GroupView { name: name_view(g.name), len: cleaned_len(g, is_tick), cursor: cleaned_cursor(g, is_tick), started: g.started() };
    (v, step_view(spec_step_at_cursor(v.len, v.cursor, v.started, is_tick)))
}

/// A handling result as values.
pub open spec fn result_view(r: Result<TaskOutcome, String>) -> Result<OutcomeView, Seq<char>> {
    match r {
        Ok(o) => Ok(o@),
        Err(e) => Err(e@),
    }
}

/// The step for the subtask at `index` of `len` subtasks.
pub open spec fn spec_step_at_cursor(len: nat, index: nat, started: bool, is_tick: bool) -> GroupStep {
    if index >= len {
        GroupStep::Succeeded
    } else if !started {
        if is_tick { GroupStep::Start(index as usize) } else { GroupStep::Ongoing }
    } else {
        GroupStep::Handle(index as usize)
    }
}

/// The status line of a group: for a named group `<name>: Finished (<count>)` or
/// `<name>: [<position>/<count>] <subtask>` (with `...` before a subtask not yet
/// started); for the root group `Finished` or `[..<remaining>] <subtask>`.
pub open spec fn spec_describe(name: Option<Seq<char>>, len: nat, index: nat, started: bool, current: Seq<char>) -> Seq<char> {
    let remaining = spec_remaining(len, index);
    match name {
        Some(n) => if remaining == 0 {
            n + ": Finished ("@ + dec(len) + ")"@
        } else {
            n + ": ["@ + dec(index + 1) + "/"@ + dec(len) + "] "@ + (if started { ""@ } else { "..."@ }) + current
        },
        None => if remaining == 0 {
            "Finished"@
        } else {
            "[.."@ + dec(remaining as nat) + "] "@ + current
        },
    }
}

/// A subtask put in with `add_now` is the one the group works on next, and the
/// subtasks after the cursor keep their order behind it.
pub proof fn law_add_now_runs_next<T>(subtasks: Seq<T>, index: nat, subtask: T)
    requires
        index <= subtasks.len(),
    ensures
        subtasks.insert(index as int, subtask)[index as int] == subtask,
        subtasks.insert(index as int, subtask).subrange(index as int + 1, subtasks.len() as int + 1)
            == subtasks.subrange(index as int, subtasks.len() as int),
        spec_remaining(subtasks.len() + 1, index) == spec_remaining(subtasks.len(), index) + 1,
{
    assert(subtasks.insert(index as int, subtask).subrange(index as int + 1, subtasks.len() as int + 1)
        =~= subtasks.subrange(index as int, subtasks.len() as int));
}

/// Adding a subtask at the end, or skipping one, changes the number of subtasks
/// left by exactly one.
pub proof fn law_remaining_counts_subtasks(len: nat, index: nat)
    requires
        index <= len,
    ensures
        spec_remaining(len + 1, index) == spec_remaining(len, index) + 1,
        index < len ==> spec_remaining(len, index + 1) == spec_remaining(len, index) - 1,
{
}

/// The answers of the first `k` subtasks when each starts and then succeeds, leaving
/// subtask `j` as `afters[j]`.
pub open spec fn all_succeed<T>(afters: Seq<T>, k: nat) -> Seq<SubtaskAnswer<T>>
    decreases k,
{
    if k == 0 {
        Seq::empty()
    } else {
        all_succeed(afters, (k - 1) as nat)
            .push(SubtaskAnswer::Started { text: Seq::empty(), result: Ok(()), task: afters[k - 1] })
            .push(SubtaskAnswer::Handled { text: Seq::empty(), outcome: OutcomeView::Succeeded, task: afters[k - 1] })
    }
}

proof fn lemma_all_succeed_reach<T>(v: GroupView, tasks: Seq<T>, afters: Seq<T>, k: nat)
    requires
        v.cursor == 0,
        !v.started,
        v.len >= 1,
        k <= v.len,
        tasks.len() == v.len,
        afters.len() == v.len,
    ensures
        reach(v, StepView::Start(0), all_succeed(afters, k), true) == Some((GroupView { cursor: k, ..v },
            HandleNext::Step(step_view(spec_step_at_cursor(v.len, k, false, true))))),
        tasks_after(tasks, v, StepView::Start(0), all_succeed(afters, k), true)
            == afters.subrange(0, k as int) + tasks.subrange(k as int, tasks.len() as int),
    decreases k,
{
    if k == 0 {
        assert(tasks.subrange(0, tasks.len() as int) =~= tasks);
        assert(afters.subrange(0, 0) + tasks =~= tasks);
    } else {
        lemma_all_succeed_reach(v, tasks, afters, (k - 1) as nat);
        let a = all_succeed(afters, (k - 1) as nat);
        let s = SubtaskAnswer::Started { text: Seq::empty(), result: Ok(()), task: afters[k - 1] };
        let h = SubtaskAnswer::Handled { text: Seq::empty(), outcome: OutcomeView::Succeeded, task: afters[k - 1] };
        assert(all_succeed(afters, k) == a.push(s).push(h));
        assert(all_succeed(afters, k).drop_last() =~= a.push(s));
        assert(a.push(s).drop_last() =~= a);
        let vk = GroupView { cursor: (k - 1) as nat, ..v };
        assert(reach(v, StepView::Start(0), a.push(s), true)
            == Some((GroupView { started: true, ..vk }, HandleNext::Step(StepView::Handle(((k - 1) as usize) as nat)))));
        let prev = afters.subrange(0, k - 1) + tasks.subrange(k - 1, tasks.len() as int);
        assert(tasks_after(tasks, v, StepView::Start(0), a.push(s), true) == prev.update(k - 1, afters[k - 1]));
        assert(prev.update(k - 1, afters[k - 1]).update(k - 1, afters[k - 1])
            =~= afters.subrange(0, k as int) + tasks.subrange(k as int, tasks.len() as int));
    }
}

/// On a tick, a fresh group whose subtasks each start and succeed works through all
/// of them, in order, within that one event: each subtask is started and handled at
/// its own turn (subtask `j` ends as `afters[j]`, its call's result), and the group
/// succeeds with the cursor at the end. On any other event it starts nothing and is
/// still going.
pub proof fn law_group_runs_subtasks_in_order<T>(v: GroupView, tasks: Seq<T>, afters: Seq<T>)
    requires
        v.cursor == 0,
        !v.started,
        v.len >= 1,
        tasks.len() == v.len,
        afters.len() == v.len,
    ensures
        handle_outcome(v, step_view(spec_step_at_cursor(v.len, 0, false, true)), all_succeed(afters, v.len), true)
            == Some((GroupView { cursor: v.len, ..v }, Ok::<OutcomeView, Seq<char>>(OutcomeView::Succeeded))),
        tasks_after(tasks, v, step_view(spec_step_at_cursor(v.len, 0, false, true)), all_succeed(afters, v.len), true) == afters,
        handle_outcome(v, step_view(spec_step_at_cursor(v.len, 0, false, false)), Seq::<SubtaskAnswer<T>>::empty(), false)
            == Some((v, Ok::<OutcomeView, Seq<char>>(OutcomeView::Ongoing))),
        tasks_after(tasks, v, step_view(spec_step_at_cursor(v.len, 0, false, false)), Seq::<SubtaskAnswer<T>>::empty(), false) == tasks,
{
    lemma_all_succeed_reach(v, tasks, afters, v.len);
    assert(afters.subrange(0, v.len as int) + tasks.subrange(v.len as int, tasks.len() as int) =~= afters);
}

/// A call on a group, as it changes the group's view.
pub enum GroupOp<T> {
    /// `add` or `with`.
    Add,
    /// `add_now`, where it succeeded.
    AddNow,
    /// `next_unchecked`.
    Next,
    /// Starting the group, or stopping it successfully.
    Restart,
    /// `handle` on an event (`bool`: a tick), with the subtasks' answers.
    Handle(Seq<SubtaskAnswer<T>>, bool),
}

/// The view after the cleanup on an event.
pub open spec fn view_clean(v: GroupView, is_tick: bool) -> GroupView {
    if is_tick && v.cursor >= 512 && v.len > 512 {
        GroupView { cursor: (v.cursor - 256) as nat, len: (v.len - 256) as nat, ..v }
    } else {
        v
    }
}

/// The view after one call (a handling whose answers make no whole run changes nothing).
pub open spec fn apply_group_op<T>(v: GroupView, op: GroupOp<T>) -> GroupView {
    match op {
        GroupOp::Add => GroupView { len: v.len + 1, ..v },
        GroupOp::AddNow => GroupView { len: v.len + 1, started: false, ..v },
        GroupOp::Next => if v.cursor < v.len { GroupView { cursor: v.cursor + 1, started: false, ..v } } else { v },
        GroupOp::Restart => GroupView { started: false, ..v },
        GroupOp::Handle(answers, is_tick) => {
            let c = view_clean(v, is_tick);
            match handle_outcome(c, step_view(spec_step_at_cursor(c.len, c.cursor, c.started, is_tick)), answers, is_tick) {
                Some((v2, _)) => v2,
                None => v,
            }
        },
    }
}

/// The view after a sequence of calls.
pub open spec fn run_group_ops<T>(v: GroupView, ops: Seq<GroupOp<T>>) -> GroupView
    decreases ops.len(),
{
    if ops.len() == 0 { v } else { apply_group_op(run_group_ops(v, ops.drop_last()), ops.last()) }
}

/// Whether a view and the step it is at fit: the cursor is within the subtasks, and
/// points at one where the step starts or handles it.
pub open spec fn view_fits(v: GroupView, s: StepView) -> bool {
    &&& v.cursor <= v.len
    &&& (s is Start || s is Handle) ==> v.cursor < v.len
}

proof fn lemma_reach_keeps_cursor<T>(v0: GroupView, s0: StepView, answers: Seq<SubtaskAnswer<T>>, is_tick: bool)
    requires
        view_fits(v0, s0),
    ensures
        reach(v0, s0, answers, is_tick) matches Some((v, n)) ==> v.cursor <= v.len && match n {
            HandleNext::Step(s) => view_fits(v, s),
            HandleNext::Done(_) => true,
        },
    decreases answers.len(),
{
    if answers.len() > 0 {
        lemma_reach_keeps_cursor(v0, s0, answers.drop_last(), is_tick);
    }
}

proof fn lemma_op_keeps_cursor<T>(v: GroupView, op: GroupOp<T>)
    requires
        v.cursor <= v.len,
    ensures
        apply_group_op(v, op).cursor <= apply_group_op(v, op).len,
{
    if let GroupOp::Handle(answers, is_tick) = op {
        let c = view_clean(v, is_tick);
        lemma_reach_keeps_cursor(c, step_view(spec_step_at_cursor(c.len, c.cursor, c.started, is_tick)), answers, is_tick);
    }
}

/// Whatever calls a group goes through from being made, its cursor stays within its
/// subtasks; `next_unchecked` lowers the remaining count by one while any remain and
/// leaves a finished group as it is.
pub proof fn law_group_cursor_in_range<T>(name: Option<Seq<char>>, ops: Seq<GroupOp<T>>, v: GroupView)
    requires
        v.cursor <= v.len,
    ensures
        run_group_ops(GroupView { name, len: 0, cursor: 0, started: false }, ops).cursor
            <= run_group_ops(GroupView { name, len: 0, cursor: 0, started: false }, ops).len,
        spec_remaining(apply_group_op(v, GroupOp::<T>::Next).len, apply_group_op(v, GroupOp::<T>::Next).cursor)
            == if spec_remaining(v.len, v.cursor) > 0 { spec_remaining(v.len, v.cursor) - 1 } else { 0 },
    decreases ops.len(),
{
    if ops.len() > 0 {
        law_group_cursor_in_range(name, ops.drop_last(), v);
        lemma_op_keeps_cursor(run_group_ops(GroupView { name, len: 0, cursor: 0, started: false }, ops.drop_last()), ops.last());
    }
}

} // verus!
