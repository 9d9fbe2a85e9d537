//! Walking to a goal with the pathfinder: done when the pathfinder is idle again (or the
//! bot already stood at the goal), and a process exit when the bot did not move for
//! 30 seconds.
//!
//! The caller measures whether the bot stands at the goal, and whether it moved at least
//! a fifth of a block away from the recorded position. Times are nanoseconds on the
//! caller's clock.

use vstd::prelude::*;
use vstd::string::*;
use crate::task::outcome::{TaskOutcome, OutcomeView};
use crate::task::container::since;

verus! {

/// Walks to the goal called `goal_name`.
#[derive(Debug)]
pub struct PathfindTask {
    pub allow_mining: bool,
    pub goal_name: String,
    pub last_is_calculating: bool,
    pub wait_for_pathfind_start: bool,
    /// When the position the bot is compared against was recorded.
    pub last_position_at_nanos: Option<u64>,
}

/// What a tick asks of the caller: its outcome, whether to record the current position
/// (as the one later moves are measured from), and whether the pathfinder is stuck,
/// which ends the process.
#[derive(Debug)]
pub struct PathfindStep {
    pub outcome: TaskOutcome,
    pub record_position: bool,
    pub deadlocked: bool,
}

/// The task's state: whether the path is being calculated, whether it waits for the
/// pathfinder to start, and when the position was recorded.
pub struct PathfindView {
    pub last_is_calculating: bool,
    pub wait_for_pathfind_start: bool,
    pub last_position_at: Option<u64>,
}

/// How long the bot may stand still while pathfinding: 30 seconds.
pub open spec fn stuck_after_nanos() -> int {
    30_000_000_000
}

/// A tick at `now`: `pathfinder` is the pathfinder's state (calculating, has a goal)
/// where the bot has one. Gives the state after it, the outcome, whether to record the
/// position and whether the pathfinder is stuck.
pub open spec fn pathfind_tick(
    s: PathfindView,
    now: u64,
    pathfinder: Option<(bool, bool)>,
    at_goal: bool,
    moved: bool,
) -> (PathfindView, OutcomeView, bool, bool) {
    match pathfinder {
        None => (s, OutcomeView::Ongoing, false, false),
        Some((calculating, has_goal)) => {
            let idle = !calculating && !has_goal;
            let s1 = PathfindView {
                last_is_calculating: calculating,
                wait_for_pathfind_start: if idle { s.wait_for_pathfind_start } else { false },
                ..s
            };
            if idle && s.wait_for_pathfind_start {
                (s1, if at_goal { OutcomeView::Succeeded } else { OutcomeView::Ongoing }, false, false)
            } else if s.last_position_at matches Some(at) && !moved && since(at, now) > stuck_after_nanos() {
                (s1, OutcomeView::Ongoing, false, true)
            } else {
                let record = s.last_position_at is None || moved;
                let s2 = PathfindView { last_position_at: if record { Some(now) } else { s.last_position_at }, ..s1 };
                (s2, if idle { OutcomeView::Succeeded } else { OutcomeView::Ongoing }, record, false)
            }
        },
    }
}

impl PathfindTask {
    /// The task's state.
    pub open spec fn state(&self) -> PathfindView {
        PathfindView {
            last_is_calculating: self.last_is_calculating,
            wait_for_pathfind_start: self.wait_for_pathfind_start,
            last_position_at: self.last_position_at_nanos,
        }
    }

    /// A task walking to `goal_name`, mining on the way where `allow_mining`.
    pub fn new(allow_mining: bool, goal_name: &str) -> (r: PathfindTask)
        ensures
            r.allow_mining == allow_mining,
            r.goal_name@ == goal_name@,
            !r.last_is_calculating,
            !r.wait_for_pathfind_start,
            r.last_position_at_nanos is None,
    {
        PathfindTask {
            allow_mining,
            goal_name: String::from_str(goal_name),
            last_is_calculating: false,
            wait_for_pathfind_start: false,
            last_position_at_nanos: None,
        }
    }

    /// `Pathfind (calculating path to ` goal `)` while the path is calculated, else
    /// `Pathfind (walking to ` goal `)`.
    pub fn describe(&self) -> (r: String)
        ensures
            r@ == if self.last_is_calculating {
                "Pathfind (calculating path to "@ + self.goal_name@ + ")"@
            } else {
                "Pathfind (walking to "@ + self.goal_name@ + ")"@
            },
    {
        let mut r = if self.last_is_calculating {
            String::from_str("Pathfind (calculating path to ")
        } else {
            String::from_str("Pathfind (walking to ")
        };
        r.append(self.goal_name.as_str());
        r.append(")");
        r
    }

    /// Starts after the caller handed the goal to the pathfinder (stopping any walk
    /// already going on); `calculating` is whether it calculates now.
    pub fn start(&mut self, calculating: bool)
        ensures
            final(self).last_is_calculating == calculating,
            final(self).wait_for_pathfind_start,
            final(self).last_position_at_nanos is None,
            final(self).allow_mining == old(self).allow_mining,
            final(self).goal_name@ == old(self).goal_name@,
    {
        self.last_is_calculating = calculating;
        self.last_position_at_nanos = None;
        self.wait_for_pathfind_start = true;
    }

    /// A tick (see `pathfind_tick`).
    pub fn tick(&mut self, now_nanos: u64, pathfinder: Option<(bool, bool)>, at_goal: bool, moved: bool) -> (r: PathfindStep)
        ensures
            (final(self).state(), r.outcome@, r.record_position, r.deadlocked)
                == pathfind_tick(old(self).state(), now_nanos, pathfinder, at_goal, moved),
            final(self).allow_mining == old(self).allow_mining,
            final(self).goal_name@ == old(self).goal_name@,
    {
        let (calculating, has_goal) = match pathfinder {
            None => return PathfindStep { outcome: TaskOutcome::Ongoing, record_position: false, deadlocked: false },
            Some(p) => p,
        };
        self.last_is_calculating = calculating;
        let idle = !calculating && !has_goal;
        if idle {
            if self.wait_for_pathfind_start {
                let outcome = if at_goal { TaskOutcome::Succeeded } else { TaskOutcome::Ongoing };
                return PathfindStep { outcome, record_position: false, deadlocked: false };
            }
        } else {
            self.wait_for_pathfind_start = false;
        }
        if let Some(at) = self.last_position_at_nanos {
            let elapsed: u64 = if now_nanos >= at { now_nanos - at } else { 0 };
            if !moved && elapsed > 30_000_000_000 {
                return PathfindStep { outcome: TaskOutcome::Ongoing, record_position: false, deadlocked: true };
            }
        }
        let record = self.last_position_at_nanos.is_none() || moved;
        if record {
            self.last_position_at_nanos = Some(now_nanos);
        }
        let outcome = if idle { TaskOutcome::Succeeded } else { TaskOutcome::Ongoing };
        PathfindStep { outcome, record_position: record, deadlocked: false }
    }
}

} // verus!
