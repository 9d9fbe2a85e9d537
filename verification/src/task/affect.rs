//! Tasks on a single block: interacting with it until its state changes (at most three
//! attempts), and waiting for it to lose power.

use vstd::prelude::*;
use vstd::string::*;
use crate::blockpos::BlockPos;
use crate::task::outcome::{TaskOutcome, OutcomeView};
use crate::task::container::since;

verus! {

/// Interacts with the block at `block_pos` until its state differs from the one seen at
/// the start. Times are milliseconds on the caller's clock; block states are ids.
#[derive(Debug, Copy, Clone, PartialEq, Eq, Structural)]
pub struct AffectBlockTask {
    pub block_pos: BlockPos,
    pub started_at_millis: u64,
    pub orig_block_state: u32,
    pub did_interact: bool,
    pub attempt: usize,
}

/// What a tick of the task does: its outcome, whether to interact with the block now
/// (use the item on it and swing), and whether to look at the block again first.
#[derive(Debug)]
pub struct AffectStep {
    pub outcome: TaskOutcome,
    pub interact: bool,
    pub look_again: bool,
}

/// Why the task gives up after its last attempt.
pub open spec fn fail_not_affected() -> Seq<char> {
    "Block did not get affected 5s after starting AffectBlockTask (and ran out of attempts)!"@
}

/// A tick at `now` (`has_eye_pos`: the bot's eye position is known; `block_state`: the
/// block's state where it is loaded, `block_is_air`: that state is air; `block_hit`: how
/// the block can be hit, or why not). Gives the task after it, the outcome, whether to
/// interact and whether to look at the block again.
pub open spec fn affect_tick(
    t: AffectBlockTask,
    now: u64,
    has_eye_pos: bool,
    block_state: Option<u32>,
    block_is_air: bool,
    block_hit: Result<(), Seq<char>>,
) -> (AffectBlockTask, OutcomeView, bool, bool) {
    if !has_eye_pos {
        (t, OutcomeView::Ongoing, false, false)
    } else {
        let elapsed = since(t.started_at_millis, now);
        if elapsed >= 100 && !t.did_interact {
            if block_state is Some && block_is_air {
                (t, OutcomeView::Failed("Target block is air!"@), false, false)
            } else {
                match block_hit {
                    Err(e) => (t, OutcomeView::Failed("Failed to calculate block hit: "@ + e), false, false),
                    Ok(_) => {
                        let t2 = AffectBlockTask { did_interact: true, ..t };
                        let o = if block_state matches Some(s) && s != t.orig_block_state { OutcomeView::Succeeded } else { OutcomeView::Ongoing };
                        (t2, o, true, false)
                    },
                }
            }
        } else if elapsed >= 5000 && t.did_interact {
            if t.attempt <= 2 {
                (AffectBlockTask { attempt: (t.attempt + 1) as usize, did_interact: false, started_at_millis: now, ..t },
                    OutcomeView::Ongoing, false, true)
            } else {
                (t, OutcomeView::Failed(fail_not_affected()), false, false)
            }
        } else if t.did_interact && (block_state matches Some(s) && s != t.orig_block_state) {
            (t, OutcomeView::Succeeded, false, false)
        } else {
            (t, OutcomeView::Ongoing, false, false)
        }
    }
}

impl AffectBlockTask {
    /// A task for the block at `block_pos`.
    pub fn new(block_pos: BlockPos) -> (r: AffectBlockTask)
        ensures
            r == (AffectBlockTask { block_pos, started_at_millis: 0, orig_block_state: 0, did_interact: false, attempt: 0 }),
    {
        AffectBlockTask { block_pos, started_at_millis: 0, orig_block_state: 0, did_interact: false, attempt: 0 }
    }

    /// `AffectBlock`.
    pub fn describe(&self) -> (r: String)
        ensures
            r@ == "AffectBlock"@,
    {
        String::from_str("AffectBlock")
    }

    /// Starts at `now_millis`: before the first interaction the block's current state
    /// (`block_state`, where the block is loaded) is remembered; fails where it is not
    /// loaded, or where the bot's eye position is not known (else the caller turns to
    /// look at the block).
    pub fn start(&mut self, now_millis: u64, block_state: Option<u32>, has_eye_pos: bool) -> (r: Result<(), String>)
        ensures
            final(self).started_at_millis == now_millis,
            final(self).block_pos == old(self).block_pos,
            final(self).did_interact == old(self).did_interact,
            final(self).attempt == old(self).attempt,
            final(self).orig_block_state == if !old(self).did_interact && block_state is Some {
                block_state->0
            } else {
                old(self).orig_block_state
            },
            match r {
                Err(e) => (!old(self).did_interact && block_state is None
                    && e@ == "Failed to find block state of block to affect!"@)
                    || ((old(self).did_interact || block_state is Some) && !has_eye_pos && e@ == "No own_eye_pos"@),
                Ok(_) => (old(self).did_interact || block_state is Some) && has_eye_pos,
            },
    {
        self.started_at_millis = now_millis;
        if !self.did_interact {
            match block_state {
                Some(s) => self.orig_block_state = s,
                None => return Err(String::from_str("Failed to find block state of block to affect!")),
            }
        }
        if !has_eye_pos {
            return Err(String::from_str("No own_eye_pos"));
        }
        Ok(())
    }

    /// A tick (see `affect_tick`).
    pub fn tick(
        &mut self,
        now_millis: u64,
        has_eye_pos: bool,
        block_state: Option<u32>,
        block_is_air: bool,
        block_hit: Result<(), &str>,
    ) -> (r: AffectStep)
        requires
            old(self).attempt <= 3,
        ensures
            final(self).attempt <= 3,
            ({
                let (t, o, interact, look) = affect_tick(*old(self), now_millis, has_eye_pos, block_state, block_is_air,
                    match block_hit { Ok(_) => Ok(()), Err(e) => Err(e@) });
                *final(self) == t && r.outcome@ == o && r.interact == interact && r.look_again == look
            }),
    {
        if !has_eye_pos {
            return AffectStep { outcome: TaskOutcome::Ongoing, interact: false, look_again: false };
        }
        let elapsed: u64 = if now_millis >= self.started_at_millis { now_millis - self.started_at_millis } else { 0 };
        let mut interact = false;
        let mut look_again = false;
        if elapsed >= 100 && !self.did_interact {
            if block_state.is_some() && block_is_air {
                return AffectStep {
                    outcome: TaskOutcome::Failed { reason: String::from_str("Target block is air!") },
                    interact: false,
                    look_again: false,
                };
            }
            match block_hit {
                Err(e) => {
                    let mut reason = String::from_str("Failed to calculate block hit: ");
                    reason.append(e);
                    return AffectStep { outcome: TaskOutcome::Failed { reason }, interact: false, look_again: false };
                },
                Ok(_) => {
                    self.did_interact = true;
                    interact = true;
                },
            }
        } else if elapsed >= 5000 && self.did_interact {
            if self.attempt <= 2 {
                self.attempt = self.attempt + 1;
                self.did_interact = false;
                self.started_at_millis = now_millis;
                look_again = true;
            } else {
                return AffectStep {
                    outcome: TaskOutcome::Failed {
                        reason: String::from_str(
                            "Block did not get affected 5s after starting AffectBlockTask (and ran out of attempts)!",
                        ),
                    },
                    interact: false,
                    look_again: false,
                };
            }
        }
        let changed = match block_state {
            Some(s) => s != self.orig_block_state,
            None => false,
        };
        if self.did_interact && changed {
            return AffectStep { outcome: TaskOutcome::Succeeded, interact, look_again };
        }
        AffectStep { outcome: TaskOutcome::Ongoing, interact, look_again }
    }
}

/// Waits (up to 5 seconds from its start) for the block at `block_pos` to be unpowered.
#[derive(Debug, Copy, Clone, PartialEq, Eq, Structural)]
pub struct WaitForBlockUnpowerTask {
    pub block_pos: BlockPos,
    pub started_at_millis: u64,
}

/// Why the wait gives up.
pub open spec fn fail_still_powered() -> Seq<char> {
    "Block not result unpower 5s after starting WaitForBlockUnpowerTask!"@
}

impl WaitForBlockUnpowerTask {
    /// A task for the block at `block_pos`.
    pub fn new(block_pos: BlockPos) -> (r: WaitForBlockUnpowerTask)
        ensures
            r == (WaitForBlockUnpowerTask { block_pos, started_at_millis: 0 }),
    {
        WaitForBlockUnpowerTask { block_pos, started_at_millis: 0 }
    }

    /// `WaitForBlockUnpower`.
    pub fn describe(&self) -> (r: String)
        ensures
            r@ == "WaitForBlockUnpower"@,
    {
        String::from_str("WaitForBlockUnpower")
    }

    /// Starts at `now_millis`.
    pub fn start(&mut self, now_millis: u64)
        ensures
            *final(self) == (WaitForBlockUnpowerTask { started_at_millis: now_millis, ..*old(self) }),
    {
        self.started_at_millis = now_millis;
    }

    /// A tick at `now_millis`; `unpowered`: the block is loaded and has a "powered"
    /// property that is off. Succeeds then; fails once 5 seconds have passed.
    pub fn tick(&self, now_millis: u64, unpowered: bool) -> (r: TaskOutcome)
        ensures
            r@ == if unpowered {
                OutcomeView::Succeeded
            } else if since(self.started_at_millis, now_millis) >= 5000 {
                OutcomeView::Failed(fail_still_powered())
            } else {
                OutcomeView::Ongoing
            },
    {
        if unpowered {
            return TaskOutcome::Succeeded;
        }
        let elapsed: u64 = if now_millis >= self.started_at_millis { now_millis - self.started_at_millis } else { 0 };
        if elapsed >= 5000 {
            TaskOutcome::Failed { reason: String::from_str("Block not result unpower 5s after starting WaitForBlockUnpowerTask!") }
        } else {
            TaskOutcome::Ongoing
        }
    }
}

/// Affecting a block: the bot interacts with the block at most once per attempt, only
/// once its eye position is known, 100 ms have passed since the attempt started and the
/// block can be hit, and then surely (unless the loaded block is air); the task succeeds
/// only when the block's state differs from the one seen at the start, and a new attempt
/// (with the block looked at again) comes only 5 s after an interaction, for at most
/// three attempts in all.
pub proof fn law_affect_interacts_then_checks(
    t: AffectBlockTask,
    now: u64,
    has_eye_pos: bool,
    block_state: Option<u32>,
    block_is_air: bool,
    block_hit: Result<(), Seq<char>>,
)
    ensures
        ({
            let (next, outcome, interact, look_again) = affect_tick(t, now, has_eye_pos, block_state, block_is_air, block_hit);
            let waited = if now >= t.started_at_millis { now - t.started_at_millis } else { 0 };
            &&& interact ==> has_eye_pos && waited >= 100 && !t.did_interact && block_hit is Ok && next.did_interact
            &&& (has_eye_pos && waited >= 100 && !t.did_interact && block_hit is Ok
                && !(block_state is Some && block_is_air)) ==> interact
            &&& outcome is Succeeded ==> (block_state matches Some(st) && st != t.orig_block_state)
            &&& look_again ==> t.did_interact && waited >= 5000 && next.attempt == t.attempt + 1 && t.attempt <= 2
                && !next.did_interact && next.started_at_millis == now
            &&& next.attempt > t.attempt ==> t.attempt <= 2
            &&& next.block_pos == t.block_pos && next.orig_block_state == t.orig_block_state
        }),
{
}

} // verus!
