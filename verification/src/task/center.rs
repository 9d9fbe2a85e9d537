//! Centering the bot on a block: walking towards the middle until close enough, then a
//! small teleport into it, which counts once the server answered a ping without
//! teleporting the bot back.
//!
//! Distances are measured by the caller, against the thresholds given by
//! `desired_dist_hundredths` and `walks_away`. Times are nanoseconds on the caller's
//! clock.

use vstd::prelude::*;
use vstd::string::*;
use crate::blockpos::BlockPos;
use crate::random::random_u64_between;
use crate::task::outcome::{TaskOutcome, OutcomeView};
use crate::task::container::since;

verus! {

/// Ping ids are drawn below `i64::MIN + PING_ID_SPAN` (`i64::MAX / 4`).
pub const PING_ID_SPAN: u64 = 2305843009213693951u64;

/// Where the centering is.
#[derive(Debug, Copy, Clone, PartialEq, Eq)]
pub enum CenterPhase {
    /// Waiting until the bot's position stays the same for a tick.
    WaitForStandstill,
    /// Looking towards the middle and checking whether the bot is close enough.
    CheckAndLook,
    StartWalk,
    StartMiniTeleport,
    /// Walking until the bot is near the middle (or, on some attempts, away from it).
    CheckWalk,
    /// After the teleport: the ping sent (id and when) and what came back.
    CheckMiniTeleport {
        started_at_nanos: u64,
        sent_ping: Option<(i64, u64)>,
        received_teleport: bool,
        received_pong_nanos: Option<u64>,
    },
}

/// Centers the bot on `block_pos`, counting its attempts.
#[derive(Debug, Copy, Clone, PartialEq, Eq)]
pub struct CenterTask {
    pub block_pos: BlockPos,
    pub attempt: u32,
    pub phase: CenterPhase,
}

/// What a tick asks the caller to do.
#[derive(Debug, Copy, Clone, PartialEq, Eq)]
pub enum CenterAction {
    Nothing,
    /// Look horizontally towards the middle of the block, 45 degrees down.
    LookTowardsCenter,
    WalkForward,
    StopWalking,
    /// Set the bot's position to the middle of the block (at its current height).
    TeleportToCenter,
    /// Send a ping request with this id.
    SendPing(i64),
}

/// A tick's outcome and action.
#[derive(Debug)]
pub struct CenterStep {
    pub outcome: TaskOutcome,
    pub action: CenterAction,
}

/// Why the task gives up.
pub open spec fn fail_no_center() -> Seq<char> {
    "Failed to center after 25 tries!"@
}

/// The ping id for a draw below `PING_ID_SPAN`.
pub open spec fn ping_id(draw: u64) -> i64 {
    (i64::MIN + draw) as i64
}

/// The teleport counts once at least 100 ms and twice the ping time passed since it.
pub open spec fn teleport_settled(started_at: u64, now: u64, ping: u64) -> bool {
    since(started_at, now) >= 100_000_000 && since(started_at, now) >= 2 * ping
}

/// A fresh task for `block_pos`.
pub open spec fn fresh_center(block_pos: BlockPos) -> CenterTask {
    CenterTask { block_pos, attempt: 0, phase: CenterPhase::WaitForStandstill }
}

/// The task in another phase.
pub open spec fn in_phase(t: CenterTask, phase: CenterPhase) -> CenterTask {
    CenterTask { phase, ..t }
}

/// A tick at `now`: `standstill` (the position is the one of the last tick),
/// `close_enough` (within `desired_dist_hundredths` of the middle) and `walk_done` (the
/// walk reached its aim, see `walks_away`) are the caller's measurements; `draw` picks
/// the ping id. Gives the task after it, the outcome and the action.
pub open spec fn center_tick(
    t: CenterTask,
    now: u64,
    standstill: bool,
    close_enough: bool,
    walk_done: bool,
    draw: u64,
) -> (CenterTask, OutcomeView, CenterAction) {
    if t.attempt > 25 {
        (t, OutcomeView::Failed(fail_no_center()), CenterAction::Nothing)
    } else {
        match t.phase {
            CenterPhase::WaitForStandstill => if standstill {
                (CenterTask { attempt: (t.attempt + 1) as u32, phase: CenterPhase::CheckAndLook, ..t },
                    OutcomeView::Ongoing, CenterAction::Nothing)
            } else {
                (t, OutcomeView::Ongoing, CenterAction::Nothing)
            },
            CenterPhase::CheckAndLook => (
                in_phase(t, if close_enough { CenterPhase::StartMiniTeleport } else { CenterPhase::StartWalk }),
                OutcomeView::Ongoing,
                CenterAction::LookTowardsCenter,
            ),
            CenterPhase::StartWalk => (in_phase(t, CenterPhase::CheckWalk), OutcomeView::Ongoing, CenterAction::WalkForward),
            CenterPhase::CheckWalk => if walk_done {
                (in_phase(t, CenterPhase::WaitForStandstill), OutcomeView::Ongoing, CenterAction::StopWalking)
            } else {
                (t, OutcomeView::Ongoing, CenterAction::Nothing)
            },
            CenterPhase::StartMiniTeleport => (
                in_phase(t, CenterPhase::CheckMiniTeleport {
                    started_at_nanos: now,
                    sent_ping: None,
                    received_teleport: false,
                    received_pong_nanos: None,
                }),
                OutcomeView::Ongoing,
                CenterAction::TeleportToCenter,
            ),
            CenterPhase::CheckMiniTeleport { started_at_nanos, sent_ping, received_teleport, received_pong_nanos } =>
                match sent_ping {
                    None => (
                        in_phase(t, CenterPhase::CheckMiniTeleport {
                            started_at_nanos,
                            sent_ping: Some((ping_id(draw), now)),
                            received_teleport,
                            received_pong_nanos,
                        }),
                        OutcomeView::Ongoing,
                        CenterAction::SendPing(ping_id(draw)),
                    ),
                    Some(_) => match received_pong_nanos {
                        Some(ping) => if received_teleport {
                            (in_phase(t, CenterPhase::WaitForStandstill), OutcomeView::Ongoing, CenterAction::Nothing)
                        } else if teleport_settled(started_at_nanos, now, ping) {
                            (t, OutcomeView::Succeeded, CenterAction::Nothing)
                        } else {
                            (t, OutcomeView::Ongoing, CenterAction::Nothing)
                        },
                        None => (t, OutcomeView::Ongoing, CenterAction::Nothing),
                    },
                },
        }
    }
}

/// The task after the server teleported the bot.
pub open spec fn after_teleport(t: CenterTask) -> CenterTask {
    match t.phase {
        CenterPhase::CheckMiniTeleport { started_at_nanos, sent_ping, received_pong_nanos, .. } =>
            in_phase(t, CenterPhase::CheckMiniTeleport {
                started_at_nanos,
                sent_ping,
                received_teleport: true,
                received_pong_nanos,
            }),
        _ => t,
    }
}

/// The task after a pong with `id` came in at `now`: the first answer to the ping sent
/// records the time it took.
pub open spec fn after_pong(t: CenterTask, id: i64, now: u64) -> CenterTask {
    match t.phase {
        CenterPhase::CheckMiniTeleport { started_at_nanos, sent_ping, received_teleport, received_pong_nanos } =>
            match sent_ping {
                Some((sent_id, sent_at)) => if sent_id == id && received_pong_nanos is None {
                    in_phase(t, CenterPhase::CheckMiniTeleport {
                        started_at_nanos,
                        sent_ping,
                        received_teleport,
                        received_pong_nanos: Some(since(sent_at, now) as u64),
                    })
                } else {
                    t
                },
                None => t,
            },
        _ => t,
    }
}

impl CenterTask {
    /// A task centering on `block_pos`.
    pub fn new(block_pos: BlockPos) -> (r: CenterTask)
        ensures
            r == fresh_center(block_pos),
    {
        CenterTask { block_pos, attempt: 0, phase: CenterPhase::WaitForStandstill }
    }

    /// `Center`.
    pub fn describe(&self) -> (r: String)
        ensures
            r@ == "Center"@,
    {
        String::from_str("Center")
    }

    /// Starts over: no attempts, waiting for a standstill.
    pub fn start(&mut self)
        ensures
            *final(self) == fresh_center(old(self).block_pos),
    {
        self.attempt = 0;
        self.phase = CenterPhase::WaitForStandstill;
    }

    /// How close to the middle counts, in hundredths of a block: 0.1 for the first
    /// seven attempts, 0.12 after.
    pub fn desired_dist_hundredths(&self) -> (r: u32)
        ensures
            r == if self.attempt < 8 { 10u32 } else { 12u32 },
    {
        if self.attempt < 8 { 10 } else { 12 }
    }

    /// Whether this attempt's walk goes away from the middle (until at least 0.1999
    /// from it) rather than towards it (until within 0.3).
    pub fn walks_away(&self) -> (r: bool)
        ensures
            r == (self.attempt == 4 || self.attempt == 18),
    {
        self.attempt == 4 || self.attempt == 18
    }

    /// A tick (see `center_tick`) with the ping id given by `draw`.
    pub fn tick_with_draw(&mut self, now_nanos: u64, standstill: bool, close_enough: bool, walk_done: bool, draw: u64) -> (r: CenterStep)
        requires
            draw < PING_ID_SPAN,
        ensures
            (*final(self), r.outcome@, r.action) == center_tick(*old(self), now_nanos, standstill, close_enough, walk_done, draw),
    {
        let ongoing = CenterStep { outcome: TaskOutcome::Ongoing, action: CenterAction::Nothing };
        if self.attempt > 25 {
            return CenterStep {
                outcome: TaskOutcome::Failed { reason: String::from_str("Failed to center after 25 tries!") },
                action: CenterAction::Nothing,
            };
        }
        match self.phase {
            CenterPhase::WaitForStandstill => {
                if standstill {
                    self.attempt = self.attempt + 1;
                    self.phase = CenterPhase::CheckAndLook;
                }
                ongoing
            },
            CenterPhase::CheckAndLook => {
                self.phase = if close_enough { CenterPhase::StartMiniTeleport } else { CenterPhase::StartWalk };
                CenterStep { outcome: TaskOutcome::Ongoing, action: CenterAction::LookTowardsCenter }
            },
            CenterPhase::StartWalk => {
                self.phase = CenterPhase::CheckWalk;
                CenterStep { outcome: TaskOutcome::Ongoing, action: CenterAction::WalkForward }
            },
            CenterPhase::CheckWalk => {
                if walk_done {
                    self.phase = CenterPhase::WaitForStandstill;
                    CenterStep { outcome: TaskOutcome::Ongoing, action: CenterAction::StopWalking }
                } else {
                    ongoing
                }
            },
            CenterPhase::StartMiniTeleport => {
                self.phase = CenterPhase::CheckMiniTeleport {
                    started_at_nanos: now_nanos,
                    sent_ping: None,
                    received_teleport: false,
                    received_pong_nanos: None,
                };
                CenterStep { outcome: TaskOutcome::Ongoing, action: CenterAction::TeleportToCenter }
            },
            CenterPhase::CheckMiniTeleport { started_at_nanos, sent_ping, received_teleport, received_pong_nanos } => {
                match sent_ping {
                    None => {
                        let id: i64 = i64::MIN + (draw as i64);
                        self.phase = CenterPhase::CheckMiniTeleport {
                            started_at_nanos,
                            sent_ping: Some((id, now_nanos)),
                            received_teleport,
                            received_pong_nanos,
                        };
                        CenterStep { outcome: TaskOutcome::Ongoing, action: CenterAction::SendPing(id) }
                    },
                    Some(_) => match received_pong_nanos {
                        Some(ping) => {
                            if received_teleport {
                                self.phase = CenterPhase::WaitForStandstill;
                                ongoing
                            } else {
                                let elapsed: u64 = if now_nanos >= started_at_nanos { now_nanos - started_at_nanos } else { 0 };
                                if elapsed >= 100_000_000 && (ping as u128) * 2 <= elapsed as u128 {
                                    CenterStep { outcome: TaskOutcome::Succeeded, action: CenterAction::Nothing }
                                } else {
                                    ongoing
                                }
                            }
                        },
                        None => ongoing,
                    },
                }
            },
        }
    }

    /// A tick now, with a random ping id (see `center_tick`).
    pub fn tick(&mut self, now_nanos: u64, standstill: bool, close_enough: bool, walk_done: bool) -> (r: CenterStep)
        ensures
            exists|draw: u64| draw < PING_ID_SPAN
                && #[trigger] center_tick(*old(self), now_nanos, standstill, close_enough, walk_done, draw)
                    == (*final(self), r.outcome@, r.action),
    {
        let draw = random_u64_between(0, PING_ID_SPAN - 1);
        let ghost before = *self;
        let r = self.tick_with_draw(now_nanos, standstill, close_enough, walk_done, draw);
        assert(center_tick(before, now_nanos, standstill, close_enough, walk_done, draw) == (*self, r.outcome@, r.action));
        r
    }

    /// The server teleported the bot: after the small teleport, this means it failed.
    pub fn on_teleport(&mut self)
        ensures
            *final(self) == after_teleport(*old(self)),
    {
        if let CenterPhase::CheckMiniTeleport { started_at_nanos, sent_ping, received_pong_nanos, .. } = self.phase {
            self.phase = CenterPhase::CheckMiniTeleport {
                started_at_nanos,
                sent_ping,
                received_teleport: true,
                received_pong_nanos,
            };
        }
    }

    /// A pong with `id` came in at `now_nanos` (see `after_pong`).
    pub fn on_pong(&mut self, id: i64, now_nanos: u64)
        ensures
            *final(self) == after_pong(*old(self), id, now_nanos),
    {
        if let CenterPhase::CheckMiniTeleport { started_at_nanos, sent_ping, received_teleport, received_pong_nanos } = self.phase {
            if let Some((sent_id, sent_at)) = sent_ping {
                if sent_id == id && received_pong_nanos.is_none() {
                    let took: u64 = if now_nanos >= sent_at { now_nanos - sent_at } else { 0 };
                    self.phase = CenterPhase::CheckMiniTeleport {
                        started_at_nanos,
                        sent_ping,
                        received_teleport,
                        received_pong_nanos: Some(took),
                    };
                }
            }
        }
    }

    /// Stopping: whether the bot has to stop walking (it was walking).
    pub fn stop(&self) -> (r: bool)
        ensures
            r == (self.phase == CenterPhase::CheckWalk),
    {
        match self.phase {
            CenterPhase::CheckWalk => true,
            _ => false,
        }
    }
}

/// The attempt count stays at most 26: a tick counts an attempt only while at most 25
/// were made, and gives up beyond.
pub proof fn law_center_attempts_bounded(
    t: CenterTask,
    now: u64,
    standstill: bool,
    close_enough: bool,
    walk_done: bool,
    draw: u64,
)
    requires
        t.attempt <= 26,
    ensures
        center_tick(t, now, standstill, close_enough, walk_done, draw).0.attempt <= 26,
        t.attempt > 25 ==> center_tick(t, now, standstill, close_enough, walk_done, draw).1
            == OutcomeView::Failed(fail_no_center()),
{
}

} // verus!
