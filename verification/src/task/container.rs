//! Opening a container block: interact with it, wait for the server to open a screen
//! and send its contents, and try again (at most three attempts in all) when it does not.

use vstd::prelude::*;
use vstd::string::*;
use crate::blockpos::BlockPos;
use crate::task::outcome::{TaskOutcome, OutcomeView};

verus! {

/// Opens the container block at `block_pos`. Times are milliseconds on the caller's clock.
#[derive(Debug, Copy, Clone, PartialEq, Eq, Structural)]
pub struct OpenContainerBlockTask {
    pub block_pos: BlockPos,
    pub started_at_millis: u64,
    pub attempt: usize,
    pub did_interact: bool,
    pub got_open_packet_at: Option<u64>,
    pub got_inventory_data: bool,
    pub got_container_menu: bool,
}

/// What a tick of the task does: its outcome and whether to interact with the block
/// now (use the item on it and swing).
#[derive(Debug)]
pub struct OpenStep {
    pub outcome: TaskOutcome,
    pub interact: bool,
}

/// Milliseconds from `since` to `now` (none if the clock seems to go back).
pub open spec fn since(since: u64, now: u64) -> int {
    if now >= since { now - since } else { 0 }
}

/// The task after giving up the current attempt and starting another at `now`.
pub open spec fn reattempt(t: OpenContainerBlockTask, now: u64) -> OpenContainerBlockTask {
    OpenContainerBlockTask {
        attempt: (t.attempt + 1) as usize,
        did_interact: false,
        got_open_packet_at: None,
        started_at_millis: now,
        ..t
    }
}

/// The reasons for giving up.
pub open spec fn fail_no_data_no_menu() -> Seq<char> {
    "Did neither receive inventory data, nor a container_menu handle 5s after receiving OpenScreen packet. And ran out of attempts!"@
}
pub open spec fn fail_no_menu() -> Seq<char> {
    "Did receive inventory data, but no container_menu handle 10s after receiving OpenScreen packet. And ran out of attempts!"@
}
pub open spec fn fail_no_screen() -> Seq<char> {
    "Block not result in a screen open 5s after starting OpenContainerBlockTask!"@
}

/// A tick at `now` (`has_eye_pos`: the bot's eye position is known; `container_open`:
/// the client has a container open; `block_is_air`: the block is loaded and air;
/// `block_hit`: how the block can be hit, or why not).
pub open spec fn open_tick(
    t: OpenContainerBlockTask,
    now: u64,
    has_eye_pos: bool,
    container_open: bool,
    block_is_air: bool,
    block_hit: Result<(), Seq<char>>,
) -> (OpenContainerBlockTask, OutcomeView, bool) {
    if !has_eye_pos {
        (t, OutcomeView::Ongoing, false)
    } else {
        let t = if t.got_open_packet_at is Some && container_open { OpenContainerBlockTask { got_container_menu: true, ..t } } else { t };
        if since(t.started_at_millis, now) >= 100 && !t.did_interact {
            if block_is_air {
                (t, OutcomeView::Failed("Target block is air!"@), false)
            } else {
                match block_hit {
                    Err(e) => (t, OutcomeView::Failed("Failed to calculate block hit: "@ + e), false),
                    Ok(_) => (OpenContainerBlockTask { did_interact: true, ..t }, OutcomeView::Ongoing, true),
                }
            }
        } else if t.got_open_packet_at is Some {
            let waited = since(t.got_open_packet_at->0, now);
            match (t.got_inventory_data, t.got_container_menu) {
                (false, false) => if waited >= 5000 {
                    if t.attempt <= 2 { (reattempt(t, now), OutcomeView::Ongoing, false) } else { (t, OutcomeView::Failed(fail_no_data_no_menu()), false) }
                } else {
                    (t, OutcomeView::Ongoing, false)
                },
                (true, false) => if waited >= 10000 {
                    if t.attempt <= 2 { (reattempt(t, now), OutcomeView::Ongoing, false) } else { (t, OutcomeView::Failed(fail_no_menu()), false) }
                } else {
                    (t, OutcomeView::Ongoing, false)
                },
                (false, true) => if waited >= 5 { (t, OutcomeView::Succeeded, false) } else { (t, OutcomeView::Ongoing, false) },
                (true, true) => (t, OutcomeView::Succeeded, false),
            }
        } else if since(t.started_at_millis, now) >= 5000 && t.did_interact {
            if t.attempt <= 2 { (reattempt(t, now), OutcomeView::Ongoing, false) } else { (t, OutcomeView::Failed(fail_no_screen()), false) }
        } else {
            (t, OutcomeView::Ongoing, false)
        }
    }
}

/// Whether the task can count another attempt.
pub open spec fn attempts_fit(t: OpenContainerBlockTask) -> bool {
    t.attempt <= 3
}

impl OpenContainerBlockTask {
    /// A task for the container at `block_pos`.
    pub fn new(block_pos: BlockPos) -> (r: OpenContainerBlockTask)
        ensures
            r == (OpenContainerBlockTask {
                block_pos,
                started_at_millis: 0,
                attempt: 0,
                did_interact: false,
                got_open_packet_at: None,
                got_inventory_data: false,
                got_container_menu: false,
            }),
    {
        OpenContainerBlockTask {
            block_pos,
            started_at_millis: 0,
            attempt: 0,
            did_interact: false,
            got_open_packet_at: None,
            got_inventory_data: false,
            got_container_menu: false,
        }
    }

    /// `OpenContainerBlock`.
    pub fn describe(&self) -> (r: String)
        ensures
            r@ == "OpenContainerBlock"@,
    {
        String::from_str("OpenContainerBlock")
    }

    /// Starts at `now_millis`.
    pub fn start(&mut self, now_millis: u64)
        ensures
            *final(self) == (OpenContainerBlockTask { started_at_millis: now_millis, ..*old(self) }),
    {
        self.started_at_millis = now_millis;
    }

    /// A tick (see `open_tick`).
    pub fn tick(
        &mut self,
        now_millis: u64,
        has_eye_pos: bool,
        container_open: bool,
        block_is_air: bool,
        block_hit: Result<(), &str>,
    ) -> (r: OpenStep)
        requires
            attempts_fit(*old(self)),
        ensures
            attempts_fit(*final(self)),
            ({
                let (t, o, interact) = open_tick(*old(self), now_millis, has_eye_pos, container_open, block_is_air,
                    match block_hit { Ok(_) => Ok(()), Err(e) => Err(e@) });
                *final(self) == t && r.outcome@ == o && r.interact == interact
            }),
    {
        if !has_eye_pos {
            return OpenStep { outcome: TaskOutcome::Ongoing, interact: false };
        }
        if self.got_open_packet_at.is_some() && container_open {
            self.got_container_menu = true;
        }
        let elapsed: u64 = if now_millis >= self.started_at_millis { now_millis - self.started_at_millis } else { 0 };
        if elapsed >= 100 && !self.did_interact {
            if block_is_air {
                return OpenStep { outcome: TaskOutcome::Failed { reason: String::from_str("Target block is air!") }, interact: false };
            }
            match block_hit {
                Err(e) => {
                    let mut reason = String::from_str("Failed to calculate block hit: ");
                    reason.append(e);
                    return OpenStep { outcome: TaskOutcome::Failed { reason }, interact: false };
                },
                Ok(_) => {
                    self.did_interact = true;
                    return OpenStep { outcome: TaskOutcome::Ongoing, interact: true };
                },
            }
        }
        match self.got_open_packet_at {
            Some(at) => {
                let waited: u64 = if now_millis >= at { now_millis - at } else { 0 };
                match (self.got_inventory_data, self.got_container_menu) {
                    (false, false) => {
                        if waited >= 5000 {
                            if self.attempt <= 2 {
                                self.again(now_millis);
                            } else {
                                return OpenStep {
                                    outcome: TaskOutcome::Failed { reason: String::from_str(
                                        "Did neither receive inventory data, nor a container_menu handle 5s after receiving OpenScreen packet. And ran out of attempts!",
                                    ) },
                                    interact: false,
                                };
                            }
                        }
                    },
                    (true, false) => {
                        if waited >= 10000 {
                            if self.attempt <= 2 {
                                self.again(now_millis);
                            } else {
                                return OpenStep {
                                    outcome: TaskOutcome::Failed { reason: String::from_str(
                                        "Did receive inventory data, but no container_menu handle 10s after receiving OpenScreen packet. And ran out of attempts!",
                                    ) },
                                    interact: false,
                                };
                            }
                        }
                    },
                    (false, true) => {
                        if waited >= 5 {
                            return OpenStep { outcome: TaskOutcome::Succeeded, interact: false };
                        }
                    },
                    (true, true) => {
                        return OpenStep { outcome: TaskOutcome::Succeeded, interact: false };
                    },
                }
            },
            None => {
                if elapsed >= 5000 && self.did_interact {
                    if self.attempt <= 2 {
                        self.again(now_millis);
                    } else {
                        return OpenStep {
                            outcome: TaskOutcome::Failed { reason: String::from_str(
                                "Block not result in a screen open 5s after starting OpenContainerBlockTask!",
                            ) },
                            interact: false,
                        };
                    }
                }
            },
        }
        OpenStep { outcome: TaskOutcome::Ongoing, interact: false }
    }

    fn again(&mut self, now_millis: u64)
        requires
            old(self).attempt <= 2,
        ensures
            *final(self) == reattempt(*old(self), now_millis),
    {
        self.attempt = self.attempt + 1;
        self.did_interact = false;
        self.got_open_packet_at = None;
        self.started_at_millis = now_millis;
    }

    /// The server opened a screen at `now_millis`: noted if the bot has interacted.
    pub fn on_open_screen(&mut self, now_millis: u64)
        ensures
            *final(self) == if old(self).did_interact {
                OpenContainerBlockTask { got_open_packet_at: Some(now_millis), ..*old(self) }
            } else {
                *old(self)
            },
    {
        if self.did_interact {
            self.got_open_packet_at = Some(now_millis);
        }
    }

    /// The server sent container contents: noted once a screen opened.
    pub fn on_container_content(&mut self)
        ensures
            *final(self) == if old(self).got_open_packet_at is Some {
                OpenContainerBlockTask { got_inventory_data: true, ..*old(self) }
            } else {
                *old(self)
            },
    {
        if self.got_open_packet_at.is_some() {
            self.got_inventory_data = true;
        }
    }
}

/// The task never starts a fourth attempt: a timed-out attempt is retried only while at
/// most two attempts were given up.
pub proof fn law_at_most_three_attempts(
    t: OpenContainerBlockTask,
    now: u64,
    has_eye_pos: bool,
    container_open: bool,
    block_is_air: bool,
    block_hit: Result<(), Seq<char>>,
)
    requires
        attempts_fit(t),
    ensures
        open_tick(t, now, has_eye_pos, container_open, block_is_air, block_hit).0.attempt <= 3,
        open_tick(t, now, has_eye_pos, container_open, block_is_air, block_hit).0.attempt >= t.attempt,
{
}

} // verus!
