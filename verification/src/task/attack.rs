//! Attacking one entity: fail when it died, lost its hitbox or went out of reach, wait
//! out the delay since the last attack, and hit once the bot looks at its hitbox.
//!
//! Whether the target is in reach and whether the last look the server saw meets its
//! hitbox are measured by the caller.

use vstd::prelude::*;
use vstd::string::*;
use crate::task::outcome::{TaskOutcome, OutcomeView};

verus! {

/// Attacks the entity with id `target_id`, at most once every `attack_delay_ticks`
/// ticks; `target_name` describes it once the task started.
#[derive(Debug)]
pub struct AttackTask {
    pub target_id: i32,
    pub target_name: String,
    pub attack_delay_ticks: u64,
}

/// What a tick asks of the caller: its outcome, whether to look at the closest point
/// of the target's hitbox, and whether to attack it now.
#[derive(Debug)]
pub struct AttackStep {
    pub outcome: TaskOutcome,
    pub look: bool,
    pub attack: bool,
}

/// A tick's decision: outcome, look, attack. `reachable` and `can_hit` are `None` where
/// the bot's eye position (or the look last sent) is not known.
pub open spec fn attack_decision(
    name: Seq<char>,
    delay_ticks: u64,
    target_dead: bool,
    has_physics: bool,
    reachable: Option<bool>,
    millis_since_last_attack: Option<u64>,
    can_hit: Option<bool>,
) -> (OutcomeView, bool, bool) {
    if target_dead {
        (OutcomeView::Failed("Target is dead: "@ + name), false, false)
    } else if !has_physics {
        (OutcomeView::Failed("Target has no physics: "@ + name), false, false)
    } else if reachable == Some(false) {
        (OutcomeView::Failed("Target is no longer reachable: "@ + name), false, false)
    } else if millis_since_last_attack matches Some(ms) && ms / 50 < delay_ticks {
        (OutcomeView::Ongoing, true, false)
    } else if can_hit == Some(true) {
        (OutcomeView::Succeeded, true, true)
    } else {
        (OutcomeView::Ongoing, true, false)
    }
}

impl AttackTask {
    /// A task attacking `target_id`; its description is filled in on start.
    pub fn new(target_id: i32, attack_delay_ticks: u64) -> (r: AttackTask)
        ensures
            r.target_id == target_id,
            r.attack_delay_ticks == attack_delay_ticks,
            r.target_name@ == "<...>"@,
    {
        AttackTask { target_id, target_name: String::from_str("<...>"), attack_delay_ticks }
    }

    /// `Attack (` the target `)`.
    pub fn describe(&self) -> (r: String)
        ensures
            r@ == "Attack ("@ + self.target_name@ + ")"@,
    {
        let mut r = String::from_str("Attack (");
        r.append(self.target_name.as_str());
        r.append(")");
        r
    }

    /// Starts with the target's description (the caller then looks at it).
    pub fn start(&mut self, target_name: String)
        ensures
            final(self).target_name@ == target_name@,
            final(self).target_id == old(self).target_id,
            final(self).attack_delay_ticks == old(self).attack_delay_ticks,
    {
        self.target_name = target_name;
    }

    /// A tick (see `attack_decision`).
    pub fn tick(
        &self,
        target_dead: bool,
        has_physics: bool,
        reachable: Option<bool>,
        millis_since_last_attack: Option<u64>,
        can_hit: Option<bool>,
    ) -> (r: AttackStep)
        ensures
            (r.outcome@, r.look, r.attack) == attack_decision(
                self.target_name@,
                self.attack_delay_ticks,
                target_dead,
                has_physics,
                reachable,
                millis_since_last_attack,
                can_hit,
            ),
    {
        let fail = |prefix: &str| -> (r: TaskOutcome)
            ensures
                r@ == OutcomeView::Failed(prefix@ + self.target_name@),
        {
            let mut reason = String::from_str(prefix);
            reason.append(self.target_name.as_str());
            TaskOutcome::Failed { reason }
        };
        if target_dead {
            return AttackStep { outcome: fail("Target is dead: "), look: false, attack: false };
        }
        if !has_physics {
            return AttackStep { outcome: fail("Target has no physics: "), look: false, attack: false };
        }
        if let Some(false) = reachable {
            return AttackStep { outcome: fail("Target is no longer reachable: "), look: false, attack: false };
        }
        if let Some(ms) = millis_since_last_attack {
            if ms / 50 < self.attack_delay_ticks {
                return AttackStep { outcome: TaskOutcome::Ongoing, look: true, attack: false };
            }
        }
        if let Some(true) = can_hit {
            AttackStep { outcome: TaskOutcome::Succeeded, look: true, attack: true }
        } else {
            AttackStep { outcome: TaskOutcome::Ongoing, look: true, attack: false }
        }
    }
}

} // verus!
