//! Sipping a beer: holding a honey bottle to the mouth for some ticks, with a drinking
//! head animation, maybe looking away.

use vstd::prelude::*;
use vstd::string::*;
use crate::text::{dec, push_dec};
use crate::random::{random_index, random_between};
use crate::clock::{instant_now, elapsed_millis};
use crate::task::outcome::{TaskOutcome, OutcomeView};

verus! {

/// Sips for `ticks` ticks (of 50 milliseconds), at `pitch` degrees (lower by a random
/// amount each tick), looking the other way where `look_away`; `repeats`: how often this
/// sip already followed another.
#[derive(Debug)]
pub struct SipBeerTask {
    pub look_away: bool,
    pub ticks: u32,
    pub pitch: i32,
    pub started_at: std::time::Instant,
    pub orig_held_slot: u8,
    pub repeats: u32,
}

/// What a tick of sipping does: the outcome, and the pitch to look at (where the bot
/// still has beer). On success the caller stops the task.
#[derive(Debug)]
pub struct SipStep {
    pub outcome: TaskOutcome,
    pub look_pitch: Option<i32>,
}

/// The pitch of a sip at `pitch`, lowered by `offset` degrees but not below -90.
pub open spec fn sip_pitch(pitch: i32, offset: int) -> int {
    if pitch - offset < -90 { -90 } else { pitch - offset }
}

/// How the task describes itself.
pub open spec fn sip_text(ticks: u32, look_away: bool, repeats: u32) -> Seq<char> {
    "SipBeer ("@ + dec(ticks as nat) + " ticks"@ + (if look_away { ", look away"@ } else { Seq::empty() })
        + (if repeats > 0 { ", repeats: "@ + dec(repeats as nat) } else { Seq::empty() }) + ")"@
}

/// The reason sipping fails.
pub open spec fn fail_no_beer() -> Seq<char> {
    "No beer in hotbar to sip on"@
}

impl SipBeerTask {
    /// A sip with these settings.
    pub fn new(look_away: bool, pitch: i32, ticks: u32, repeats: u32) -> (r: SipBeerTask)
        ensures
            r.look_away == look_away,
            r.pitch == pitch,
            r.ticks == ticks,
            r.repeats == repeats,
            r.orig_held_slot == 0,
    {
        SipBeerTask { look_away, pitch, ticks, started_at: instant_now(), orig_held_slot: 0, repeats }
    }

    /// A sip looking away one time in five (at pitch -65, else -20) for 15 to 31 ticks.
    pub fn new_random(repeats: u32) -> (r: SipBeerTask)
        ensures
            r.pitch == if r.look_away { -65i32 } else { -20i32 },
            15 <= r.ticks <= 31,
            r.repeats == repeats,
            r.orig_held_slot == 0,
    {
        let look_away = random_index(10) >= 8;
        let pitch: i32 = if look_away { -65 } else { -20 };
        let ticks = random_between(15, 31);
        SipBeerTask::new(look_away, pitch, ticks, repeats)
    }

    /// The next sip after this one: the same settings, one more repeat.
    pub fn repeated(&self) -> (r: SipBeerTask)
        requires
            self.repeats < u32::MAX,
        ensures
            r.look_away == self.look_away,
            r.pitch == self.pitch,
            r.ticks == self.ticks,
            r.repeats == self.repeats + 1,
    {
        SipBeerTask::new(self.look_away, self.pitch, self.ticks, self.repeats + 1)
    }

    /// `SipBeer (N ticks[, look away][, repeats: N])`.
    pub fn describe(&self) -> (r: String)
        ensures
            r@ == sip_text(self.ticks, self.look_away, self.repeats),
    {
        let mut s = String::from_str("SipBeer (");
        push_dec(&mut s, self.ticks as u64);
        s.append(" ticks");
        if self.look_away {
            s.append(", look away");
        }
        if self.repeats > 0 {
            s.append(", repeats: ");
            push_dec(&mut s, self.repeats as u64);
        }
        s.append(")");
        s
    }

    /// Starts now, remembering the slot held before (`held_slot`). Returns the hotbar
    /// slot of the beer to select and use, if there is one (`beer_slot`).
    pub fn start(&mut self, held_slot: u8, beer_slot: Option<u8>) -> (r: Option<u8>)
        ensures
            final(self).orig_held_slot == held_slot,
            final(self).ticks == old(self).ticks,
            final(self).pitch == old(self).pitch,
            final(self).look_away == old(self).look_away,
            final(self).repeats == old(self).repeats,
            r == beer_slot,
    {
        self.started_at = instant_now();
        self.orig_held_slot = held_slot;
        beer_slot
    }

    /// A tick `elapsed_millis` after the start, with `has_beer`: the hotbar still holds
    /// beer, and the head lowered by `pitch_offset` degrees. Fails without beer; else looks
    /// at the sip pitch and succeeds once the ticks have passed.
    pub fn tick_after(&self, has_beer: bool, elapsed_millis: u64, pitch_offset: i32) -> (r: SipStep)
        requires
            0 <= pitch_offset < 25,
            self.pitch >= -90,
        ensures
            !has_beer ==> r.outcome@ == OutcomeView::Failed(fail_no_beer()) && r.look_pitch is None,
            has_beer ==> r.look_pitch == Some(sip_pitch(self.pitch, pitch_offset as int) as i32)
                && r.outcome@ == if (elapsed_millis / 50) as u32 >= self.ticks { OutcomeView::Succeeded } else { OutcomeView::Ongoing },
    {
        if !has_beer {
            return SipStep { outcome: TaskOutcome::Failed { reason: String::from_str("No beer in hotbar to sip on") }, look_pitch: None };
        }
        let lowered = self.pitch - pitch_offset;
        let pitch = if lowered < -90 { -90 } else { lowered };
        let outcome = if (elapsed_millis / 50) as u32 >= self.ticks { TaskOutcome::Succeeded } else { TaskOutcome::Ongoing };
        SipStep { outcome, look_pitch: Some(pitch) }
    }

    /// A tick now (see `tick_after`), with a random head offset below 25 degrees.
    pub fn tick(&self, has_beer: bool) -> (r: SipStep)
        requires
            self.pitch >= -90,
        ensures
            !has_beer ==> r.outcome@ == OutcomeView::Failed(fail_no_beer()) && r.look_pitch is None,
            has_beer ==> (r.look_pitch matches Some(p) && -90 <= p <= self.pitch),
    {
        let offset = random_index(25) as i32;
        let elapsed = elapsed_millis(&self.started_at);
        self.tick_after(has_beer, elapsed, offset)
    }

    /// Stopping: the held slot to select again.
    pub fn stop(&self) -> (r: u8)
        ensures
            r == self.orig_held_slot,
    {
        self.orig_held_slot
    }
}

} // verus!
