//! Eating, and swinging a beer: tasks that hold an item and watch the time.

use vstd::prelude::*;
use vstd::string::*;
use crate::clock::{instant_now, elapsed_nanos, elapsed_millis};
use crate::task::outcome::{TaskOutcome, OutcomeView};

verus! {

/// How far eating got.
#[derive(Debug)]
pub enum EatingProgress {
    NotEating { reason: String },
    StartedEating,
    IsEating,
}

/// Eating progress with the reason as characters.
pub enum ProgressView {
    NotEating(Seq<char>),
    StartedEating,
    IsEating,
}

impl View for EatingProgress {
    type V = ProgressView;

    open spec fn view(&self) -> ProgressView {
        match self {
            EatingProgress::NotEating { reason } => ProgressView::NotEating(reason@),
            EatingProgress::StartedEating => ProgressView::StartedEating,
            EatingProgress::IsEating => ProgressView::IsEating,
        }
    }
}

/// The text of a progress.
pub open spec fn spec_progress_text(p: ProgressView) -> Seq<char> {
    match p {
        ProgressView::NotEating(reason) => "NotEating ("@ + reason + ")"@,
        ProgressView::StartedEating => "StartedEating"@,
        ProgressView::IsEating => "IsEating"@,
    }
}

impl EatingProgress {
    /// `NotEating (<reason>)`, `StartedEating` or `IsEating`.
    pub fn describe(&self) -> (r: String)
        ensures
            r@ == spec_progress_text(self@),
    {
        match self {
            EatingProgress::NotEating { reason } => {
                let mut r = String::from_str("NotEating (");
                r.append(reason.as_str());
                r.append(")");
                r
            },
            EatingProgress::StartedEating => String::from_str("StartedEating"),
            EatingProgress::IsEating => String::from_str("IsEating"),
        }
    }
}

/// Eats the first food in the hotbar.
#[derive(Debug)]
pub struct EatTask {
    pub last_updated_at: std::time::Instant,
    pub eating_progress: EatingProgress,
}

/// How long eating may take to start, and to end, in nanoseconds.
pub const START_TIMEOUT_NANOS: u128 = 3_000_000_000;
pub const EAT_TIMEOUT_NANOS: u128 = 15_000_000_000;

/// A tick's effect on eating: the progress after it and the outcome.
pub open spec fn eat_tick(p: ProgressView, elapsed_nanos: u128, interacting: bool) -> (ProgressView, OutcomeView) {
    match p {
        ProgressView::NotEating(reason) => (p, OutcomeView::Failed(reason)),
        ProgressView::StartedEating => if elapsed_nanos > START_TIMEOUT_NANOS {
            (ProgressView::NotEating("Starting to eat timed out (>3s)!"@),
                OutcomeView::Failed("Attempted to eat, but it failed (no interacting detected more than 3s later)!"@))
        } else if interacting {
            (ProgressView::IsEating, OutcomeView::Ongoing)
        } else {
            (p, OutcomeView::Ongoing)
        },
        ProgressView::IsEating => if elapsed_nanos > EAT_TIMEOUT_NANOS {
            (ProgressView::NotEating("Eating took too long!"@),
                OutcomeView::Failed("Eating took too long! Perhaps interaction got confused with another action, the server is seriously lagging or eating a modified food item that takes forever (in which case ignore this)!"@))
        } else if !interacting {
            (ProgressView::NotEating("Already done"@), OutcomeView::Succeeded)
        } else {
            (p, OutcomeView::Ongoing)
        },
    }
}

/// What a tick of eating does.
#[derive(Debug)]
pub struct EatStep {
    pub outcome: TaskOutcome,
    /// Stop using the item (eating took too long).
    pub release_item: bool,
}

impl EatTask {
    /// A task that has not started eating.
    pub fn new() -> (r: EatTask)
        ensures
            r.eating_progress@ == ProgressView::NotEating("Not started"@),
    {
        EatTask {
            last_updated_at: instant_now(),
            eating_progress: EatingProgress::NotEating { reason: String::from_str("Not started") },
        }
    }

    /// `Eat (<progress>)`.
    pub fn describe(&self) -> (r: String)
        ensures
            r@ == "Eat ("@ + spec_progress_text(self.eating_progress@) + ")"@,
    {
        let mut r = String::from_str("Eat (");
        let p = self.eating_progress.describe();
        r.append(p.as_str());
        r.append(")");
        r
    }

    /// Starts: `started_eating` tells whether food was found and eating began.
    pub fn start(&mut self, started_eating: bool)
        ensures
            final(self).eating_progress@ == if started_eating {
                ProgressView::StartedEating
            } else {
                old(self).eating_progress@
            },
    {
        if started_eating {
            self.last_updated_at = instant_now();
            self.eating_progress = EatingProgress::StartedEating;
        }
    }

    /// Handles an event `elapsed_nanos` after the last change of progress, with the bot
    /// `interacting` (using an item) or not; only ticks count.
    pub fn handle_after(&mut self, is_tick: bool, elapsed_nanos: u128, interacting: bool) -> (r: EatStep)
        ensures
            if is_tick {
                let (p, o) = eat_tick(old(self).eating_progress@, elapsed_nanos, interacting);
                &&& final(self).eating_progress@ == p
                &&& r.outcome@ == o
                &&& r.release_item == (old(self).eating_progress@ is IsEating && elapsed_nanos > EAT_TIMEOUT_NANOS)
            } else {
                final(self).eating_progress@ == old(self).eating_progress@ && r.outcome@ == OutcomeView::Ongoing
                    && !r.release_item
            },
    {
        if !is_tick {
            return EatStep { outcome: TaskOutcome::Ongoing, release_item: false };
        }
        match &self.eating_progress {
            EatingProgress::NotEating { reason } => {
                EatStep { outcome: TaskOutcome::Failed { reason: String::from_str(reason.as_str()) }, release_item: false }
            },
            EatingProgress::StartedEating => {
                if elapsed_nanos > START_TIMEOUT_NANOS {
                    self.last_updated_at = instant_now();
                    self.eating_progress = EatingProgress::NotEating {
                        reason: String::from_str("Starting to eat timed out (>3s)!"),
                    };
                    EatStep {
                        outcome: TaskOutcome::Failed {
                            reason: String::from_str(
                                "Attempted to eat, but it failed (no interacting detected more than 3s later)!",
                            ),
                        },
                        release_item: false,
                    }
                } else if interacting {
                    self.last_updated_at = instant_now();
                    self.eating_progress = EatingProgress::IsEating;
                    EatStep { outcome: TaskOutcome::Ongoing, release_item: false }
                } else {
                    EatStep { outcome: TaskOutcome::Ongoing, release_item: false }
                }
            },
            EatingProgress::IsEating => {
                if elapsed_nanos > EAT_TIMEOUT_NANOS {
                    self.last_updated_at = instant_now();
                    self.eating_progress = EatingProgress::NotEating { reason: String::from_str("Eating took too long!") };
                    EatStep {
                        outcome: TaskOutcome::Failed {
                            reason: String::from_str(
                                "Eating took too long! Perhaps interaction got confused with another action, the server is seriously lagging or eating a modified food item that takes forever (in which case ignore this)!",
                            ),
                        },
                        release_item: true,
                    }
                } else if !interacting {
                    self.last_updated_at = instant_now();
                    self.eating_progress = EatingProgress::NotEating { reason: String::from_str("Already done") };
                    EatStep { outcome: TaskOutcome::Succeeded, release_item: false }
                } else {
                    EatStep { outcome: TaskOutcome::Ongoing, release_item: false }
                }
            },
        }
    }

    /// Handles an event now (see `handle_after`).
    pub fn handle(&mut self, is_tick: bool, interacting: bool) -> (r: EatStep)
        ensures
            exists|elapsed: u128| #![trigger eat_tick(old(self).eating_progress@, elapsed, interacting)]
                if is_tick {
                    let (p, o) = eat_tick(old(self).eating_progress@, elapsed, interacting);
                    &&& final(self).eating_progress@ == p
                    &&& r.outcome@ == o
                    &&& r.release_item == (old(self).eating_progress@ is IsEating && elapsed > EAT_TIMEOUT_NANOS)
                } else {
                    final(self).eating_progress@ == old(self).eating_progress@ && r.outcome@ == OutcomeView::Ongoing
                        && !r.release_item
                },
    {
        let elapsed = elapsed_nanos(&self.last_updated_at);
        let r = self.handle_after(is_tick, elapsed, interacting);
        assert(eat_tick(old(self).eating_progress@, elapsed, interacting) == eat_tick(old(self).eating_progress@, elapsed, interacting));
        r
    }

    /// Stops: returns whether to stop using the item (eating had started).
    pub fn stop(&self) -> (r: bool)
        ensures
            r == (self.eating_progress@ is StartedEating || self.eating_progress@ is IsEating),
    {
        match self.eating_progress {
            EatingProgress::StartedEating | EatingProgress::IsEating => true,
            _ => false,
        }
    }
}

/// Outcome of the beer swing on an event (`is_tick`) `elapsed_millis` after its start:
/// done on a tick once 12 ticks of 50 milliseconds passed.
pub open spec fn swing_outcome(is_tick: bool, elapsed_millis: u64) -> OutcomeView {
    if is_tick && (elapsed_millis / 50) as u32 >= 12 { OutcomeView::Succeeded } else { OutcomeView::Ongoing }
}

/// Swings a beer for 12 ticks, then selects the slot that was held before.
#[derive(Debug)]
pub struct SwingBeerTask {
    pub started_at: std::time::Instant,
    pub orig_held_slot: u8,
}

impl SwingBeerTask {
    /// A task that has not started.
    pub fn new() -> (r: SwingBeerTask)
        ensures
            r.orig_held_slot == 0,
    {
        SwingBeerTask { started_at: instant_now(), orig_held_slot: 0 }
    }

    /// `SwingBeer`.
    pub fn describe(&self) -> (r: String)
        ensures
            r@ == "SwingBeer"@,
    {
        String::from_str("SwingBeer")
    }

    /// Starts now, remembering the slot held before.
    pub fn start(&mut self, held_slot: u8)
        ensures
            final(self).orig_held_slot == held_slot,
    {
        self.started_at = instant_now();
        self.orig_held_slot = held_slot;
    }

    /// Succeeds on the first tick once 12 ticks (of 50 milliseconds) passed since the
    /// start, `elapsed_millis` after it; the held slot is then restored.
    pub fn outcome_after(&self, is_tick: bool, elapsed_millis: u64) -> (r: TaskOutcome)
        ensures
            r@ == swing_outcome(is_tick, elapsed_millis),
    {
        if is_tick && (elapsed_millis / 50) as u32 >= 12 {
            TaskOutcome::Succeeded
        } else {
            TaskOutcome::Ongoing
        }
    }

    /// Handles an event now (see `outcome_after`).
    pub fn handle(&self, is_tick: bool) -> (r: TaskOutcome)
        ensures
            exists|elapsed: u64| r@ == #[trigger] swing_outcome(is_tick, elapsed),
            !is_tick ==> r@ == OutcomeView::Ongoing,
    {
        let elapsed = elapsed_millis(&self.started_at);
        self.outcome_after(is_tick, elapsed)
    }
}

/// Eating succeeds exactly when, after the bot was seen eating, it stops interacting
/// within 15 seconds; it fails when eating does not show within 3 seconds of trying, or
/// takes longer than 15 seconds; once failed it stays failed.
pub proof fn law_eating_ends_when_interaction_stops(p: ProgressView, elapsed_nanos: u128, interacting: bool)
    ensures
        ({
            let (next, outcome) = eat_tick(p, elapsed_nanos, interacting);
            &&& outcome is Succeeded <==> (p is IsEating && elapsed_nanos <= 15_000_000_000 && !interacting)
            &&& (p is StartedEating && elapsed_nanos > 3_000_000_000) ==> outcome is Failed
            &&& (p is IsEating && elapsed_nanos > 15_000_000_000) ==> outcome is Failed
            &&& (p is StartedEating && elapsed_nanos <= 3_000_000_000) ==> outcome is Ongoing
                && (next is IsEating <==> interacting)
            &&& p is NotEating ==> outcome is Failed && next == p
        }),
{
}

} // verus!
