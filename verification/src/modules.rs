//! Small modules: periodic arm swings, looking at players, the DevNet integration.

use vstd::prelude::*;

verus! {

/// Swings the arm every `tick_period` ticks (against being kicked for idling).
#[derive(Debug, Clone)]
pub struct PeriodicSwingModule {
    pub tick_period: u32,
    pub ticks_since_last_swing: u32,
}

impl PeriodicSwingModule {
    /// Whether the tick count is below the period (or zero).
    pub open spec fn wf(&self) -> bool {
        self.ticks_since_last_swing < self.tick_period || self.ticks_since_last_swing == 0
    }

    /// Swings every `tick_period` ticks, counting from now.
    pub fn new(tick_period: u32) -> (r: PeriodicSwingModule)
        ensures
            r.tick_period == tick_period,
            r.ticks_since_last_swing == 0,
            r.wf(),
    {
        PeriodicSwingModule { tick_period, ticks_since_last_swing: 0 }
    }

    /// A tick; with periodic swinging `enabled`, counts it and returns whether to swing
    /// now (the period is over, and counting starts again).
    pub fn on_tick(&mut self, enabled: bool) -> (r: bool)
        requires
            old(self).wf(),
        ensures
            final(self).wf(),
            final(self).tick_period == old(self).tick_period,
            r == (enabled && old(self).ticks_since_last_swing + 1 >= old(self).tick_period),
            final(self).ticks_since_last_swing == if !enabled {
                old(self).ticks_since_last_swing as int
            } else if r {
                0
            } else {
                old(self).ticks_since_last_swing + 1
            },
    {
        if !enabled {
            return false;
        }
        let ticks = self.ticks_since_last_swing + 1;
        if ticks >= self.tick_period {
            self.ticks_since_last_swing = 0;
            true
        } else {
            self.ticks_since_last_swing = ticks;
            false
        }
    }
}

impl Default for PeriodicSwingModule {
    /// Every 30 seconds (600 ticks).
    fn default() -> (r: PeriodicSwingModule)
        ensures
            r.tick_period == 600,
            r.ticks_since_last_swing == 0,
    {
        PeriodicSwingModule::new(20 * 30)
    }
}

/// With periodic swinging on, the arm swings exactly once every `tick_period` ticks:
/// after `k` ticks since the last swing the count is `k`, and the tick that completes
/// the period swings and starts over.
pub proof fn law_swing_once_per_period(m: PeriodicSwingModule)
    requires
        m.wf(),
        m.tick_period > 0,
    ensures
        m.ticks_since_last_swing + 1 >= m.tick_period <==> m.ticks_since_last_swing + 1 == m.tick_period,
{
}

/// Looks at the closest player within `max_distance` blocks while idle.
#[derive(Debug, Clone, Default)]
pub struct LookAtPlayersModule {
    pub max_distance: u32,
}

impl LookAtPlayersModule {
    /// Looks at players up to `max_distance` blocks away.
    pub fn new(max_distance: u32) -> (r: LookAtPlayersModule)
        ensures
            r.max_distance == max_distance,
    {
        LookAtPlayersModule { max_distance }
    }

    /// Whether the bot looks around this tick: only while it is not pathfinding, has
    /// no tasks and has no container open.
    pub fn active(&self, pathfinding: bool, task_count: usize, container_open: bool) -> (r: bool)
        ensures
            r == (!pathfinding && task_count == 0 && !container_open),
    {
        !pathfinding && task_count == 0 && !container_open
    }

    /// The squared distance up to which players are looked at.
    pub fn max_distance_squared(&self) -> (r: u32)
        requires
            self.max_distance <= 65535,
        ensures
            r == self.max_distance * self.max_distance,
    {
        assert(self.max_distance * self.max_distance <= 65535 * 65535) by (nonlinear_arith)
            requires
                self.max_distance <= 65535,
        ;
        self.max_distance * self.max_distance
    }
}

/// Handles the requests that arrive from DevNet.
#[derive(Debug, Clone, Default)]
pub struct DevNetIntegrationModule {}

/// A bot that DevNet can send players to.
#[derive(Debug, Clone)]
pub struct Destination {
    pub id: String,
    pub bot_name: String,
    pub reachable: bool,
}

/// Eats on its own: tries at most every half second, when the bot should eat.
/// Times are milliseconds on the caller's clock.
#[derive(Debug, Copy, Clone, PartialEq, Eq, Structural)]
pub struct AutoEatModule {
    pub last_eat_attempt_at_millis: u64,
}

impl AutoEatModule {
    /// The module, as if an attempt was made at `now_millis`.
    pub fn new(now_millis: u64) -> (r: AutoEatModule)
        ensures
            r.last_eat_attempt_at_millis == now_millis,
    {
        AutoEatModule { last_eat_attempt_at_millis: now_millis }
    }

    /// A tick at `now_millis`: where the bot should eat and more than 500 ms passed
    /// since the last attempt, this is an attempt; it starts an eating task (the result)
    /// where the hotbar holds food and no eating task is running.
    pub fn on_tick(&mut self, now_millis: u64, should_eat: bool, has_food: bool, eat_task_running: bool) -> (r: bool)
        ensures
            ({
                let attempt = should_eat && now_millis >= old(self).last_eat_attempt_at_millis
                    && now_millis - old(self).last_eat_attempt_at_millis > 500;
                &&& final(self).last_eat_attempt_at_millis == if attempt { now_millis } else { old(self).last_eat_attempt_at_millis }
                &&& r == (attempt && has_food && !eat_task_running)
            }),
    {
        if should_eat && now_millis >= self.last_eat_attempt_at_millis && now_millis - self.last_eat_attempt_at_millis > 500 {
            self.last_eat_attempt_at_millis = now_millis;
            has_food && !eat_task_running
        } else {
            false
        }
    }
}

/// The first hotbar slot that holds food (`food[i]`: slot `i` holds food).
pub fn find_food_in_hotbar(food: &Vec<bool>) -> (r: Option<u8>)
    requires
        food@.len() <= 256,
    ensures
        match r {
            Some(i) => i < food@.len() && food@[i as int] && forall|j: int| 0 <= j < i ==> !#[trigger] food@[j],
            None => forall|j: int| 0 <= j < food@.len() ==> !#[trigger] food@[j],
        },
{
    let mut i: usize = 0;
    while i < food.len()
        invariant
            i <= food@.len(),
            food@.len() <= 256,
            forall|j: int| 0 <= j < i ==> !#[trigger] food@[j],
        decreases food@.len() - i,
    {
        if food[i] {
            return Some(i as u8);
        }
        i = i + 1;
    }
    None
}

/// The last world time update of a tick rate measurement: when it came (milliseconds on
/// the caller's clock) and the world's game time (ticks) it gave.
#[derive(Debug, Copy, Clone, PartialEq, Eq, Structural)]
pub struct PendingMeasurement {
    pub last_worldtime_update_at: u64,
    pub last_time_ticks: u64,
}

/// A sample of the server's tick rate: milliseconds between two world time updates and
/// the ticks the world advanced in them.
#[derive(Debug, Copy, Clone, PartialEq, Eq, Structural)]
pub struct TpsSample {
    pub gap_millis: u64,
    pub ticks_elapsed: u64,
}

/// Pairs successive world time updates into tick rate samples.
#[derive(Debug, Copy, Clone, PartialEq, Eq, Structural)]
pub struct TpsSampler {
    pub pending: Option<PendingMeasurement>,
}

impl TpsSampler {
    /// Nothing measured.
    pub fn new() -> (r: TpsSampler)
        ensures
            r.pending is None,
    {
        TpsSampler { pending: None }
    }

    /// Starts over (on login and disconnect).
    pub fn reset(&mut self)
        ensures
            final(self).pending is None,
    {
        self.pending = None;
    }

    /// A world time update with `game_time` at `now_millis`. The first one, or one that
    /// goes back in time, starts a new measurement; any later one gives a sample against
    /// the previous update and takes its place.
    pub fn on_set_time(&mut self, game_time: u64, now_millis: u64) -> (r: Option<TpsSample>)
        ensures
            final(self).pending == Some(PendingMeasurement { last_worldtime_update_at: now_millis, last_time_ticks: game_time }),
            match old(self).pending {
                Some(p) => if game_time < p.last_time_ticks {
                    r is None
                } else {
                    r == Some(TpsSample {
                        gap_millis: if now_millis >= p.last_worldtime_update_at { (now_millis - p.last_worldtime_update_at) as u64 } else { 0 },
                        ticks_elapsed: (game_time - p.last_time_ticks) as u64,
                    })
                },
                None => r is None,
            },
    {
        let sample = match self.pending {
            Some(p) => {
                if game_time < p.last_time_ticks {
                    None
                } else {
                    let gap: u64 = if now_millis >= p.last_worldtime_update_at { now_millis - p.last_worldtime_update_at } else { 0 };
                    Some(TpsSample { gap_millis: gap, ticks_elapsed: game_time - p.last_time_ticks })
                }
            },
            None => None,
        };
        self.pending = Some(PendingMeasurement { last_worldtime_update_at: now_millis, last_time_ticks: game_time });
        sample
    }
}

/// Whether the server seems to hang: the last tick rate measurement, taken at
/// `measured_at` (milliseconds), is more than 2 seconds old at `now_millis`.
pub fn is_server_likely_hanging(measured_at: Option<u64>, now_millis: u64) -> (r: bool)
    ensures
        r == match measured_at {
            Some(t) => now_millis >= t && now_millis - t > 2000,
            None => false,
        },
{
    match measured_at {
        Some(t) => now_millis >= t && now_millis - t > 2000,
        None => false,
    }
}

} // verus!
