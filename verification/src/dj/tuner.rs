//! Tuning note blocks tick by tick: one right click at a time on the job with the lowest
//! wanted pitch, predicting the new pitch until the server confirms it, and a ping to
//! know when the last click has surely arrived.

use vstd::prelude::*;
use vstd::string::*;
use crate::blockpos::BlockPos;
use crate::nbs::defs::{NbsPitch, pitch_ordinal};
use crate::nbs::song::{NbsNote, spec_next_pitch};
use crate::dj::tune::{TuneJob, FoundBlock, plan, plan_tuning, spec_missing_block_list, format_missing_block_list};
use crate::random::random_u64_between;

verus! {

/// Where the round trip measurement stands (times in milliseconds on the caller's clock).
#[derive(Debug, Copy, Clone, PartialEq, Eq, Structural)]
pub enum PingState {
    NotStarted,
    Pending { id: i64, sent_at: u64 },
    Responded { at: u64, took: u64 },
}

/// The pitch a block is expected to play after a click, until a time.
#[derive(Debug, Copy, Clone, PartialEq, Eq, Structural)]
pub struct Prediction {
    pub pitch: NbsPitch,
    pub until: u64,
}

/// A job and, after a click, the pitch expected.
#[derive(Debug, Copy, Clone, PartialEq, Eq, Structural)]
pub struct TuneTarget {
    pub job: TuneJob,
    pub predicted: Option<Prediction>,
}

/// Tunes the note blocks near the bot to the wanted notes.
#[derive(Debug)]
pub struct Tuner {
    pub wanted: Vec<NbsNote>,
    pub jobs: Vec<TuneTarget>,
    pub ping: PingState,
    pub wait_for_last_ping: bool,
    /// The block to click at the next tick (the look towards it was set this tick).
    pub waiting_block_hit: Option<BlockPos>,
}

/// How a tick starts.
#[derive(Debug, Copy, Clone, PartialEq, Eq, Structural)]
pub struct TickStart {
    /// Click this block now (use the item on it and swing).
    pub interact_at: Option<BlockPos>,
    /// Nothing is wanted: tuning is done.
    pub done: bool,
    /// The jobs must be planned (see `Tuner::set_jobs`) before going on.
    pub need_jobs: bool,
}

/// What the rest of a tick does.
#[derive(Debug, Copy, Clone, PartialEq, Eq, Structural)]
pub enum TuneChoice {
    /// A block could not be read or plays another instrument: the jobs were dropped
    /// and are planned again next tick.
    Restart,
    /// Click job `index` at `pos`, which plays `actual` now (see `Tuner::aim`).
    Aim { index: usize, pos: BlockPos, actual: NbsPitch },
    /// Every block plays its wanted pitch and no prediction is pending: ask for a last
    /// ping (see `Tuner::ping_step`) unless waiting for it already.
    NeedLastPing,
    /// Tuning is done: the last ping came back at least 100 ms ago.
    Done,
    /// Nothing to do this tick.
    Wait,
}

/// How long a prediction holds after a click: 100 ms plus twice the ping (counted up to
/// 50 ms), or 350 ms while the ping is unknown.
pub open spec fn safe_delay(ping: PingState) -> u64 {
    match ping {
        PingState::Responded { took, .. } => (100 + 2 * (if took < 50 { took } else { 50 })) as u64,
        _ => 350,
    }
}

/// The pitch a job's block plays at `now`: the prediction while it holds, else what is
/// read from the world (`None`: unreadable, or another instrument: start over).
pub open spec fn current_pitch(t: TuneTarget, reading: Option<NbsNote>, now: u64) -> Option<NbsPitch> {
    match t.predicted {
        Some(p) if p.until >= now => Some(p.pitch),
        _ => match reading {
            Some(n) if n.instrument == t.job.instrument => Some(n.pitch),
            _ => None,
        },
    }
}

/// Whether a job's prediction holds at `now`.
pub open spec fn predicting(t: TuneTarget, now: u64) -> bool {
    t.predicted matches Some(p) && p.until >= now
}

/// Looking at jobs below `k`: `None` when one could not be read; else the job to click
/// (the first with the lowest wanted pitch among those not at their wanted pitch, with
/// its current pitch) and how many predictions hold.
pub open spec fn scan_jobs(jobs: Seq<TuneTarget>, readings: Seq<Option<NbsNote>>, now: u64, k: int)
    -> Option<(Option<(int, NbsPitch)>, nat)>
    decreases k,
{
    if k <= 0 {
        Some((None, 0))
    } else {
        match scan_jobs(jobs, readings, now, k - 1) {
            None => None,
            Some((best, pending)) => {
                let t = jobs[k - 1];
                match current_pitch(t, readings[k - 1], now) {
                    None => None,
                    Some(cur) => {
                        let pending = if predicting(t, now) { pending + 1 } else { pending };
                        let best = if cur != t.job.wanted_pitch {
                            match best {
                                Some((b, _)) => if pitch_ordinal(jobs[b].job.wanted_pitch) > pitch_ordinal(t.job.wanted_pitch) {
                                    Some((k - 1, cur))
                                } else {
                                    best
                                },
                                None => Some((k - 1, cur)),
                            }
                        } else {
                            best
                        };
                        Some((best, pending as nat))
                    },
                }
            },
        }
    }
}

/// The jobs for a plan, with no predictions.
pub open spec fn targets_of(jobs: Seq<TuneJob>) -> Seq<TuneTarget> {
    jobs.map_values(|j: TuneJob| TuneTarget { job: j, predicted: None })
}

impl Tuner {
    /// A tuner for these notes, with no jobs yet.
    pub fn new(wanted: Vec<NbsNote>) -> (r: Tuner)
        ensures
            r.wanted@ == wanted@,
            r.jobs@.len() == 0,
            r.ping == PingState::NotStarted,
            r.wait_for_last_ping,
            r.waiting_block_hit is None,
    {
        Tuner { wanted, jobs: Vec::new(), ping: PingState::NotStarted, wait_for_last_ping: true, waiting_block_hit: None }
    }

    /// Forgets the jobs and the ping.
    pub fn reset(&mut self)
        ensures
            final(self).jobs@.len() == 0,
            final(self).ping == PingState::NotStarted,
            final(self).wanted@ == old(self).wanted@,
            final(self).wait_for_last_ping == old(self).wait_for_last_ping,
            final(self).waiting_block_hit == old(self).waiting_block_hit,
    {
        self.ping = PingState::NotStarted;
        self.jobs.clear();
    }

    /// Starts a tick: the click prepared last tick is due; with nothing wanted tuning is
    /// done; with fewer jobs than wanted notes they are planned again.
    pub fn begin_tick(&mut self) -> (r: TickStart)
        ensures
            r.interact_at == old(self).waiting_block_hit,
            final(self).waiting_block_hit is None,
            r.done == (old(self).wanted@.len() == 0),
            r.need_jobs == (!r.done && old(self).wanted@.len() != old(self).jobs@.len()),
            final(self).wait_for_last_ping == if r.need_jobs { false } else { old(self).wait_for_last_ping },
            final(self).wanted@ == old(self).wanted@,
            final(self).jobs@ == old(self).jobs@,
            final(self).ping == old(self).ping,
    {
        let interact_at = self.waiting_block_hit;
        self.waiting_block_hit = None;
        if self.wanted.len() == 0 {
            return TickStart { interact_at, done: true, need_jobs: false };
        }
        let need_jobs = self.wanted.len() != self.jobs.len();
        if need_jobs {
            self.wait_for_last_ping = false;
        }
        TickStart { interact_at, done: false, need_jobs }
    }

    /// Plans the jobs from the note blocks `found` near the bot (see `plan_tuning`). Where
    /// a wanted note has no block, the error names the blocks missing.
    pub fn set_jobs(&mut self, found: &Vec<FoundBlock>) -> (r: Result<(), String>)
        ensures
            final(self).jobs@ == targets_of(plan(old(self).wanted@, found@, old(self).wanted@.len()).jobs),
            final(self).wanted@ == old(self).wanted@,
            final(self).ping == old(self).ping,
            final(self).wait_for_last_ping == old(self).wait_for_last_ping,
            final(self).waiting_block_hit == old(self).waiting_block_hit,
            ({
                let missing = plan(old(self).wanted@, found@, old(self).wanted@.len()).missing;
                if missing.len() == 0 {
                    r is Ok
                } else {
                    r matches Err(m) && m@ == "Missing instruments: "@ + spec_missing_block_list(missing)
                }
            }),
    {
        let (jobs, missing) = plan_tuning(&self.wanted, found);
        let mut targets: Vec<TuneTarget> = Vec::new();
        let mut i: usize = 0;
        while i < jobs.len()
            invariant
                i <= jobs@.len(),
                targets@ == targets_of(jobs@.subrange(0, i as int)),
            decreases jobs@.len() - i,
        {
            targets.push(TuneTarget { job: jobs[i], predicted: None });
            i = i + 1;
            assert(targets@ =~= targets_of(jobs@.subrange(0, i as int)));
        }
        assert(jobs@.subrange(0, jobs@.len() as int) =~= jobs@);
        self.jobs = targets;
        if missing.len() == 0 {
            Ok(())
        } else {
            let mut m = String::from_str("Missing instruments: ");
            let list = format_missing_block_list(&missing);
            m.append(list.as_str());
            Err(m)
        }
    }

    /// Sends a ping (at `now`) if none was: returns the id to send. The id is drawn at
    /// random from the lowest quarter of the 64-bit range.
    pub fn ping_step(&mut self, now: u64) -> (r: Option<i64>)
        ensures
            match old(self).ping {
                PingState::NotStarted => r matches Some(id) && final(self).ping == (PingState::Pending { id, sent_at: now })
                    && i64::MIN <= id < i64::MIN + i64::MAX / 4,
                _ => r is None && final(self).ping == old(self).ping,
            },
            final(self).wanted@ == old(self).wanted@,
            final(self).jobs@ == old(self).jobs@,
            final(self).wait_for_last_ping == old(self).wait_for_last_ping,
            final(self).waiting_block_hit == old(self).waiting_block_hit,
    {
        match self.ping {
            PingState::NotStarted => {
                let drawn = random_u64_between(0, 2305843009213693950);
                let id: i64 = i64::MIN + drawn as i64;
                self.ping = PingState::Pending { id, sent_at: now };
                Some(id)
            },
            _ => None,
        }
    }

    /// A pong arrived at `now` with this time field: it answers the pending ping when
    /// it carries its id.
    pub fn on_pong(&mut self, time: u64, now: u64)
        ensures
            final(self).ping == match old(self).ping {
                PingState::Pending { id, sent_at } if time as i64 == id =>
                    PingState::Responded { at: now, took: if now >= sent_at { (now - sent_at) as u64 } else { 0 } },
                _ => old(self).ping,
            },
            final(self).wanted@ == old(self).wanted@,
            final(self).jobs@ == old(self).jobs@,
            final(self).wait_for_last_ping == old(self).wait_for_last_ping,
            final(self).waiting_block_hit == old(self).waiting_block_hit,
    {
        match self.ping {
            PingState::Pending { id, sent_at } => {
                if time as i64 == id {
                    let took = if now >= sent_at { now - sent_at } else { 0 };
                    self.ping = PingState::Responded { at: now, took };
                }
            },
            _ => {},
        }
    }

    /// Looks at the jobs at `now` (`readings[k]`: the note the block of job `k` plays, if
    /// it could be read; `has_eye_pos`: the bot's eye position is known) and decides the
    /// rest of the tick.
    pub fn pick_next(&mut self, readings: &Vec<Option<NbsNote>>, now: u64, has_eye_pos: bool) -> (r: TuneChoice)
        requires
            readings@.len() == old(self).jobs@.len(),
        ensures
            final(self).wanted@ == old(self).wanted@,
            final(self).ping == old(self).ping,
            final(self).wait_for_last_ping == old(self).wait_for_last_ping,
            final(self).waiting_block_hit == old(self).waiting_block_hit,
            match scan_jobs(old(self).jobs@, readings@, now, old(self).jobs@.len() as int) {
                None => r == TuneChoice::Restart && final(self).jobs@.len() == 0,
                Some((best, pending)) => {
                    &&& final(self).jobs@ == old(self).jobs@
                    &&& r == match best {
                        Some((i, actual)) => if has_eye_pos {
                            TuneChoice::Aim { index: i as usize, pos: old(self).jobs@[i].job.pos, actual }
                        } else {
                            TuneChoice::Wait
                        },
                        None => if pending > 0 {
                            TuneChoice::Wait
                        } else if !old(self).wait_for_last_ping {
                            TuneChoice::NeedLastPing
                        } else {
                            match old(self).ping {
                                PingState::Responded { at, .. } if now >= at && now - at >= 100 => TuneChoice::Done,
                                _ => TuneChoice::Wait,
                            }
                        },
                    }
                },
            },
    {
        let ghost jobs = self.jobs@;
        let mut best: Option<(usize, NbsPitch)> = None;
        let mut pending: usize = 0;
        let mut k: usize = 0;
        while k < self.jobs.len()
            invariant
                k <= jobs.len(),
                jobs == self.jobs@,
                jobs == old(self).jobs@,
                self.wanted@ == old(self).wanted@,
                self.ping == old(self).ping,
                self.wait_for_last_ping == old(self).wait_for_last_ping,
                self.waiting_block_hit == old(self).waiting_block_hit,
                readings@.len() == jobs.len(),
                pending <= k,
                scan_jobs(jobs, readings@, now, k as int) == Some((
                    match best { Some((b, p)) => Some((b as int, p)), None => None },
                    pending as nat,
                )),
                best matches Some((b, _)) ==> b < k,
            decreases jobs.len() - k,
        {
            let t = self.jobs[k];
            let cur = match t.predicted {
                Some(p) if p.until >= now => {
                    pending = pending + 1;
                    p.pitch
                },
                _ => match readings[k] {
                    Some(n) => {
                        if n.instrument != t.job.instrument {
                            proof { lemma_scan_none_stays(jobs, readings@, now, (k + 1) as int, jobs.len() as int); }
                            self.jobs.clear();
                            return TuneChoice::Restart;
                        }
                        n.pitch
                    },
                    None => {
                        proof { lemma_scan_none_stays(jobs, readings@, now, (k + 1) as int, jobs.len() as int); }
                        self.jobs.clear();
                        return TuneChoice::Restart;
                    },
                },
            };
            if cur != t.job.wanted_pitch {
                match best {
                    Some((b, _)) => {
                        if self.jobs[b].job.wanted_pitch.ordinal() > t.job.wanted_pitch.ordinal() {
                            best = Some((k, cur));
                        }
                    },
                    None => {
                        best = Some((k, cur));
                    },
                }
            }
            k = k + 1;
        }
        match best {
            Some((i, actual)) => {
                if has_eye_pos {
                    TuneChoice::Aim { index: i, pos: self.jobs[i].job.pos, actual }
                } else {
                    TuneChoice::Wait
                }
            },
            None => {
                if pending > 0 {
                    TuneChoice::Wait
                } else if !self.wait_for_last_ping {
                    TuneChoice::NeedLastPing
                } else {
                    match self.ping {
                        PingState::Responded { at, .. } => {
                            if now >= at && now - at >= 100 { TuneChoice::Done } else { TuneChoice::Wait }
                        },
                        _ => TuneChoice::Wait,
                    }
                }
            },
        }
    }

    /// Prepares clicking job `index`, whose block plays `actual`: the click follows next
    /// tick, and the next pitch is expected until `now` plus the safe delay.
    pub fn aim(&mut self, index: usize, actual: NbsPitch, now: u64)
        requires
            index < old(self).jobs@.len(),
            now + safe_delay(old(self).ping) <= u64::MAX,
        ensures
            final(self).waiting_block_hit == Some(old(self).jobs@[index as int].job.pos),
            final(self).jobs@ == old(self).jobs@.update(index as int, TuneTarget {
                job: old(self).jobs@[index as int].job,
                predicted: Some(Prediction { pitch: spec_next_pitch(actual), until: (now + safe_delay(old(self).ping)) as u64 }),
            }),
            !final(self).wait_for_last_ping,
            final(self).wanted@ == old(self).wanted@,
            final(self).ping == old(self).ping,
    {
        let delay: u64 = match self.ping {
            PingState::Responded { took, .. } => 100 + 2 * (if took < 50 { took } else { 50 }),
            _ => 350,
        };
        let job = self.jobs[index].job;
        self.waiting_block_hit = Some(job.pos);
        self.jobs.set(index, TuneTarget { job, predicted: Some(Prediction { pitch: actual.next(), until: now + delay }) });
        self.wait_for_last_ping = false;
    }

    /// Asks for a last ping (at `now`): the ping starts over, and tuning waits for it.
    /// Returns the id to send.
    pub fn start_last_ping(&mut self, now: u64) -> (r: i64)
        ensures
            final(self).ping == (PingState::Pending { id: r, sent_at: now }),
            final(self).wait_for_last_ping,
            final(self).wanted@ == old(self).wanted@,
            final(self).jobs@ == old(self).jobs@,
            final(self).waiting_block_hit == old(self).waiting_block_hit,
    {
        self.ping = PingState::NotStarted;
        let id = match self.ping_step(now) {
            Some(id) => id,
            None => 0,
        };
        self.wait_for_last_ping = true;
        id
    }
}

proof fn lemma_scan_none_stays(jobs: Seq<TuneTarget>, readings: Seq<Option<NbsNote>>, now: u64, k: int, m: int)
    requires
        0 < k <= m,
        scan_jobs(jobs, readings, now, k) is None,
    ensures
        scan_jobs(jobs, readings, now, m) is None,
    decreases m - k,
{
    if k < m {
        lemma_scan_none_stays(jobs, readings, now, k, m - 1);
    }
}

/// Choosing the block to click: where every block can be read, the choice is a block
/// that does not play its wanted pitch yet, with the lowest wanted pitch among those (the
/// first of them on a tie), clicked from the pitch it plays now; no block is chosen only
/// when every block plays its wanted pitch. Where some block cannot be read (or plays
/// another instrument), nothing is chosen and tuning starts over.
pub proof fn law_tuner_picks_lowest_untuned(jobs: Seq<TuneTarget>, readings: Seq<Option<NbsNote>>, now: u64, k: int)
    requires
        0 <= k <= jobs.len(),
        readings.len() == jobs.len(),
    ensures
        match scan_jobs(jobs, readings, now, k) {
            None => exists|j: int| 0 <= j < k && #[trigger] current_pitch(jobs[j], readings[j], now) is None,
            Some((best, _)) => {
                &&& forall|j: int| 0 <= j < k ==> #[trigger] current_pitch(jobs[j], readings[j], now) is Some
                &&& match best {
                    None => forall|j: int| 0 <= j < k ==>
                        #[trigger] current_pitch(jobs[j], readings[j], now) == Some(jobs[j].job.wanted_pitch),
                    Some((i, cur)) => {
                        &&& 0 <= i < k
                        &&& current_pitch(jobs[i], readings[i], now) == Some(cur)
                        &&& cur != jobs[i].job.wanted_pitch
                        &&& forall|j: int| 0 <= j < k && #[trigger] current_pitch(jobs[j], readings[j], now) != Some(jobs[j].job.wanted_pitch)
                            ==> pitch_ordinal(jobs[i].job.wanted_pitch) <= pitch_ordinal(jobs[j].job.wanted_pitch)
                                && (j < i ==> pitch_ordinal(jobs[i].job.wanted_pitch) < pitch_ordinal(jobs[j].job.wanted_pitch))
                    },
                }
            },
        },
    decreases k,
{
    if k > 0 {
        law_tuner_picks_lowest_untuned(jobs, readings, now, k - 1);
    }
}

} // verus!
