//! Planning which note block to tune to which note, and reporting missing blocks.

use vstd::prelude::*;
use vstd::string::*;
use crate::blockpos::BlockPos;
use crate::nbs::defs::{NbsInstrument, NbsPitch, instrument_index, instrument_block_name, all_instruments};
use crate::nbs::song::{NbsNote, spec_right_clicks};
use crate::text::{dec, join, lemma_join_push, push_dec};

verus! {

/// Number of notes of an instrument in a sequence.
pub open spec fn instrument_count(notes: Seq<NbsNote>, i: NbsInstrument) -> nat
    decreases notes.len(),
{
    if notes.len() == 0 {
        0
    } else {
        instrument_count(notes.drop_last(), i) + if notes.last().instrument == i { 1nat } else { 0nat }
    }
}

/// Instruments with an index below `k` that occur exactly `c` times, in index order.
pub open spec fn instruments_with_count(notes: Seq<NbsNote>, c: nat, k: nat) -> Seq<NbsInstrument>
    decreases k,
{
    if k == 0 {
        Seq::empty()
    } else {
        let rest = instruments_with_count(notes, c, (k - 1) as nat);
        let i = all_instruments()[k - 1];
        if instrument_count(notes, i) == c { rest.push(i) } else { rest }
    }
}

/// Instruments occurring between 1 and `c` times, most frequent first, ties in index order.
pub open spec fn instruments_by_count(notes: Seq<NbsNote>, c: nat) -> Seq<NbsInstrument>
    decreases c,
{
    if c == 0 {
        Seq::empty()
    } else {
        instruments_with_count(notes, c, 23) + instruments_by_count(notes, (c - 1) as nat)
    }
}

/// The entry `<count>x <block>` for an instrument.
pub open spec fn missing_entry(notes: Seq<NbsNote>, i: NbsInstrument) -> Seq<char> {
    dec(instrument_count(notes, i)) + "x "@ + instrument_block_name(i)
}

/// The list of blocks needed for missing notes: one entry per instrument, most
/// needed first, separated by `, `.
pub open spec fn spec_missing_block_list(notes: Seq<NbsNote>) -> Seq<char> {
    join(instruments_by_count(notes, notes.len()).map_values(|i: NbsInstrument| missing_entry(notes, i)), ", "@)
}

proof fn lemma_count_step(notes: Seq<NbsNote>, k: int, i: NbsInstrument)
    requires
        0 <= k < notes.len(),
    ensures
        instrument_count(notes.subrange(0, k + 1), i) == instrument_count(notes.subrange(0, k), i)
            + if notes[k].instrument == i { 1nat } else { 0nat },
{
    assert(notes.subrange(0, k + 1).drop_last() =~= notes.subrange(0, k));
}

/// Formats the blocks needed for missing notes, e.g. `2x Gold, 1x Clay`.
pub fn format_missing_block_list(notes: &Vec<NbsNote>) -> (r: String)
    ensures
        r@ == spec_missing_block_list(notes@),
{
    proof {
        reveal_strlit("x ");
        reveal_strlit(", ");
    }
    let instruments = NbsInstrument::values();
    let mut counts: Vec<u64> = Vec::new();
    let mut k: usize = 0;
    while k < 23
        invariant
            instruments@ == all_instruments(),
            k <= 23,
            counts@.len() == k,
            forall|j: int| 0 <= j < k ==> counts@[j] == 0,
        decreases 23 - k,
    {
        counts.push(0);
        k = k + 1;
    }
    let mut n: usize = 0;
    while n < notes.len()
        invariant
            n <= notes@.len(),
            counts@.len() == 23,
            forall|j: int| 0 <= j < 23 ==> #[trigger] counts@[j] == instrument_count(
                notes@.subrange(0, n as int), all_instruments()[j]),
            forall|j: int| 0 <= j < 23 ==> counts@[j] <= n,
        decreases notes@.len() - n,
    {
        let idx = notes[n].instrument.index() as usize;
        proof {
            assert forall|j: int| 0 <= j < 23 implies instrument_count(notes@.subrange(0, n as int + 1), all_instruments()[j])
                == instrument_count(notes@.subrange(0, n as int), all_instruments()[j])
                    + if j == idx { 1nat } else { 0nat } by {
                lemma_count_step(notes@, n as int, all_instruments()[j]);
                crate::nbs::song::lemma_instrument_position(notes@[n as int].instrument);
            }
        }
        counts.set(idx, counts[idx] + 1);
        n = n + 1;
    }
    assert(notes@.subrange(0, notes@.len() as int) =~= notes@);
    let ghost entries_spec = instruments_by_count(notes@, notes@.len());
    let mut r = String::new();
    let mut emitted: Vec<NbsInstrument> = Vec::new();
    let mut c: usize = notes.len();
    while c > 0
        invariant
            instruments@ == all_instruments(),
            counts@.len() == 23,
            forall|j: int| 0 <= j < 23 ==> #[trigger] counts@[j] == instrument_count(notes@, all_instruments()[j]),
            c <= notes@.len(),
            emitted@ + instruments_by_count(notes@, c as nat) == entries_spec,
            r@ == join(emitted@.map_values(|i: NbsInstrument| missing_entry(notes@, i)), ", "@),
        decreases c,
    {
        let ghost before = emitted@;
        let mut k: usize = 0;
        while k < 23
            invariant
                instruments@ == all_instruments(),
                counts@.len() == 23,
                forall|j: int| 0 <= j < 23 ==> #[trigger] counts@[j] == instrument_count(notes@, all_instruments()[j]),
                k <= 23,
                c > 0,
                emitted@ == before + instruments_with_count(notes@, c as nat, k as nat),
                r@ == join(emitted@.map_values(|i: NbsInstrument| missing_entry(notes@, i)), ", "@),
            decreases 23 - k,
        {
            if counts[k] == c as u64 {
                let instr = instruments[k];
                let ghost old_emitted = emitted@;
                let ghost old_r = r@;
                if emitted.len() > 0 {
                    r.append(", ");
                }
                push_dec(&mut r, counts[k]);
                r.append("x ");
                r.append(instr.example_instrument_block_name());
                emitted.push(instr);
                proof {
                    assert(emitted@.map_values(|i: NbsInstrument| missing_entry(notes@, i)) =~=
                        old_emitted.map_values(|i: NbsInstrument| missing_entry(notes@, i)).push(missing_entry(notes@, instr)));
                    lemma_join_push(old_emitted.map_values(|i: NbsInstrument| missing_entry(notes@, i)), ", "@, missing_entry(notes@, instr));
                }
            }
            k = k + 1;
        }
        proof {
            assert(instruments_by_count(notes@, c as nat) == instruments_with_count(notes@, c as nat, 23)
                + instruments_by_count(notes@, (c - 1) as nat));
            assert(before + instruments_by_count(notes@, c as nat) =~= emitted@ + instruments_by_count(notes@, (c - 1) as nat));
        }
        c = c - 1;
    }
    assert(emitted@ =~= entries_spec);
    r
}

/// A note block to tune: where it is, its instrument and the pitch it must get.
#[derive(Debug, Copy, Clone, PartialEq, Eq, Structural)]
pub struct TuneJob {
    pub pos: BlockPos,
    pub instrument: NbsInstrument,
    pub wanted_pitch: NbsPitch,
}

/// A note block found near the bot: its position and the note it plays now.
#[derive(Debug, Copy, Clone, PartialEq, Eq, Structural)]
pub struct FoundBlock {
    pub pos: BlockPos,
    pub note: NbsNote,
}

/// Whether found block `k` may serve `note`: not taken yet and of the right instrument.
pub open spec fn eligible(found: Seq<FoundBlock>, used: Seq<bool>, note: NbsNote, k: int) -> bool {
    !used[k] && found[k].note.instrument == note.instrument
}

/// Among the found blocks below index `k`, the eligible one needing the fewest
/// right clicks to reach the note's pitch (the first one on ties).
pub open spec fn best_block(found: Seq<FoundBlock>, used: Seq<bool>, note: NbsNote, k: int) -> Option<int>
    decreases k,
{
    if k <= 0 {
        None
    } else {
        let prev = best_block(found, used, note, k - 1);
        let c = k - 1;
        if !eligible(found, used, note, c) {
            prev
        } else {
            match prev {
                None => Some(c),
                Some(b) => if spec_right_clicks(found[c].note.pitch, note.pitch)
                    < spec_right_clicks(found[b].note.pitch, note.pitch) {
                    Some(c)
                } else {
                    prev
                },
            }
        }
    }
}

/// The jobs planned, the notes left without a block, and which blocks are taken.
pub struct TunePlan {
    pub jobs: Seq<TuneJob>,
    pub missing: Seq<NbsNote>,
    pub used: Seq<bool>,
}

/// Plans the first `n` wanted notes in order: each takes its best eligible block,
/// or is missing when its instrument has no block left.
pub open spec fn plan(wanted: Seq<NbsNote>, found: Seq<FoundBlock>, n: nat) -> TunePlan
    decreases n,
{
    if n == 0 {
        TunePlan { jobs: Seq::empty(), missing: Seq::empty(), used: Seq::new(found.len(), |k: int| false) }
    } else {
        let p = plan(wanted, found, (n - 1) as nat);
        let note = wanted[n - 1];
        match best_block(found, p.used, note, found.len() as int) {
            Some(b) => TunePlan {
                jobs: p.jobs.push(TuneJob { pos: found[b].pos, instrument: note.instrument, wanted_pitch: note.pitch }),
                missing: p.missing,
                used: p.used.update(b, true),
            },
            None => TunePlan { jobs: p.jobs, missing: p.missing.push(note), used: p.used },
        }
    }
}

proof fn lemma_best_block_bounds(found: Seq<FoundBlock>, used: Seq<bool>, note: NbsNote, k: int)
    requires
        0 <= k <= found.len(),
        used.len() == found.len(),
    ensures
        best_block(found, used, note, k) matches Some(b) ==> 0 <= b < k && eligible(found, used, note, b),
        best_block(found, used, note, k) is None ==> forall|j: int| 0 <= j < k ==> !eligible(found, used, note, j),
    decreases k,
{
    if k > 0 {
        lemma_best_block_bounds(found, used, note, k - 1);
    }
}

proof fn lemma_plan_used_len(wanted: Seq<NbsNote>, found: Seq<FoundBlock>, n: nat)
    requires
        n <= wanted.len(),
    ensures
        plan(wanted, found, n).used.len() == found.len(),
        plan(wanted, found, n).jobs.len() + plan(wanted, found, n).missing.len() == n,
    decreases n,
{
    if n > 0 {
        lemma_plan_used_len(wanted, found, (n - 1) as nat);
        let p = plan(wanted, found, (n - 1) as nat);
        lemma_best_block_bounds(found, p.used, wanted[n - 1], found.len() as int);
    }
}

fn find_best_block(found: &Vec<FoundBlock>, used: &Vec<bool>, note: NbsNote) -> (r: Option<usize>)
    requires
        used@.len() == found@.len(),
    ensures
        opt_usize(r) == best_block(found@, used@, note, found@.len() as int),
{
    let mut best: Option<usize> = None;
    let mut best_clicks: u8 = 0;
    let mut k: usize = 0;
    while k < found.len()
        invariant
            used@.len() == found@.len(),
            k <= found@.len(),
            opt_usize(best) == best_block(found@, used@, note, k as int),
            best matches Some(b) ==> b < k && best_clicks == spec_right_clicks(found@[b as int].note.pitch, note.pitch),
        decreases found@.len() - k,
    {
        if !used[k] && found[k].note.instrument == note.instrument {
            let clicks = found[k].note.pitch.right_clicks_for(&note.pitch);
            match best {
                None => {
                    best = Some(k);
                    best_clicks = clicks;
                },
                Some(_) => {
                    if clicks < best_clicks {
                        best = Some(k);
                        best_clicks = clicks;
                    }
                },
            }
        }
        k = k + 1;
    }
    best
}

/// View of an optional index.
pub open spec fn opt_usize(o: Option<usize>) -> Option<int> {
    match o {
        Some(v) => Some(v as int),
        None => None,
    }
}

/// Plans tuning: assigns each wanted note (in order) the found block of its
/// instrument that needs the fewest right clicks and is not taken yet. Returns
/// the jobs and the notes for which no block is left.
pub fn plan_tuning(wanted: &Vec<NbsNote>, found: &Vec<FoundBlock>) -> (r: (Vec<TuneJob>, Vec<NbsNote>))
    ensures
        r.0@ == plan(wanted@, found@, wanted@.len()).jobs,
        r.1@ == plan(wanted@, found@, wanted@.len()).missing,
{
    let mut jobs: Vec<TuneJob> = Vec::new();
    let mut missing: Vec<NbsNote> = Vec::new();
    let mut used: Vec<bool> = Vec::new();
    let mut k: usize = 0;
    while k < found.len()
        invariant
            k <= found@.len(),
            used@.len() == k,
            forall|j: int| 0 <= j < k ==> !used@[j],
        decreases found@.len() - k,
    {
        used.push(false);
        k = k + 1;
    }
    proof {
        assert(used@ =~= Seq::new(found@.len(), |k: int| false));
    }
    let mut n: usize = 0;
    while n < wanted.len()
        invariant
            n <= wanted@.len(),
            jobs@ == plan(wanted@, found@, n as nat).jobs,
            missing@ == plan(wanted@, found@, n as nat).missing,
            used@ == plan(wanted@, found@, n as nat).used,
            used@.len() == found@.len(),
        decreases wanted@.len() - n,
    {
        let note = wanted[n];
        proof {
            lemma_best_block_bounds(found@, used@, note, found@.len() as int);
        }
        match find_best_block(found, &used, note) {
            Some(b) => {
                jobs.push(TuneJob { pos: found[b].pos, instrument: note.instrument, wanted_pitch: note.pitch });
                used.set(b, true);
            },
            None => {
                missing.push(note);
            },
        }
        n = n + 1;
    }
    (jobs, missing)
}

/// Whether found block `k` is taken and serves `job` (same position and instrument).
pub open spec fn serves(found: Seq<FoundBlock>, used: Seq<bool>, job: TuneJob, k: int) -> bool {
    0 <= k < found.len() && used[k] && job.pos == found[k].pos && found[k].note.instrument == job.instrument
}

/// Whether planned job `j` is served by some found block that the plan has taken.
pub open spec fn job_served(found: Seq<FoundBlock>, p: TunePlan, j: int) -> bool {
    exists|k: int| #[trigger] serves(found, p.used, p.jobs[j], k)
}

/// Every wanted note is either planned or missing, and each planned job is served
/// by a found block of the note's instrument that the plan has taken.
pub proof fn law_plan_is_consistent(wanted: Seq<NbsNote>, found: Seq<FoundBlock>, n: nat)
    requires
        n <= wanted.len(),
    ensures
        plan(wanted, found, n).jobs.len() + plan(wanted, found, n).missing.len() == n,
        forall|j: int| 0 <= j < plan(wanted, found, n).jobs.len() ==> #[trigger] job_served(found, plan(wanted, found, n), j),
    decreases n,
{
    lemma_plan_used_len(wanted, found, n);
    if n > 0 {
        law_plan_is_consistent(wanted, found, (n - 1) as nat);
        let p = plan(wanted, found, (n - 1) as nat);
        lemma_plan_used_len(wanted, found, (n - 1) as nat);
        lemma_best_block_bounds(found, p.used, wanted[n - 1], found.len() as int);
        let q = plan(wanted, found, n);
        assert forall|j: int| 0 <= j < q.jobs.len() implies #[trigger] job_served(found, q, j) by {
            if j < p.jobs.len() {
                assert(job_served(found, p, j));
                let k = choose|k: int| #[trigger] serves(found, p.used, p.jobs[j], k);
                assert(q.jobs[j] == p.jobs[j]);
                assert(serves(found, q.used, q.jobs[j], k));
            } else {
                let b = best_block(found, p.used, wanted[n - 1], found.len() as int)->0;
                assert(serves(found, q.used, q.jobs[j], b));
            }
        }
        assert(q == plan(wanted, found, n));
    } else {
        assert(plan(wanted, found, n).jobs.len() == 0);
    }
}

} // verus!
