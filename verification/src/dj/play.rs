//! Playing a tuned song: which notes are due at the current tick, which note blocks are
//! hit for them, and which extra packets the rate limiter still allows.

use vstd::prelude::*;
use crate::blockpos::BlockPos;
use crate::nbs::song::{NbsNote, NbsPositionedNote};
use crate::dj::rate_limit::{
    SongRateLimiter, RateLimiterView, spec_tick, spec_can_send, spec_packet_sent, spec_can_send_look, spec_look_sent,
    spec_can_send_cosmetic, spec_can_send_swing, spec_swing_sent, fresh_limiter, max_cosmetic, max_packets,
};

verus! {

/// Where a note is played: the note block's position, and whether the bot can reach it.
#[derive(Debug, Copy, Clone, PartialEq, Eq, Structural)]
pub struct NotePlace {
    pub note: NbsNote,
    pub pos: BlockPos,
    pub reachable: bool,
}

/// Why playing stopped.
#[derive(Debug, Copy, Clone, PartialEq, Eq, Structural)]
pub enum PlayError {
    /// No note block plays this note.
    MissingPosition(NbsNote),
    /// A note block went out of reach.
    OutOfRange,
}

/// What one playback tick does.
#[derive(Debug)]
pub struct PlayStep {
    /// Note blocks hit (one packet each), in order.
    pub hits: Vec<BlockPos>,
    /// Look at this block (the last one due).
    pub look_at: Option<BlockPos>,
    /// Send the cosmetic packet that ends hitting this block.
    pub abort_at: Option<BlockPos>,
    /// Swing the arm.
    pub swing: bool,
    /// The song has no notes left.
    pub finished: bool,
}

/// The first place of a note.
pub open spec fn place_of(places: Seq<NotePlace>, note: NbsNote) -> Option<NotePlace>
    decreases places.len(),
{
    if places.len() == 0 {
        None
    } else if places[0].note == note {
        Some(places[0])
    } else {
        place_of(places.drop_first(), note)
    }
}

/// Where the note loop ends: the limiter, the next note's index, the blocks hit, the
/// last block due, and whether the song is over, or the error met.
pub struct LoopEnd {
    pub limiter: RateLimiterView,
    pub index: int,
    pub hits: Seq<BlockPos>,
    pub last: Option<BlockPos>,
    pub result: Result<bool, PlayError>,
}

/// Plays the notes from `index` on that are due at `tick`: each one's block is hit while
/// the limiter lets a packet through, and the loop stops at the first note in the
/// future, at the end of the song, or at a note without a (reachable) block.
pub open spec fn note_loop(
    lim: RateLimiterView,
    notes: Seq<NbsPositionedNote>,
    index: int,
    tick: u64,
    places: Seq<NotePlace>,
    now: u64,
    hits: Seq<BlockPos>,
    last: Option<BlockPos>,
) -> LoopEnd
    decreases notes.len() - index,
{
    if index < 0 || index >= notes.len() {
        LoopEnd { limiter: lim, index, hits, last, result: Ok(true) }
    } else if notes[index].tick > tick {
        LoopEnd { limiter: lim, index, hits, last, result: Ok(false) }
    } else {
        match place_of(places, notes[index].note) {
            None => LoopEnd { limiter: lim, index: index + 1, hits, last, result: Err(PlayError::MissingPosition(notes[index].note)) },
            Some(p) => if !p.reachable {
                LoopEnd { limiter: lim, index: index + 1, hits, last, result: Err(PlayError::OutOfRange) }
            } else if spec_can_send(lim, now) {
                note_loop(spec_packet_sent(lim, now), notes, index + 1, tick, places, now, hits.push(p.pos), Some(p.pos))
            } else {
                note_loop(lim, notes, index + 1, tick, places, now, hits, Some(p.pos))
            },
        }
    }
}

/// Whether the limiter's full stop (if any) is over at `now`.
pub open spec fn stop_over(lim: RateLimiterView, now: u64) -> bool {
    lim.stop_until matches Some(u) ==> u < now
}

/// Every note due at the tick is handled in one call. The loop never stops early: it
/// passes over due notes only, and without an error it ends at the first note in the
/// future (or the song's end, reported as finished). Every note it passes has a
/// reachable block; an error names the last note handled, whose block is missing or
/// out of reach. While the limiter's stop is over and its window has room for all the
/// due notes, each one's block is hit, in the order of the notes.
pub proof fn law_due_notes_all_played(
    lim: RateLimiterView,
    notes: Seq<NbsPositionedNote>,
    index: int,
    tick: u64,
    places: Seq<NotePlace>,
    now: u64,
    hits: Seq<BlockPos>,
    last: Option<BlockPos>,
)
    requires
        0 <= index <= notes.len(),
    ensures
        ({
            let e = note_loop(lim, notes, index, tick, places, now, hits, last);
            &&& index <= e.index <= notes.len()
            &&& forall|k: int| index <= k < e.index ==> #[trigger] notes[k].tick <= tick
            &&& e.result is Ok ==> (e.index == notes.len() || notes[e.index].tick > tick)
            &&& e.result is Ok ==> (e.result == Ok::<bool, PlayError>(true) <==> e.index == notes.len())
            &&& e.result is Ok ==> forall|k: int| index <= k < e.index ==>
                    ((#[trigger] place_of(places, notes[k].note)) matches Some(p) && p.reachable)
            &&& e.result is Err ==> e.index > index && forall|k: int| index <= k < e.index - 1 ==>
                    ((#[trigger] place_of(places, notes[k].note)) matches Some(p) && p.reachable)
            &&& e.result == Err::<bool, PlayError>(PlayError::OutOfRange) ==>
                    (place_of(places, notes[e.index - 1].note) matches Some(p) && !p.reachable)
            &&& e.result matches Err(PlayError::MissingPosition(n)) ==>
                    n == notes[e.index - 1].note && place_of(places, n) is None
            &&& (e.result is Ok && stop_over(lim, now) && lim.window_packets + (e.index - index) <= max_cosmetic()) ==> {
                    &&& e.hits.len() == hits.len() + (e.index - index)
                    &&& e.hits.subrange(0, hits.len() as int) == hits
                    &&& forall|k: int| index <= k < e.index ==>
                        ((#[trigger] place_of(places, notes[k].note)) matches Some(p)
                            && e.hits[hits.len() + (k - index)] == p.pos)
                }
        }),
    decreases notes.len() - index,
{
    let e = note_loop(lim, notes, index, tick, places, now, hits, last);
    if index >= notes.len() || notes[index].tick > tick {
        return;
    }
    match place_of(places, notes[index].note) {
        None => {},
        Some(p) => {
            if !p.reachable {
            } else if spec_can_send(lim, now) {
                let lim2 = spec_packet_sent(lim, now);
                law_due_notes_all_played(lim2, notes, index + 1, tick, places, now, hits.push(p.pos), Some(p.pos));
                assert(e == note_loop(lim2, notes, index + 1, tick, places, now, hits.push(p.pos), Some(p.pos)));
                if e.result is Ok && stop_over(lim, now) && lim.window_packets + (e.index - index) <= max_cosmetic() {
                    assert(lim2.stop_until == lim.stop_until);
                    assert(lim2.window_packets == lim.window_packets + 1);
                    assert(hits.push(p.pos).subrange(0, hits.len() as int) =~= hits);
                    assert(e.hits.subrange(0, hits.len() as int) =~= e.hits.subrange(0, hits.len() + 1int).subrange(0, hits.len() as int));
                    assert(e.hits[hits.len() as int] == hits.push(p.pos)[hits.len() as int]);
                }
            } else {
                law_due_notes_all_played(lim, notes, index + 1, tick, places, now, hits, Some(p.pos));
                if e.result is Ok && stop_over(lim, now) && lim.window_packets + (e.index - index) <= max_cosmetic() {
                    assert(false);
                }
            }
        },
    }
}

/// The extra packets after the notes of a tick: a look at the last block, the packet
/// ending the hit, and an arm swing, each as the limiter allows; with no note due, the
/// limiter starts afresh. Returns the limiter and which of the three are sent.
pub open spec fn after_notes(lim: RateLimiterView, last: Option<BlockPos>, now: u64) -> (RateLimiterView, bool, bool, bool) {
    match last {
        None => (fresh_limiter(), false, false, false),
        Some(_) => {
            let look = spec_can_send_look(lim, now);
            let l1 = if look { spec_look_sent(lim, now) } else { lim };
            let abort = spec_can_send_cosmetic(l1, now);
            let l2 = if abort { spec_packet_sent(l1, now) } else { l1 };
            let swing = spec_can_send_swing(l2, now);
            let l3 = if swing { spec_swing_sent(l2, now) } else { l2 };
            (l3, look, abort, swing)
        },
    }
}

/// The index of the first note at or after `tick` (the number of notes if none is).
pub open spec fn first_note_from(notes: Seq<NbsPositionedNote>, tick: u64, i: int) -> int
    decreases notes.len() - i,
{
    if i < 0 || i >= notes.len() {
        notes.len() as int
    } else if notes[i].tick >= tick {
        i
    } else {
        first_note_from(notes, tick, i + 1)
    }
}

/// The index of the first note at or after `tick`.
pub fn first_note_at_or_after(notes: &Vec<NbsPositionedNote>, tick: u64) -> (r: usize)
    ensures
        r == first_note_from(notes@, tick, 0),
{
    let mut i: usize = 0;
    while i < notes.len()
        invariant
            i <= notes@.len(),
            first_note_from(notes@, tick, i as int) == first_note_from(notes@, tick, 0),
        decreases notes@.len() - i,
    {
        if notes[i].tick as u64 >= tick {
            return i;
        }
        i = i + 1;
    }
    i
}

fn find_place(places: &Vec<NotePlace>, note: NbsNote) -> (r: Option<NotePlace>)
    ensures
        r == place_of(places@, note),
{
    let mut i: usize = 0;
    assert(places@.subrange(0, places@.len() as int) =~= places@);
    while i < places.len()
        invariant
            i <= places@.len(),
            place_of(places@, note) == place_of(places@.subrange(i as int, places@.len() as int), note),
        decreases places@.len() - i,
    {
        let ghost rest = places@.subrange(i as int, places@.len() as int);
        assert(rest.drop_first() =~= places@.subrange(i + 1, places@.len() as int));
        if places[i].note == note {
            return Some(places[i]);
        }
        i = i + 1;
    }
    assert(places@.subrange(i as int, places@.len() as int) =~= Seq::<NotePlace>::empty());
    None
}

proof fn lemma_place_of_found(places: Seq<NotePlace>, note: NbsNote)
    ensures
        place_of(places, note) matches Some(p) ==> p.note == note,
    decreases places.len(),
{
    if places.len() > 0 && places[0].note != note {
        lemma_place_of_found(places.drop_first(), note);
    }
}

/// One playback tick at `now` (milliseconds on the limiter's clock): a new limiter
/// window if due, then the notes from `index` due at `tick` (see `note_loop`) and the
/// extra packets (see `after_notes`). `index` moves past the notes handled.
pub fn play_tick(
    limiter: &mut SongRateLimiter,
    notes: &Vec<NbsPositionedNote>,
    index: &mut usize,
    tick: u64,
    places: &Vec<NotePlace>,
    now: u64,
) -> (r: Result<PlayStep, PlayError>)
    requires
        old(limiter)@.window_packets <= max_cosmetic(),
    ensures
        final(limiter)@.window_packets <= max_cosmetic(),
        ({
            let end = note_loop(spec_tick(old(limiter)@, now), notes@, *old(index) as int, tick, places@, now, Seq::empty(), None);
            &&& *final(index) as int == end.index
            &&& match end.result {
                Err(e) => r == Err::<PlayStep, PlayError>(e) && final(limiter)@ == end.limiter,
                Ok(finished) => {
                    let (lim, look, abort, swing) = after_notes(end.limiter, end.last, now);
                    &&& r matches Ok(step)
                    &&& step.hits@ == end.hits
                    &&& step.finished == finished
                    &&& step.look_at == (if look { end.last } else { None })
                    &&& step.abort_at == (if abort { end.last } else { None })
                    &&& step.swing == swing
                    &&& final(limiter)@ == lim
                },
            }
        }),
{
    limiter.tick_at(now);
    let ghost start_index = *index as int;
    let mut hits: Vec<BlockPos> = Vec::new();
    let mut last: Option<BlockPos> = None;
    let mut finished = false;
    assert(limiter@.window_packets <= max_cosmetic());
    let ghost lim0 = limiter@;
    loop
        invariant_except_break
            !finished,
            lim0 == spec_tick(old(limiter)@, now),
            start_index == *old(index) as int,
            limiter@.window_packets <= max_cosmetic(),
            note_loop(lim0, notes@, start_index, tick, places@, now, Seq::empty(), None)
                == note_loop(limiter@, notes@, *index as int, tick, places@, now, hits@, last),
        ensures
            lim0 == spec_tick(old(limiter)@, now),
            start_index == *old(index) as int,
            limiter@.window_packets <= max_cosmetic(),
            ({
                let end = note_loop(lim0, notes@, start_index, tick, places@, now, Seq::empty(), None);
                &&& end.result == Ok::<bool, PlayError>(finished)
                &&& end.index == *index as int
                &&& end.limiter == limiter@
                &&& end.hits == hits@
                &&& end.last == last
            }),
        decreases notes@.len() - *index,
    {
        if *index >= notes.len() {
            finished = true;
            assert(note_loop(limiter@, notes@, *index as int, tick, places@, now, hits@, last).result == Ok::<bool, PlayError>(true));
            break;
        }
        let note = notes[*index];
        if note.tick as u64 > tick {
            break;
        }
        let ghost at = *index as int;
        let ghost cur = note_loop(limiter@, notes@, at, tick, places@, now, hits@, last);
        *index = *index + 1;
        let found = find_place(places, note.note);
        proof {
            lemma_place_of_found(places@, note.note);
        }
        match found {
            None => {
                assert(cur.result == Err::<bool, PlayError>(PlayError::MissingPosition(note.note)));
                assert(cur.index == *index as int);
                return Err(PlayError::MissingPosition(note.note));
            },
            Some(p) => {
                if !p.reachable {
                    assert(cur.result == Err::<bool, PlayError>(PlayError::OutOfRange));
                    return Err(PlayError::OutOfRange);
                }
                if limiter.can_send_packet_at(now) {
                    hits.push(p.pos);
                    limiter.on_packet_sent_at(now);
                }
                last = Some(p.pos);
            },
        }
    }
    let mut look_at: Option<BlockPos> = None;
    let mut abort_at: Option<BlockPos> = None;
    let mut swing = false;
    match last {
        Some(pos) => {
            if limiter.can_send_look_packet_at(now) {
                limiter.on_look_packet_sent_at(now);
                look_at = Some(pos);
            }
            if limiter.can_send_cosmetic_packet_at(now) {
                limiter.on_packet_sent_at(now);
                abort_at = Some(pos);
            }
            if limiter.can_send_swing_packet_at(now) {
                limiter.on_swing_packet_sent_at(now);
                swing = true;
            }
        },
        None => {
            limiter.reset();
        },
    }
    Ok(PlayStep { hits, look_at, abort_at, swing, finished })
}

} // verus!
