//! The disc jockey task: its phases from positioning through waiting and tuning to
//! playing, and what moves it from one to the next. The caller runs the subtasks
//! (pathfinding, centering), the tuner and the playback ticks, and reports back.

use vstd::prelude::*;
use vstd::string::*;
use crate::blockpos::BlockPos;
use crate::text::{dec, push_dec, str_eq};
use crate::nbs::song::{NbsNote, NbsPositionedNote};
use crate::nbs::file::{NbsSong, opt_string_view};
use crate::dj::playback::{ActualPlaybackStatus, DesiredPlaybackStatus};
use crate::dj::tuner::{Tuner, PingState};
use crate::dj::rate_limit::{SongRateLimiter, fresh_limiter};
use crate::task::outcome::{TaskOutcome, OutcomeView};

verus! {

/// The phase of the disc jockey task.
#[derive(Debug, Copy, Clone, PartialEq, Eq, Structural)]
pub enum SongPlaybackPhase {
    Initializing,
    /// Walking to the configured place (the caller runs the pathfinding subtask).
    Pathfinding,
    /// Centering on the block (the caller runs the centering subtask).
    Centering,
    /// Waiting, since this time (milliseconds), for a song and the wish to play it.
    WaitForSongAndPlayingDesire { since_millis: u64 },
    Tuning,
    Playing,
}

/// The step an event starts with (see `DiscJockeyTask::next_step`).
#[derive(Debug, Copy, Clone, PartialEq, Eq)]
pub enum DjStep {
    /// Another task was added: stop and succeed.
    StopVoluntarily,
    /// Decide how to get into position (`initialize`).
    Initialize,
    /// Hand the event to the positioning subtask and report it (`on_positioning`).
    Position(Positioning),
    /// Wait for a song and the wish to play it (`on_waiting`).
    Wait,
    /// Tune the note blocks (`check_tuning`, `finish_tuning`).
    Tune,
    /// Play the song (`check_playing`, `after_playing`).
    Play,
}

/// What is played and how it goes (the playback position is kept by the caller).
#[derive(Debug)]
pub struct PlaybackCore {
    pub song: Option<NbsSong>,
    pub actual_status: ActualPlaybackStatus,
    pub desired_status: DesiredPlaybackStatus,
}

/// A song as values, its distinct notes as a set.
pub struct SongView {
    pub unique: Set<NbsNote>,
    pub notes: Seq<NbsPositionedNote>,
    pub numbers: (u16, u16, u16, u16, u8, u8),
    pub file_name: Option<Seq<char>>,
    pub texts: (Seq<char>, Seq<char>, Seq<char>, Seq<char>),
}

/// A song as values.
pub open spec fn song_view(s: NbsSong) -> SongView {
    SongView {
        unique: s.unique@.to_set(),
        notes: s.notes@,
        numbers: (s.length_ticks, s.height, s.tempo, s.loop_start_tick, s.loop_flag, s.max_loop_count),
        file_name: opt_string_view(s.file_name),
        texts: (s.name@, s.author@, s.original_author@, s.description@),
    }
}

/// An optional song as values.
pub open spec fn opt_song(s: Option<NbsSong>) -> Option<SongView> {
    match s {
        Some(x) => Some(song_view(x)),
        None => None,
    }
}

fn notes_contain(v: &Vec<NbsNote>, n: NbsNote) -> (r: bool)
    ensures
        r == v@.contains(n),
{
    let mut i: usize = 0;
    while i < v.len()
        invariant
            i <= v@.len(),
            forall|k: int| 0 <= k < i ==> v@[k] != n,
        decreases v@.len() - i,
    {
        if v[i] == n {
            assert(v@[i as int] == n);
            return true;
        }
        i = i + 1;
    }
    false
}

fn notes_within(a: &Vec<NbsNote>, b: &Vec<NbsNote>) -> (r: bool)
    ensures
        r == (forall|k: int| 0 <= k < a@.len() ==> b@.contains(#[trigger] a@[k])),
{
    let mut i: usize = 0;
    while i < a.len()
        invariant
            i <= a@.len(),
            forall|k: int| 0 <= k < i ==> b@.contains(#[trigger] a@[k]),
        decreases a@.len() - i,
    {
        if !notes_contain(b, a[i]) {
            return false;
        }
        i = i + 1;
    }
    true
}

fn same_positioned_notes(a: &Vec<NbsPositionedNote>, b: &Vec<NbsPositionedNote>) -> (r: bool)
    ensures
        r == (a@ == b@),
{
    if a.len() != b.len() {
        return false;
    }
    let mut i: usize = 0;
    while i < a.len()
        invariant
            a@.len() == b@.len(),
            i <= a@.len(),
            forall|k: int| 0 <= k < i ==> a@[k] == b@[k],
        decreases a@.len() - i,
    {
        if a[i] != b[i] {
            return false;
        }
        i = i + 1;
    }
    assert(a@ =~= b@);
    true
}

/// Whether two songs are the same song (their distinct notes compared as sets).
pub fn same_song(a: &NbsSong, b: &NbsSong) -> (r: bool)
    ensures
        r == (song_view(*a) == song_view(*b)),
{
    let file_names_equal = match (&a.file_name, &b.file_name) {
        (Some(x), Some(y)) => str_eq(x.as_str(), y.as_str()),
        (None, None) => true,
        _ => false,
    };
    let within_ab = notes_within(&a.unique, &b.unique);
    let within_ba = notes_within(&b.unique, &a.unique);
    proof {
        if within_ab && within_ba {
            assert(a.unique@.to_set() =~= b.unique@.to_set()) by {
                assert forall|n: NbsNote| a.unique@.to_set().contains(n) implies b.unique@.to_set().contains(n) by {
                    let k = choose|k: int| 0 <= k < a.unique@.len() && a.unique@[k] == n;
                }
                assert forall|n: NbsNote| b.unique@.to_set().contains(n) implies a.unique@.to_set().contains(n) by {
                    let k = choose|k: int| 0 <= k < b.unique@.len() && b.unique@[k] == n;
                }
            }
        }
        if !within_ab {
            let k = choose|k: int| 0 <= k < a.unique@.len() && !b.unique@.contains(#[trigger] a.unique@[k]);
            assert(a.unique@.to_set().contains(a.unique@[k]));
            assert(!b.unique@.to_set().contains(a.unique@[k]));
        }
        if !within_ba {
            let k = choose|k: int| 0 <= k < b.unique@.len() && !a.unique@.contains(#[trigger] b.unique@[k]);
            assert(b.unique@.to_set().contains(b.unique@[k]));
            assert(!a.unique@.to_set().contains(b.unique@[k]));
        }
    }
    within_ab && within_ba && same_positioned_notes(&a.notes, &b.notes) && a.length_ticks == b.length_ticks
        && a.height == b.height && a.tempo == b.tempo && a.loop_start_tick == b.loop_start_tick
        && a.loop_flag == b.loop_flag && a.max_loop_count == b.max_loop_count && file_names_equal
        && str_eq(a.name.as_str(), b.name.as_str()) && str_eq(a.author.as_str(), b.author.as_str())
        && str_eq(a.original_author.as_str(), b.original_author.as_str())
        && str_eq(a.description.as_str(), b.description.as_str())
}

/// The disc jockey task.
#[derive(Debug)]
pub struct DiscJockeyTask {
    pub phase: SongPlaybackPhase,
    /// The song being tuned for or played.
    pub song: Option<NbsSong>,
    pub tuner: Tuner,
    /// Where each note of the song is played (after tuning).
    pub positions: Vec<(NbsNote, BlockPos)>,
    pub rate_limiter: SongRateLimiter,
    /// Another task was added: this one ends.
    pub another_task_added: bool,
}

/// How the initializing phase ends.
#[derive(Debug, Copy, Clone, PartialEq, Eq, Structural)]
pub enum InitAction {
    /// The configured place is too far away: the task fails with this reason.
    TooFar,
    /// Start walking to the configured place.
    StartPathfinding,
    /// Start centering where the bot is.
    StartCentering,
}

/// Which positioning subtask reported.
#[derive(Debug, Copy, Clone, PartialEq, Eq, Structural)]
pub enum Positioning {
    Pathfind,
    Center,
}

/// What the waiting phase decided.
#[derive(Debug, Copy, Clone, PartialEq, Eq, Structural)]
pub enum WaitAction {
    /// Keep waiting.
    Wait,
    /// A song is there and should play: tuning starts.
    StartTuning,
    /// Nothing came for 15 seconds: the task ends in success.
    GiveUp,
}

/// What the playing phase decided before playing a tick.
#[derive(Debug, Copy, Clone, PartialEq, Eq, Structural)]
pub enum PlayCheck {
    /// Play this tick (after resetting the position to the start, when `rewind`).
    Play,
    /// Do not play now; the task goes on (with the playback position reset when `rewind`).
    Hold { rewind: bool },
}

/// Whether a status counts as settled while waiting (else it becomes waiting for a song).
pub open spec fn settled_while_waiting(s: ActualPlaybackStatus) -> bool {
    s == ActualPlaybackStatus::Paused || s == ActualPlaybackStatus::Stopped
        || s == ActualPlaybackStatus::Finished || s == ActualPlaybackStatus::WaitingForSong
}

/// Whether a status ends playing.
pub open spec fn playing_over(s: ActualPlaybackStatus) -> bool {
    s == ActualPlaybackStatus::Finished || s == ActualPlaybackStatus::Stopped
}

fn copy_notes(v: &Vec<NbsNote>) -> (r: Vec<NbsNote>)
    ensures
        r@ == v@,
{
    let mut r: Vec<NbsNote> = Vec::new();
    let mut i: usize = 0;
    while i < v.len()
        invariant
            i <= v@.len(),
            r@ == v@.subrange(0, i as int),
        decreases v@.len() - i,
    {
        r.push(v[i]);
        i = i + 1;
        assert(r@ =~= v@.subrange(0, i as int));
    }
    assert(r@ =~= v@);
    r
}

fn copy_song(s: &NbsSong) -> (r: NbsSong)
    ensures
        song_view(r) == song_view(*s),
        r.unique@ == s.unique@,
{
    let mut notes: Vec<NbsPositionedNote> = Vec::new();
    let mut i: usize = 0;
    while i < s.notes.len()
        invariant
            i <= s.notes@.len(),
            notes@ == s.notes@.subrange(0, i as int),
        decreases s.notes@.len() - i,
    {
        notes.push(s.notes[i]);
        i = i + 1;
        assert(notes@ =~= s.notes@.subrange(0, i as int));
    }
    assert(notes@ =~= s.notes@);
    NbsSong {
        unique: copy_notes(&s.unique),
        notes,
        length_ticks: s.length_ticks,
        height: s.height,
        tempo: s.tempo,
        loop_start_tick: s.loop_start_tick,
        loop_flag: s.loop_flag,
        max_loop_count: s.max_loop_count,
        file_name: match &s.file_name { Some(f) => Some(String::from_str(f.as_str())), None => None },
        name: String::from_str(s.name.as_str()),
        author: String::from_str(s.author.as_str()),
        original_author: String::from_str(s.original_author.as_str()),
        description: String::from_str(s.description.as_str()),
    }
}

/// The places found after tuning, kept for notes of the song: the first place of each.
pub open spec fn keep_song_places(found: Seq<(NbsNote, BlockPos)>, unique: Seq<NbsNote>) -> Seq<(NbsNote, BlockPos)>
    decreases found.len(),
{
    if found.len() == 0 {
        Seq::empty()
    } else {
        let rest = keep_song_places(found.drop_last(), unique);
        let (n, p) = found.last();
        if unique.contains(n) && !(exists|k: int| 0 <= k < rest.len() && #[trigger] rest[k].0 == n) {
            rest.push((n, p))
        } else {
            rest
        }
    }
}

impl DiscJockeyTask {
    /// A task that starts by positioning itself.
    pub fn new() -> (r: DiscJockeyTask)
        ensures
            r.phase == SongPlaybackPhase::Initializing,
            r.song is None,
            !r.another_task_added,
            r.tuner.wanted@.len() == 0,
            r.tuner.jobs@.len() == 0,
            r.tuner.ping == PingState::NotStarted,
            r.tuner.wait_for_last_ping,
            r.tuner.waiting_block_hit is None,
            r.positions@.len() == 0,
            r.rate_limiter@ == fresh_limiter(),
    {
        DiscJockeyTask {
            phase: SongPlaybackPhase::Initializing,
            song: None,
            tuner: Tuner::new(Vec::new()),
            positions: Vec::new(),
            rate_limiter: SongRateLimiter::new(),
            another_task_added: false,
        }
    }

    /// Starts: the status is unknown and the task positions itself first.
    pub fn start(&mut self, state: &mut PlaybackCore)
        ensures
            final(state).actual_status == ActualPlaybackStatus::Unknown,
            final(self).phase == SongPlaybackPhase::Initializing,
            opt_song(final(state).song) == opt_song(old(state).song),
            final(state).desired_status == old(state).desired_status,
    {
        state.actual_status = ActualPlaybackStatus::Unknown;
        self.phase = SongPlaybackPhase::Initializing;
    }

    /// Initializing (with `has_dj_pos`: a place to play is configured; `dj_pos_far`: it
    /// is 3000 blocks or more away): the status becomes unknown, and the task walks there
    /// first, or centers where it is.
    pub fn initialize(&mut self, state: &mut PlaybackCore, has_dj_pos: bool, dj_pos_far: bool) -> (r: InitAction)
        requires
            old(self).phase == SongPlaybackPhase::Initializing,
        ensures
            final(state).actual_status == ActualPlaybackStatus::Unknown,
            opt_song(final(state).song) == opt_song(old(state).song),
            final(state).desired_status == old(state).desired_status,
            r == if has_dj_pos {
                if dj_pos_far { InitAction::TooFar } else { InitAction::StartPathfinding }
            } else {
                InitAction::StartCentering
            },
            final(self).phase == match r {
                InitAction::TooFar => SongPlaybackPhase::Initializing,
                InitAction::StartPathfinding => SongPlaybackPhase::Pathfinding,
                InitAction::StartCentering => SongPlaybackPhase::Centering,
            },
    {
        state.actual_status = ActualPlaybackStatus::Unknown;
        if has_dj_pos {
            if dj_pos_far {
                return InitAction::TooFar;
            }
            self.phase = SongPlaybackPhase::Pathfinding;
            InitAction::StartPathfinding
        } else {
            self.phase = SongPlaybackPhase::Centering;
            InitAction::StartCentering
        }
    }

    /// A positioning subtask reported `outcome` at `now_millis`: the status is
    /// positioning; walking done leads to centering, centering done to waiting for a
    /// song; a failure fails the task (the reason is returned).
    pub fn on_positioning(&mut self, state: &mut PlaybackCore, which: Positioning, outcome: &TaskOutcome, now_millis: u64)
        -> (r: Option<String>)
        ensures
            final(state).actual_status == ActualPlaybackStatus::Positioning,
            opt_song(final(state).song) == opt_song(old(state).song),
            final(state).desired_status == old(state).desired_status,
            match outcome@ {
                OutcomeView::Ongoing => r is None && final(self).phase == old(self).phase,
                OutcomeView::Succeeded => r is None && final(self).phase == match which {
                    Positioning::Pathfind => SongPlaybackPhase::Centering,
                    Positioning::Center => SongPlaybackPhase::WaitForSongAndPlayingDesire { since_millis: now_millis },
                },
                OutcomeView::Failed(reason) => r matches Some(m) && final(self).phase == old(self).phase && m@ == match which {
                    Positioning::Pathfind => "Pathfind Subtask failed: "@ + reason,
                    Positioning::Center => "Center subtask failed: "@ + reason,
                },
            },
    {
        state.actual_status = ActualPlaybackStatus::Positioning;
        match outcome {
            TaskOutcome::Ongoing => None,
            TaskOutcome::Succeeded => {
                self.phase = match which {
                    Positioning::Pathfind => SongPlaybackPhase::Centering,
                    Positioning::Center => SongPlaybackPhase::WaitForSongAndPlayingDesire { since_millis: now_millis },
                };
                None
            },
            TaskOutcome::Failed { reason } => {
                let mut m = match which {
                    Positioning::Pathfind => String::from_str("Pathfind Subtask failed: "),
                    Positioning::Center => String::from_str("Center subtask failed: "),
                };
                m.append(reason.as_str());
                Some(m)
            },
        }
    }

    /// Waiting at `now_millis`: an unsettled status becomes waiting for a song; with a
    /// song and the wish to play it, tuning for it starts; after 15 seconds without, the
    /// task gives up.
    pub fn on_waiting(&mut self, state: &mut PlaybackCore, now_millis: u64) -> (r: WaitAction)
        requires
            old(self).phase is WaitForSongAndPlayingDesire,
        ensures
            final(state).actual_status == if settled_while_waiting(old(state).actual_status) {
                old(state).actual_status
            } else {
                ActualPlaybackStatus::WaitingForSong
            },
            opt_song(final(state).song) == opt_song(old(state).song),
            final(state).desired_status == old(state).desired_status,
            ({
                let since = old(self).phase->since_millis;
                if old(state).song is Some && old(state).desired_status == DesiredPlaybackStatus::Playing {
                    &&& r == WaitAction::StartTuning
                    &&& final(self).phase == SongPlaybackPhase::Tuning
                    &&& opt_song(final(self).song) == opt_song(old(state).song)
                    &&& final(self).tuner.wanted@ == old(state).song->0.unique@
                    &&& final(self).tuner.jobs@.len() == 0
                } else if now_millis >= since && now_millis - since >= 15000 {
                    r == WaitAction::GiveUp && final(self).phase == old(self).phase
                } else {
                    r == WaitAction::Wait && final(self).phase == old(self).phase
                }
            }),
    {
        let since = match self.phase {
            SongPlaybackPhase::WaitForSongAndPlayingDesire { since_millis } => since_millis,
            _ => 0,
        };
        let settled = match state.actual_status {
            ActualPlaybackStatus::Paused | ActualPlaybackStatus::Stopped | ActualPlaybackStatus::Finished
            | ActualPlaybackStatus::WaitingForSong => true,
            _ => false,
        };
        if !settled {
            state.actual_status = ActualPlaybackStatus::WaitingForSong;
        }
        let wants_play = state.desired_status == DesiredPlaybackStatus::Playing;
        match &state.song {
            Some(song) => {
                if wants_play {
                    let s = copy_song(song);
                    self.tuner = Tuner::new(copy_notes(&s.unique));
                    self.song = Some(s);
                    self.phase = SongPlaybackPhase::Tuning;
                    return WaitAction::StartTuning;
                }
            },
            None => {},
        }
        if now_millis >= since && now_millis - since >= 15000 {
            WaitAction::GiveUp
        } else {
            WaitAction::Wait
        }
    }

    /// Before a tuning tick at `now_millis`: the status is tuning; a changed song is
    /// tuned for from scratch; without a song the task waits again. Returns whether
    /// tuning goes on this tick.
    pub fn check_tuning(&mut self, state: &mut PlaybackCore, now_millis: u64) -> (r: bool)
        requires
            old(self).phase == SongPlaybackPhase::Tuning,
        ensures
            r == (old(state).song is Some),
            opt_song(final(state).song) == opt_song(old(state).song),
            final(state).desired_status == old(state).desired_status,
            match old(state).song {
                None => final(self).phase == (SongPlaybackPhase::WaitForSongAndPlayingDesire { since_millis: now_millis })
                    && final(state).actual_status == ActualPlaybackStatus::WaitingForSong,
                Some(current) => final(self).phase == SongPlaybackPhase::Tuning
                    && final(state).actual_status == ActualPlaybackStatus::Tuning
                    && opt_song(final(self).song) == Some(song_view(current))
                    && (opt_song(old(self).song) != Some(song_view(current))
                        ==> final(self).tuner.wanted@ == current.unique@ && final(self).tuner.jobs@.len() == 0),
            },
    {
        state.actual_status = ActualPlaybackStatus::Tuning;
        match &state.song {
            None => {
                self.phase = SongPlaybackPhase::WaitForSongAndPlayingDesire { since_millis: now_millis };
                state.actual_status = ActualPlaybackStatus::WaitingForSong;
                false
            },
            Some(current) => {
                let changed = match &self.song {
                    Some(tuned) => !same_song(tuned, current),
                    None => true,
                };
                if changed {
                    let s = copy_song(current);
                    self.tuner.wanted = copy_notes(&s.unique);
                    self.tuner.reset();
                    self.song = Some(s);
                }
                true
            },
        }
    }

    /// Tuning is done and the note blocks near the bot were found (each note with its
    /// position, in search order): each note of the song takes its first place, and
    /// playing starts; where some note has none, the error says how many were found.
    pub fn finish_tuning(&mut self, found: &Vec<(NbsNote, BlockPos)>) -> (r: Result<(), String>)
        requires
            old(self).song is Some,
        ensures
            final(self).positions@ == keep_song_places(found@, old(self).song->0.unique@),
            opt_song(final(self).song) == opt_song(old(self).song),
            ({
                let kept = keep_song_places(found@, old(self).song->0.unique@).len();
                let needed = old(self).song->0.unique@.len();
                if kept == needed {
                    r is Ok && final(self).phase == SongPlaybackPhase::Playing
                } else {
                    r matches Err(m) && final(self).phase == old(self).phase
                        && m@ == "Only found "@ + dec(kept) + " out of "@ + dec(needed)
                            + " required unique notes nearby! Was tuning done?"@
                }
            }),
    {
        let ghost unique = self.song->0.unique@;
        let mut kept: Vec<(NbsNote, BlockPos)> = Vec::new();
        let needed = match &self.song { Some(s) => s.unique.len(), None => 0 };
        let mut i: usize = 0;
        while i < found.len()
            invariant
                i <= found@.len(),
                self.song is Some,
                unique == self.song->0.unique@,
                kept@ == keep_song_places(found@.subrange(0, i as int), unique),
                opt_song(self.song) == opt_song(old(self).song),
                self.phase == old(self).phase,
            decreases found@.len() - i,
        {
            proof {
                assert(found@.subrange(0, i + 1).drop_last() =~= found@.subrange(0, i as int));
            }
            let (n, p) = found[i];
            let in_song = match &self.song { Some(s) => notes_contain(&s.unique, n), None => false };
            let mut present = false;
            let mut k: usize = 0;
            while k < kept.len()
                invariant
                    k <= kept@.len(),
                    present == exists|m: int| 0 <= m < k && #[trigger] kept@[m].0 == n,
                decreases kept@.len() - k,
            {
                if kept[k].0 == n {
                    present = true;
                }
                k = k + 1;
            }
            if in_song && !present {
                kept.push((n, p));
            }
            i = i + 1;
        }
        proof {
            assert(found@.subrange(0, found@.len() as int) =~= found@);
        }
        let count = kept.len();
        self.positions = kept;
        if count == needed {
            self.phase = SongPlaybackPhase::Playing;
            Ok(())
        } else {
            let mut m = String::from_str("Only found ");
            push_dec(&mut m, count as u64);
            m.append(" out of ");
            push_dec(&mut m, needed as u64);
            m.append(" required unique notes nearby! Was tuning done?");
            Err(m)
        }
    }

    /// Before a playing tick at `now_millis` (`off_center`: the bot is no longer in the
    /// middle of its block; `off_dj_pos`: it left the configured place): playing only
    /// goes on while it is wished, a song is there, the bot has not moved, and the song
    /// is the one tuned for; else the task pauses or stops (rewinding on a stop), waits
    /// for a song, positions itself again, or tunes for the new song.
    pub fn check_playing(&mut self, state: &mut PlaybackCore, now_millis: u64, off_center: bool, off_dj_pos: bool) -> (r: PlayCheck)
        requires
            old(self).phase == SongPlaybackPhase::Playing,
        ensures
            opt_song(final(state).song) == opt_song(old(state).song),
            final(state).desired_status == old(state).desired_status,
            if old(state).desired_status != DesiredPlaybackStatus::Playing {
                &&& r == (PlayCheck::Hold { rewind: old(state).desired_status == DesiredPlaybackStatus::Stopped })
                &&& final(self).phase == (SongPlaybackPhase::WaitForSongAndPlayingDesire { since_millis: now_millis })
                &&& final(state).actual_status == if old(state).desired_status == DesiredPlaybackStatus::Paused {
                    ActualPlaybackStatus::Paused
                } else {
                    ActualPlaybackStatus::Stopped
                }
            } else if old(state).song is None {
                &&& r == (PlayCheck::Hold { rewind: false })
                &&& final(self).phase == (SongPlaybackPhase::WaitForSongAndPlayingDesire { since_millis: now_millis })
                &&& final(state).actual_status == ActualPlaybackStatus::WaitingForSong
            } else if off_center || off_dj_pos {
                &&& r == (PlayCheck::Hold { rewind: false })
                &&& final(self).phase == SongPlaybackPhase::Initializing
                &&& final(state).actual_status == ActualPlaybackStatus::Positioning
            } else if opt_song(old(self).song) != opt_song(old(state).song) {
                &&& r == (PlayCheck::Hold { rewind: false })
                &&& final(self).phase == SongPlaybackPhase::Tuning
                &&& opt_song(final(self).song) == opt_song(old(state).song)
                &&& final(self).tuner.wanted@ == old(state).song->0.unique@
                &&& final(self).tuner.jobs@.len() == 0
                &&& final(state).actual_status == old(state).actual_status
            } else {
                &&& r == PlayCheck::Play
                &&& final(self).phase == SongPlaybackPhase::Playing
                &&& final(state).actual_status == if playing_over(old(state).actual_status) {
                    old(state).actual_status
                } else {
                    ActualPlaybackStatus::Playing
                }
            },
    {
        if state.desired_status != DesiredPlaybackStatus::Playing {
            let rewind = state.desired_status == DesiredPlaybackStatus::Stopped;
            self.phase = SongPlaybackPhase::WaitForSongAndPlayingDesire { since_millis: now_millis };
            state.actual_status = if state.desired_status == DesiredPlaybackStatus::Paused {
                ActualPlaybackStatus::Paused
            } else {
                ActualPlaybackStatus::Stopped
            };
            return PlayCheck::Hold { rewind };
        }
        let current = match &state.song {
            None => {
                self.phase = SongPlaybackPhase::WaitForSongAndPlayingDesire { since_millis: now_millis };
                state.actual_status = ActualPlaybackStatus::WaitingForSong;
                return PlayCheck::Hold { rewind: false };
            },
            Some(s) => s,
        };
        if off_center || off_dj_pos {
            self.phase = SongPlaybackPhase::Initializing;
            state.actual_status = ActualPlaybackStatus::Positioning;
            return PlayCheck::Hold { rewind: false };
        }
        let same = match &self.song {
            Some(played) => same_song(played, current),
            None => false,
        };
        if !same {
            let s = copy_song(current);
            self.tuner = Tuner::new(copy_notes(&s.unique));
            self.song = Some(s);
            self.phase = SongPlaybackPhase::Tuning;
            return PlayCheck::Hold { rewind: false };
        }
        if !(state.actual_status == ActualPlaybackStatus::Finished || state.actual_status == ActualPlaybackStatus::Stopped) {
            state.actual_status = ActualPlaybackStatus::Playing;
        }
        PlayCheck::Play
    }

    /// After a playing tick at `now_millis`: once the song finished (or was stopped) it
    /// is cleared and the task waits for the next one.
    pub fn after_playing(&mut self, state: &mut PlaybackCore, now_millis: u64)
        ensures
            final(state).actual_status == old(state).actual_status,
            final(state).desired_status == old(state).desired_status,
            if playing_over(old(state).actual_status) {
                final(state).song is None
                    && final(self).phase == (SongPlaybackPhase::WaitForSongAndPlayingDesire { since_millis: now_millis })
            } else {
                opt_song(final(state).song) == opt_song(old(state).song) && final(self).phase == old(self).phase
            },
    {
        if state.actual_status == ActualPlaybackStatus::Finished || state.actual_status == ActualPlaybackStatus::Stopped {
            state.song = None;
            self.phase = SongPlaybackPhase::WaitForSongAndPlayingDesire { since_millis: now_millis };
        }
    }

    /// Stopped: the status is interrupted and the task positions itself again later.
    pub fn stop(&mut self, state: &mut PlaybackCore)
        ensures
            final(state).actual_status == ActualPlaybackStatus::Interrupted,
            final(self).phase == SongPlaybackPhase::Initializing,
            opt_song(final(state).song) == opt_song(old(state).song),
    {
        state.actual_status = ActualPlaybackStatus::Interrupted;
        self.phase = SongPlaybackPhase::Initializing;
    }

    /// What handling an event starts with: where another task was added, the task
    /// stops and succeeds; otherwise the step of its phase.
    pub fn next_step(&self) -> (r: DjStep)
        ensures
            r == if self.another_task_added {
                DjStep::StopVoluntarily
            } else {
                match self.phase {
                    SongPlaybackPhase::Initializing => DjStep::Initialize,
                    SongPlaybackPhase::Pathfinding => DjStep::Position(Positioning::Pathfind),
                    SongPlaybackPhase::Centering => DjStep::Position(Positioning::Center),
                    SongPlaybackPhase::WaitForSongAndPlayingDesire { .. } => DjStep::Wait,
                    SongPlaybackPhase::Tuning => DjStep::Tune,
                    SongPlaybackPhase::Playing => DjStep::Play,
                }
            },
    {
        if self.another_task_added {
            return DjStep::StopVoluntarily;
        }
        match self.phase {
            SongPlaybackPhase::Initializing => DjStep::Initialize,
            SongPlaybackPhase::Pathfinding => DjStep::Position(Positioning::Pathfind),
            SongPlaybackPhase::Centering => DjStep::Position(Positioning::Center),
            SongPlaybackPhase::WaitForSongAndPlayingDesire { .. } => DjStep::Wait,
            SongPlaybackPhase::Tuning => DjStep::Tune,
            SongPlaybackPhase::Playing => DjStep::Play,
        }
    }

    /// Stops because another task was added: the task is stopped and has succeeded.
    pub fn stop_voluntarily(&mut self, state: &mut PlaybackCore) -> (r: TaskOutcome)
        ensures
            final(state).actual_status == ActualPlaybackStatus::Interrupted,
            final(self).phase == SongPlaybackPhase::Initializing,
            opt_song(final(state).song) == opt_song(old(state).song),
            r@ == OutcomeView::Succeeded,
    {
        self.stop(state);
        TaskOutcome::Succeeded
    }

    /// Another task waits: this one ends at its next event.
    pub fn new_task_waiting(&mut self)
        ensures
            final(self).another_task_added,
            final(self).phase == old(self).phase,
    {
        self.another_task_added = true;
    }

    /// `SongPlayTask (<phase>)`, with the subtask's text while positioning and the song's
    /// name while tuning or playing.
    pub fn describe(&self, subtask: &str) -> (r: String)
        ensures
            r@ == "SongPlayTask ("@ + match self.phase {
                SongPlaybackPhase::Initializing => "Initializing"@,
                SongPlaybackPhase::Pathfinding => "Pathfinding: "@ + subtask@,
                SongPlaybackPhase::Centering => "Centering: "@ + subtask@,
                SongPlaybackPhase::WaitForSongAndPlayingDesire { .. } => "WaitForSongAndPlayingDesire"@,
                SongPlaybackPhase::Tuning => "Tuning "@ + crate::text::debug_str(song_name(self.song)),
                SongPlaybackPhase::Playing => "Playing "@ + crate::text::debug_str(song_name(self.song)),
            } + ")"@,
    {
        let mut r = String::from_str("SongPlayTask (");
        match self.phase {
            SongPlaybackPhase::Initializing => r.append("Initializing"),
            SongPlaybackPhase::Pathfinding => {
                r.append("Pathfinding: ");
                r.append(subtask);
            },
            SongPlaybackPhase::Centering => {
                r.append("Centering: ");
                r.append(subtask);
            },
            SongPlaybackPhase::WaitForSongAndPlayingDesire { .. } => r.append("WaitForSongAndPlayingDesire"),
            SongPlaybackPhase::Tuning => {
                r.append("Tuning ");
                let name = self.song_friendly_name();
                let quoted = crate::text::debug_text(name.as_str());
                r.append(quoted.as_str());
            },
            SongPlaybackPhase::Playing => {
                r.append("Playing ");
                let name = self.song_friendly_name();
                let quoted = crate::text::debug_text(name.as_str());
                r.append(quoted.as_str());
            },
        }
        r.append(")");
        r
    }

    fn song_friendly_name(&self) -> (r: String)
        ensures
            r@ == song_name(self.song),
    {
        match &self.song {
            Some(s) => s.friendly_name(),
            None => String::new(),
        }
    }
}

/// The shown name of an optional song (empty without one).
pub open spec fn song_name(s: Option<NbsSong>) -> Seq<char> {
    match s {
        Some(song) => crate::nbs::file::spec_friendly_name(song.name@, opt_string_view(song.file_name), song.description@),
        None => Seq::empty(),
    }
}

/// The notes of found places.
pub open spec fn place_notes(places: Seq<(NbsNote, BlockPos)>) -> Seq<NbsNote> {
    places.map_values(|e: (NbsNote, BlockPos)| e.0)
}

proof fn lemma_kept_places_distinct(found: Seq<(NbsNote, BlockPos)>, unique: Seq<NbsNote>)
    ensures
        place_notes(keep_song_places(found, unique)).no_duplicates(),
        forall|k: int| 0 <= k < keep_song_places(found, unique).len()
            ==> unique.contains(#[trigger] keep_song_places(found, unique)[k].0),
    decreases found.len(),
{
    if found.len() > 0 {
        let rest = keep_song_places(found.drop_last(), unique);
        lemma_kept_places_distinct(found.drop_last(), unique);
        let (n, p) = found.last();
        let kept = keep_song_places(found, unique);
        if unique.contains(n) && !(exists|k: int| 0 <= k < rest.len() && #[trigger] rest[k].0 == n) {
            assert(kept == rest.push((n, p)));
            assert(place_notes(kept) =~= place_notes(rest).push(n));
            assert forall|a: int, b: int| 0 <= a < b < place_notes(kept).len()
                implies place_notes(kept)[a] != place_notes(kept)[b] by {
                if b == rest.len() {
                    assert(rest[a].0 == place_notes(kept)[a]);
                } else {
                    assert(place_notes(rest)[a] == place_notes(kept)[a]);
                    assert(place_notes(rest)[b] == place_notes(kept)[b]);
                }
            }
            assert forall|k: int| 0 <= k < kept.len() implies unique.contains(#[trigger] kept[k].0) by {
                if k < rest.len() {
                    assert(kept[k] == rest[k]);
                }
            }
        }
    }
}

/// Where as many places were kept as the song has distinct notes (tuning succeeded),
/// every note of the song has a place, and no note has two.
pub proof fn law_tuned_places_cover_song(found: Seq<(NbsNote, BlockPos)>, unique: Seq<NbsNote>)
    requires
        unique.no_duplicates(),
        keep_song_places(found, unique).len() == unique.len(),
    ensures
        forall|n: NbsNote| unique.contains(n) ==> exists|k: int|
            0 <= k < keep_song_places(found, unique).len() && #[trigger] keep_song_places(found, unique)[k].0 == n,
        place_notes(keep_song_places(found, unique)).no_duplicates(),
{
    let kept = keep_song_places(found, unique);
    let notes = place_notes(kept);
    lemma_kept_places_distinct(found, unique);
    notes.unique_seq_to_set();
    unique.unique_seq_to_set();
    assert(notes.to_set().subset_of(unique.to_set())) by {
        assert forall|n: NbsNote| notes.to_set().contains(n) implies unique.to_set().contains(n) by {
            let k = choose|k: int| 0 <= k < notes.len() && notes[k] == n;
            assert(kept[k].0 == n);
        }
    }
    vstd::set_lib::lemma_subset_equality(notes.to_set(), unique.to_set());
    assert forall|n: NbsNote| unique.contains(n) implies exists|k: int|
        0 <= k < kept.len() && #[trigger] kept[k].0 == n by {
        assert(unique.to_set().contains(n));
        assert(notes.to_set().contains(n));
        let k = choose|k: int| 0 <= k < notes.len() && notes[k] == n;
        assert(kept[k].0 == n);
    }
}

} // verus!
