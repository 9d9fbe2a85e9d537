//! Playback states and the texts shown for them.

use vstd::prelude::*;
use vstd::string::*;
use crate::text::{dec, dec_padded, push_dec, push_dec_padded, push_char};

verus! {

/// What the disc jockey is actually doing.
#[derive(Debug, Clone, Copy, PartialEq, Eq, Structural)]
pub enum ActualPlaybackStatus {
    Unknown,
    Positioning,
    WaitingForSong,
    Tuning,
    Playing,
    Paused,
    Stopped,
    Finished,
    Interrupted,
}

/// What the disc jockey was asked to do.
#[derive(Debug, Clone, Copy, PartialEq, Eq, Structural)]
pub enum DesiredPlaybackStatus {
    Playing,
    Paused,
    Stopped,
}

/// Name of an actual status (as `Debug` prints it).
pub open spec fn actual_name(s: ActualPlaybackStatus) -> Seq<char> {
    match s {
        ActualPlaybackStatus::Unknown => "Unknown"@,
        ActualPlaybackStatus::Positioning => "Positioning"@,
        ActualPlaybackStatus::WaitingForSong => "WaitingForSong"@,
        ActualPlaybackStatus::Tuning => "Tuning"@,
        ActualPlaybackStatus::Playing => "Playing"@,
        ActualPlaybackStatus::Paused => "Paused"@,
        ActualPlaybackStatus::Stopped => "Stopped"@,
        ActualPlaybackStatus::Finished => "Finished"@,
        ActualPlaybackStatus::Interrupted => "Interrupted"@,
    }
}

/// Name of a desired status (as `Debug` prints it).
pub open spec fn desired_name(s: DesiredPlaybackStatus) -> Seq<char> {
    match s {
        DesiredPlaybackStatus::Playing => "Playing"@,
        DesiredPlaybackStatus::Paused => "Paused"@,
        DesiredPlaybackStatus::Stopped => "Stopped"@,
    }
}

impl ActualPlaybackStatus {
    /// Name of the status.
    pub fn name(&self) -> (r: &'static str)
        ensures
            r@ == actual_name(*self),
    {
        match self {
            ActualPlaybackStatus::Unknown => "Unknown",
            ActualPlaybackStatus::Positioning => "Positioning",
            ActualPlaybackStatus::WaitingForSong => "WaitingForSong",
            ActualPlaybackStatus::Tuning => "Tuning",
            ActualPlaybackStatus::Playing => "Playing",
            ActualPlaybackStatus::Paused => "Paused",
            ActualPlaybackStatus::Stopped => "Stopped",
            ActualPlaybackStatus::Finished => "Finished",
            ActualPlaybackStatus::Interrupted => "Interrupted",
        }
    }
}

impl DesiredPlaybackStatus {
    /// Name of the status.
    pub fn name(&self) -> (r: &'static str)
        ensures
            r@ == desired_name(*self),
    {
        match self {
            DesiredPlaybackStatus::Playing => "Playing",
            DesiredPlaybackStatus::Paused => "Paused",
            DesiredPlaybackStatus::Stopped => "Stopped",
        }
    }
}

/// `MM:SS` (minutes at least two digits) or, with the fraction, `MM:SS.h`
/// where `h` is the hundredths of a second without padding.
pub open spec fn spec_timestamp(millis: nat, include_fraction: bool) -> Seq<char> {
    let base = dec_padded(millis / 60000, 2) + seq![':'] + dec_padded((millis % 60000) / 1000, 2);
    if include_fraction {
        base + seq!['.'] + dec((millis % 1000) / 10)
    } else {
        base
    }
}

/// Formats a duration in milliseconds as minutes and seconds.
pub fn format_timestamp(millis: u64, include_fraction: bool) -> (r: String)
    ensures
        r@ == spec_timestamp(millis as nat, include_fraction),
{
    let mut r = String::new();
    push_dec_padded(&mut r, millis / 60000, 2);
    push_char(&mut r, ':');
    push_dec_padded(&mut r, (millis % 60000) / 1000, 2);
    if include_fraction {
        push_char(&mut r, '.');
        push_dec(&mut r, (millis % 1000) / 10);
    }
    assert(r@ =~= spec_timestamp(millis as nat, include_fraction));
    r
}

/// Whether the status shows a playback position and length.
pub open spec fn shows_length(s: ActualPlaybackStatus) -> bool {
    s == ActualPlaybackStatus::Playing || s == ActualPlaybackStatus::Paused
}

/// The song part of a playback description.
pub struct SongProgress {
    pub name: String,
    pub position_millis: u64,
    pub length_millis: u64,
}

/// Status text: the desired and actual status (`desired » actual` when they
/// differ), then, with a song, its name and position (and length while playing
/// or paused).
pub open spec fn spec_playback_text(
    actual: ActualPlaybackStatus,
    desired: DesiredPlaybackStatus,
    song: Option<(Seq<char>, nat, nat)>,
) -> Seq<char> {
    let head = if actual_name(actual) != desired_name(desired) {
        desired_name(desired) + " » "@ + actual_name(actual)
    } else {
        desired_name(desired)
    };
    match song {
        None => head,
        Some((name, pos, len)) => if shows_length(actual) {
            head + ": "@ + name + " ["@ + spec_timestamp(pos, false) + "/"@ + spec_timestamp(len, false) + "]"@
        } else {
            head + ": "@ + name + " ["@ + spec_timestamp(pos, false) + "]"@
        },
    }
}

/// View of a song progress.
pub open spec fn progress_view(p: Option<SongProgress>) -> Option<(Seq<char>, nat, nat)> {
    match p {
        Some(p) => Some((p.name@, p.position_millis as nat, p.length_millis as nat)),
        None => None,
    }
}

/// The text that describes a playback state.
pub fn format_playback(
    actual: ActualPlaybackStatus,
    desired: DesiredPlaybackStatus,
    song: Option<SongProgress>,
) -> (r: String)
    ensures
        r@ == spec_playback_text(actual, desired, progress_view(song)),
{
    proof {
        reveal_strlit(" » ");
        reveal_strlit(": ");
        reveal_strlit(" [");
        reveal_strlit("/");
        reveal_strlit("]");
    }
    let actual_text = actual.name();
    let desired_text = desired.name();
    let mut r = String::from_str(desired_text);
    if !crate::text::str_eq(actual_text, desired_text) {
        r.append(" » ");
        r.append(actual_text);
    }
    let ghost head = r@;
    match song {
        None => {},
        Some(progress) => {
            r.append(": ");
            r.append(progress.name.as_str());
            r.append(" [");
            let pos = format_timestamp(progress.position_millis, false);
            r.append(pos.as_str());
            if actual == ActualPlaybackStatus::Playing || actual == ActualPlaybackStatus::Paused {
                r.append("/");
                let len = format_timestamp(progress.length_millis, false);
                r.append(len.as_str());
            }
            r.append("]");
        },
    }
    r
}

} // verus!
