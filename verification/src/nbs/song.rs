//! Notes, resource identifiers and songs built from instruments and pitches.

use vstd::prelude::*;
use vstd::string::*;
use crate::text::{str_eq, starts_with, is_prefix, push_char};
use crate::nbs::defs::{NbsInstrument, NbsPitch, instrument_name, instrument_index, instrument_of_index, all_instruments, pitch_ordinal, pitch_of_ordinal};

verus! {

/// A namespaced Minecraft identifier such as `minecraft:harp`.
#[derive(Debug, Clone, PartialEq, Eq)]
pub struct ResourceLocation {
    pub namespace: String,
    pub path: String,
}

/// The namespace of vanilla Minecraft identifiers.
pub open spec fn minecraft_namespace() -> Seq<char> {
    "minecraft"@
}

/// The path prefix of note block sound events.
pub open spec fn note_block_sound_prefix() -> Seq<char> {
    "block.note_block."@
}

/// Whether the instrument is selected by the block below the note block
/// (mob head instruments are placed on top instead).
pub open spec fn spec_is_instrument_block_below(i: NbsInstrument) -> bool {
    !(i == NbsInstrument::Zombie || i == NbsInstrument::Skeleton || i == NbsInstrument::Creeper
        || i == NbsInstrument::Dragon || i == NbsInstrument::WitherSkeleton
        || i == NbsInstrument::Piglin || i == NbsInstrument::CustomHead)
}

/// Path of the sound event an instrument plays (none for custom heads).
pub open spec fn spec_sound_path(i: NbsInstrument) -> Option<Seq<char>> {
    if i == NbsInstrument::CustomHead {
        None
    } else {
        Some(note_block_sound_prefix() + instrument_name(i))
    }
}

/// First instrument (in index order) satisfying a predicate.
pub open spec fn first_instrument(pred: spec_fn(NbsInstrument) -> bool) -> Option<NbsInstrument> {
    if exists|k: int| 0 <= k < all_instruments().len() && pred(all_instruments()[k]) {
        let k = choose|k: int|
            0 <= k < all_instruments().len() && pred(all_instruments()[k])
            && forall|j: int| 0 <= j < k ==> !pred(all_instruments()[j]);
        Some(all_instruments()[k])
    } else {
        None
    }
}

/// The instrument with the given name.
pub open spec fn spec_from_name(name: Seq<char>) -> Option<NbsInstrument> {
    first_instrument(|i: NbsInstrument| instrument_name(i) == name)
}

/// Instrument for an instrument identifier (`minecraft:<name>`).
pub open spec fn spec_from_instrument_id(namespace: Seq<char>, path: Seq<char>) -> Option<NbsInstrument> {
    if namespace != minecraft_namespace() {
        None
    } else {
        spec_from_name(path)
    }
}

/// Instrument for a sound event identifier, as the bot decides it: identifiers
/// outside the vanilla namespace, or whose path starts with the note block prefix,
/// are rejected; otherwise the instrument whose sound path equals the path is taken.
pub open spec fn spec_from_sound_id(namespace: Seq<char>, path: Seq<char>) -> Option<NbsInstrument> {
    if namespace != minecraft_namespace() || is_prefix(note_block_sound_prefix(), path) {
        None
    } else {
        first_instrument(|i: NbsInstrument| spec_sound_path(i) == Some(path))
    }
}

/// Every instrument occurs in `all_instruments` at its own index.
pub proof fn lemma_instrument_position(i: NbsInstrument)
    ensures
        0 <= instrument_index(i) < all_instruments().len(),
        all_instruments()[instrument_index(i) as int] == i,
        instrument_of_index(instrument_index(i) as int) == Some(i),
{
}

impl NbsInstrument {
    /// Whether this instrument is chosen by the block below the note block.
    pub fn is_instrument_block_below(&self) -> (r: bool)
        ensures
            r == spec_is_instrument_block_below(*self),
    {
        match self {
            NbsInstrument::Zombie | NbsInstrument::Skeleton | NbsInstrument::Creeper
            | NbsInstrument::Dragon | NbsInstrument::WitherSkeleton | NbsInstrument::Piglin
            | NbsInstrument::CustomHead => false,
            _ => true,
        }
    }

    /// The instrument identifier `minecraft:<name>`.
    pub fn instrument_id(&self) -> (r: ResourceLocation)
        ensures
            r.namespace@ == minecraft_namespace(),
            r.path@ == instrument_name(*self),
    {
        ResourceLocation { namespace: String::from_str("minecraft"), path: String::from_str(self.name()) }
    }

    /// The sound event `minecraft:block.note_block.<name>` (none for custom heads,
    /// whose sound depends on the head).
    pub fn sound_id(&self) -> (r: Option<ResourceLocation>)
        ensures
            r is Some <==> spec_sound_path(*self) is Some,
            r is Some ==> r->0.namespace@ == minecraft_namespace()
                && Some(r->0.path@) == spec_sound_path(*self),
    {
        if *self == NbsInstrument::CustomHead {
            return None;
        }
        let mut path = String::from_str("block.note_block.");
        path.append(self.name());
        Some(ResourceLocation { namespace: String::from_str("minecraft"), path })
    }

    /// The instrument with the given Minecraft name.
    pub fn from_name(name: &str) -> (r: Option<NbsInstrument>)
        ensures
            r == spec_from_name(name@),
    {
        let values = NbsInstrument::values();
        let mut k: usize = 0;
        while k < values.len()
            invariant
                values@ == all_instruments(),
                k <= values.len(),
                forall|j: int| 0 <= j < k ==> instrument_name(all_instruments()[j]) != name@,
            decreases values.len() - k,
        {
            let instr = values[k];
            if str_eq(instr.name(), name) {
                proof {
                    let pred = |i: NbsInstrument| instrument_name(i) == name@;
                    assert(pred(all_instruments()[k as int]));
                    let c = choose|c: int|
                        0 <= c < all_instruments().len() && pred(all_instruments()[c])
                        && forall|j: int| 0 <= j < c ==> !pred(all_instruments()[j]);
                    if c < k {
                        assert(!pred(all_instruments()[c]));
                    } else if c > k {
                        assert(!pred(all_instruments()[k as int]));
                    }
                }
                return Some(instr);
            }
            k = k + 1;
        }
        None
    }

    /// The instrument for an instrument identifier (`minecraft:<name>`).
    pub fn from_instrument_id(id: &ResourceLocation) -> (r: Option<NbsInstrument>)
        ensures
            r == spec_from_instrument_id(id.namespace@, id.path@),
    {
        if !str_eq(id.namespace.as_str(), "minecraft") {
            return None;
        }
        NbsInstrument::from_name(id.path.as_str())
    }

    /// The instrument for a sound event identifier: identifiers outside the vanilla
    /// namespace, or whose path starts with `block.note_block.`, are rejected before any
    /// instrument is compared.
    pub fn from_sound_id(id: &ResourceLocation) -> (r: Option<NbsInstrument>)
        ensures
            r == spec_from_sound_id(id.namespace@, id.path@),
    {
        if !str_eq(id.namespace.as_str(), "minecraft") || starts_with(id.path.as_str(), "block.note_block.") {
            return None;
        }
        let values = NbsInstrument::values();
        let mut k: usize = 0;
        while k < values.len()
            invariant
                values@ == all_instruments(),
                k <= values.len(),
                id.namespace@ == minecraft_namespace(),
                !is_prefix(note_block_sound_prefix(), id.path@),
                forall|j: int| 0 <= j < k ==> spec_sound_path(all_instruments()[j]) != Some(id.path@),
            decreases values.len() - k,
        {
            let instr = values[k];
            let matched = match instr.sound_id() {
                Some(sound) => str_eq(sound.path.as_str(), id.path.as_str()),
                None => false,
            };
            if matched {
                proof {
                    let pred = |i: NbsInstrument| spec_sound_path(i) == Some(id.path@);
                    assert(pred(all_instruments()[k as int]));
                    let c = choose|c: int|
                        0 <= c < all_instruments().len() && pred(all_instruments()[c])
                        && forall|j: int| 0 <= j < c ==> !pred(all_instruments()[j]);
                    if c < k {
                        assert(!pred(all_instruments()[c]));
                    } else if c > k {
                        assert(!pred(all_instruments()[k as int]));
                    }
                }
                return Some(instr);
            }
            k = k + 1;
        }
        None
    }
}

/// Right clicks the bot counts to go from pitch `from` to `desired`: the
/// difference when `desired` is not lower, and 24 otherwise.
pub open spec fn spec_right_clicks(from: NbsPitch, desired: NbsPitch) -> u8 {
    if pitch_ordinal(desired) < pitch_ordinal(from) {
        24
    } else {
        (pitch_ordinal(desired) - pitch_ordinal(from)) as u8
    }
}

/// The pitch one right click further (24 wraps around to 0).
pub open spec fn spec_next_pitch(p: NbsPitch) -> NbsPitch {
    pitch_of_ordinal((pitch_ordinal(p) + 1) % 25).unwrap()
}

impl NbsPitch {
    /// Right clicks counted from this pitch to `desired`.
    pub fn right_clicks_for(&self, desired: &NbsPitch) -> (r: u8)
        ensures
            r == spec_right_clicks(*self, *desired),
    {
        let len: u8 = 25;
        if desired.ordinal() < self.ordinal() {
            ((len - 1) - self.ordinal()) + self.ordinal()
        } else {
            desired.ordinal() - self.ordinal()
        }
    }

    /// The pitch a note block takes after one more right click.
    pub fn next(&self) -> (r: NbsPitch)
        ensures
            r == spec_next_pitch(*self),
            pitch_ordinal(r) == (pitch_ordinal(*self) + 1) % 25,
    {
        let next_ordinal = (self.ordinal() + 1) % 25;
        match NbsPitch::from_ordinal(next_ordinal) {
            Some(p) => p,
            None => {
                proof { assert(false); }
                NbsPitch::N00Oct1FSharp
            },
        }
    }
}

/// An instrument playing a pitch.
#[derive(Debug, Copy, Clone, PartialEq, Eq, Structural, Hash)]
pub struct NbsNote {
    pub instrument: NbsInstrument,
    pub pitch: NbsPitch,
}

/// A note placed at a tick and layer of a song.
#[derive(Debug, Copy, Clone, PartialEq, Eq, Structural, Hash)]
pub struct NbsPositionedNote {
    pub tick: u16,
    pub layer: u16,
    pub note: NbsNote,
}

/// The note a 16-bit value stands for, as the bot decodes it: the instrument
/// index is taken from `(value << 8) as u8`, which is always 0 (harp), and the
/// pitch from the low byte.
pub open spec fn spec_note_from_u16(value: u16) -> Option<NbsNote> {
    match pitch_of_ordinal((value % 256) as int) {
        Some(p) => Some(NbsNote { instrument: NbsInstrument::Harp, pitch: p }),
        None => None,
    }
}

impl NbsNote {
    /// Decodes a note from a 16-bit value; fails when the pitch byte exceeds 24.
    pub fn from_u16(value: u16) -> (r: Option<NbsNote>)
        ensures
            r == spec_note_from_u16(value),
    {
        let instrument_byte: u8 = 0;
        let instrument = NbsInstrument::from_index(instrument_byte);
        let pitch = NbsPitch::from_ordinal((value % 256) as u8);
        match (instrument, pitch) {
            (Some(instrument), Some(pitch)) => Some(NbsNote { instrument, pitch }),
            _ => None,
        }
    }
}

} // verus!
