//! What holds of instruments and pitches across their functions.

use vstd::prelude::*;
use crate::text::is_suffix;
use crate::nbs::defs::{NbsInstrument, NbsPitch, instrument_name, instrument_block_name, instrument_index, all_instruments, pitch_ordinal, pitch_of_ordinal};
use crate::nbs::song::{spec_is_instrument_block_below, spec_next_pitch, spec_right_clicks, spec_from_name, first_instrument, lemma_instrument_position};

verus! {

/// The pitch after `n` right clicks on a note block at pitch `p`.
pub open spec fn clicked(p: NbsPitch, n: nat) -> NbsPitch
    decreases n,
{
    if n == 0 { p } else { spec_next_pitch(clicked(p, (n - 1) as nat)) }
}

proof fn lemma_ordinal_round_trip(p: NbsPitch)
    ensures
        pitch_of_ordinal(pitch_ordinal(p) as int) == Some(p),
        pitch_ordinal(p) < 25,
{
}

proof fn lemma_of_ordinal(k: int)
    requires
        0 <= k < 25,
    ensures
        pitch_of_ordinal(k) matches Some(q) && pitch_ordinal(q) == k,
{
}

proof fn lemma_clicked_ordinal(p: NbsPitch, n: nat)
    ensures
        pitch_ordinal(clicked(p, n)) == (pitch_ordinal(p) + n) % 25,
    decreases n,
{
    if n == 0 {
        lemma_ordinal_round_trip(p);
    } else {
        let prev = clicked(p, (n - 1) as nat);
        lemma_clicked_ordinal(p, (n - 1) as nat);
        let k = (pitch_ordinal(prev) + 1) % 25;
        lemma_of_ordinal(k);
        assert(pitch_ordinal(spec_next_pitch(prev)) == k);
        assert(((pitch_ordinal(p) + (n - 1)) % 25 + 1) % 25 == (pitch_ordinal(p) + n) % 25) by (nonlinear_arith);
    }
}

proof fn lemma_ordinal_injective(p: NbsPitch, q: NbsPitch)
    requires
        pitch_ordinal(p) == pitch_ordinal(q),
    ensures
        p == q,
{
    lemma_ordinal_round_trip(p);
    lemma_ordinal_round_trip(q);
}

/// Twenty-five right clicks bring a note block back to the pitch it had.
pub proof fn law_full_turn(p: NbsPitch)
    ensures
        clicked(p, 25) == p,
{
    lemma_clicked_ordinal(p, 25);
    lemma_ordinal_round_trip(p);
    lemma_ordinal_injective(clicked(p, 25), p);
}

/// The right clicks counted for a pitch that is not lower bring the note block to it.
/// (For a lower pitch the count is always 24, which reaches the pitch just below the
/// current one only.)
pub proof fn law_right_clicks_reach(p: NbsPitch, q: NbsPitch)
    requires
        pitch_ordinal(q) >= pitch_ordinal(p),
    ensures
        clicked(p, spec_right_clicks(p, q) as nat) == q,
{
    let n = spec_right_clicks(p, q) as nat;
    lemma_clicked_ordinal(p, n);
    lemma_ordinal_round_trip(p);
    lemma_ordinal_round_trip(q);
    lemma_ordinal_injective(clicked(p, n), q);
}

/// No clicks are counted from a pitch to itself.
pub proof fn law_no_clicks_for_same_pitch(p: NbsPitch)
    ensures
        spec_right_clicks(p, p) == 0,
{
}

/// The instrument whose name has this length, first and last character (no two
/// instrument names share all three).
pub open spec fn instrument_of_key(len: nat, first: char, last: char) -> Option<NbsInstrument> {
    if len == 4 && first == 'h' && last == 'p' {
        Some(NbsInstrument::Harp)
    } else if len == 4 && first == 'b' && last == 's' {
        Some(NbsInstrument::Bass)
    } else if len == 8 && first == 'b' && last == 'm' {
        Some(NbsInstrument::Basedrum)
    } else if len == 5 && first == 's' && last == 'e' {
        Some(NbsInstrument::Snare)
    } else if len == 3 && first == 'h' && last == 't' {
        Some(NbsInstrument::Hat)
    } else if len == 6 && first == 'g' && last == 'r' {
        Some(NbsInstrument::Guitar)
    } else if len == 5 && first == 'f' && last == 'e' {
        Some(NbsInstrument::Flute)
    } else if len == 4 && first == 'b' && last == 'l' {
        Some(NbsInstrument::Bell)
    } else if len == 5 && first == 'c' && last == 'e' {
        Some(NbsInstrument::Chime)
    } else if len == 9 && first == 'x' && last == 'e' {
        Some(NbsInstrument::Xylophone)
    } else if len == 14 && first == 'i' && last == 'e' {
        Some(NbsInstrument::IronXylophone)
    } else if len == 8 && first == 'c' && last == 'l' {
        Some(NbsInstrument::CowBell)
    } else if len == 10 && first == 'd' && last == 'o' {
        Some(NbsInstrument::Didgeridoo)
    } else if len == 3 && first == 'b' && last == 't' {
        Some(NbsInstrument::Bit)
    } else if len == 5 && first == 'b' && last == 'o' {
        Some(NbsInstrument::Banjo)
    } else if len == 5 && first == 'b' && last == 'g' {
        Some(NbsInstrument::Pling)
    } else if len == 6 && first == 'z' && last == 'e' {
        Some(NbsInstrument::Zombie)
    } else if len == 8 && first == 's' && last == 'n' {
        Some(NbsInstrument::Skeleton)
    } else if len == 7 && first == 'c' && last == 'r' {
        Some(NbsInstrument::Creeper)
    } else if len == 6 && first == 'd' && last == 'n' {
        Some(NbsInstrument::Dragon)
    } else if len == 15 && first == 'w' && last == 'n' {
        Some(NbsInstrument::WitherSkeleton)
    } else if len == 6 && first == 'p' && last == 'n' {
        Some(NbsInstrument::Piglin)
    } else if len == 11 && first == 'c' && last == 'd' {
        Some(NbsInstrument::CustomHead)
    } else {
        None
    }
}

proof fn lemma_name_key(i: NbsInstrument)
    ensures
        instrument_name(i).len() > 0,
        instrument_of_key(instrument_name(i).len(), instrument_name(i)[0], instrument_name(i).last()) == Some(i),
{
    reveal_strlit("harp");
    reveal_strlit("bass");
    reveal_strlit("basedrum");
    reveal_strlit("snare");
    reveal_strlit("hat");
    reveal_strlit("guitar");
    reveal_strlit("flute");
    reveal_strlit("bell");
    reveal_strlit("chime");
    reveal_strlit("xylophone");
    reveal_strlit("iron_xylophone");
    reveal_strlit("cow_bell");
    reveal_strlit("didgeridoo");
    reveal_strlit("bit");
    reveal_strlit("banjo");
    reveal_strlit("bling");
    reveal_strlit("zombie");
    reveal_strlit("skeleton");
    reveal_strlit("creeper");
    reveal_strlit("dragon");
    reveal_strlit("wither_skeleton");
    reveal_strlit("piglin");
    reveal_strlit("custom_head");
}

/// Different instruments have different names.
pub proof fn lemma_names_distinct(a: NbsInstrument, b: NbsInstrument)
    requires
        instrument_name(a) == instrument_name(b),
    ensures
        a == b,
{
    lemma_name_key(a);
    lemma_name_key(b);
}

/// Looking an instrument up by its name gives the instrument back.
pub proof fn law_instrument_name_round_trip(i: NbsInstrument)
    ensures
        spec_from_name(instrument_name(i)) == Some(i),
{
    lemma_instrument_position(i);
    let all = all_instruments();
    let k = instrument_index(i) as int;
    let pred = |j: NbsInstrument| instrument_name(j) == instrument_name(i);
    assert(pred(all[k]));
    assert forall|j: int| 0 <= j < k implies !pred(all[j]) by {
        if pred(all[j]) {
            lemma_names_distinct(all[j], i);
        }
    }
    let c = choose|c: int| 0 <= c < all.len() && pred(all[c]) && forall|j: int| 0 <= j < c ==> !pred(all[j]);
    assert(0 <= c < all.len() && pred(all[c]) && forall|j: int| 0 <= j < c ==> !pred(all[j]));
    lemma_names_distinct(all[c], i);
}

/// The instrument whose block name has this length, first and last character (no two
/// block names share all three).
pub open spec fn instrument_of_block_key(len: nat, first: char, last: char) -> Option<NbsInstrument> {
    if len == 3 && first == 'A' && last == 'r' {
        Some(NbsInstrument::Harp)
    } else if len == 10 && first == 'O' && last == 's' {
        Some(NbsInstrument::Bass)
    } else if len == 5 && first == 'S' && last == 'e' {
        Some(NbsInstrument::Basedrum)
    } else if len == 4 && first == 'S' && last == 'd' {
        Some(NbsInstrument::Snare)
    } else if len == 5 && first == 'G' && last == 's' {
        Some(NbsInstrument::Hat)
    } else if len == 4 && first == 'W' && last == 'l' {
        Some(NbsInstrument::Guitar)
    } else if len == 4 && first == 'C' && last == 'y' {
        Some(NbsInstrument::Flute)
    } else if len == 4 && first == 'G' && last == 'd' {
        Some(NbsInstrument::Bell)
    } else if len == 10 && first == 'P' && last == 'e' {
        Some(NbsInstrument::Chime)
    } else if len == 4 && first == 'B' && last == 'e' {
        Some(NbsInstrument::Xylophone)
    } else if len == 4 && first == 'I' && last == 'n' {
        Some(NbsInstrument::IronXylophone)
    } else if len == 9 && first == 'S' && last == 'd' {
        Some(NbsInstrument::CowBell)
    } else if len == 7 && first == 'P' && last == 'n' {
        Some(NbsInstrument::Didgeridoo)
    } else if len == 7 && first == 'E' && last == 'd' {
        Some(NbsInstrument::Bit)
    } else if len == 3 && first == 'H' && last == 'y' {
        Some(NbsInstrument::Banjo)
    } else if len == 9 && first == 'G' && last == 'e' {
        Some(NbsInstrument::Pling)
    } else if len == 11 && first == 'Z' && last == 'd' {
        Some(NbsInstrument::Zombie)
    } else if len == 13 && first == 'S' && last == 'd' {
        Some(NbsInstrument::Skeleton)
    } else if len == 12 && first == 'C' && last == 'd' {
        Some(NbsInstrument::Creeper)
    } else if len == 11 && first == 'D' && last == 'd' {
        Some(NbsInstrument::Dragon)
    } else if len == 20 && first == 'W' && last == 'd' {
        Some(NbsInstrument::WitherSkeleton)
    } else if len == 11 && first == 'P' && last == 'd' {
        Some(NbsInstrument::Piglin)
    } else if len == 11 && first == 'C' && last == 'd' {
        Some(NbsInstrument::CustomHead)
    } else {
        None
    }
}

proof fn lemma_block_name_facts(i: NbsInstrument)
    ensures
        instrument_block_name(i).len() > 0,
        instrument_of_block_key(instrument_block_name(i).len(), instrument_block_name(i)[0], instrument_block_name(i).last()) == Some(i),
        is_suffix(" Head"@, instrument_block_name(i)) == !spec_is_instrument_block_below(i),
{
    reveal_strlit("Air");
    reveal_strlit("Oak Planks");
    reveal_strlit("Stone");
    reveal_strlit("Sand");
    reveal_strlit("Glass");
    reveal_strlit("Wool");
    reveal_strlit("Clay");
    reveal_strlit("Gold");
    reveal_strlit("Packed Ice");
    reveal_strlit("Bone");
    reveal_strlit("Iron");
    reveal_strlit("Soul Sand");
    reveal_strlit("Pumpkin");
    reveal_strlit("Emerald");
    reveal_strlit("Hay");
    reveal_strlit("Glowstone");
    reveal_strlit("Zombie Head");
    reveal_strlit("Skeleton Head");
    reveal_strlit("Creeper Head");
    reveal_strlit("Dragon Head");
    reveal_strlit("Wither Skeleton Head");
    reveal_strlit("Piglin Head");
    reveal_strlit("Custom Head");
    reveal_strlit(" Head");
    let n = instrument_block_name(i);
    let h = " Head"@;
    if !spec_is_instrument_block_below(i) {
        assert(n.subrange(n.len() - 5, n.len() as int) =~= h);
    } else if n.len() >= 5 {
        assert(n.subrange(n.len() - 5, n.len() as int)[1] != h[1]);
    }
}

/// The block below a note block is named a head exactly for the instruments that are
/// not chosen by a block below (the mob heads go on top), and no two instruments share
/// a block name.
pub proof fn law_head_blocks_go_on_top(a: NbsInstrument, b: NbsInstrument)
    ensures
        is_suffix(" Head"@, instrument_block_name(a)) == !spec_is_instrument_block_below(a),
        instrument_block_name(a) == instrument_block_name(b) ==> a == b,
{
    lemma_block_name_facts(a);
    lemma_block_name_facts(b);
}

} // verus!
