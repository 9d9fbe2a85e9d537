//! What holds across the stasis module's operations.

use vstd::prelude::*;
use crate::blockpos::BlockPos;
use crate::stasis::model::{ChamberOccupant, DefView, EntryView};
use crate::stasis::column::ColumnBlock;
use crate::stasis::chambers::{
    spec_chamber_for_pearl, lemma_chosen_chamber_exists, spec_is_known_pearl, spec_has_player_pearl, owned_time, newest_throw,
};
use crate::stasis::pull::owns_any_chamber;
use crate::stasis::legacy::migrated_entry;
use crate::stasis::throw::{occupants_after_throw, with_occupants};
use crate::stasis::occupants::{RuleView, apply_rule, kept_occupants, is_gone};

verus! {

proof fn lemma_newest_throw_push(occupants: Seq<ChamberOccupant>, o: ChamberOccupant, player: u128)
    requires
        o.player_uuid == Some(player),
    ensures
        newest_throw(occupants.push(o), player) is Some,
        newest_throw(occupants.push(o), player)->0 >= o.thrown_at,
{
    assert(occupants.push(o).drop_last() =~= occupants);
}

proof fn lemma_owned_time_at(chambers: Seq<EntryView>, i: int, player: u128)
    requires
        0 <= i < chambers.len(),
        newest_throw(chambers[i].occupants, player) is Some,
    ensures
        owned_time(chambers, player, chambers[i].def) is Some,
    decreases chambers.len(),
{
    if i < chambers.len() - 1 {
        let c = chambers.last();
        if !(c.def == chambers[i].def && newest_throw(c.occupants, player) is Some) {
            assert(chambers.drop_last()[i] == chambers[i]);
            lemma_owned_time_at(chambers.drop_last(), i, player);
        }
    }
}

/// A recorded throw makes the pearl a known occupant, so seeing it again records
/// nothing, and the chamber it went into is among the thrower's chambers.
pub proof fn law_recorded_throw_is_known(
    chambers: Seq<EntryView>,
    column: Seq<Option<ColumnBlock>>,
    pearl_pos: BlockPos,
    player: u128,
    pearl: u128,
    at: i64,
)
    requires
        spec_chamber_for_pearl(chambers, column, pearl_pos).1 is Some,
    ensures
        ({
            let picked = spec_chamber_for_pearl(chambers, column, pearl_pos);
            let i = picked.1->0;
            let after = with_occupants(picked.0, i, occupants_after_throw(picked.0[i].occupants, player, pearl, at));
            &&& spec_is_known_pearl(after, pearl)
            &&& owned_time(after, player, picked.0[i].def) is Some
        }),
{
    let picked = spec_chamber_for_pearl(chambers, column, pearl_pos);
    let i = picked.1->0;
    let occ = occupants_after_throw(picked.0[i].occupants, player, pearl, at);
    let after = with_occupants(picked.0, i, occ);
    let o = ChamberOccupant { thrown_at: at, player_uuid: Some(player), pearl_uuid: Some(pearl) };
    assert(0 <= i < picked.0.len()) by {
        lemma_chosen_chamber_exists(chambers, column, pearl_pos);
    }
    assert(after[i].occupants == occ);
    assert(occ[occ.len() - 1] == o);
    assert(after[i].occupants[occ.len() - 1].pearl_uuid == Some(pearl));
    let kept = if crate::stasis::throw::owned_by_other(picked.0[i].occupants, player) { Seq::empty() } else { picked.0[i].occupants };
    lemma_newest_throw_push(kept, o, player);
    lemma_owned_time_at(after, i, player);
}

proof fn lemma_kept_all_gone(rule: RuleView, d: DefView, occupants: Seq<ChamberOccupant>)
    requires
        forall|o: ChamberOccupant| is_gone(rule, d, o),
    ensures
        kept_occupants(rule, d, occupants).len() == 0,
    decreases occupants.len(),
{
    if occupants.len() > 0 {
        lemma_kept_all_gone(rule, d, occupants.drop_last());
    }
}

proof fn lemma_kept_none_gone(rule: RuleView, d: DefView, occupants: Seq<ChamberOccupant>)
    requires
        forall|o: ChamberOccupant| !is_gone(rule, d, o),
    ensures
        kept_occupants(rule, d, occupants) == occupants,
    decreases occupants.len(),
{
    if occupants.len() > 0 {
        lemma_kept_none_gone(rule, d, occupants.drop_last());
        assert(occupants.drop_last().push(occupants.last()) =~= occupants);
    }
}

proof fn lemma_no_owner_without_occupants(chambers: Seq<EntryView>, player: u128, d: DefView)
    requires
        forall|i: int| 0 <= i < chambers.len() && #[trigger] chambers[i].def == d ==> chambers[i].occupants.len() == 0,
    ensures
        owned_time(chambers, player, d) is None,
    decreases chambers.len(),
{
    if chambers.len() > 0 {
        assert(chambers.last() == chambers[chambers.len() - 1]);
        lemma_no_owner_without_occupants(chambers.drop_last(), player, d);
    }
}

/// Clearing a chamber's occupants (as when it was pulled and held no pearl) leaves it
/// owned by nobody, while the chambers themselves stay as they were.
pub proof fn law_cleared_chamber_is_nobodys(chambers: Seq<EntryView>, d: DefView, player: u128)
    ensures
        owned_time(apply_rule(RuleView::All(d), chambers), player, d) is None,
        apply_rule(RuleView::All(d), chambers).len() == chambers.len(),
        forall|i: int| 0 <= i < chambers.len() ==> #[trigger] apply_rule(RuleView::All(d), chambers)[i].def == chambers[i].def,
{
    let after = apply_rule(RuleView::All(d), chambers);
    assert forall|i: int| 0 <= i < after.len() && #[trigger] after[i].def == d implies after[i].occupants.len() == 0 by {
        lemma_kept_all_gone(RuleView::All(d), d, chambers[i].occupants);
    }
    lemma_no_owner_without_occupants(after, player, d);
}

/// Dropping uncertain occupants with no criterion switched on changes nothing.
pub proof fn law_no_criterion_keeps_all(chambers: Seq<EntryView>, d: DefView, present: Seq<u128>)
    ensures
        apply_rule(RuleView::Uncertain(d, false, false, false, present), chambers) == chambers,
{
    let rule = RuleView::Uncertain(d, false, false, false, present);
    assert forall|i: int| 0 <= i < chambers.len() implies #[trigger] apply_rule(rule, chambers)[i] == chambers[i] by {
        lemma_kept_none_gone(rule, chambers[i].def, chambers[i].occupants);
    }
    assert(apply_rule(rule, chambers) =~= chambers);
}

/// A trapdoor position moved from the old format becomes a chamber that its player owns
/// (with a throw at the epoch), so they can pull it, and a pearl of theirs that keeps
/// them from counting as a stranger.
pub proof fn law_migrated_chamber_is_owned(chambers: Seq<EntryView>, pos: BlockPos, player: u128)
    ensures
        owned_time(chambers.push(migrated_entry(pos, player)), player, DefView::Flippable(pos)) == Some(0i64),
        owns_any_chamber(chambers.push(migrated_entry(pos, player)), player),
        spec_has_player_pearl(chambers.push(migrated_entry(pos, player)), player),
{
    let e = migrated_entry(pos, player);
    let cs = chambers.push(e);
    assert(e.occupants.drop_last() =~= Seq::<ChamberOccupant>::empty());
    assert(newest_throw(Seq::<ChamberOccupant>::empty(), player) is None);
    assert(e.occupants.len() == 1);
    assert(e.occupants.last().player_uuid == Some(player));
    assert(e.occupants.last().thrown_at == 0);
    assert(newest_throw(e.occupants, player) == Some(0i64));
    assert(cs.last() == e);
    assert(owned_time(cs, player, DefView::Flippable(pos)) == Some(0i64));
    assert(cs[chambers.len() as int].occupants[0].player_uuid == Some(player));
}

} // verus!
