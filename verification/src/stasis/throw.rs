//! What happens when a pearl is thrown into a chamber: the occupants it joins, what
//! its thrower is told, and which of their chambers are pulled when they own too many.

use vstd::prelude::*;
use vstd::string::*;
use crate::blockpos::BlockPos;
use crate::text::{dec, dec_signed, push_dec};
use crate::stasis::model::{
    StasisChamberEntry, StasisChamberDefinition, ChamberOccupant, DefView, EntryView, entries_view,
    terminals_view,
};
use crate::stasis::column::{ColumnBlock, COLUMN_DEPTH, column_fits};
use crate::stasis::chambers::{
    StasisModule, spec_chamber_for_pearl, spec_is_known_pearl, is_ordered_chambers, defs_view, index_view,
};

verus! {

/// Whether an occupant was thrown by a player other than `player`.
pub open spec fn owned_by_other(occupants: Seq<ChamberOccupant>, player: u128) -> bool {
    exists|j: int| 0 <= j < occupants.len() && (#[trigger] occupants[j].player_uuid) is Some
        && occupants[j].player_uuid != Some(player)
}

/// The occupants after `player` threw `pearl` at time `at`: a chamber that held another
/// player's pearl is cleared first.
pub open spec fn occupants_after_throw(occupants: Seq<ChamberOccupant>, player: u128, pearl: u128, at: i64) -> Seq<ChamberOccupant> {
    let kept = if owned_by_other(occupants, player) { Seq::empty() } else { occupants };
    kept.push(ChamberOccupant { thrown_at: at, player_uuid: Some(player), pearl_uuid: Some(pearl) })
}

/// The chambers with those of chamber `i` replaced.
pub open spec fn with_occupants(chambers: Seq<EntryView>, i: int, occupants: Seq<ChamberOccupant>) -> Seq<EntryView> {
    chambers.update(i, EntryView { def: chambers[i].def, occupants })
}

/// What a player is told after throwing a pearl into an empty chamber, given the pearl
/// limit and the number of chambers they now own.
pub open spec fn throw_message(max_pearls: Option<u32>, owned: nat) -> Seq<char> {
    match max_pearls {
        None => "You have thrown a pearl. Message me !tp to get back here."@,
        Some(max) => {
            let further = max - owned;
            if further == 1 {
                "You have thrown a pearl. Message me !tp to get back here (you are allowed to throw ONE MORE PEARL)."@
            } else if further == 0 {
                "You have thrown a pearl. Message me !tp to get back here. You used up all your existing chambers ("@
                    + dec(max as nat) + "). Please don't throw any further pearls!"@
            } else {
                "You have thrown a pearl. Message me !tp to get back here (you are allowed to throw "@
                    + dec_signed(further) + " more pearls)."@
            }
        },
    }
}

/// What a player is told who owns more chambers than allowed.
pub open spec fn excess_message(owned: nat, max: nat) -> Seq<char> {
    "Sorry, but your amount of chambers ("@ + dec(owned) + ") exceeds the allowed limit ("@ + dec(max)
        + "). Pulling your old pearls, hang on..."@
}

/// The chambers pulled from a player who owns too many: those past the limit in the
/// newest-first order, the oldest first.
pub open spec fn excess_chambers(ordered: Seq<DefView>, max: nat) -> Seq<DefView> {
    ordered.subrange(max as int, ordered.len() as int).reverse()
}

/// A recorded throw.
#[derive(Debug)]
pub struct PearlThrow {
    /// The chamber the pearl went into.
    pub chamber_index: usize,
    /// The thrower's chambers, newest throw first, after the throw.
    pub ordered: Vec<StasisChamberDefinition>,
    /// What to tell the thrower, when the chamber was empty.
    pub greeting: Option<String>,
    /// What to tell the thrower when they own more chambers than allowed.
    pub excess_message: Option<String>,
    /// The chambers to pull from them then, the oldest first (empty otherwise).
    pub to_pull: Vec<StasisChamberDefinition>,
}

/// The text of `throw_message`.
pub fn make_throw_message(max_pearls: Option<u32>, owned: usize) -> (r: String)
    ensures
        r@ == throw_message(max_pearls, owned as nat),
{
    match max_pearls {
        None => String::from_str("You have thrown a pearl. Message me !tp to get back here."),
        Some(max) => {
            let further: i128 = max as i128 - owned as i128;
            if further == 1 {
                String::from_str(
                    "You have thrown a pearl. Message me !tp to get back here (you are allowed to throw ONE MORE PEARL).",
                )
            } else if further == 0 {
                let mut r = String::from_str(
                    "You have thrown a pearl. Message me !tp to get back here. You used up all your existing chambers (",
                );
                push_dec(&mut r, max as u64);
                r.append("). Please don't throw any further pearls!");
                r
            } else {
                let mut r = String::from_str(
                    "You have thrown a pearl. Message me !tp to get back here (you are allowed to throw ",
                );
                if further < 0 {
                    proof { reveal_strlit("-"); }
                    r.append("-");
                    push_dec(&mut r, (owned as u64 - max as u64) as u64);
                    assert(dec_signed(further as int) == "-"@ + dec((owned - max) as nat));
                } else {
                    push_dec(&mut r, further as u64);
                }
                r.append(" more pearls).");
                proof {
                    reveal_strlit("-");
                }
                r
            }
        },
    }
}

/// The text of `excess_message`.
pub fn make_excess_message(owned: usize, max: u32) -> (r: String)
    ensures
        r@ == excess_message(owned as nat, max as nat),
{
    let mut r = String::from_str("Sorry, but your amount of chambers (");
    push_dec(&mut r, owned as u64);
    r.append(") exceeds the allowed limit (");
    push_dec(&mut r, max as u64);
    r.append("). Pulling your old pearls, hang on...");
    r
}

impl StasisModule {
    /// Records a pearl that `player_uuid` threw, seen in block `pearl_block_pos` with
    /// `column` below it (`close_to_player`: it appeared in the thrower's block column,
    /// less than 5 blocks above or below them). Nothing happens for a known pearl, one
    /// far from the player, or one in no chamber. Else the pearl joins the chamber's
    /// occupants as `occupants_after_throw` says, and the result says what to tell the
    /// thrower and which of their chambers to pull.
    pub fn on_pearl_throw(
        &mut self,
        column: &Vec<Option<ColumnBlock>>,
        pearl_block_pos: BlockPos,
        close_to_player: bool,
        player_uuid: u128,
        pearl_uuid: u128,
        thrown_at: i64,
    ) -> (r: Option<PearlThrow>)
        requires
            column@.len() == COLUMN_DEPTH,
            column_fits(pearl_block_pos),
        ensures
            terminals_view(final(self).config.lectern_redcoder_terminals@)
                == terminals_view(old(self).config.lectern_redcoder_terminals@),
            final(self).max_pearls == old(self).max_pearls,
            ({
                let cs = entries_view(old(self).config.chambers@);
                let picked = spec_chamber_for_pearl(cs, column@, pearl_block_pos);
                if spec_is_known_pearl(cs, pearl_uuid) || !close_to_player {
                    r is None && entries_view(final(self).config.chambers@) == cs
                } else {
                    match picked.1 {
                        None => r is None && entries_view(final(self).config.chambers@) == picked.0,
                        Some(i) => {
                            let before = picked.0[i].occupants;
                            let after = with_occupants(picked.0, i, occupants_after_throw(before, player_uuid, pearl_uuid, thrown_at));
                            &&& entries_view(final(self).config.chambers@) == after
                            &&& r matches Some(t)
                            &&& t.chamber_index == i
                            &&& is_ordered_chambers(after, player_uuid, defs_view(t.ordered@))
                            &&& (if before.len() == 0 {
                                t.greeting matches Some(g) && g@ == throw_message(old(self).max_pearls, t.ordered@.len())
                            } else {
                                t.greeting is None
                            })
                            &&& (match old(self).max_pearls {
                                Some(max) if t.ordered@.len() > max => {
                                    &&& t.excess_message matches Some(m)
                                    &&& m@ == excess_message(t.ordered@.len(), max as nat)
                                    &&& defs_view(t.to_pull@) == excess_chambers(defs_view(t.ordered@), max as nat)
                                },
                                _ => t.excess_message is None && t.to_pull@.len() == 0,
                            })
                        },
                    }
                }
            }),
    {
        if self.config.is_known_pearl(pearl_uuid) || !close_to_player {
            return None;
        }
        let picked = self.config.chamber_for_pearl_pos(column, pearl_block_pos);
        let i = match picked {
            None => return None,
            Some(i) => i,
        };
        let ghost cs1 = entries_view(self.config.chambers@);
        let mut entry = self.config.chambers.remove(i);
        let ghost before = entry.occupants@;
        let was_empty = entry.occupants.len() == 0;
        let mut owned_by_other_player = false;
        let mut j: usize = 0;
        while j < entry.occupants.len()
            invariant
                j <= entry.occupants@.len(),
                entry.occupants@ == before,
                owned_by_other_player == exists|k: int| 0 <= k < j && (#[trigger] before[k].player_uuid) is Some
                    && before[k].player_uuid != Some(player_uuid),
            decreases entry.occupants@.len() - j,
        {
            match entry.occupants[j].player_uuid {
                Some(other) => {
                    if other != player_uuid {
                        owned_by_other_player = true;
                    }
                },
                None => {},
            }
            j = j + 1;
        }
        if owned_by_other_player {
            entry.occupants.clear();
        }
        entry.occupants.push(ChamberOccupant { thrown_at, player_uuid: Some(player_uuid), pearl_uuid: Some(pearl_uuid) });
        let ghost new_entry = entry@;
        self.config.chambers.insert(i, entry);
        proof {
            assert(new_entry.occupants =~= occupants_after_throw(before, player_uuid, pearl_uuid, thrown_at));
            assert(entries_view(self.config.chambers@) =~= with_occupants(cs1, i as int, new_entry.occupants));
        }
        let ordered = self.get_ordered_chambers(player_uuid);
        let greeting = if was_empty { Some(make_throw_message(self.max_pearls, ordered.len())) } else { None };
        let mut excess: Option<String> = None;
        let mut to_pull: Vec<StasisChamberDefinition> = Vec::new();
        match self.max_pearls {
            Some(max) => {
                if ordered.len() > max as usize {
                    excess = Some(make_excess_message(ordered.len(), max));
                    let mut k: usize = ordered.len();
                    while k > max as usize
                        invariant
                            max <= k <= ordered@.len(),
                            defs_view(to_pull@) == defs_view(ordered@).subrange(k as int, ordered@.len() as int).reverse(),
                        decreases k,
                    {
                        k = k - 1;
                        let d = ordered[k].duplicate();
                        let ghost prev = to_pull@;
                        to_pull.push(d);
                        proof {
                            assert(defs_view(to_pull@) =~= defs_view(prev).push(d@));
                            assert(defs_view(ordered@).subrange(k as int, ordered@.len() as int).reverse()
                                =~= defs_view(ordered@).subrange(k + 1, ordered@.len() as int).reverse().push(defs_view(ordered@)[k as int]));
                        }
                    }
                }
            },
            None => {},
        }
        Some(PearlThrow { chamber_index: i, ordered, greeting, excess_message: excess, to_pull })
    }

    /// Records a pearl seen with no known thrower: unless it is known, it joins the
    /// occupants of the chamber it is in (with no player) and that chamber's index is
    /// returned.
    pub fn on_unowned_pearl(
        &mut self,
        column: &Vec<Option<ColumnBlock>>,
        pearl_block_pos: BlockPos,
        pearl_uuid: u128,
        thrown_at: i64,
    ) -> (r: Option<usize>)
        requires
            column@.len() == COLUMN_DEPTH,
            column_fits(pearl_block_pos),
        ensures
            terminals_view(final(self).config.lectern_redcoder_terminals@)
                == terminals_view(old(self).config.lectern_redcoder_terminals@),
            ({
                let cs = entries_view(old(self).config.chambers@);
                let picked = spec_chamber_for_pearl(cs, column@, pearl_block_pos);
                if spec_is_known_pearl(cs, pearl_uuid) {
                    r is None && entries_view(final(self).config.chambers@) == cs
                } else {
                    index_view(r) == picked.1 && match picked.1 {
                        None => entries_view(final(self).config.chambers@) == picked.0,
                        Some(i) => entries_view(final(self).config.chambers@) == with_occupants(picked.0, i,
                            picked.0[i].occupants.push(ChamberOccupant { thrown_at, player_uuid: None, pearl_uuid: Some(pearl_uuid) })),
                    }
                }
            }),
    {
        if self.config.is_known_pearl(pearl_uuid) {
            return None;
        }
        let picked = self.config.chamber_for_pearl_pos(column, pearl_block_pos);
        match picked {
            None => None,
            Some(i) => {
                let ghost cs1 = entries_view(self.config.chambers@);
                let mut entry = self.config.chambers.remove(i);
                entry.occupants.push(ChamberOccupant { thrown_at, player_uuid: None, pearl_uuid: Some(pearl_uuid) });
                let ghost new_entry = entry@;
                self.config.chambers.insert(i, entry);
                proof {
                    assert(entries_view(self.config.chambers@) =~= with_occupants(cs1, i as int, new_entry.occupants));
                }
                Some(i)
            },
        }
    }
}

/// A throw makes the thrower's pearl the newest occupant of the chamber. Occupants of
/// the chamber stay only where none was thrown by another player; afterwards no occupant
/// of the chamber belongs to another player.
pub proof fn law_throw_takes_over_chamber(occupants: Seq<ChamberOccupant>, player: u128, pearl: u128, at: i64)
    ensures
        ({
            let after = occupants_after_throw(occupants, player, pearl, at);
            &&& after.len() >= 1
            &&& after.last() == ChamberOccupant { thrown_at: at, player_uuid: Some(player), pearl_uuid: Some(pearl) }
            &&& forall|j: int| 0 <= j < after.len() ==>
                (#[trigger] after[j]).player_uuid is None || after[j].player_uuid == Some(player)
            &&& (forall|j: int| 0 <= j < occupants.len() ==>
                (#[trigger] occupants[j]).player_uuid is None || occupants[j].player_uuid == Some(player))
                ==> after == occupants.push(after.last())
            &&& (exists|j: int| 0 <= j < occupants.len() && (#[trigger] occupants[j]).player_uuid is Some
                && occupants[j].player_uuid != Some(player)) ==> after.len() == 1
        }),
{
    let after = occupants_after_throw(occupants, player, pearl, at);
    if owned_by_other(occupants, player) {
        assert forall|j: int| 0 <= j < after.len() implies
            (#[trigger] after[j]).player_uuid is None || after[j].player_uuid == Some(player) by {
            assert(j == 0);
        }
    } else {
        assert forall|j: int| 0 <= j < after.len() implies
            (#[trigger] after[j]).player_uuid is None || after[j].player_uuid == Some(player) by {
            if j < occupants.len() {
                assert(after[j] == occupants[j]);
            }
        }
    }
}

} // verus!
