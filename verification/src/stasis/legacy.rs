//! Moving trapdoor positions remembered by name in the old format into stasis chambers.

use vstd::prelude::*;
use crate::blockpos::BlockPos;
use crate::text::str_eq;
use crate::stasis::model::{
    StasisConfig, StasisChamberEntry, StasisChamberDefinition, ChamberOccupant, DefView, EntryView,
    entries_view, terminals_view,
};

verus! {

/// Trapdoor positions remembered by player name (each name at most once), and where the
/// bot idled.
pub struct LegacyStasisModule {
    pub remembered_trapdoor_positions: Vec<(String, BlockPos)>,
    pub last_idle_pos: Option<BlockPos>,
}

/// What became of a forgotten trapdoor position.
#[derive(Debug, Copy, Clone, PartialEq, Eq, Structural)]
pub enum Migration {
    /// It became a new flippable trapdoor chamber holding a pearl of theirs (the stasis
    /// configuration is to be saved).
    Migrated(BlockPos),
    /// A chamber with that trapdoor exists already; it was only forgotten.
    AlreadyKnown(BlockPos),
}

/// What to do with the file of remembered positions afterwards.
#[derive(Debug, Copy, Clone, PartialEq, Eq, Structural)]
pub enum LegacyFileAction {
    Delete,
    Save,
}

/// The remembered names and positions as values.
pub open spec fn remembered_view(v: Seq<(String, BlockPos)>) -> Seq<(Seq<char>, BlockPos)> {
    v.map_values(|e: (String, BlockPos)| (e.0@, e.1))
}

/// Each name is remembered at most once.
pub open spec fn names_distinct(v: Seq<(Seq<char>, BlockPos)>) -> bool {
    forall|i: int, j: int| 0 <= i < v.len() && 0 <= j < v.len() && i != j ==> #[trigger] v[i].0 != #[trigger] v[j].0
}

/// Where `name` is remembered.
pub open spec fn name_index(v: Seq<(Seq<char>, BlockPos)>, name: Seq<char>) -> Option<int> {
    if exists|i: int| 0 <= i < v.len() && #[trigger] v[i].0 == name {
        Some(choose|i: int| 0 <= i < v.len() && #[trigger] v[i].0 == name)
    } else {
        None
    }
}

/// Whether a chamber's trapdoor (a flippable one, or the trigger of a secured one) is at `pos`.
pub open spec fn has_trapdoor_at(d: DefView, pos: BlockPos) -> bool {
    match d {
        DefView::Flippable(p) => p == pos,
        DefView::Secured(_, t) => t == pos,
        _ => false,
    }
}

/// Whether any chamber has its trapdoor at `pos`.
pub open spec fn trapdoor_known(chambers: Seq<EntryView>, pos: BlockPos) -> bool {
    exists|i: int| 0 <= i < chambers.len() && has_trapdoor_at(#[trigger] chambers[i].def, pos)
}

/// The chamber made of a remembered position: a flippable trapdoor with one pearl of
/// `player`, thrown at an unknown time (the epoch) by an unknown pearl.
pub open spec fn migrated_entry(pos: BlockPos, player: u128) -> EntryView {
    EntryView {
        def: DefView::Flippable(pos),
        occupants: seq![ChamberOccupant { thrown_at: 0, player_uuid: Some(player), pearl_uuid: None }],
    }
}

fn trapdoor_exists(config: &StasisConfig, pos: BlockPos) -> (r: bool)
    ensures
        r == trapdoor_known(entries_view(config.chambers@), pos),
{
    let ghost cs = entries_view(config.chambers@);
    let mut i: usize = 0;
    while i < config.chambers.len()
        invariant
            i <= config.chambers@.len(),
            cs == entries_view(config.chambers@),
            forall|k: int| 0 <= k < i ==> !has_trapdoor_at(#[trigger] cs[k].def, pos),
        decreases config.chambers@.len() - i,
    {
        assert(cs[i as int].def == config.chambers@[i as int].definition@);
        let hit = match &config.chambers[i].definition {
            StasisChamberDefinition::FlippableTrapdoor { trapdoor_pos } => *trapdoor_pos == pos,
            StasisChamberDefinition::SecuredFlippableTrapdoor { trigger_trapdoor_pos, .. } => *trigger_trapdoor_pos == pos,
            _ => false,
        };
        if hit {
            return true;
        }
        i = i + 1;
    }
    false
}

impl LegacyStasisModule {
    /// Nothing remembered.
    pub fn new() -> (r: LegacyStasisModule)
        ensures
            r.remembered_trapdoor_positions@.len() == 0,
            r.last_idle_pos is None,
    {
        LegacyStasisModule { remembered_trapdoor_positions: Vec::new(), last_idle_pos: None }
    }

    /// Where `name` is remembered.
    fn find_name(&self, name: &str) -> (r: Option<usize>)
        ensures
            match r {
                Some(i) => i < self.remembered_trapdoor_positions@.len()
                    && remembered_view(self.remembered_trapdoor_positions@)[i as int].0 == name@,
                None => name_index(remembered_view(self.remembered_trapdoor_positions@), name@) is None,
            },
    {
        let ghost v = remembered_view(self.remembered_trapdoor_positions@);
        let mut i: usize = 0;
        while i < self.remembered_trapdoor_positions.len()
            invariant
                i <= self.remembered_trapdoor_positions@.len(),
                v == remembered_view(self.remembered_trapdoor_positions@),
                forall|k: int| 0 <= k < i ==> #[trigger] v[k].0 != name@,
            decreases self.remembered_trapdoor_positions@.len() - i,
        {
            if str_eq(self.remembered_trapdoor_positions[i].0.as_str(), name) {
                return Some(i);
            }
            i = i + 1;
        }
        None
    }

    /// Whether a trapdoor position is remembered for `name`.
    pub fn remembers(&self, name: &str) -> (r: bool)
        ensures
            r == (name_index(remembered_view(self.remembered_trapdoor_positions@), name@) is Some),
    {
        let ghost v = remembered_view(self.remembered_trapdoor_positions@);
        match self.find_name(name) {
            Some(i) => {
                assert(v[i as int].0 == name@);
                true
            },
            None => false,
        }
    }

    /// A player named `name` joined: their remembered trapdoor position, if any, is
    /// forgotten and returned.
    pub fn take_remembered(&mut self, name: &str) -> (r: Option<BlockPos>)
        requires
            names_distinct(remembered_view(old(self).remembered_trapdoor_positions@)),
        ensures
            names_distinct(remembered_view(final(self).remembered_trapdoor_positions@)),
            final(self).last_idle_pos == old(self).last_idle_pos,
            ({
                let before = remembered_view(old(self).remembered_trapdoor_positions@);
                let after = remembered_view(final(self).remembered_trapdoor_positions@);
                match name_index(before, name@) {
                    None => r is None && after == before,
                    Some(i) => r == Some(before[i].1) && after == before.remove(i),
                }
            }),
    {
        let ghost before = remembered_view(self.remembered_trapdoor_positions@);
        match self.find_name(name) {
            None => None,
            Some(i) => {
                proof {
                    assert(before[i as int].0 == name@);
                    let j = name_index(before, name@)->0;
                    assert(before[j].0 == name@);
                    assert(j == i as int);
                }
                let (_n, pos) = self.remembered_trapdoor_positions.remove(i);
                proof {
                    let after = remembered_view(self.remembered_trapdoor_positions@);
                    assert(after =~= before.remove(i as int));
                    assert forall|a: int, b: int| 0 <= a < after.len() && 0 <= b < after.len() && a != b
                        implies #[trigger] after[a].0 != #[trigger] after[b].0 by {
                        let a2 = if a < i { a } else { a + 1 };
                        let b2 = if b < i { b } else { b + 1 };
                        assert(after[a] == before[a2]);
                        assert(after[b] == before[b2]);
                    }
                }
                Some(pos)
            },
        }
    }

    /// What to do with the file after a player joined: delete it where nothing is
    /// remembered any more, else save it.
    pub fn file_action(&self) -> (r: LegacyFileAction)
        ensures
            r == if self.remembered_trapdoor_positions@.len() == 0 { LegacyFileAction::Delete } else { LegacyFileAction::Save },
    {
        if self.remembered_trapdoor_positions.len() == 0 { LegacyFileAction::Delete } else { LegacyFileAction::Save }
    }
}

/// Moves a forgotten trapdoor position of `player` into the stasis configuration: where
/// no chamber has that trapdoor, a chamber holding a pearl of theirs is added (see
/// `migrated_entry`) and the result is `Migrated`, else nothing changes.
pub fn migrate_trapdoor(config: &mut StasisConfig, pos: BlockPos, player: u128) -> (r: Migration)
    ensures
        terminals_view(final(config).lectern_redcoder_terminals@) == terminals_view(old(config).lectern_redcoder_terminals@),
        if trapdoor_known(entries_view(old(config).chambers@), pos) {
            r == Migration::AlreadyKnown(pos) && entries_view(final(config).chambers@) == entries_view(old(config).chambers@)
        } else {
            r == Migration::Migrated(pos)
                && entries_view(final(config).chambers@) == entries_view(old(config).chambers@).push(migrated_entry(pos, player))
        },
{
    if trapdoor_exists(config, pos) {
        return Migration::AlreadyKnown(pos);
    }
    let mut occupants: Vec<ChamberOccupant> = Vec::new();
    occupants.push(ChamberOccupant { thrown_at: 0, player_uuid: Some(player), pearl_uuid: None });
    let entry = StasisChamberEntry {
        definition: StasisChamberDefinition::FlippableTrapdoor { trapdoor_pos: pos },
        occupants,
    };
    let ghost old_chambers = config.chambers@;
    config.chambers.push(entry);
    proof {
        assert(entries_view(config.chambers@) =~= entries_view(old_chambers).push(migrated_entry(pos, player)));
    }
    Migration::Migrated(pos)
}

} // verus!
