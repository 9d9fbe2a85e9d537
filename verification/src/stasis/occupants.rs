//! Dropping occupants: uncertain ones, pearls that despawned, and pearls whose owner
//! came back; and the pearl entities the module keeps track of.

use vstd::prelude::*;
use crate::blockpos::BlockPos;
use crate::stasis::model::{
    StasisConfig, StasisChamberEntry, StasisChamberDefinition, ChamberOccupant, DefView, EntryView,
    entries_view, spec_rough_pos, terminals_view,
};
use crate::stasis::chambers::{StasisModule, PendingRemoval};

verus! {

/// Which occupants to drop.
#[derive(Debug)]
pub enum DropRule {
    /// In chambers with this definition: occupants without pearl uuid (if the first flag
    /// is set), without player uuid (second flag), or whose pearl is not among `present`
    /// (third flag, when the chamber is close enough to judge).
    Uncertain {
        definition: StasisChamberDefinition,
        no_pearl_uuid: bool,
        no_player_uuid: bool,
        pearl_not_found: bool,
        present: Vec<u128>,
    },
    /// All occupants of chambers with this definition.
    All(StasisChamberDefinition),
    /// Occupants whose pearl is one of these.
    Pearls(Vec<u128>),
    /// Occupants with a player whose pearl `pearl` despawned, in a chamber close enough
    /// to judge (its position among `in_range`), where the owner stands at the chamber
    /// (`(owner, chamber position)` among `owners_near`) or the despawn was expected.
    Despawned { pearl: u128, expected: bool, owners_near: Vec<(u128, BlockPos)>, in_range: Vec<BlockPos> },
}

/// A rule as values.
pub enum RuleView {
    Uncertain(DefView, bool, bool, bool, Seq<u128>),
    All(DefView),
    Pearls(Seq<u128>),
    Despawned(u128, bool, Seq<(u128, BlockPos)>, Seq<BlockPos>),
}

impl View for DropRule {
    type V = RuleView;

    open spec fn view(&self) -> RuleView {
        match self {
            DropRule::Uncertain { definition, no_pearl_uuid, no_player_uuid, pearl_not_found, present } =>
                RuleView::Uncertain(definition@, *no_pearl_uuid, *no_player_uuid, *pearl_not_found, present@),
            DropRule::All(d) => RuleView::All(d@),
            DropRule::Pearls(p) => RuleView::Pearls(p@),
            DropRule::Despawned { pearl, expected, owners_near, in_range } =>
                RuleView::Despawned(*pearl, *expected, owners_near@, in_range@),
        }
    }
}

/// Whether an occupant is one whose pearl `pearl` despawned (it has a known thrower).
pub open spec fn despawned_occupant(o: ChamberOccupant, pearl: u128) -> bool {
    o.pearl_uuid == Some(pearl) && o.player_uuid is Some
}

/// Whether the rule drops occupant `o` of a chamber with definition `d`.
pub open spec fn is_gone(rule: RuleView, d: DefView, o: ChamberOccupant) -> bool {
    match rule {
        RuleView::Uncertain(def, no_pearl, no_player, pearl_not_found, present) => d == def && (
            (no_pearl && o.pearl_uuid is None) || (no_player && o.player_uuid is None)
            || (pearl_not_found && o.pearl_uuid is Some && !present.contains(o.pearl_uuid->0))),
        RuleView::All(def) => d == def,
        RuleView::Pearls(pearls) => o.pearl_uuid is Some && pearls.contains(o.pearl_uuid->0),
        RuleView::Despawned(pearl, expected, owners_near, in_range) => despawned_occupant(o, pearl)
            && in_range.contains(spec_rough_pos(d))
            && (owners_near.contains((o.player_uuid->0, spec_rough_pos(d))) || expected),
    }
}

/// The occupants the rule keeps, in order.
pub open spec fn kept_occupants(rule: RuleView, d: DefView, occupants: Seq<ChamberOccupant>) -> Seq<ChamberOccupant>
    decreases occupants.len(),
{
    if occupants.len() == 0 {
        occupants
    } else {
        let rest = kept_occupants(rule, d, occupants.drop_last());
        if is_gone(rule, d, occupants.last()) { rest } else { rest.push(occupants.last()) }
    }
}

/// The chambers after the rule dropped occupants.
pub open spec fn apply_rule(rule: RuleView, chambers: Seq<EntryView>) -> Seq<EntryView> {
    Seq::new(chambers.len(), |i: int| EntryView {
        def: chambers[i].def,
        occupants: kept_occupants(rule, chambers[i].def, chambers[i].occupants),
    })
}

/// Whether the rule drops any occupant.
pub open spec fn rule_drops_any(rule: RuleView, chambers: Seq<EntryView>) -> bool {
    exists|i: int, j: int| 0 <= i < chambers.len() && 0 <= j < chambers[i].occupants.len()
        && #[trigger] is_gone(rule, chambers[i].def, chambers[i].occupants[j])
}

fn contains_u128(v: &Vec<u128>, x: u128) -> (r: bool)
    ensures
        r == v@.contains(x),
{
    let mut i: usize = 0;
    while i < v.len()
        invariant
            i <= v@.len(),
            forall|k: int| 0 <= k < i ==> v@[k] != x,
        decreases v@.len() - i,
    {
        if v[i] == x {
            assert(v@[i as int] == x);
            return true;
        }
        i = i + 1;
    }
    false
}

fn contains_pos(v: &Vec<BlockPos>, x: BlockPos) -> (r: bool)
    ensures
        r == v@.contains(x),
{
    let mut i: usize = 0;
    while i < v.len()
        invariant
            i <= v@.len(),
            forall|k: int| 0 <= k < i ==> v@[k] != x,
        decreases v@.len() - i,
    {
        if v[i] == x {
            assert(v@[i as int] == x);
            return true;
        }
        i = i + 1;
    }
    false
}

fn contains_owner(v: &Vec<(u128, BlockPos)>, x: (u128, BlockPos)) -> (r: bool)
    ensures
        r == v@.contains(x),
{
    let mut i: usize = 0;
    while i < v.len()
        invariant
            i <= v@.len(),
            forall|k: int| 0 <= k < i ==> v@[k] != x,
        decreases v@.len() - i,
    {
        if v[i].0 == x.0 && v[i].1 == x.1 {
            assert(v@[i as int] == x);
            return true;
        }
        i = i + 1;
    }
    false
}

fn copy_pearls(v: &Vec<u128>) -> (r: Vec<u128>)
    ensures
        r@ == v@,
{
    let mut r: Vec<u128> = Vec::new();
    let mut i: usize = 0;
    while i < v.len()
        invariant
            i <= v@.len(),
            r@ == v@.subrange(0, i as int),
        decreases v@.len() - i,
    {
        r.push(v[i]);
        i = i + 1;
        assert(r@ =~= v@.subrange(0, i as int));
    }
    assert(r@ =~= v@);
    r
}

fn copy_positions(v: &Vec<BlockPos>) -> (r: Vec<BlockPos>)
    ensures
        r@ == v@,
{
    let mut r: Vec<BlockPos> = Vec::new();
    let mut i: usize = 0;
    while i < v.len()
        invariant
            i <= v@.len(),
            r@ == v@.subrange(0, i as int),
        decreases v@.len() - i,
    {
        r.push(v[i]);
        i = i + 1;
        assert(r@ =~= v@.subrange(0, i as int));
    }
    assert(r@ =~= v@);
    r
}

fn copy_owners(v: &Vec<(u128, BlockPos)>) -> (r: Vec<(u128, BlockPos)>)
    ensures
        r@ == v@,
{
    let mut r: Vec<(u128, BlockPos)> = Vec::new();
    let mut i: usize = 0;
    while i < v.len()
        invariant
            i <= v@.len(),
            r@ == v@.subrange(0, i as int),
        decreases v@.len() - i,
    {
        r.push((v[i].0, v[i].1));
        i = i + 1;
        assert(r@ =~= v@.subrange(0, i as int));
    }
    assert(r@ =~= v@);
    r
}

impl DropRule {
    /// Whether this rule drops occupant `o` of a chamber with definition `d`.
    pub fn drops(&self, d: &StasisChamberDefinition, o: ChamberOccupant) -> (r: bool)
        ensures
            r == is_gone(self@, d@, o),
    {
        match self {
            DropRule::Uncertain { definition, no_pearl_uuid, no_player_uuid, pearl_not_found, present } => {
                d.same_as(definition) && (
                    (*no_pearl_uuid && o.pearl_uuid.is_none())
                    || (*no_player_uuid && o.player_uuid.is_none())
                    || (*pearl_not_found && match o.pearl_uuid {
                        Some(p) => !contains_u128(present, p),
                        None => false,
                    }))
            },
            DropRule::All(definition) => d.same_as(definition),
            DropRule::Pearls(pearls) => match o.pearl_uuid {
                Some(p) => contains_u128(pearls, p),
                None => false,
            },
            DropRule::Despawned { pearl, expected, owners_near, in_range } => {
                match (o.pearl_uuid, o.player_uuid) {
                    (Some(p), Some(player)) => {
                        if p != *pearl {
                            false
                        } else {
                            let pos = d.rough_pos();
                            contains_pos(in_range, pos) && (contains_owner(owners_near, (player, pos)) || *expected)
                        }
                    },
                    _ => false,
                }
            },
        }
    }
}

impl StasisConfig {
    /// Drops the occupants that the rule names, keeping the others in order; returns
    /// whether any was dropped.
    pub fn drop_occupants(&mut self, rule: &DropRule) -> (r: bool)
        ensures
            entries_view(final(self).chambers@) == apply_rule(rule@, entries_view(old(self).chambers@)),
            terminals_view(final(self).lectern_redcoder_terminals@) == terminals_view(old(self).lectern_redcoder_terminals@),
            r == rule_drops_any(rule@, entries_view(old(self).chambers@)),
    {
        let ghost cs = entries_view(self.chambers@);
        let ghost terminals = terminals_view(self.lectern_redcoder_terminals@);
        let mut changed = false;
        let mut i: usize = 0;
        while i < self.chambers.len()
            invariant
                i <= self.chambers@.len(),
                self.chambers@.len() == cs.len(),
                terminals == terminals_view(self.lectern_redcoder_terminals@),
                forall|k: int| 0 <= k < i ==> #[trigger] entries_view(self.chambers@)[k] == apply_rule(rule@, cs)[k],
                forall|k: int| i <= k < cs.len() ==> #[trigger] entries_view(self.chambers@)[k] == cs[k],
                changed == exists|a: int, j: int| 0 <= a < i && 0 <= j < cs[a].occupants.len()
                    && #[trigger] is_gone(rule@, cs[a].def, cs[a].occupants[j]),
            decreases cs.len() - i,
        {
            let ghost before = self.chambers@;
            assert(entries_view(before)[i as int] == cs[i as int]);
            let mut entry = self.chambers.remove(i);
            assert(entry@ == cs[i as int]);
            let ghost occ = entry.occupants@;
            let mut kept: Vec<ChamberOccupant> = Vec::new();
            let mut dropped = false;
            let mut j: usize = 0;
            while j < entry.occupants.len()
                invariant
                    j <= occ.len(),
                    entry.occupants@ == occ,
                    kept@ == kept_occupants(rule@, entry.definition@, occ.subrange(0, j as int)),
                    dropped == exists|k: int| 0 <= k < j && #[trigger] is_gone(rule@, entry.definition@, occ[k]),
                decreases occ.len() - j,
            {
                proof {
                    assert(occ.subrange(0, j + 1).drop_last() =~= occ.subrange(0, j as int));
                }
                let o = entry.occupants[j];
                if rule.drops(&entry.definition, o) {
                    dropped = true;
                } else {
                    kept.push(o);
                }
                j = j + 1;
            }
            proof {
                assert(occ.subrange(0, occ.len() as int) =~= occ);
            }
            proof {
                assert(entry.definition@ == cs[i as int].def);
                assert(occ == cs[i as int].occupants);
                if dropped {
                    let k = choose|k: int| 0 <= k < occ.len() && #[trigger] is_gone(rule@, entry.definition@, occ[k]);
                    assert(is_gone(rule@, cs[i as int].def, cs[i as int].occupants[k]));
                }
            }
            if dropped {
                changed = true;
            }
            entry.occupants = kept;
            let ghost new_entry = entry;
            self.chambers.insert(i, entry);
            proof {
                assert(self.chambers@ =~= before.update(i as int, new_entry));
                assert forall|k: int| 0 <= k < i + 1 implies #[trigger] entries_view(self.chambers@)[k] == apply_rule(rule@, cs)[k] by {
                    if k < i {
                        assert(self.chambers@[k] == before[k]);
                        assert(entries_view(before)[k] == apply_rule(rule@, cs)[k]);
                    } else {
                        assert(self.chambers@[k] == new_entry);
                        assert(new_entry@.occupants == kept_occupants(rule@, cs[k].def, cs[k].occupants));
                    }
                }
                assert forall|k: int| i + 1 <= k < cs.len() implies #[trigger] entries_view(self.chambers@)[k] == cs[k] by {
                    assert(self.chambers@[k] == before[k]);
                    assert(entries_view(before)[k] == cs[k]);
                }
            }
            i = i + 1;
        }
        proof {
            assert(entries_view(self.chambers@) =~= apply_rule(rule@, cs));
        }
        changed
    }
}

/// Which pending removals a check keeps: those not expired whose owner did not come back.
pub open spec fn pending_kept(pending: Seq<PendingRemoval>, owner_back: Seq<bool>, now: u64) -> Seq<PendingRemoval>
    decreases pending.len(),
{
    if pending.len() == 0 || owner_back.len() < pending.len() {
        Seq::empty()
    } else {
        let k = pending.len() - 1;
        let rest = pending_kept(pending.drop_last(), owner_back, now);
        if pending[k].until_millis <= now || owner_back[k] { rest } else { rest.push(pending[k]) }
    }
}

/// The pearls whose owner came back before their pending removal expired, in order.
pub open spec fn returned_pearls(pending: Seq<PendingRemoval>, owner_back: Seq<bool>, now: u64) -> Seq<u128>
    decreases pending.len(),
{
    if pending.len() == 0 || owner_back.len() < pending.len() {
        Seq::empty()
    } else {
        let k = pending.len() - 1;
        let rest = returned_pearls(pending.drop_last(), owner_back, now);
        if !(pending[k].until_millis <= now) && owner_back[k] { rest.push(pending[k].pearl_uuid) } else { rest }
    }
}

/// The pending removals for a despawned pearl: one for each occupant of it whose owner
/// was not seen at its chamber (the chamber being close enough to judge), in order.
pub open spec fn despawn_waits(
    chambers: Seq<EntryView>,
    pearl: u128,
    owners_near: Seq<(u128, BlockPos)>,
    in_range: Seq<BlockPos>,
    until: u64,
) -> Seq<PendingRemoval>
    decreases chambers.len(),
{
    if chambers.len() == 0 {
        Seq::empty()
    } else {
        despawn_waits(chambers.drop_last(), pearl, owners_near, in_range, until)
            + occupant_waits(chambers.last().def, chambers.last().occupants, pearl, owners_near, in_range, until)
    }
}

/// The pending removals for a despawned pearl among the occupants of one chamber.
pub open spec fn occupant_waits(
    d: DefView,
    occupants: Seq<ChamberOccupant>,
    pearl: u128,
    owners_near: Seq<(u128, BlockPos)>,
    in_range: Seq<BlockPos>,
    until: u64,
) -> Seq<PendingRemoval>
    decreases occupants.len(),
{
    if occupants.len() == 0 {
        Seq::empty()
    } else {
        let rest = occupant_waits(d, occupants.drop_last(), pearl, owners_near, in_range, until);
        let o = occupants.last();
        let pos = spec_rough_pos(d);
        if despawned_occupant(o, pearl) && !(owners_near.contains((o.player_uuid->0, pos)) && in_range.contains(pos)) {
            rest.push(PendingRemoval { pearl_uuid: pearl, chamber_pos: pos, player_uuid: o.player_uuid->0, until_millis: until })
        } else {
            rest
        }
    }
}

proof fn lemma_to_set_push(s: Seq<u128>, x: u128)
    ensures
        s.push(x).to_set() == s.to_set().insert(x),
{
    assert forall|y: u128| #[trigger] s.push(x).to_set().contains(y) <==> s.to_set().insert(x).contains(y) by {
        if s.push(x).contains(y) {
            let k = choose|k: int| 0 <= k < s.len() + 1 && #[trigger] s.push(x)[k] == y;
            if k < s.len() {
                assert(s[k] == y);
            }
        }
        if s.contains(y) {
            let k = choose|k: int| 0 <= k < s.len() && #[trigger] s[k] == y;
            assert(s.push(x)[k] == y);
        }
        if y == x {
            assert(s.push(x)[s.len() as int] == y);
        }
    }
    assert(s.push(x).to_set() =~= s.to_set().insert(x));
}

impl StasisModule {
    /// Notes a pearl entity that spawned.
    pub fn on_pearl_spawned(&mut self, entity_id: i32, pearl_uuid: u128)
        ensures
            final(self).spawned_pearl_uuids@ == old(self).spawned_pearl_uuids@.insert(entity_id, pearl_uuid),
            final(self).config == old(self).config,
            final(self).expect_despawn_of@ == old(self).expect_despawn_of@,
            final(self).remove_occupant_if_player_gets_near@ == old(self).remove_occupant_if_player_gets_near@,
    {
        self.spawned_pearl_uuids.insert(entity_id, pearl_uuid);
    }

    /// Forgets all pearl entities (on login, disconnect and respawn).
    pub fn forget_pearl_entities(&mut self)
        ensures
            final(self).spawned_pearl_uuids@ == Map::<i32, u128>::empty(),
            final(self).expect_despawn_of@ == Set::<u128>::empty(),
            final(self).config == old(self).config,
            final(self).remove_occupant_if_player_gets_near@ == old(self).remove_occupant_if_player_gets_near@,
    {
        self.spawned_pearl_uuids.clear();
        self.expect_despawn_of.clear();
    }

    /// Expects these pearls to despawn.
    pub fn expect_despawn(&mut self, pearls: &Vec<u128>)
        ensures
            final(self).expect_despawn_of@ == old(self).expect_despawn_of@ + pearls@.to_set(),
            final(self).config == old(self).config,
            final(self).spawned_pearl_uuids@ == old(self).spawned_pearl_uuids@,
    {
        let mut i: usize = 0;
        while i < pearls.len()
            invariant
                i <= pearls@.len(),
                self.expect_despawn_of@ == old(self).expect_despawn_of@ + pearls@.subrange(0, i as int).to_set(),
                self.config == old(self).config,
                self.spawned_pearl_uuids@ == old(self).spawned_pearl_uuids@,
            decreases pearls@.len() - i,
        {
            self.expect_despawn_of.insert(pearls[i]);
            proof {
                assert(pearls@.subrange(0, i + 1) =~= pearls@.subrange(0, i as int).push(pearls@[i as int]));
                lemma_to_set_push(pearls@.subrange(0, i as int), pearls@[i as int]);
                assert(self.expect_despawn_of@ =~= old(self).expect_despawn_of@ + pearls@.subrange(0, i + 1).to_set());
            }
            i = i + 1;
        }
        proof {
            assert(pearls@.subrange(0, pearls@.len() as int) =~= pearls@);
        }
    }

    /// An entity was removed. Where it was a known pearl, it is forgotten (and no longer
    /// expected); its occupants are dropped as `DropRule::Despawned` says, and for each of
    /// them whose owner was not seen at the chamber a removal waits until 3 seconds from
    /// `now_millis` for the owner to show up. Returns whether any occupant was dropped.
    pub fn on_entity_removed(
        &mut self,
        entity_id: i32,
        owners_near: &Vec<(u128, BlockPos)>,
        in_range: &Vec<BlockPos>,
        now_millis: u64,
    ) -> (r: bool)
        requires
            now_millis + 3000 <= u64::MAX,
        ensures
            final(self).spawned_pearl_uuids@ == old(self).spawned_pearl_uuids@.remove(entity_id),
            terminals_view(final(self).config.lectern_redcoder_terminals@)
                == terminals_view(old(self).config.lectern_redcoder_terminals@),
            match old(self).spawned_pearl_uuids@.get(entity_id) {
                None => !r && final(self).config == old(self).config
                    && final(self).expect_despawn_of@ == old(self).expect_despawn_of@
                    && final(self).remove_occupant_if_player_gets_near@ == old(self).remove_occupant_if_player_gets_near@,
                Some(pearl) => {
                    let expected = old(self).expect_despawn_of@.contains(pearl);
                    let rule = RuleView::Despawned(pearl, expected, owners_near@, in_range@);
                    let cs = entries_view(old(self).config.chambers@);
                    &&& final(self).expect_despawn_of@ == old(self).expect_despawn_of@.remove(pearl)
                    &&& entries_view(final(self).config.chambers@) == apply_rule(rule, cs)
                    &&& r == rule_drops_any(rule, cs)
                    &&& final(self).remove_occupant_if_player_gets_near@ == old(self).remove_occupant_if_player_gets_near@
                        + despawn_waits(cs, pearl, owners_near@, in_range@, (now_millis + 3000) as u64)
                },
            },
    {
        let found = self.spawned_pearl_uuids.remove(&entity_id);
        let pearl = match found {
            None => {
                assert(self.spawned_pearl_uuids@ =~= old(self).spawned_pearl_uuids@.remove(entity_id));
                return false;
            },
            Some(p) => p,
        };
        let expected = self.expect_despawn_of.remove(&pearl);
        let until = now_millis + 3000;
        let ghost cs = entries_view(self.config.chambers@);
        assert(self.spawned_pearl_uuids@ =~= old(self).spawned_pearl_uuids@.remove(entity_id));
        let mut i: usize = 0;
        while i < self.config.chambers.len()
            invariant
                i <= self.config.chambers@.len(),
                cs == entries_view(self.config.chambers@),
                self.config == old(self).config,
                self.spawned_pearl_uuids@ == old(self).spawned_pearl_uuids@.remove(entity_id),
                self.expect_despawn_of@ == old(self).expect_despawn_of@.remove(pearl),
                old(self).spawned_pearl_uuids@.get(entity_id) == Some(pearl),
                expected == old(self).expect_despawn_of@.contains(pearl),
                until == now_millis + 3000,
                self.remove_occupant_if_player_gets_near@ == old(self).remove_occupant_if_player_gets_near@
                    + despawn_waits(cs.subrange(0, i as int), pearl, owners_near@, in_range@, until),
            decreases cs.len() - i,
        {
            proof {
                assert(cs.subrange(0, i + 1).drop_last() =~= cs.subrange(0, i as int));
            }
            let entry = &self.config.chambers[i];
            assert(entry@ == cs[i as int]);
            let pos = entry.definition.rough_pos();
            let ghost start = self.remove_occupant_if_player_gets_near@;
            let mut j: usize = 0;
            while j < entry.occupants.len()
                invariant
                    i < self.config.chambers@.len(),
                    entry == &self.config.chambers@[i as int],
                    pos == spec_rough_pos(entry.definition@),
                    self.config == old(self).config,
                    self.spawned_pearl_uuids@ == old(self).spawned_pearl_uuids@.remove(entity_id),
                    self.expect_despawn_of@ == old(self).expect_despawn_of@.remove(pearl),
                    j <= entry.occupants@.len(),
                    self.remove_occupant_if_player_gets_near@ == start + occupant_waits(entry.definition@,
                        entry.occupants@.subrange(0, j as int), pearl, owners_near@, in_range@, until),
                decreases entry.occupants@.len() - j,
            {
                proof {
                    assert(entry.occupants@.subrange(0, j + 1).drop_last() =~= entry.occupants@.subrange(0, j as int));
                }
                let o = entry.occupants[j];
                match (o.pearl_uuid, o.player_uuid) {
                    (Some(p), Some(player)) => {
                        if p == pearl && !(contains_owner(owners_near, (player, pos)) && contains_pos(in_range, pos)) {
                            self.remove_occupant_if_player_gets_near.push(PendingRemoval {
                                pearl_uuid: pearl,
                                chamber_pos: pos,
                                player_uuid: player,
                                until_millis: until,
                            });
                        }
                    },
                    _ => {},
                }
                proof {
                    assert(self.remove_occupant_if_player_gets_near@ =~= start + occupant_waits(entry.definition@,
                        entry.occupants@.subrange(0, j + 1), pearl, owners_near@, in_range@, until));
                }
                j = j + 1;
            }
            proof {
                assert(entry.occupants@.subrange(0, entry.occupants@.len() as int) =~= entry.occupants@);
                assert(self.remove_occupant_if_player_gets_near@ =~= old(self).remove_occupant_if_player_gets_near@
                    + despawn_waits(cs.subrange(0, i + 1), pearl, owners_near@, in_range@, until));
            }
            i = i + 1;
        }
        proof {
            assert(cs.subrange(0, cs.len() as int) =~= cs);
        }
        let rule = DropRule::Despawned {
            pearl,
            expected,
            owners_near: copy_owners(owners_near),
            in_range: copy_positions(in_range),
        };
        self.config.drop_occupants(&rule)
    }

    /// Checks the pending removals at `now_millis` (`owner_back[k]`: the owner of the
    /// `k`-th stands at its chamber, and the chamber is close enough to judge): expired
    /// ones and those whose owner came back are dropped, and so are the occupants with
    /// the pearls of the latter. Returns whether any occupant was dropped.
    pub fn check_occupants_near_despawned_pearls(&mut self, now_millis: u64, owner_back: &Vec<bool>) -> (r: bool)
        requires
            owner_back@.len() == old(self).remove_occupant_if_player_gets_near@.len(),
        ensures
            final(self).remove_occupant_if_player_gets_near@
                == pending_kept(old(self).remove_occupant_if_player_gets_near@, owner_back@, now_millis),
            ({
                let pearls = returned_pearls(old(self).remove_occupant_if_player_gets_near@, owner_back@, now_millis);
                let cs = entries_view(old(self).config.chambers@);
                &&& entries_view(final(self).config.chambers@) == apply_rule(RuleView::Pearls(pearls), cs)
                &&& r == rule_drops_any(RuleView::Pearls(pearls), cs)
            }),
            terminals_view(final(self).config.lectern_redcoder_terminals@)
                == terminals_view(old(self).config.lectern_redcoder_terminals@),
            final(self).spawned_pearl_uuids@ == old(self).spawned_pearl_uuids@,
            final(self).expect_despawn_of@ == old(self).expect_despawn_of@,
    {
        let ghost pending = self.remove_occupant_if_player_gets_near@;
        let mut kept: Vec<PendingRemoval> = Vec::new();
        let mut pearls: Vec<u128> = Vec::new();
        let mut k: usize = 0;
        while k < self.remove_occupant_if_player_gets_near.len()
            invariant
                k <= pending.len(),
                pending == self.remove_occupant_if_player_gets_near@,
                owner_back@.len() == pending.len(),
                kept@ == pending_kept(pending.subrange(0, k as int), owner_back@, now_millis),
                pearls@ == returned_pearls(pending.subrange(0, k as int), owner_back@, now_millis),
            decreases pending.len() - k,
        {
            proof {
                assert(pending.subrange(0, k + 1).drop_last() =~= pending.subrange(0, k as int));
            }
            let entry = self.remove_occupant_if_player_gets_near[k];
            if entry.until_millis <= now_millis {
            } else if owner_back[k] {
                pearls.push(entry.pearl_uuid);
            } else {
                kept.push(entry);
            }
            k = k + 1;
        }
        proof {
            assert(pending.subrange(0, pending.len() as int) =~= pending);
        }
        self.remove_occupant_if_player_gets_near = kept;
        let rule = DropRule::Pearls(pearls);
        self.config.drop_occupants(&rule)
    }

    /// Drops uncertain occupants of the chambers with `definition`: those without pearl
    /// uuid (with `with_no_pearl_uuid`), without player uuid (`with_no_player_uuid`), or
    /// whose pearl is not among `present_pearls` (`pearl_not_found`: the chamber is close
    /// enough to judge and missing pearls count). Returns whether any was dropped.
    pub fn remove_uncertain_occupants(
        &mut self,
        definition: &StasisChamberDefinition,
        with_no_pearl_uuid: bool,
        with_no_player_uuid: bool,
        pearl_not_found: bool,
        present_pearls: &Vec<u128>,
    ) -> (r: bool)
        ensures
            ({
                let rule = RuleView::Uncertain(definition@, with_no_pearl_uuid, with_no_player_uuid, pearl_not_found, present_pearls@);
                let cs = entries_view(old(self).config.chambers@);
                &&& entries_view(final(self).config.chambers@) == apply_rule(rule, cs)
                &&& r == rule_drops_any(rule, cs)
            }),
            terminals_view(final(self).config.lectern_redcoder_terminals@)
                == terminals_view(old(self).config.lectern_redcoder_terminals@),
            final(self).remove_occupant_if_player_gets_near@ == old(self).remove_occupant_if_player_gets_near@,
    {
        let rule = DropRule::Uncertain {
            definition: definition.duplicate(),
            no_pearl_uuid: with_no_pearl_uuid,
            no_player_uuid: with_no_player_uuid,
            pearl_not_found,
            present: copy_pearls(present_pearls),
        };
        self.config.drop_occupants(&rule)
    }

    /// Drops all occupants of the chambers with `definition` (they held no pearl when
    /// pulled).
    pub fn clear_occupants(&mut self, definition: &StasisChamberDefinition) -> (r: bool)
        ensures
            entries_view(final(self).config.chambers@) == apply_rule(RuleView::All(definition@), entries_view(old(self).config.chambers@)),
            r == rule_drops_any(RuleView::All(definition@), entries_view(old(self).config.chambers@)),
            terminals_view(final(self).config.lectern_redcoder_terminals@)
                == terminals_view(old(self).config.lectern_redcoder_terminals@),
    {
        let rule = DropRule::All(definition.duplicate());
        self.config.drop_occupants(&rule)
    }
}

proof fn lemma_kept_is_filter(rule: RuleView, d: DefView, occupants: Seq<ChamberOccupant>)
    ensures
        kept_occupants(rule, d, occupants) == occupants.filter(|o: ChamberOccupant| !is_gone(rule, d, o)),
    decreases occupants.len(),
{
    reveal_with_fuel(Seq::filter, 1);
    if occupants.len() > 0 {
        lemma_kept_is_filter(rule, d, occupants.drop_last());
    }
}

/// When pearl `pearl` despawns, the chambers stay in place with the same definitions and
/// no occupant is added. An occupant of that pearl with a known thrower leaves its
/// chamber exactly when the chamber is close enough to judge and the despawn was
/// expected or the thrower stands at the chamber; every other occupant stays.
pub proof fn law_despawned_pearl_leaves(
    chambers: Seq<EntryView>,
    pearl: u128,
    expected: bool,
    owners_near: Seq<(u128, BlockPos)>,
    in_range: Seq<BlockPos>,
)
    ensures
        ({
            let after = apply_rule(RuleView::Despawned(pearl, expected, owners_near, in_range), chambers);
            &&& after.len() == chambers.len()
            &&& forall|i: int| 0 <= i < chambers.len() ==> (#[trigger] after[i]).def == chambers[i].def
            &&& forall|i: int, j: int| 0 <= i < chambers.len() && 0 <= j < chambers[i].occupants.len()
                && (chambers[i].occupants[j].pearl_uuid != Some(pearl) || chambers[i].occupants[j].player_uuid is None
                    || !in_range.contains(spec_rough_pos(chambers[i].def))
                    || (!expected && !owners_near.contains((chambers[i].occupants[j].player_uuid->0, spec_rough_pos(chambers[i].def)))))
                ==> after[i].occupants.contains(#[trigger] chambers[i].occupants[j])
            &&& forall|i: int, j: int| 0 <= i < chambers.len() && 0 <= j < after[i].occupants.len()
                && in_range.contains(spec_rough_pos(chambers[i].def))
                && (#[trigger] after[i].occupants[j]).pearl_uuid == Some(pearl)
                && after[i].occupants[j].player_uuid is Some
                ==> !expected && !owners_near.contains((after[i].occupants[j].player_uuid->0, spec_rough_pos(chambers[i].def)))
            &&& forall|i: int, j: int| 0 <= i < chambers.len() && 0 <= j < after[i].occupants.len()
                ==> chambers[i].occupants.contains(#[trigger] after[i].occupants[j])
        }),
{
    let rule = RuleView::Despawned(pearl, expected, owners_near, in_range);
    let after = apply_rule(rule, chambers);
    broadcast use vstd::seq_lib::group_filter_ensures;
    assert forall|i: int, j: int| 0 <= i < chambers.len() && 0 <= j < chambers[i].occupants.len()
        && (chambers[i].occupants[j].pearl_uuid != Some(pearl) || chambers[i].occupants[j].player_uuid is None
            || !in_range.contains(spec_rough_pos(chambers[i].def))
            || (!expected && !owners_near.contains((chambers[i].occupants[j].player_uuid->0, spec_rough_pos(chambers[i].def)))))
        implies after[i].occupants.contains(#[trigger] chambers[i].occupants[j]) by {
        lemma_kept_is_filter(rule, chambers[i].def, chambers[i].occupants);
        chambers[i].occupants.lemma_filter_contains(|o: ChamberOccupant| !is_gone(rule, chambers[i].def, o), j);
    }
    assert forall|i: int, j: int| 0 <= i < chambers.len() && 0 <= j < after[i].occupants.len()
        && in_range.contains(spec_rough_pos(chambers[i].def))
        && (#[trigger] after[i].occupants[j]).pearl_uuid == Some(pearl)
        && after[i].occupants[j].player_uuid is Some
        implies !expected && !owners_near.contains((after[i].occupants[j].player_uuid->0, spec_rough_pos(chambers[i].def))) by {
        lemma_kept_is_filter(rule, chambers[i].def, chambers[i].occupants);
        chambers[i].occupants.lemma_filter_pred(|o: ChamberOccupant| !is_gone(rule, chambers[i].def, o), j);
    }
    assert forall|i: int, j: int| 0 <= i < chambers.len() && 0 <= j < after[i].occupants.len()
        implies chambers[i].occupants.contains(#[trigger] after[i].occupants[j]) by {
        lemma_kept_is_filter(rule, chambers[i].def, chambers[i].occupants);
        let f = |o: ChamberOccupant| !is_gone(rule, chambers[i].def, o);
        assert(chambers[i].occupants.filter(f).contains(after[i].occupants[j]));
        chambers[i].occupants.lemma_filter_contains_rev(f, after[i].occupants[j]);
    }
}

/// Dropping uncertain occupants of chamber `def` touches no other chamber; in that
/// chamber an occupant goes exactly when a criterion switched on applies to it: no known
/// pearl, no known thrower, or a pearl that is not among those present. Clearing a
/// chamber empties it and touches no other.
pub proof fn law_uncertain_and_cleared_occupants(
    chambers: Seq<EntryView>,
    def: DefView,
    no_pearl: bool,
    no_player: bool,
    pearl_not_found: bool,
    present: Seq<u128>,
)
    ensures
        ({
            let after = apply_rule(RuleView::Uncertain(def, no_pearl, no_player, pearl_not_found, present), chambers);
            &&& after.len() == chambers.len()
            &&& forall|i: int| 0 <= i < chambers.len() && chambers[i].def != def ==> #[trigger] after[i] == chambers[i]
            &&& forall|i: int, j: int| 0 <= i < chambers.len() && 0 <= j < chambers[i].occupants.len()
                && chambers[i].def == def
                ==> (after[i].occupants.contains(#[trigger] chambers[i].occupants[j]) <== !(
                    (no_pearl && chambers[i].occupants[j].pearl_uuid is None)
                    || (no_player && chambers[i].occupants[j].player_uuid is None)
                    || (pearl_not_found && (chambers[i].occupants[j].pearl_uuid matches Some(p) && !present.contains(p)))))
            &&& forall|i: int, j: int| 0 <= i < chambers.len() && 0 <= j < after[i].occupants.len() && chambers[i].def == def
                ==> !((no_pearl && (#[trigger] after[i].occupants[j]).pearl_uuid is None)
                    || (no_player && after[i].occupants[j].player_uuid is None)
                    || (pearl_not_found && (after[i].occupants[j].pearl_uuid matches Some(p) && !present.contains(p))))
        }),
        ({
            let after = apply_rule(RuleView::All(def), chambers);
            &&& after.len() == chambers.len()
            &&& forall|i: int| 0 <= i < chambers.len() ==> (#[trigger] after[i]).def == chambers[i].def
                && (if chambers[i].def == def { after[i].occupants.len() == 0 } else { after[i] == chambers[i] })
        }),
{
    let rule = RuleView::Uncertain(def, no_pearl, no_player, pearl_not_found, present);
    let after = apply_rule(rule, chambers);
    broadcast use vstd::seq_lib::group_filter_ensures;
    assert forall|i: int| 0 <= i < chambers.len() && chambers[i].def != def implies #[trigger] after[i] == chambers[i] by {
        lemma_kept_none_gone(rule, chambers[i].def, chambers[i].occupants);
    }
    assert forall|i: int, j: int| 0 <= i < chambers.len() && 0 <= j < chambers[i].occupants.len()
        && chambers[i].def == def
        implies (after[i].occupants.contains(#[trigger] chambers[i].occupants[j]) <== !(
            (no_pearl && chambers[i].occupants[j].pearl_uuid is None)
            || (no_player && chambers[i].occupants[j].player_uuid is None)
            || (pearl_not_found && (chambers[i].occupants[j].pearl_uuid matches Some(p) && !present.contains(p))))) by {
        lemma_kept_is_filter(rule, chambers[i].def, chambers[i].occupants);
        if !is_gone(rule, chambers[i].def, chambers[i].occupants[j]) {
            chambers[i].occupants.lemma_filter_contains(|o: ChamberOccupant| !is_gone(rule, chambers[i].def, o), j);
        }
    }
    assert forall|i: int, j: int| 0 <= i < chambers.len() && 0 <= j < after[i].occupants.len() && chambers[i].def == def
        implies !((no_pearl && (#[trigger] after[i].occupants[j]).pearl_uuid is None)
            || (no_player && after[i].occupants[j].player_uuid is None)
            || (pearl_not_found && (after[i].occupants[j].pearl_uuid matches Some(p) && !present.contains(p)))) by {
        lemma_kept_is_filter(rule, chambers[i].def, chambers[i].occupants);
        chambers[i].occupants.lemma_filter_pred(|o: ChamberOccupant| !is_gone(rule, chambers[i].def, o), j);
    }
    let all = RuleView::All(def);
    let after2 = apply_rule(all, chambers);
    assert forall|i: int| 0 <= i < chambers.len() implies (#[trigger] after2[i]).def == chambers[i].def
        && (if chambers[i].def == def { after2[i].occupants.len() == 0 } else { after2[i] == chambers[i] }) by {
        if chambers[i].def == def {
            lemma_kept_is_filter(all, chambers[i].def, chambers[i].occupants);
            if after2[i].occupants.len() > 0 {
                chambers[i].occupants.lemma_filter_pred(|o: ChamberOccupant| !is_gone(all, chambers[i].def, o), 0);
            }
        } else {
            lemma_kept_none_gone(all, chambers[i].def, chambers[i].occupants);
        }
    }
}

proof fn lemma_kept_none_gone(rule: RuleView, d: DefView, occupants: Seq<ChamberOccupant>)
    requires
        forall|j: int| 0 <= j < occupants.len() ==> !is_gone(rule, d, #[trigger] occupants[j]),
    ensures
        kept_occupants(rule, d, occupants) == occupants,
    decreases occupants.len(),
{
    if occupants.len() > 0 {
        let init = occupants.drop_last();
        assert forall|j: int| 0 <= j < init.len() implies !is_gone(rule, d, #[trigger] init[j]) by {
            assert(init[j] == occupants[j]);
        }
        lemma_kept_none_gone(rule, d, init);
        assert(init.push(occupants.last()) =~= occupants);
    }
}

/// A check of the removals waiting on despawned pearls: one whose time ran out is
/// forgotten; one whose owner came back in time has its pearl's occupants removed (the
/// pearl is among those returned) and is done; any other keeps waiting. Nothing else is
/// kept or returned.
pub proof fn law_waiting_removals_settle(pending: Seq<PendingRemoval>, owner_back: Seq<bool>, now: u64)
    requires
        owner_back.len() == pending.len(),
    ensures
        forall|k: int| 0 <= k < pending.len() && pending[k].until_millis > now && !owner_back[k]
            ==> pending_kept(pending, owner_back, now).contains(#[trigger] pending[k]),
        forall|k: int| 0 <= k < pending.len() && pending[k].until_millis > now && #[trigger] owner_back[k]
            ==> returned_pearls(pending, owner_back, now).contains(pending[k].pearl_uuid),
        forall|x: PendingRemoval| #[trigger] pending_kept(pending, owner_back, now).contains(x) ==>
            exists|k: int| 0 <= k < pending.len() && #[trigger] pending[k] == x && x.until_millis > now && !owner_back[k],
        forall|p: u128| #[trigger] returned_pearls(pending, owner_back, now).contains(p) ==>
            exists|k: int| 0 <= k < pending.len() && #[trigger] pending[k].pearl_uuid == p
                && pending[k].until_millis > now && owner_back[k],
    decreases pending.len(),
{
    if pending.len() > 0 {
        let n = pending.len() - 1;
        lemma_waiting_removals_settle_prefix(pending, owner_back, now, n as nat);
        assert(pending.subrange(0, n + 1int) =~= pending);
    }
}

proof fn lemma_waiting_removals_settle_prefix(pending: Seq<PendingRemoval>, owner_back: Seq<bool>, now: u64, m: nat)
    requires
        owner_back.len() == pending.len(),
        m < pending.len(),
    ensures
        ({
            let p = pending.subrange(0, m + 1int);
            &&& forall|k: int| 0 <= k <= m && pending[k].until_millis > now && !owner_back[k]
                ==> pending_kept(p, owner_back, now).contains(#[trigger] pending[k])
            &&& forall|k: int| 0 <= k <= m && pending[k].until_millis > now && #[trigger] owner_back[k]
                ==> returned_pearls(p, owner_back, now).contains(pending[k].pearl_uuid)
            &&& forall|x: PendingRemoval| #[trigger] pending_kept(p, owner_back, now).contains(x) ==>
                exists|k: int| 0 <= k <= m && #[trigger] pending[k] == x && x.until_millis > now && !owner_back[k]
            &&& forall|q: u128| #[trigger] returned_pearls(p, owner_back, now).contains(q) ==>
                exists|k: int| 0 <= k <= m && #[trigger] pending[k].pearl_uuid == q
                    && pending[k].until_millis > now && owner_back[k]
        }),
    decreases m,
{
    let p = pending.subrange(0, m + 1int);
    let init = p.drop_last();
    let kept0 = pending_kept(init, owner_back, now);
    let ret0 = returned_pearls(init, owner_back, now);
    assert(p[m as int] == pending[m as int]);
    if m == 0 {
        assert(init.len() == 0);
        assert(kept0 == Seq::<PendingRemoval>::empty());
        assert(ret0 == Seq::<u128>::empty());
    } else {
        lemma_waiting_removals_settle_prefix(pending, owner_back, now, (m - 1) as nat);
        assert(init =~= pending.subrange(0, m as int));
    }
    let kept = pending_kept(p, owner_back, now);
    let ret = returned_pearls(p, owner_back, now);
    let e = pending[m as int];
    assert forall|k: int| 0 <= k <= m && pending[k].until_millis > now && !owner_back[k]
        implies kept.contains(#[trigger] pending[k]) by {
        if k == m {
            assert(kept == kept0.push(e));
            assert(kept[kept0.len() as int] == e);
        } else {
            let j = choose|j: int| 0 <= j < kept0.len() && kept0[j] == pending[k];
            if kept != kept0 {
                assert(kept[j] == kept0[j]);
            }
        }
    }
    assert forall|k: int| 0 <= k <= m && pending[k].until_millis > now && #[trigger] owner_back[k]
        implies ret.contains(pending[k].pearl_uuid) by {
        if k == m {
            assert(ret == ret0.push(e.pearl_uuid));
            assert(ret[ret0.len() as int] == e.pearl_uuid);
        } else {
            let j = choose|j: int| 0 <= j < ret0.len() && ret0[j] == pending[k].pearl_uuid;
            if ret != ret0 {
                assert(ret[j] == ret0[j]);
            }
        }
    }
    assert forall|x: PendingRemoval| #[trigger] kept.contains(x) implies
        exists|k: int| 0 <= k <= m && #[trigger] pending[k] == x && x.until_millis > now && !owner_back[k] by {
        let j = choose|j: int| 0 <= j < kept.len() && kept[j] == x;
        if j < kept0.len() {
            if kept != kept0 {
                assert(kept[j] == kept0[j]);
            }
            assert(kept0.contains(x));
        } else {
            assert(pending[m as int] == x);
        }
    }
    assert forall|q: u128| #[trigger] ret.contains(q) implies
        exists|k: int| 0 <= k <= m && #[trigger] pending[k].pearl_uuid == q
            && pending[k].until_millis > now && owner_back[k] by {
        let j = choose|j: int| 0 <= j < ret.len() && ret[j] == q;
        if j < ret0.len() {
            if ret != ret0 {
                assert(ret[j] == ret0[j]);
            }
            assert(ret0.contains(q));
        } else {
            assert(pending[m as int].pearl_uuid == q);
        }
    }
}

} // verus!
