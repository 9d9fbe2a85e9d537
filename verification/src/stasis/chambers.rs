//! The stasis module's bookkeeping: which chamber a pearl landed in, who owns which
//! chambers and in what order, and which occupants are dropped.

use vstd::prelude::*;
use std::collections::{HashMap, HashSet};
use crate::blockpos::BlockPos;
use crate::stasis::model::{
    StasisConfig, StasisChamberEntry, StasisChamberDefinition, ChamberOccupant, DefView, EntryView,
    entries_view, terminals_view, spec_rough_pos, is_trapdoor_kind,
};
use crate::stasis::column::{ColumnBlock, COLUMN_DEPTH, column_definition, column_fits, detect_chamber};

verus! {

/// Whether chamber definition `d` differs from `def` but lies close to it: its rough
/// position is straight above or below that of `def`, at most 5 blocks away.
pub open spec fn close_other(d: DefView, def: DefView) -> bool {
    &&& d != def
    &&& spec_rough_pos(d).x == spec_rough_pos(def).x
    &&& spec_rough_pos(d).z == spec_rough_pos(def).z
    &&& -5 <= spec_rough_pos(d).y - spec_rough_pos(def).y <= 5
}

/// Whether a chamber close to `def` is not a hand-flipped trapdoor chamber, so that a
/// new chamber `def` cannot be there.
pub open spec fn blocked_by_close(chambers: Seq<EntryView>, def: DefView) -> bool {
    exists|i: int| 0 <= i < chambers.len() && close_other(#[trigger] chambers[i].def, def) && !is_trapdoor_kind(chambers[i].def)
}

/// The chambers without those close to `def`, in order.
pub open spec fn drop_close(chambers: Seq<EntryView>, def: DefView) -> Seq<EntryView>
    decreases chambers.len(),
{
    if chambers.len() == 0 {
        chambers
    } else {
        let rest = drop_close(chambers.drop_last(), def);
        if close_other(chambers.last().def, def) { rest } else { rest.push(chambers.last()) }
    }
}

/// The first chamber from index `i` on with definition `def`.
pub open spec fn first_def_from(chambers: Seq<EntryView>, def: DefView, i: int) -> Option<int>
    decreases chambers.len() - i,
{
    if i < 0 || i >= chambers.len() {
        None
    } else if chambers[i].def == def {
        Some(i)
    } else {
        first_def_from(chambers, def, i + 1)
    }
}

/// The chambers, and the index of the chosen one, after a column showed chamber `def`.
/// Where a chamber close to it (see `close_other`) is not a trapdoor chamber, nothing
/// changes and no chamber is chosen. Else the close trapdoor chambers are dropped (the
/// trapdoors are taken to have moved), and the first chamber with `def` is chosen, or
/// one is added at the end with no occupants. Chambers elsewhere stay as they were.
pub open spec fn after_detection(chambers: Seq<EntryView>, def: DefView) -> (Seq<EntryView>, Option<int>) {
    if blocked_by_close(chambers, def) {
        (chambers, None)
    } else {
        let kept = drop_close(chambers, def);
        match first_def_from(kept, def, 0) {
            Some(i) => (kept, Some(i)),
            None => (kept.push(EntryView { def, occupants: Seq::empty() }), Some(kept.len() as int)),
        }
    }
}

/// The first chamber with definition `def`.
fn first_def_index(chambers: &Vec<StasisChamberEntry>, def: &StasisChamberDefinition) -> (r: Option<usize>)
    ensures
        index_view(r) == first_def_from(entries_view(chambers@), def@, 0),
        r matches Some(j) ==> j < chambers@.len(),
{
    let ghost kv = entries_view(chambers@);
    let mut j: usize = 0;
    while j < chambers.len()
        invariant
            j <= chambers@.len(),
            kv == entries_view(chambers@),
            first_def_from(kv, def@, j as int) == first_def_from(kv, def@, 0),
        decreases chambers@.len() - j,
    {
        proof {
            assert(kv[j as int].def == chambers@[j as int].definition@);
        }
        if chambers[j].definition.same_as(def) {
            return Some(j);
        }
        j = j + 1;
    }
    None
}

/// Whether `d` differs from `def` but lies close to it (see `close_other`).
fn is_close_other(d: &StasisChamberDefinition, def: &StasisChamberDefinition) -> (r: bool)
    ensures
        r == close_other(d@, def@),
{
    let a = d.rough_pos();
    let b = def.rough_pos();
    let dy: i64 = a.y as i64 - b.y as i64;
    !d.same_as(def) && a.x == b.x && a.z == b.z && -5 <= dy && dy <= 5
}

/// Whether a pearl in block `pearl` lies in a lectern or redstone chamber: straight
/// above or below its position, at most 8 blocks away.
pub open spec fn pearl_in_chamber(d: DefView, pearl: BlockPos) -> bool {
    &&& !is_trapdoor_kind(d)
    &&& spec_rough_pos(d).x == pearl.x
    &&& spec_rough_pos(d).z == pearl.z
    &&& -8 <= pearl.y - spec_rough_pos(d).y <= 8
}

/// The first chamber from index `i` on that holds the pearl.
pub open spec fn holding_index_from(chambers: Seq<EntryView>, pearl: BlockPos, i: int) -> Option<int>
    decreases chambers.len() - i,
{
    if i < 0 || i >= chambers.len() {
        None
    } else if pearl_in_chamber(chambers[i].def, pearl) {
        Some(i)
    } else {
        holding_index_from(chambers, pearl, i + 1)
    }
}

/// The chambers, and the index of the chosen one, after a pearl in block `pearl` was
/// seen with `column` below it: as `after_detection` says where the column shows a
/// hand-flipped chamber, else unchanged with the first chamber that holds the pearl.
pub open spec fn spec_chamber_for_pearl(
    chambers: Seq<EntryView>,
    column: Seq<Option<ColumnBlock>>,
    pearl: BlockPos,
) -> (Seq<EntryView>, Option<int>) {
    match column_definition(column, pearl) {
        Some(d) => after_detection(chambers, d),
        None => (chambers, holding_index_from(chambers, pearl, 0)),
    }
}

proof fn lemma_first_def_bounds(chambers: Seq<EntryView>, def: DefView, from: int)
    ensures
        first_def_from(chambers, def, from) matches Some(i) ==> 0 <= i < chambers.len(),
    decreases chambers.len() - from,
{
    if !(from < 0 || from >= chambers.len()) && chambers[from].def != def {
        lemma_first_def_bounds(chambers, def, from + 1);
    }
}

proof fn lemma_holding_bounds(chambers: Seq<EntryView>, pearl: BlockPos, from: int)
    ensures
        holding_index_from(chambers, pearl, from) matches Some(i) ==> 0 <= i < chambers.len(),
    decreases chambers.len() - from,
{
    if !(from < 0 || from >= chambers.len()) && !pearl_in_chamber(chambers[from].def, pearl) {
        lemma_holding_bounds(chambers, pearl, from + 1);
    }
}

/// The chamber chosen for a pearl is one of the chambers afterwards.
pub proof fn lemma_chosen_chamber_exists(chambers: Seq<EntryView>, column: Seq<Option<ColumnBlock>>, pearl: BlockPos)
    ensures
        spec_chamber_for_pearl(chambers, column, pearl).1 matches Some(i)
            ==> 0 <= i < spec_chamber_for_pearl(chambers, column, pearl).0.len(),
{
    match column_definition(column, pearl) {
        Some(d) => lemma_first_def_bounds(drop_close(chambers, d), d, 0),
        None => lemma_holding_bounds(chambers, pearl, 0),
    }
}

/// Whether a pearl is an occupant of any chamber.
pub open spec fn spec_is_known_pearl(chambers: Seq<EntryView>, pearl_uuid: u128) -> bool {
    exists|i: int, j: int| 0 <= i < chambers.len() && 0 <= j < chambers[i].occupants.len()
        && #[trigger] chambers[i].occupants[j].pearl_uuid == Some(pearl_uuid)
}

/// Whether any chamber holds a pearl thrown by `player`.
pub open spec fn spec_has_player_pearl(chambers: Seq<EntryView>, player: u128) -> bool {
    exists|i: int, j: int| 0 <= i < chambers.len() && 0 <= j < chambers[i].occupants.len()
        && #[trigger] chambers[i].occupants[j].player_uuid == Some(player)
}

/// The optional index as an integer.
pub open spec fn index_view(r: Option<usize>) -> Option<int> {
    match r {
        Some(i) => Some(i as int),
        None => None,
    }
}

proof fn lemma_entries_push(v: Seq<StasisChamberEntry>, e: StasisChamberEntry)
    ensures
        entries_view(v.push(e)) == entries_view(v).push(e@),
{
    assert(entries_view(v.push(e)) =~= entries_view(v).push(e@));
}

/// Whether an occupant list holds a pearl.
fn holds_pearl(occupants: &Vec<ChamberOccupant>, pearl_uuid: u128) -> (r: bool)
    ensures
        r == exists|j: int| 0 <= j < occupants@.len() && #[trigger] occupants@[j].pearl_uuid == Some(pearl_uuid),
{
    let mut j: usize = 0;
    while j < occupants.len()
        invariant
            j <= occupants@.len(),
            forall|k: int| 0 <= k < j ==> #[trigger] occupants@[k].pearl_uuid != Some(pearl_uuid),
        decreases occupants@.len() - j,
    {
        if occupants[j].pearl_uuid == Some(pearl_uuid) {
            return true;
        }
        j = j + 1;
    }
    false
}


/// The newest throw by `player` among the occupants (`None`: no occupant is theirs).
pub open spec fn newest_throw(occupants: Seq<ChamberOccupant>, player: u128) -> Option<i64>
    decreases occupants.len(),
{
    if occupants.len() == 0 {
        None
    } else {
        let rest = newest_throw(occupants.drop_last(), player);
        let o = occupants.last();
        if o.player_uuid == Some(player) {
            match rest {
                Some(t) => if o.thrown_at > t { Some(o.thrown_at) } else { Some(t) },
                None => Some(o.thrown_at),
            }
        } else {
            rest
        }
    }
}

/// When `player` last threw into a chamber with definition `def`: the newest throw of
/// theirs in the last such chamber that holds one (`None`: they own no such chamber).
pub open spec fn owned_time(chambers: Seq<EntryView>, player: u128, def: DefView) -> Option<i64>
    decreases chambers.len(),
{
    if chambers.len() == 0 {
        None
    } else {
        let c = chambers.last();
        if c.def == def && newest_throw(c.occupants, player) is Some {
            newest_throw(c.occupants, player)
        } else {
            owned_time(chambers.drop_last(), player, def)
        }
    }
}

/// Whether `r` lists each chamber definition that `player` owns once, newest throw first.
pub open spec fn is_ordered_chambers(chambers: Seq<EntryView>, player: u128, r: Seq<DefView>) -> bool {
    &&& forall|a: int| 0 <= a < r.len() ==> #[trigger] owned_time(chambers, player, r[a]) is Some
    &&& forall|a: int, b: int| 0 <= a < b < r.len()
        ==> owned_time(chambers, player, #[trigger] r[a])->0 >= owned_time(chambers, player, #[trigger] r[b])->0
    &&& forall|d: DefView| #[trigger] owned_time(chambers, player, d) is Some ==> exists|a: int| 0 <= a < r.len() && r[a] == d
    &&& forall|a: int, b: int| 0 <= a < b < r.len() ==> #[trigger] r[a] != #[trigger] r[b]
}

/// A list of definitions as values.
pub open spec fn defs_view(defs: Seq<StasisChamberDefinition>) -> Seq<DefView> {
    defs.map_values(|d: StasisChamberDefinition| d@)
}

/// A definition with a time, as values.
pub open spec fn timed_view(p: (StasisChamberDefinition, i64)) -> (DefView, i64) {
    (p.0@, p.1)
}

fn newest_throw_of(occupants: &Vec<ChamberOccupant>, player: u128) -> (r: Option<i64>)
    ensures
        r == newest_throw(occupants@, player),
{
    let mut newest: Option<i64> = None;
    let mut j: usize = 0;
    while j < occupants.len()
        invariant
            j <= occupants@.len(),
            newest == newest_throw(occupants@.subrange(0, j as int), player),
        decreases occupants@.len() - j,
    {
        proof {
            assert(occupants@.subrange(0, j + 1).drop_last() =~= occupants@.subrange(0, j as int));
        }
        let o = occupants[j];
        if o.player_uuid == Some(player) {
            newest = match newest {
                Some(t) => if o.thrown_at > t { Some(o.thrown_at) } else { Some(t) },
                None => Some(o.thrown_at),
            };
        }
        j = j + 1;
    }
    proof {
        assert(occupants@.subrange(0, occupants@.len() as int) =~= occupants@);
    }
    newest
}

/// The definitions of a player's chambers with the time of their newest throw into
/// each (one entry per definition), in chamber order.
fn owned_chambers(chambers: &Vec<StasisChamberEntry>, player: u128) -> (owned: Vec<(StasisChamberDefinition, i64)>)
    ensures
        forall|k: int| 0 <= k < owned@.len()
            ==> owned_time(entries_view(chambers@), player, #[trigger] owned@[k].0@) == Some(owned@[k].1),
        forall|d: DefView| #[trigger] owned_time(entries_view(chambers@), player, d) is Some
            ==> exists|k: int| 0 <= k < owned@.len() && owned@[k].0@ == d,
        forall|k1: int, k2: int| 0 <= k1 < k2 < owned@.len() ==> #[trigger] owned@[k1].0@ != #[trigger] owned@[k2].0@,
{
    let ghost cs = entries_view(chambers@);
    let mut owned: Vec<(StasisChamberDefinition, i64)> = Vec::new();
    let mut i: usize = 0;
    while i < chambers.len()
        invariant
            i <= chambers@.len(),
            cs == entries_view(chambers@),
            forall|k: int| 0 <= k < owned@.len()
                ==> owned_time(cs.subrange(0, i as int), player, #[trigger] owned@[k].0@) == Some(owned@[k].1),
            forall|d: DefView| #[trigger] owned_time(cs.subrange(0, i as int), player, d) is Some
                ==> exists|k: int| 0 <= k < owned@.len() && owned@[k].0@ == d,
            forall|k1: int, k2: int| 0 <= k1 < k2 < owned@.len() ==> #[trigger] owned@[k1].0@ != #[trigger] owned@[k2].0@,
        decreases chambers@.len() - i,
    {
        let ghost prev = cs.subrange(0, i as int);
        let ghost next = cs.subrange(0, i + 1);
        let ghost c = cs[i as int];
        proof {
            assert(next.drop_last() =~= prev);
            assert(next.last() == c);
            assert(c.occupants == chambers@[i as int].occupants@);
            assert(c.def == chambers@[i as int].definition@);
        }
        let newest = newest_throw_of(&chambers[i].occupants, player);
        match newest {
            None => {
                assert forall|d: DefView| owned_time(next, player, d) == owned_time(prev, player, d) by {}
            },
            Some(t) => {
                let def = &chambers[i].definition;
                let mut k: usize = 0;
                while k < owned.len()
                    invariant_except_break
                        k <= owned@.len(),
                        forall|m: int| 0 <= m < k ==> #[trigger] owned@[m].0@ != def@,
                    ensures
                        k <= owned@.len(),
                        forall|m: int| 0 <= m < k ==> #[trigger] owned@[m].0@ != def@,
                        k < owned@.len() ==> owned@[k as int].0@ == def@,
                    decreases owned@.len() - k,
                {
                    if owned[k].0.same_as(def) {
                        break;
                    }
                    k = k + 1;
                }
                let ghost before = owned@;
                assert forall|d: DefView| owned_time(next, player, d)
                    == if d == def@ { Some(t) } else { owned_time(prev, player, d) } by {}
                if k < owned.len() {
                    let entry = (def.duplicate(), t);
                    owned.set(k, entry);
                    assert forall|m: int| 0 <= m < owned@.len()
                        implies owned_time(next, player, #[trigger] owned@[m].0@) == Some(owned@[m].1) by {
                        if m != k {
                            assert(owned@[m] == before[m]);
                        }
                    }
                    assert forall|d: DefView| #[trigger] owned_time(next, player, d) is Some
                        implies exists|m: int| 0 <= m < owned@.len() && owned@[m].0@ == d by {
                        if d == def@ {
                            assert(owned@[k as int].0@ == d);
                        } else {
                            let m = choose|m: int| 0 <= m < before.len() && before[m].0@ == d;
                            assert(owned@[m].0@ == d);
                        }
                    }
                    assert forall|k1: int, k2: int| 0 <= k1 < k2 < owned@.len()
                        implies #[trigger] owned@[k1].0@ != #[trigger] owned@[k2].0@ by {
                        assert(before[k1].0@ != before[k2].0@);
                    }
                } else {
                    let entry = (def.duplicate(), t);
                    owned.push(entry);
                    assert forall|m: int| 0 <= m < owned@.len()
                        implies owned_time(next, player, #[trigger] owned@[m].0@) == Some(owned@[m].1) by {
                        if m < before.len() {
                            assert(owned@[m] == before[m]);
                        }
                    }
                    assert forall|d: DefView| #[trigger] owned_time(next, player, d) is Some
                        implies exists|m: int| 0 <= m < owned@.len() && owned@[m].0@ == d by {
                        if d == def@ {
                            assert(owned@[before.len() as int].0@ == d);
                        } else {
                            let m = choose|m: int| 0 <= m < before.len() && before[m].0@ == d;
                            assert(owned@[m].0@ == d);
                        }
                    }
                    assert forall|k1: int, k2: int| 0 <= k1 < k2 < owned@.len()
                        implies #[trigger] owned@[k1].0@ != #[trigger] owned@[k2].0@ by {
                        if k2 < before.len() {
                            assert(before[k1].0@ != before[k2].0@);
                        } else {
                            assert(owned@[k1] == before[k1]);
                        }
                    }
                }
            },
        }
        i = i + 1;
    }
    proof {
        assert(cs.subrange(0, cs.len() as int) =~= cs);
    }
    owned
}


/// Definitions with times as values.
pub open spec fn timed_seq(v: Seq<(StasisChamberDefinition, i64)>) -> Seq<(DefView, i64)> {
    v.map_values(|p: (StasisChamberDefinition, i64)| timed_view(p))
}

/// Whether times never increase along the list.
pub open spec fn newest_first(s: Seq<(DefView, i64)>) -> bool {
    forall|a: int, b: int| 0 <= a < b < s.len() ==> #[trigger] s[a].1 >= #[trigger] s[b].1
}

/// Whether no definition occurs twice in the list.
pub open spec fn distinct_defs(s: Seq<(DefView, i64)>) -> bool {
    forall|a: int, b: int| 0 <= a < b < s.len() ==> #[trigger] s[a].0 != #[trigger] s[b].0
}

proof fn lemma_contains_push<A>(s: Seq<A>, v: A)
    ensures
        forall|x: A| #[trigger] s.push(v).contains(x) <==> (s.contains(x) || x == v),
{
    assert forall|x: A| s.push(v).contains(x) implies (s.contains(x) || x == v) by {
        let a = choose|a: int| 0 <= a < s.len() + 1 && s.push(v)[a] == x;
        if a < s.len() {
            assert(s[a] == x);
        }
    }
    assert forall|x: A| (s.contains(x) || x == v) implies s.push(v).contains(x) by {
        if x == v {
            assert(s.push(v)[s.len() as int] == x);
        } else {
            let a = choose|a: int| 0 <= a < s.len() && s[a] == x;
            assert(s.push(v)[a] == x);
        }
    }
}

proof fn lemma_sorted_insert(before: Seq<(DefView, i64)>, p: int, item: (DefView, i64))
    requires
        0 <= p <= before.len(),
        newest_first(before),
        distinct_defs(before),
        forall|a: int| 0 <= a < p ==> #[trigger] before[a].1 >= item.1,
        p < before.len() ==> before[p].1 < item.1,
        forall|a: int| 0 <= a < before.len() ==> #[trigger] before[a].0 != item.0,
    ensures
        newest_first(before.insert(p, item)),
        distinct_defs(before.insert(p, item)),
        forall|x: (DefView, i64)| #[trigger] before.insert(p, item).contains(x) <==> (before.contains(x) || x == item),
{
    let s = before.insert(p, item);
    before.insert_ensures(p, item);
    assert forall|a: int| 0 <= a < s.len() implies
        #[trigger] s[a] == if a < p { before[a] } else if a == p { item } else { before[a - 1] } by {
        if a > p {
            assert(s[a] == before[a - 1]);
        }
    }
    assert forall|a: int| p < a < before.len() implies #[trigger] before[a].1 < item.1 by {
        assert(before[p].1 >= before[a].1);
    }
    assert forall|a: int, b: int| 0 <= a < b < s.len() implies #[trigger] s[a].1 >= #[trigger] s[b].1 by {
        if a > p {
            assert(before[a - 1].1 >= before[b - 1].1);
        } else if a < p && b < p {
            assert(before[a].1 >= before[b].1);
        } else if a < p && b > p {
            assert(before[a].1 >= before[b - 1].1);
        }
    }
    assert forall|a: int, b: int| 0 <= a < b < s.len() implies #[trigger] s[a].0 != #[trigger] s[b].0 by {
        if a > p {
            assert(before[a - 1].0 != before[b - 1].0);
        } else if a < p && b < p {
            assert(before[a].0 != before[b].0);
        } else if a < p && b > p {
            assert(before[a].0 != before[b - 1].0);
        }
    }
    assert forall|x: (DefView, i64)| s.contains(x) implies (before.contains(x) || x == item) by {
        let a = choose|a: int| 0 <= a < s.len() && s[a] == x;
        if a < p {
            assert(before[a] == x);
        } else if a > p {
            assert(before[a - 1] == x);
        }
    }
    assert forall|x: (DefView, i64)| (before.contains(x) || x == item) implies s.contains(x) by {
        if x == item {
            assert(s[p] == x);
        } else {
            let a = choose|a: int| 0 <= a < before.len() && before[a] == x;
            if a < p {
                assert(s[a] == x);
            } else {
                assert(s[a + 1] == x);
            }
        }
    }
}

/// Sorts definitions with times by time, newest first (equal times keep their order).
fn sort_newest_first(items: &Vec<(StasisChamberDefinition, i64)>) -> (r: Vec<(StasisChamberDefinition, i64)>)
    requires
        distinct_defs(timed_seq(items@)),
    ensures
        newest_first(timed_seq(r@)),
        distinct_defs(timed_seq(r@)),
        forall|x: (DefView, i64)| #[trigger] timed_seq(r@).contains(x) <==> timed_seq(items@).contains(x),
{
    let ghost src = timed_seq(items@);
    let mut sorted: Vec<(StasisChamberDefinition, i64)> = Vec::new();
    let mut i: usize = 0;
    while i < items.len()
        invariant
            i <= items@.len(),
            src == timed_seq(items@),
            distinct_defs(src),
            newest_first(timed_seq(sorted@)),
            distinct_defs(timed_seq(sorted@)),
            forall|x: (DefView, i64)| #[trigger] timed_seq(sorted@).contains(x) <==> src.subrange(0, i as int).contains(x),
        decreases items@.len() - i,
    {
        let t = items[i].1;
        let item = (items[i].0.duplicate(), t);
        let ghost sv = timed_seq(sorted@);
        let ghost iv = timed_view(item);
        assert(iv == src[i as int]);
        let mut p: usize = 0;
        while p < sorted.len()
            invariant_except_break
                p <= sorted@.len(),
                sv == timed_seq(sorted@),
                forall|a: int| 0 <= a < p ==> #[trigger] sv[a].1 >= t,
            ensures
                p <= sorted@.len(),
                forall|a: int| 0 <= a < p ==> #[trigger] sv[a].1 >= t,
                p < sorted@.len() ==> sv[p as int].1 < t,
            decreases sorted@.len() - p,
        {
            if sorted[p].1 < t {
                break;
            }
            p = p + 1;
        }
        proof {
            assert forall|a: int| 0 <= a < sv.len() implies #[trigger] sv[a].0 != iv.0 by {
                assert(sv[a] == timed_seq(sorted@)[a]);
                assert(timed_seq(sorted@).contains(sv[a]));
                assert(src.subrange(0, i as int).contains(sv[a]));
                let k = choose|k: int| 0 <= k < i && src.subrange(0, i as int)[k] == sv[a];
                assert(src[k].0 != src[i as int].0);
            }
            lemma_sorted_insert(sv, p as int, iv);
        }
        let ghost before = sorted@;
        sorted.insert(p, item);
        proof {
            assert(timed_seq(sorted@) =~= sv.insert(p as int, iv));
            assert(src.subrange(0, i + 1) =~= src.subrange(0, i as int).push(iv));
            lemma_contains_push(src.subrange(0, i as int), iv);
        }
        i = i + 1;
    }
    proof {
        assert(src.subrange(0, src.len() as int) =~= src);
    }
    sorted
}

impl StasisConfig {
    /// Whether a pearl is already an occupant of some chamber.
    pub fn is_known_pearl(&self, pearl_uuid: u128) -> (r: bool)
        ensures
            r == spec_is_known_pearl(entries_view(self.chambers@), pearl_uuid),
    {
        let ghost cs = entries_view(self.chambers@);
        let mut i: usize = 0;
        while i < self.chambers.len()
            invariant
                i <= self.chambers@.len(),
                cs == entries_view(self.chambers@),
                forall|a: int, b: int| 0 <= a < i && 0 <= b < cs[a].occupants.len()
                    ==> #[trigger] cs[a].occupants[b].pearl_uuid != Some(pearl_uuid),
            decreases self.chambers@.len() - i,
        {
            if holds_pearl(&self.chambers[i].occupants, pearl_uuid) {
                assert(cs[i as int].occupants == self.chambers@[i as int].occupants@);
                return true;
            }
            i = i + 1;
        }
        false
    }

    /// Whether any chamber holds a pearl thrown by `player`.
    pub fn has_player_pearl(&self, player: u128) -> (r: bool)
        ensures
            r == spec_has_player_pearl(entries_view(self.chambers@), player),
    {
        let ghost cs = entries_view(self.chambers@);
        let mut i: usize = 0;
        while i < self.chambers.len()
            invariant
                i <= self.chambers@.len(),
                cs == entries_view(self.chambers@),
                forall|a: int, b: int| 0 <= a < i && 0 <= b < cs[a].occupants.len()
                    ==> #[trigger] cs[a].occupants[b].player_uuid != Some(player),
            decreases self.chambers@.len() - i,
        {
            let occupants = &self.chambers[i].occupants;
            assert(cs[i as int].occupants == occupants@);
            let mut j: usize = 0;
            while j < occupants.len()
                invariant
                    j <= occupants@.len(),
                    i < self.chambers@.len(),
                    cs == entries_view(self.chambers@),
                    cs[i as int].occupants == occupants@,
                    forall|b: int| 0 <= b < j ==> #[trigger] occupants@[b].player_uuid != Some(player),
                decreases occupants@.len() - j,
            {
                if occupants[j].player_uuid == Some(player) {
                    return true;
                }
                j = j + 1;
            }
            i = i + 1;
        }
        false
    }

    /// The chamber a pearl in block `pearl_block_pos` went into, given the column of
    /// blocks read below it (see `detect_chamber`); its index, if one fits. Where the
    /// column shows a hand-flipped chamber, the chambers change as `after_detection`
    /// says (only chambers close to it are looked at); else the first lectern or redstone chamber holding the pearl is chosen.
    pub fn chamber_for_pearl_pos(
        &mut self,
        column: &Vec<Option<ColumnBlock>>,
        pearl_block_pos: BlockPos,
    ) -> (r: Option<usize>)
        requires
            column@.len() == COLUMN_DEPTH,
            column_fits(pearl_block_pos),
        ensures
            terminals_view(final(self).lectern_redcoder_terminals@) == terminals_view(old(self).lectern_redcoder_terminals@),
            (entries_view(final(self).chambers@), index_view(r))
                == spec_chamber_for_pearl(entries_view(old(self).chambers@), column@, pearl_block_pos),
            r matches Some(i) ==> i < final(self).chambers@.len(),
    {
        let detected = detect_chamber(column, pearl_block_pos);
        let ghost cs = entries_view(self.chambers@);
        match detected {
            Some(def) => {
                let mut i: usize = 0;
                while i < self.chambers.len()
                    invariant
                        i <= self.chambers@.len(),
                        cs == entries_view(self.chambers@),
                        column_definition(column@, pearl_block_pos) == Some(def@),
                        forall|k: int| 0 <= k < i ==> !(close_other(#[trigger] cs[k].def, def@) && !is_trapdoor_kind(cs[k].def)),
                    decreases self.chambers@.len() - i,
                {
                    let definition = &self.chambers[i].definition;
                    proof {
                        assert(cs[i as int].def == self.chambers@[i as int].definition@);
                    }
                    if is_close_other(definition, &def) && !definition.is_trapdoor() {
                        return None;
                    }
                    i = i + 1;
                }
                assert(!blocked_by_close(cs, def@));
                let mut kept: Vec<StasisChamberEntry> = Vec::new();
                let mut i: usize = 0;
                while i < self.chambers.len()
                    invariant
                        i <= self.chambers@.len(),
                        cs == entries_view(self.chambers@),
                        entries_view(kept@) == drop_close(cs.subrange(0, i as int), def@),
                    decreases self.chambers@.len() - i,
                {
                    proof {
                        assert(cs.subrange(0, i + 1).drop_last() =~= cs.subrange(0, i as int));
                        assert(cs[i as int].def == self.chambers@[i as int].definition@);
                    }
                    if !is_close_other(&self.chambers[i].definition, &def) {
                        let entry = self.chambers[i].duplicate();
                        proof { lemma_entries_push(kept@, entry); }
                        kept.push(entry);
                    }
                    i = i + 1;
                }
                proof {
                    assert(cs.subrange(0, cs.len() as int) =~= cs);
                }
                let ghost kv = entries_view(kept@);
                if let Some(j) = first_def_index(&kept, &def) {
                    self.chambers = kept;
                    return Some(j);
                }
                let n = kept.len();
                let entry = StasisChamberEntry { definition: def, occupants: Vec::new() };
                proof { lemma_entries_push(kept@, entry); }
                kept.push(entry);
                proof {
                    assert(entries_view(kept@) =~= kv.push(EntryView { def: def@, occupants: Seq::empty() }));
                }
                self.chambers = kept;
                Some(n)
            },
            None => {
                let mut i: usize = 0;
                while i < self.chambers.len()
                    invariant
                        i <= self.chambers@.len(),
                        cs == entries_view(self.chambers@),
                        column_definition(column@, pearl_block_pos) is None,
                        holding_index_from(cs, pearl_block_pos, i as int) == holding_index_from(cs, pearl_block_pos, 0),
                    decreases self.chambers@.len() - i,
                {
                    let definition = &self.chambers[i].definition;
                    let pos = definition.rough_pos();
                    let dy: i64 = pearl_block_pos.y as i64 - pos.y as i64;
                    if !definition.is_trapdoor() && pos.x == pearl_block_pos.x && pos.z == pearl_block_pos.z
                        && -8 <= dy && dy <= 8 {
                        assert(cs[i as int].def == self.chambers@[i as int].definition@);
                        assert(pearl_in_chamber(cs[i as int].def, pearl_block_pos));
                        return Some(i);
                    }
                    proof {
                        assert(cs[i as int].def == self.chambers@[i as int].definition@);
                    }
                    i = i + 1;
                }
                None
            },
        }
    }
}

/// A pearl that disappeared while its owner was not seen at the chamber: its occupant is
/// dropped if the owner shows up near the chamber before the deadline.
#[derive(Debug, Copy, Clone, PartialEq, Eq, Structural)]
pub struct PendingRemoval {
    pub pearl_uuid: u128,
    pub chamber_pos: BlockPos,
    pub player_uuid: u128,
    /// Milliseconds on the module's clock.
    pub until_millis: u64,
}

/// A player's progress in adding lectern chambers one after the other by interacting.
#[derive(Debug, Clone)]
pub struct MassAdding {
    pub terminal_id: String,
    pub is_shay: bool,
    pub next_index: usize,
}

/// The stasis module: its settings, the configuration and what it tracks of pearls.
#[derive(Debug)]
pub struct StasisModule {
    pub do_reopen_trapdoor: bool,
    pub max_pearls: Option<u32>,
    pub config: StasisConfig,
    pub last_idle_pos: Option<BlockPos>,
    /// The pearl uuid of each pearl entity seen spawning, by entity id.
    pub spawned_pearl_uuids: HashMap<i32, u128>,
    pub expect_despawn_of: HashSet<u128>,
    pub remove_occupant_if_player_gets_near: Vec<PendingRemoval>,
    /// Players adding lectern chambers one after the other, by uuid.
    pub mass_adding: HashMap<u128, MassAdding>,
}

impl StasisModule {
    /// A module with an empty configuration that tracks nothing yet.
    pub fn new(do_reopen_trapdoor: bool, max_pearls: Option<u32>) -> (r: StasisModule)
        ensures
            r.do_reopen_trapdoor == do_reopen_trapdoor,
            r.max_pearls == max_pearls,
            r.config.chambers@.len() == 0,
            r.config.lectern_redcoder_terminals@.len() == 0,
            r.last_idle_pos is None,
            r.spawned_pearl_uuids@ == Map::<i32, u128>::empty(),
            r.expect_despawn_of@ == Set::<u128>::empty(),
            r.remove_occupant_if_player_gets_near@.len() == 0,
            r.mass_adding@ == Map::<u128, MassAdding>::empty(),
    {
        StasisModule {
            do_reopen_trapdoor,
            max_pearls,
            config: StasisConfig::new(),
            last_idle_pos: None,
            spawned_pearl_uuids: HashMap::new(),
            expect_despawn_of: HashSet::new(),
            remove_occupant_if_player_gets_near: Vec::new(),
            mass_adding: HashMap::new(),
        }
    }

    /// The definitions of the chambers `player` threw pearls into, each once, the one
    /// with the newest throw first.
    pub fn get_ordered_chambers(&self, player_uuid: u128) -> (r: Vec<StasisChamberDefinition>)
        ensures
            is_ordered_chambers(entries_view(self.config.chambers@), player_uuid, defs_view(r@)),
    {
        let ghost cs = entries_view(self.config.chambers@);
        let owned = owned_chambers(&self.config.chambers, player_uuid);
        let ghost ov = timed_seq(owned@);
        proof {
            assert forall|a: int, b: int| 0 <= a < b < ov.len() implies #[trigger] ov[a].0 != #[trigger] ov[b].0 by {
                assert(owned@[a].0@ != owned@[b].0@);
            }
        }
        let sorted = sort_newest_first(&owned);
        let ghost sv = timed_seq(sorted@);
        proof {
            assert forall|a: int| 0 <= a < sv.len() implies #[trigger] owned_time(cs, player_uuid, sv[a].0) == Some(sv[a].1) by {
                assert(sv.contains(sv[a]));
                let k = choose|k: int| 0 <= k < ov.len() && ov[k] == sv[a];
                assert(owned_time(cs, player_uuid, owned@[k].0@) == Some(owned@[k].1));
            }
        }
        let mut r: Vec<StasisChamberDefinition> = Vec::new();
        let mut a: usize = 0;
        while a < sorted.len()
            invariant
                a <= sorted@.len(),
                sv == timed_seq(sorted@),
                defs_view(r@) == sv.subrange(0, a as int).map_values(|p: (DefView, i64)| p.0),
            decreases sorted@.len() - a,
        {
            let d = sorted[a].0.duplicate();
            let ghost prev = r@;
            r.push(d);
            proof {
                assert(defs_view(r@) =~= defs_view(prev).push(d@));
                assert(sv.subrange(0, a + 1).map_values(|p: (DefView, i64)| p.0)
                    =~= sv.subrange(0, a as int).map_values(|p: (DefView, i64)| p.0).push(sv[a as int].0));
            }
            a = a + 1;
        }
        proof {
            let rv = defs_view(r@);
            assert(sv.subrange(0, sv.len() as int) =~= sv);
            assert(forall|a: int| 0 <= a < rv.len() ==> #[trigger] rv[a] == sv[a].0);
            assert forall|d: DefView| #[trigger] owned_time(cs, player_uuid, d) is Some implies
                exists|a: int| 0 <= a < rv.len() && rv[a] == d by {
                let k = choose|k: int| 0 <= k < owned@.len() && owned@[k].0@ == d;
                assert(ov[k] == timed_view(owned@[k]));
                assert(ov.contains(ov[k]));
                assert(sv.contains(ov[k]));
                let a = choose|a: int| 0 <= a < sv.len() && sv[a] == ov[k];
                assert(rv[a] == d);
            }
            assert forall|a: int, b: int| 0 <= a < b < rv.len() implies
                owned_time(cs, player_uuid, #[trigger] rv[a])->0 >= owned_time(cs, player_uuid, #[trigger] rv[b])->0 by {
                assert(owned_time(cs, player_uuid, sv[a].0) == Some(sv[a].1));
                assert(owned_time(cs, player_uuid, sv[b].0) == Some(sv[b].1));
                assert(sv[a].1 >= sv[b].1);
            }
            assert forall|a: int, b: int| 0 <= a < b < rv.len() implies #[trigger] rv[a] != #[trigger] rv[b] by {
                assert(sv[a].0 != sv[b].0);
            }
            assert forall|a: int| 0 <= a < rv.len() implies #[trigger] owned_time(cs, player_uuid, rv[a]) is Some by {
                assert(owned_time(cs, player_uuid, sv[a].0) == Some(sv[a].1));
            }
        }
        r
    }
}

proof fn lemma_drop_close_members(chambers: Seq<EntryView>, def: DefView)
    ensures
        forall|k: int| 0 <= k < drop_close(chambers, def).len() ==>
            !close_other(#[trigger] drop_close(chambers, def)[k].def, def)
            && chambers.contains(drop_close(chambers, def)[k]),
        forall|k: int| 0 <= k < chambers.len() && !close_other(#[trigger] chambers[k].def, def)
            ==> drop_close(chambers, def).contains(chambers[k]),
    decreases chambers.len(),
{
    if chambers.len() > 0 {
        let init = chambers.drop_last();
        lemma_drop_close_members(init, def);
        let rest = drop_close(init, def);
        assert forall|k: int| 0 <= k < init.len() implies #[trigger] chambers[k] == init[k] by {}
        if close_other(chambers.last().def, def) {
            assert forall|k: int| 0 <= k < rest.len() implies chambers.contains(#[trigger] rest[k]) by {
                assert(!close_other(drop_close(init, def)[k].def, def) && init.contains(drop_close(init, def)[k]));
                let j = choose|j: int| 0 <= j < init.len() && init[j] == rest[k];
                assert(chambers[j] == rest[k]);
            }
            assert forall|k: int| 0 <= k < chambers.len() && !close_other(#[trigger] chambers[k].def, def)
                implies rest.contains(chambers[k]) by {
                assert(k < init.len());
                assert(chambers[k] == init[k]);
            }
        } else {
            let out = rest.push(chambers.last());
            assert forall|k: int| 0 <= k < out.len() implies
                !close_other(#[trigger] out[k].def, def) && chambers.contains(out[k]) by {
                if k < rest.len() {
                    assert(out[k] == rest[k]);
                    let j = choose|j: int| 0 <= j < init.len() && init[j] == rest[k];
                    assert(chambers[j] == rest[k]);
                } else {
                    assert(out[k] == chambers[chambers.len() - 1]);
                }
            }
            assert forall|k: int| 0 <= k < chambers.len() && !close_other(#[trigger] chambers[k].def, def)
                implies out.contains(chambers[k]) by {
                if k < init.len() {
                    assert(chambers[k] == init[k]);
                    let j = choose|j: int| 0 <= j < rest.len() && rest[j] == init[k];
                    assert(out[j] == rest[j]);
                } else {
                    assert(out[rest.len() as int] == chambers[k]);
                }
            }
        }
    }
}

proof fn lemma_first_def_found(chambers: Seq<EntryView>, def: DefView, from: int)
    requires
        0 <= from,
    ensures
        first_def_from(chambers, def, from) matches Some(i) ==> from <= i < chambers.len() && chambers[i].def == def,
        first_def_from(chambers, def, from) is None ==> forall|k: int| from <= k < chambers.len() ==> #[trigger] chambers[k].def != def,
    decreases chambers.len() - from,
{
    if from < chambers.len() && chambers[from].def != def {
        lemma_first_def_found(chambers, def, from + 1);
    }
}

proof fn lemma_holding_found(chambers: Seq<EntryView>, pearl: BlockPos, from: int)
    requires
        0 <= from,
    ensures
        holding_index_from(chambers, pearl, from) matches Some(i) ==> from <= i < chambers.len()
            && pearl_in_chamber(chambers[i].def, pearl),
        holding_index_from(chambers, pearl, from) is None ==>
            forall|k: int| from <= k < chambers.len() ==> !pearl_in_chamber(#[trigger] chambers[k].def, pearl),
    decreases chambers.len() - from,
{
    if from < chambers.len() && !pearl_in_chamber(chambers[from].def, pearl) {
        lemma_holding_found(chambers, pearl, from + 1);
    }
}

/// Where a seen pearl goes. Where the column below it shows a hand-flipped chamber `d`:
/// unless another chamber within 5 blocks straight above or below is not a trapdoor
/// chamber (then nothing changes and no chamber is chosen), the chosen chamber is one
/// with definition `d`, keeping the occupants of the first such chamber if there was
/// one (a new one has none), and every chamber not close to `d` is still there. Where
/// the column shows no such chamber, the chambers stay as they were, and the chosen one
/// is a lectern or redstone chamber within 8 blocks straight above or below the pearl;
/// none is chosen only where no chamber is.
pub proof fn law_pearl_goes_to_its_chamber(
    chambers: Seq<EntryView>,
    column: Seq<Option<ColumnBlock>>,
    pearl: BlockPos,
)
    ensures
        ({
            let (after, chosen) = spec_chamber_for_pearl(chambers, column, pearl);
            match column_definition(column, pearl) {
                Some(d) => {
                    let near_other = exists|k: int| 0 <= k < chambers.len()
                        && #[trigger] chambers[k].def != d
                        && spec_rough_pos(chambers[k].def).x == spec_rough_pos(d).x
                        && spec_rough_pos(chambers[k].def).z == spec_rough_pos(d).z
                        && -5 <= spec_rough_pos(chambers[k].def).y - spec_rough_pos(d).y <= 5
                        && !(chambers[k].def is Flippable || chambers[k].def is Secured);
                    &&& near_other ==> after == chambers && chosen is None
                    &&& !near_other ==> (chosen matches Some(i) && 0 <= i < after.len() && after[i].def == d
                        && (forall|k: int| 0 <= k < chambers.len() && chambers[k].def == d
                            && (forall|j: int| 0 <= j < k ==> #[trigger] chambers[j].def != d)
                            ==> after[i] == #[trigger] chambers[k])
                        && ((forall|k: int| 0 <= k < chambers.len() ==> #[trigger] chambers[k].def != d)
                            ==> after[i].occupants.len() == 0))
                    &&& forall|k: int| 0 <= k < chambers.len() && !(chambers[k].def != d
                        && spec_rough_pos(chambers[k].def).x == spec_rough_pos(d).x
                        && spec_rough_pos(chambers[k].def).z == spec_rough_pos(d).z
                        && -5 <= spec_rough_pos(chambers[k].def).y - spec_rough_pos(d).y <= 5)
                        ==> after.contains(#[trigger] chambers[k])
                },
                None => {
                    &&& after == chambers
                    &&& chosen matches Some(i) ==> (0 <= i < chambers.len()
                        && !(chambers[i].def is Flippable || chambers[i].def is Secured)
                        && spec_rough_pos(chambers[i].def).x == pearl.x
                        && spec_rough_pos(chambers[i].def).z == pearl.z
                        && -8 <= pearl.y - spec_rough_pos(chambers[i].def).y <= 8)
                    &&& chosen is None ==> forall|k: int| 0 <= k < chambers.len() ==> !(
                        !(#[trigger] chambers[k].def is Flippable || chambers[k].def is Secured)
                        && spec_rough_pos(chambers[k].def).x == pearl.x
                        && spec_rough_pos(chambers[k].def).z == pearl.z
                        && -8 <= pearl.y - spec_rough_pos(chambers[k].def).y <= 8)
                },
            }
        }),
{
    match column_definition(column, pearl) {
        Some(d) => {
            lemma_drop_close_members(chambers, d);
            let kept = drop_close(chambers, d);
            lemma_first_def_found(kept, d, 0);
            if blocked_by_close(chambers, d) {
                let k = choose|k: int| 0 <= k < chambers.len() && close_other(#[trigger] chambers[k].def, d)
                    && !is_trapdoor_kind(chambers[k].def);
                assert(chambers[k].def != d);
            } else {
                assert forall|k: int| 0 <= k < chambers.len() && chambers[k].def == d
                    && (forall|j: int| 0 <= j < k ==> #[trigger] chambers[j].def != d)
                    implies spec_chamber_for_pearl(chambers, column, pearl).0[spec_chamber_for_pearl(chambers, column, pearl).1->Some_0] == #[trigger] chambers[k] by {
                    lemma_first_is_kept(chambers, d, k);
                }
                assert forall|k: int| 0 <= k < chambers.len() && !close_other(chambers[k].def, d)
                    implies spec_chamber_for_pearl(chambers, column, pearl).0.contains(#[trigger] chambers[k]) by {
                    if first_def_from(kept, d, 0) is None {
                        let j = choose|j: int| 0 <= j < kept.len() && kept[j] == chambers[k];
                        assert(kept.push(EntryView { def: d, occupants: Seq::empty() })[j] == kept[j]);
                    }
                }
            }
        },
        None => {
            lemma_holding_found(chambers, pearl, 0);
        },
    }
}

/// The first chamber with definition `def` is the first such one kept after dropping the
/// chambers close to `def` (it is not close to `def`, having that very definition).
proof fn lemma_first_is_kept(chambers: Seq<EntryView>, def: DefView, k: int)
    requires
        0 <= k < chambers.len(),
        chambers[k].def == def,
        forall|j: int| 0 <= j < k ==> #[trigger] chambers[j].def != def,
    ensures
        first_def_from(drop_close(chambers, def), def, 0) matches Some(i)
            && drop_close(chambers, def)[i] == chambers[k],
    decreases chambers.len(),
{
    let init = chambers.drop_last();
    if k < chambers.len() - 1 {
        lemma_first_is_kept(init, def, k);
        let rest = drop_close(init, def);
        let i = first_def_from(rest, def, 0)->Some_0;
        lemma_first_def_found(rest, def, 0);
        if !close_other(chambers.last().def, def) {
            lemma_first_def_prefix(rest, chambers.last(), def, 0);
        }
    } else {
        lemma_drop_close_members(init, def);
        let rest = drop_close(init, def);
        assert forall|j: int| 0 <= j < rest.len() implies #[trigger] rest[j].def != def by {
            let m = choose|m: int| 0 <= m < init.len() && init[m] == rest[j];
            assert(init[m] == chambers[m]);
        }
        assert(!close_other(chambers.last().def, def));
        lemma_first_def_found(rest, def, 0);
        lemma_first_def_at_end(rest, chambers.last(), def, 0);
    }
}

proof fn lemma_first_def_prefix(s: Seq<EntryView>, e: EntryView, def: DefView, from: int)
    requires
        0 <= from,
        first_def_from(s, def, from) is Some,
    ensures
        first_def_from(s.push(e), def, from) == first_def_from(s, def, from),
    decreases s.len() - from,
{
    if from < s.len() && s[from].def != def {
        lemma_first_def_prefix(s, e, def, from + 1);
    }
    if from < s.len() {
        assert(s.push(e)[from] == s[from]);
    }
}

proof fn lemma_first_def_at_end(s: Seq<EntryView>, e: EntryView, def: DefView, from: int)
    requires
        0 <= from <= s.len(),
        e.def == def,
        forall|j: int| from <= j < s.len() ==> #[trigger] s[j].def != def,
    ensures
        first_def_from(s.push(e), def, from) == Some(s.len() as int),
    decreases s.len() - from,
{
    if from < s.len() {
        assert(s.push(e)[from] == s[from]);
        lemma_first_def_at_end(s, e, def, from + 1);
    }
}

} // verus!
