//! Putting armor on and taking it off: which inventory slots to shift-click.
//!
//! The armor slots of the player's inventory are 5 (head) to 8 (feet).

use vstd::prelude::*;
use vstd::string::*;
use crate::text::{dec, push_dec, ends_with, str_eq, is_suffix};

verus! {

/// The armor slot an item goes to, by its identifier: helmets to 5, chestplates and
/// the elytra to 6, leggings to 7, boots to 8.
pub open spec fn armor_slot(name: Seq<char>) -> Option<nat> {
    if is_suffix("_helmet"@, name) {
        Some(5)
    } else if is_suffix("_chestplate"@, name) || name == "minecraft:elytra"@ {
        Some(6)
    } else if is_suffix("_leggings"@, name) {
        Some(7)
    } else if is_suffix("_boots"@, name) {
        Some(8)
    } else {
        None
    }
}

/// The slots to shift-click to put armor on, in order, and which armor slots they fill
/// (`taken[k]`: slot `5 + k`): going through the inventory slots (`items`: each slot
/// with the identifier of the item in it, if any), an armor item is moved where its
/// armor slot is empty (`armor_present[k]`: slot `5 + k` holds something) and no
/// earlier item was moved there.
pub open spec fn equip_plan(items: Seq<(usize, Option<Seq<char>>)>, armor_present: Seq<bool>) -> (Seq<usize>, Seq<bool>)
    decreases items.len(),
{
    if items.len() == 0 {
        (Seq::empty(), seq![false, false, false, false])
    } else {
        let (clicks, taken) = equip_plan(items.drop_last(), armor_present);
        let (slot, name) = items.last();
        match name {
            Some(n) => match armor_slot(n) {
                Some(t) => if !taken[t - 5] && !armor_present[t - 5] {
                    (clicks.push(slot), taken.update(t - 5, true))
                } else {
                    (clicks, taken)
                },
                None => (clicks, taken),
            },
            None => (clicks, taken),
        }
    }
}

/// How many of the flags are set.
pub open spec fn count_set(flags: Seq<bool>) -> nat
    decreases flags.len(),
{
    if flags.len() == 0 {
        0
    } else {
        count_set(flags.drop_last()) + if flags.last() { 1nat } else { 0nat }
    }
}

/// The armor slots holding something, in order (`armor_present[k]`: slot `5 + k`).
pub open spec fn unequip_clicks(armor_present: Seq<bool>) -> Seq<usize>
    decreases armor_present.len(),
{
    if armor_present.len() == 0 {
        Seq::empty()
    } else {
        let rest = unequip_clicks(armor_present.drop_last());
        if armor_present.last() { rest.push((5 + armor_present.len() - 1) as usize) } else { rest }
    }
}

/// The slots to shift-click and what to tell the player.
#[derive(Debug)]
pub struct ArmorPlan {
    pub clicks: Vec<usize>,
    pub reply: String,
}

/// The armor slot an item with this identifier goes to.
fn armor_slot_of(name: &str) -> (r: Option<usize>)
    ensures
        match armor_slot(name@) {
            Some(t) => r == Some(t as usize),
            None => r is None,
        },
{
    if ends_with(name, "_helmet") {
        Some(5)
    } else if ends_with(name, "_chestplate") || str_eq(name, "minecraft:elytra") {
        Some(6)
    } else if ends_with(name, "_leggings") {
        Some(7)
    } else if ends_with(name, "_boots") {
        Some(8)
    } else {
        None
    }
}

proof fn lemma_count_update(flags: Seq<bool>, k: int)
    requires
        0 <= k < flags.len(),
        !flags[k],
    ensures
        count_set(flags.update(k, true)) == count_set(flags) + 1,
    decreases flags.len(),
{
    if k < flags.len() - 1 {
        assert(flags.update(k, true).drop_last() =~= flags.drop_last().update(k, true));
        lemma_count_update(flags.drop_last(), k);
    } else {
        assert(flags.update(k, true).drop_last() =~= flags.drop_last());
    }
}

proof fn lemma_count_at_most(flags: Seq<bool>)
    ensures
        count_set(flags) <= flags.len(),
    decreases flags.len(),
{
    if flags.len() > 0 {
        lemma_count_at_most(flags.drop_last());
    }
}

/// `!equip`: the slots to shift-click to put armor on (see `equip_plan`), and the reply
/// `Equipped <n> armor pieces!` with the number of armor slots filled.
pub fn plan_equip(items: &Vec<(usize, Option<String>)>, armor_present: &Vec<bool>) -> (r: ArmorPlan)
    requires
        armor_present@.len() == 4,
    ensures
        ({
            let (clicks, taken) = equip_plan(items@.map_values(|p: (usize, Option<String>)| (p.0, match p.1 {
                Some(n) => Some(n@),
                None => None,
            })), armor_present@);
            &&& r.clicks@ == clicks
            &&& r.reply@ == "Equipped "@ + dec(count_set(taken)) + " armor pieces!"@
        }),
{
    let ghost view = items@.map_values(|p: (usize, Option<String>)| (p.0, match p.1 {
        Some(n) => Some(n@),
        None => None,
    }));
    let mut clicks: Vec<usize> = Vec::new();
    let mut taken: Vec<bool> = vec![false, false, false, false];
    let mut count: u64 = 0;
    let mut i: usize = 0;
    proof {
        assert(equip_plan(view.subrange(0, 0), armor_present@) == (Seq::<usize>::empty(), seq![false, false, false, false]));
        assert(taken@ =~= seq![false, false, false, false]);
        reveal_with_fuel(count_set, 5);
        assert(count_set(seq![false, false, false, false]) == 0);
    }
    while i < items.len()
        invariant
            i <= items@.len(),
            armor_present@.len() == 4,
            view == items@.map_values(|p: (usize, Option<String>)| (p.0, match p.1 {
                Some(n) => Some(n@),
                None => None,
            })),
            taken@.len() == 4,
            (clicks@, taken@) == equip_plan(view.subrange(0, i as int), armor_present@),
            count == count_set(taken@),
        decreases items@.len() - i,
    {
        proof {
            assert(view.subrange(0, i + 1).drop_last() =~= view.subrange(0, i as int));
            assert(view.subrange(0, i + 1).last() == view[i as int]);
            lemma_count_at_most(taken@);
        }
        let (slot, name) = &items[i];
        if let Some(n) = name {
            if let Some(t) = armor_slot_of(n.as_str()) {
                let k = t - 5;
                if !taken[k] && !armor_present[k] {
                    proof {
                        lemma_count_update(taken@, k as int);
                    }
                    clicks.push(*slot);
                    taken.set(k, true);
                    count = count + 1;
                }
            }
        }
        i = i + 1;
    }
    proof {
        assert(view.subrange(0, items@.len() as int) =~= view);
    }
    let mut reply = String::from_str("Equipped ");
    push_dec(&mut reply, count);
    reply.append(" armor pieces!");
    ArmorPlan { clicks, reply }
}

/// `!unequip`: the armor slots holding something, to shift-click, and the reply
/// `Unequipped <n> armor pieces!`.
pub fn plan_unequip(armor_present: &Vec<bool>) -> (r: ArmorPlan)
    requires
        armor_present@.len() == 4,
    ensures
        r.clicks@ == unequip_clicks(armor_present@),
        r.reply@ == "Unequipped "@ + dec(unequip_clicks(armor_present@).len()) + " armor pieces!"@,
{
    let mut clicks: Vec<usize> = Vec::new();
    let mut k: usize = 0;
    while k < 4
        invariant
            k <= 4,
            armor_present@.len() == 4,
            clicks@ == unequip_clicks(armor_present@.subrange(0, k as int)),
            clicks@.len() <= k,
        decreases 4 - k,
    {
        proof {
            assert(armor_present@.subrange(0, k + 1).drop_last() =~= armor_present@.subrange(0, k as int));
        }
        if armor_present[k] {
            clicks.push(5 + k);
        }
        k = k + 1;
    }
    proof {
        assert(armor_present@.subrange(0, 4) =~= armor_present@);
    }
    let mut reply = String::from_str("Unequipped ");
    push_dec(&mut reply, clicks.len() as u64);
    reply.append(" armor pieces!");
    ArmorPlan { clicks, reply }
}

/// Putting armor on fills each empty armor slot that some inventory item fits, and no
/// other: a slot already holding something is never filled; each click is the inventory
/// slot of an armor item and fills one armor slot, so there are as many clicks as slots
/// filled.
pub proof fn law_equip_fills_empty_slots(items: Seq<(usize, Option<Seq<char>>)>, armor_present: Seq<bool>)
    requires
        armor_present.len() == 4,
    ensures
        ({
            let (clicks, taken) = equip_plan(items, armor_present);
            &&& taken.len() == 4
            &&& forall|k: int| 0 <= k < 4 ==> (#[trigger] taken[k] ==> !armor_present[k])
            &&& forall|k: int, j: int| 0 <= k < 4 && 0 <= j < items.len() && !armor_present[k]
                && ((#[trigger] items[j]).1 matches Some(n) && armor_slot(n) == Some((5 + k) as nat))
                ==> #[trigger] taken[k]
            &&& clicks.len() == count_set(taken)
            &&& forall|c: int| 0 <= c < clicks.len() ==> exists|j: int| 0 <= j < items.len()
                && (#[trigger] items[j]).0 == #[trigger] clicks[c]
                && (items[j].1 matches Some(n) && armor_slot(n) is Some)
        }),
    decreases items.len(),
{
    if items.len() == 0 {
        assert(count_set(seq![false, false, false, false]) == 0) by {
            reveal_with_fuel(count_set, 5);
        }
    } else {
        let init = items.drop_last();
        law_equip_fills_empty_slots(init, armor_present);
        let (clicks, taken) = equip_plan(init, armor_present);
        let (slot, name) = items.last();
        assert forall|j: int| 0 <= j < init.len() implies #[trigger] items[j] == init[j] by {}
        if let Some(n) = name {
            if let Some(t) = armor_slot(n) {
                if !taken[t - 5] && !armor_present[t - 5] {
                    lemma_count_update(taken, t - 5);
                    let c2 = clicks.push(slot);
                    assert forall|c: int| 0 <= c < c2.len() implies exists|j: int| 0 <= j < items.len()
                        && (#[trigger] items[j]).0 == #[trigger] c2[c]
                        && (items[j].1 matches Some(n) && armor_slot(n) is Some) by {
                        if c < clicks.len() {
                            let j = choose|j: int| 0 <= j < init.len() && (#[trigger] init[j]).0 == clicks[c]
                                && (init[j].1 matches Some(n) && armor_slot(n) is Some);
                            assert(items[j] == init[j]);
                        } else {
                            assert(items[items.len() - 1].0 == c2[c]);
                        }
                    }
                } else {
                    assert forall|c: int| 0 <= c < clicks.len() implies exists|j: int| 0 <= j < items.len()
                        && (#[trigger] items[j]).0 == #[trigger] clicks[c]
                        && (items[j].1 matches Some(n) && armor_slot(n) is Some) by {
                        let j = choose|j: int| 0 <= j < init.len() && (#[trigger] init[j]).0 == clicks[c]
                            && (init[j].1 matches Some(n) && armor_slot(n) is Some);
                        assert(items[j] == init[j]);
                    }
                }
            } else {
                assert forall|c: int| 0 <= c < clicks.len() implies exists|j: int| 0 <= j < items.len()
                    && (#[trigger] items[j]).0 == #[trigger] clicks[c]
                    && (items[j].1 matches Some(n) && armor_slot(n) is Some) by {
                    let j = choose|j: int| 0 <= j < init.len() && (#[trigger] init[j]).0 == clicks[c]
                        && (init[j].1 matches Some(n) && armor_slot(n) is Some);
                    assert(items[j] == init[j]);
                }
            }
        } else {
            assert forall|c: int| 0 <= c < clicks.len() implies exists|j: int| 0 <= j < items.len()
                && (#[trigger] items[j]).0 == #[trigger] clicks[c]
                && (items[j].1 matches Some(n) && armor_slot(n) is Some) by {
                let j = choose|j: int| 0 <= j < init.len() && (#[trigger] init[j]).0 == clicks[c]
                    && (init[j].1 matches Some(n) && armor_slot(n) is Some);
                assert(items[j] == init[j]);
            }
        }
    }
}

} // verus!
