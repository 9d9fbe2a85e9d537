use stasis_bot::armor::{plan_equip, plan_unequip};

fn item(slot: usize, name: &str) -> (usize, Option<String>) {
    (slot, Some(name.to_string()))
}

#[test]
fn equipping_fills_each_empty_armor_slot_once() {
    let items = vec![
        item(9, "minecraft:diamond_helmet"),
        (10, None),
        item(11, "minecraft:iron_helmet"),
        item(12, "minecraft:elytra"),
        item(13, "minecraft:stone"),
        item(14, "minecraft:netherite_boots"),
        item(15, "minecraft:golden_leggings"),
    ];
    // The leggings slot is already taken.
    let plan = plan_equip(&items, &vec![false, false, true, false]);
    assert_eq!(plan.clicks, vec![9, 12, 14]);
    assert_eq!(plan.reply, "Equipped 3 armor pieces!");
    let none = plan_equip(&vec![item(9, "minecraft:stone")], &vec![false; 4]);
    assert!(none.clicks.is_empty());
    assert_eq!(none.reply, "Equipped 0 armor pieces!");
}

#[test]
fn unequipping_clicks_occupied_armor_slots() {
    let plan = plan_unequip(&vec![true, false, true, true]);
    assert_eq!(plan.clicks, vec![5, 7, 8]);
    assert_eq!(plan.reply, "Unequipped 3 armor pieces!");
}
