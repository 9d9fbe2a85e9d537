use stasis_bot::blockpos::BlockPos;
use stasis_bot::stasis::chambers::StasisModule;
use stasis_bot::stasis::column::{classify_block, detect_chamber, ColumnBlock};
use stasis_bot::stasis::legacy::{migrate_trapdoor, Migration};
use stasis_bot::stasis::model::{LecternRedcoderEndpoint, StasisChamberDefinition, StasisChamberEntry};
use stasis_bot::stasis::pull::PullRequest;
use stasis_bot::stasis::throw::{make_excess_message, make_throw_message};

const STEVE: u128 = 11;

/// The column read for a pearl at y = 100: a trapdoor at y = 102 over six bubble column
/// blocks over soul sand.
fn chamber_column() -> Vec<Option<ColumnBlock>> {
    let mut c = vec![Some(ColumnBlock::Unknown); 32];
    c[6] = Some(ColumnBlock::Trapdoor);
    for k in 7..13 {
        c[k] = Some(ColumnBlock::BubbleColumn);
    }
    c[13] = Some(ColumnBlock::SoulSand);
    c
}

#[test]
fn classifies_blocks() {
    assert_eq!(classify_block("minecraft:oak_trapdoor"), ColumnBlock::Trapdoor);
    assert_eq!(classify_block("minecraft:iron_trapdoor"), ColumnBlock::Unknown);
    assert_eq!(classify_block("minecraft:bubble_column"), ColumnBlock::BubbleColumn);
    assert_eq!(classify_block("minecraft:soul_sand"), ColumnBlock::SoulSand);
    assert_eq!(classify_block("minecraft:stone"), ColumnBlock::Unknown);
}

#[test]
fn detects_flippable_and_secured_chambers() {
    let pearl = BlockPos::new(5, 100, 7);
    assert!(matches!(
        detect_chamber(&chamber_column(), pearl),
        Some(StasisChamberDefinition::FlippableTrapdoor { trapdoor_pos }) if trapdoor_pos == BlockPos::new(5, 102, 7)
    ));
    let mut secured = chamber_column();
    secured[5] = Some(ColumnBlock::Trapdoor);
    assert!(matches!(
        detect_chamber(&secured, pearl),
        Some(StasisChamberDefinition::SecuredFlippableTrapdoor { security_trapdoor_pos, trigger_trapdoor_pos })
            if security_trapdoor_pos == BlockPos::new(5, 103, 7) && trigger_trapdoor_pos == BlockPos::new(5, 102, 7)
    ));
    let mut short = chamber_column();
    for k in 7..10 {
        short[k] = Some(ColumnBlock::Unknown);
    }
    assert!(detect_chamber(&short, pearl).is_none());
}

#[test]
fn throw_then_pull() {
    let mut m = StasisModule::new(false, Some(2));
    let pearl = BlockPos::new(0, 100, 0);
    let thrown = m.on_pearl_throw(&chamber_column(), pearl, true, STEVE, 77, 1_000).unwrap();
    assert_eq!(thrown.chamber_index, 0);
    assert_eq!(
        thrown.greeting,
        Some("You have thrown a pearl. Message me !tp to get back here (you are allowed to throw ONE MORE PEARL).".to_string())
    );
    assert!(thrown.excess_message.is_none());
    assert!(m.config.is_known_pearl(77));
    // The same pearl is not recorded twice.
    assert!(m.on_pearl_throw(&chamber_column(), pearl, true, STEVE, 77, 2_000).is_none());
    assert_eq!(m.get_ordered_chambers(STEVE).len(), 1);
    match m.pull_pearl("Steve", Some(STEVE), false, 0) {
        PullRequest::Pull { definition, feedback } => {
            assert!(matches!(definition,
                StasisChamberDefinition::FlippableTrapdoor { trapdoor_pos } if trapdoor_pos == BlockPos::new(0, 102, 0)));
            assert_eq!(feedback, "Pulling your stasis chamber... (you got 1)");
        }
        _ => panic!("expected a pull"),
    }
    assert!(matches!(m.pull_pearl("Alex", Some(12), false, 0), PullRequest::Refused(r) if r == "No chamber found!"));
    assert!(matches!(m.pull_pearl("Alex", None, false, 0),
        PullRequest::Refused(r) if r == "Could not find UUID for username Alex"));
}

#[test]
fn far_pearls_are_ignored() {
    let mut m = StasisModule::new(false, None);
    assert!(m.on_pearl_throw(&chamber_column(), BlockPos::new(0, 100, 0), false, STEVE, 1, 0).is_none());
    assert!(!m.config.is_known_pearl(1));
}

#[test]
fn throw_messages() {
    assert_eq!(make_throw_message(None, 3), "You have thrown a pearl. Message me !tp to get back here.");
    assert_eq!(
        make_throw_message(Some(3), 3),
        "You have thrown a pearl. Message me !tp to get back here. You used up all your existing chambers (3). Please don't throw any further pearls!"
    );
    assert_eq!(
        make_throw_message(Some(5), 2),
        "You have thrown a pearl. Message me !tp to get back here (you are allowed to throw 3 more pearls)."
    );
    assert_eq!(
        make_throw_message(Some(1), 3),
        "You have thrown a pearl. Message me !tp to get back here (you are allowed to throw -2 more pearls)."
    );
    assert_eq!(
        make_excess_message(4, 3),
        "Sorry, but your amount of chambers (4) exceeds the allowed limit (3). Pulling your old pearls, hang on..."
    );
}

#[test]
fn migrated_trapdoor_can_be_pulled() {
    let mut m = StasisModule::new(true, None);
    let pos = BlockPos::new(9, 64, 9);
    assert_eq!(migrate_trapdoor(&mut m.config, pos, STEVE), Migration::Migrated(pos));
    assert!(m.config.has_player_pearl(STEVE));
    match m.pull_pearl("Steve", Some(STEVE), true, 3) {
        PullRequest::Pull { definition, feedback } => {
            assert!(matches!(definition, StasisChamberDefinition::FlippableTrapdoor { trapdoor_pos } if trapdoor_pos == pos));
            assert_eq!(feedback, "Hang on, will walk to your stasis chamber in due time...");
        }
        _ => panic!("expected a pull"),
    }
}

#[test]
fn cleared_chamber_is_nobodys() {
    let mut m = StasisModule::new(true, None);
    let pos = BlockPos::new(1, 1, 1);
    migrate_trapdoor(&mut m.config, pos, STEVE);
    assert!(m.clear_occupants(&StasisChamberDefinition::FlippableTrapdoor { trapdoor_pos: pos }));
    assert_eq!(m.config.chambers.len(), 1);
    assert!(m.config.chambers[0].occupants.is_empty());
    assert!(m.get_ordered_chambers(STEVE).is_empty());
    assert!(!m.clear_occupants(&StasisChamberDefinition::FlippableTrapdoor { trapdoor_pos: pos }));
}

#[test]
fn no_criterion_keeps_every_occupant() {
    let mut m = StasisModule::new(true, None);
    let pos = BlockPos::new(1, 1, 1);
    migrate_trapdoor(&mut m.config, pos, STEVE);
    let def = StasisChamberDefinition::FlippableTrapdoor { trapdoor_pos: pos };
    assert!(!m.remove_uncertain_occupants(&def, false, false, false, &vec![]));
    assert_eq!(m.config.chambers[0].occupants.len(), 1);
    // An occupant with no pearl uuid is uncertain.
    assert!(m.remove_uncertain_occupants(&def, true, false, false, &vec![]));
    assert!(m.config.chambers[0].occupants.is_empty());
}

fn trapdoor_entry(x: i32, y: i32, z: i32) -> StasisChamberEntry {
    StasisChamberEntry { definition: StasisChamberDefinition::FlippableTrapdoor { trapdoor_pos: BlockPos::new(x, y, z) }, occupants: vec![] }
}

#[test]
fn detection_keeps_chambers_elsewhere() {
    let mut m = StasisModule::new(false, None);
    m.config.chambers.push(trapdoor_entry(50, 102, 0));
    let picked = m.config.chamber_for_pearl_pos(&chamber_column(), BlockPos::new(0, 100, 0));
    assert_eq!(picked, Some(1));
    assert_eq!(m.config.chambers.len(), 2);
    assert!(matches!(m.config.chambers[0].definition,
        StasisChamberDefinition::FlippableTrapdoor { trapdoor_pos } if trapdoor_pos == BlockPos::new(50, 102, 0)));
    assert!(matches!(m.config.chambers[1].definition,
        StasisChamberDefinition::FlippableTrapdoor { trapdoor_pos } if trapdoor_pos == BlockPos::new(0, 102, 0)));
    // Seeing it again picks the same chamber.
    assert_eq!(m.config.chamber_for_pearl_pos(&chamber_column(), BlockPos::new(0, 100, 0)), Some(1));
    assert_eq!(m.config.chambers.len(), 2);
}

#[test]
fn detection_replaces_close_trapdoor_chambers() {
    let mut m = StasisModule::new(false, None);
    m.config.chambers.push(trapdoor_entry(0, 105, 0));
    m.config.chambers.push(trapdoor_entry(0, 108, 0));
    let picked = m.config.chamber_for_pearl_pos(&chamber_column(), BlockPos::new(0, 100, 0));
    // The one 3 blocks above is dropped, the one 6 blocks above stays.
    assert_eq!(picked, Some(1));
    assert_eq!(m.config.chambers.len(), 2);
    assert!(matches!(m.config.chambers[0].definition,
        StasisChamberDefinition::FlippableTrapdoor { trapdoor_pos } if trapdoor_pos == BlockPos::new(0, 108, 0)));
}

#[test]
fn detection_blocked_by_close_redstone_chamber() {
    let mut m = StasisModule::new(false, None);
    m.config.chambers.push(trapdoor_entry(0, 104, 0));
    m.config.chambers.push(StasisChamberEntry {
        definition: StasisChamberDefinition::RedstoneSingleTrigger { base_pos: BlockPos::new(0, 98, 0), trigger_pos: BlockPos::new(1, 98, 0) },
        occupants: vec![],
    });
    assert_eq!(m.config.chamber_for_pearl_pos(&chamber_column(), BlockPos::new(0, 100, 0)), None);
    assert_eq!(m.config.chambers.len(), 2);
    // A redstone chamber elsewhere does not block.
    let mut m = StasisModule::new(false, None);
    m.config.chambers.push(StasisChamberEntry {
        definition: StasisChamberDefinition::RedstoneSingleTrigger { base_pos: BlockPos::new(9, 98, 0), trigger_pos: BlockPos::new(1, 98, 0) },
        occupants: vec![],
    });
    assert_eq!(m.config.chamber_for_pearl_pos(&chamber_column(), BlockPos::new(0, 100, 0)), Some(1));
}

#[test]
fn pulling_from_an_unknown_terminal_is_refused() {
    let m = StasisModule::new(false, None);
    let definition = StasisChamberDefinition::RedcoderTrapdoor {
        trapdoor_pos: BlockPos::new(0, 64, 0),
        endpoint: LecternRedcoderEndpoint { lectern_redcoder_terminal_id: "vault".to_string(), chamber_index: usize::MAX },
    };
    let r = m.pull_chamber("Steve", &definition, 20, false, BlockPos::new(0, 64, 0));
    assert_eq!(r.err(), Some("Skill issue! I can't find details on LecternRedcoderTerminal \"vault\"!".to_string()));
}
