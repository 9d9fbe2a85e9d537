use stasis_bot::beer::{beer_count, find_beer_slot};
use stasis_bot::blockpos::BlockPos;
use stasis_bot::devnet::{devnet_action, DevnetAction, DevnetRequest};
use stasis_bot::emergency_quit::{death_message, damage_suffix_text, EmergencyQuitModule, HarmReaction};
use stasis_bot::killaura::{is_entity_likely_to_hurt_someone, EntityTraits, MobKind};
use stasis_bot::modules::{
    find_food_in_hotbar, is_server_likely_hanging, AutoEatModule, PeriodicSwingModule, TpsSample, TpsSampler,
};
use stasis_bot::stasis::legacy::{migrate_trapdoor, LegacyFileAction, LegacyStasisModule, Migration};
use stasis_bot::stasis::model::{ChamberOccupant, StasisChamberDefinition, StasisChamberEntry, StasisConfig};
use stasis_bot::stasis::pull::{recommended_closed_trapdoor_ticks, TpsLevel};
use stasis_bot::visual_range::{PlayerProfile, VisualRangeModule};
use stasis_bot::webhook::{SenderStep, ShulkerCounterModule, WebhookProfile, SUPPRESS_NOTIFICATIONS};

const STEVE: u128 = 0x67e5504410b1426f9247bb680e5fe0c8;

fn config_with_pearl_of(player: u128) -> StasisConfig {
    let mut c = StasisConfig::new();
    c.chambers.push(StasisChamberEntry {
        definition: StasisChamberDefinition::FlippableTrapdoor { trapdoor_pos: BlockPos::new(1, 2, 3) },
        occupants: vec![ChamberOccupant { thrown_at: 5, player_uuid: Some(player), pearl_uuid: None }],
    });
    c
}

#[test]
fn stranger_entering_view_is_an_alert_once() {
    let mut v = VisualRangeModule::new();
    let profile = PlayerProfile { name: "Steve".to_string(), uuid: STEVE };
    let first = v.on_player_added(7, STEVE, Some(profile.clone()), None);
    assert!(first.alert);
    assert_eq!(
        first.message,
        "`🔷` [Steve](<https://namemc.com/profile/67e55044-10b1-426f-9247-bb680e5fe0c8>) entered visual range for the first time!"
    );
    let again = v.on_player_added(8, STEVE, Some(profile), None);
    assert!(!again.alert);
    assert!(again.message.ends_with("entered visual range."));
    let left = v.on_entities_removed(&vec![7, 99]);
    assert_eq!(left, vec!["`🔶` [Steve](<https://namemc.com/profile/67e55044-10b1-426f-9247-bb680e5fe0c8>) left visual range.".to_string()]);
    assert_eq!(v.on_entities_removed(&vec![7]).len(), 0);
}

#[test]
fn pearl_owner_is_no_stranger() {
    let mut v = VisualRangeModule::new();
    let config = config_with_pearl_of(STEVE);
    let report = v.on_player_added(-3, STEVE, None, Some(&config));
    assert!(!report.alert);
    assert_eq!(
        report.message,
        "An unknown player (id: -3, uuid: [67e55044-10b1-426f-9247-bb680e5fe0c8](<https://namemc.com/profile/67e55044-10b1-426f-9247-bb680e5fe0c8>)) entered visual range."
    );
}

#[test]
fn legacy_positions_migrate_once() {
    let mut legacy = LegacyStasisModule::new();
    legacy.remembered_trapdoor_positions.push(("Steve".to_string(), BlockPos::new(4, 5, 6)));
    legacy.remembered_trapdoor_positions.push(("Alex".to_string(), BlockPos::new(1, 2, 3)));
    assert_eq!(legacy.take_remembered("Nobody"), None);
    let pos = legacy.take_remembered("Steve").unwrap();
    assert_eq!(pos, BlockPos::new(4, 5, 6));
    assert_eq!(legacy.file_action(), LegacyFileAction::Save);
    let mut config = config_with_pearl_of(1);
    assert_eq!(migrate_trapdoor(&mut config, pos, STEVE), Migration::Migrated(pos));
    assert_eq!(config.chambers.len(), 2);
    assert_eq!(config.chambers[1].occupants[0].player_uuid, Some(STEVE));
    assert_eq!(config.chambers[1].occupants[0].thrown_at, 0);
    let alex = legacy.take_remembered("Alex").unwrap();
    assert_eq!(migrate_trapdoor(&mut config, alex, 2), Migration::AlreadyKnown(alex));
    assert_eq!(config.chambers.len(), 2);
    assert_eq!(legacy.file_action(), LegacyFileAction::Delete);
}

#[test]
fn totem_pops_quit_unless_expected() {
    let mut q = EmergencyQuitModule::new(false);
    assert!(matches!(q.on_entity_event(5, 6, 35, false, None, 1000, None), HarmReaction::Ignore));
    assert!(matches!(q.on_entity_event(6, 6, 34, false, None, 1000, None), HarmReaction::Ignore));
    assert!(matches!(q.on_entity_event(6, 6, 35, true, None, 1000, None), HarmReaction::Ignore));
    q.on_spawn(1000);
    assert!(matches!(q.on_entity_event(6, 6, 35, false, None, 2500, None), HarmReaction::Allowed));
    match q.on_entity_event(6, 6, 35, false, Some("Pull"), 3500, None) {
        HarmReaction::Quit(m) => assert_eq!(m, "`💔` Popped a totem! Disconnecting and quitting..."),
        _ => panic!("expected to quit"),
    }
    assert!(matches!(q.on_entity_event(6, 6, 35, false, Some("Group (Suicide)"), 9000, None), HarmReaction::Allowed));
    assert_eq!(q.ignore_until_millis, Some(12000));
}

#[test]
fn damage_and_death_texts() {
    assert_eq!(damage_suffix_text(Some((1_500_000_000, "fell"))), "\n1.5s ago: fell");
    assert_eq!(damage_suffix_text(Some((1_234_567, "fell"))), "\n1.234567ms ago: fell");
    assert_eq!(damage_suffix_text(None), "");
    assert_eq!(death_message(Some("Steve fell")), "`💀` You died: Steve fell");
    assert_eq!(death_message(None), "`💀` You died");
}

fn traits(kind: MobKind) -> EntityTraits {
    EntityTraits {
        kind,
        has_custom_name: false,
        dead: false,
        monster: false,
        aggressive: false,
        tamed: false,
        creepy: false,
        stared_at: false,
        charging_crossbow: false,
    }
}

#[test]
fn killaura_targets() {
    assert!(is_entity_likely_to_hurt_someone(&traits(MobKind::Fireball)));
    assert!(!is_entity_likely_to_hurt_someone(&EntityTraits { has_custom_name: true, ..traits(MobKind::Fireball) }));
    assert!(!is_entity_likely_to_hurt_someone(&traits(MobKind::Wolf)));
    assert!(is_entity_likely_to_hurt_someone(&EntityTraits { aggressive: true, ..traits(MobKind::Wolf) }));
    assert!(!is_entity_likely_to_hurt_someone(&EntityTraits { aggressive: true, tamed: true, ..traits(MobKind::Wolf) }));
    assert!(is_entity_likely_to_hurt_someone(&EntityTraits { monster: true, ..traits(MobKind::Other) }));
    assert!(!is_entity_likely_to_hurt_someone(&EntityTraits { monster: true, ..traits(MobKind::Enderman) }));
    assert!(is_entity_likely_to_hurt_someone(&EntityTraits { monster: true, stared_at: true, ..traits(MobKind::Enderman) }));
    assert!(!is_entity_likely_to_hurt_someone(&EntityTraits { monster: true, ..traits(MobKind::ZombifiedPiglin) }));
    assert!(is_entity_likely_to_hurt_someone(&EntityTraits { monster: true, charging_crossbow: true, ..traits(MobKind::Piglin) }));
    assert!(!is_entity_likely_to_hurt_someone(&EntityTraits { monster: true, dead: true, ..traits(MobKind::Other) }));
}

#[test]
fn auto_eat_waits_half_a_second() {
    let mut m = AutoEatModule::new(1000);
    assert!(!m.on_tick(1500, true, true, false));
    assert!(m.on_tick(1501, true, true, false));
    assert_eq!(m.last_eat_attempt_at_millis, 1501);
    assert!(!m.on_tick(3000, true, false, false));
    assert_eq!(m.last_eat_attempt_at_millis, 3000);
    assert!(!m.on_tick(9000, false, true, false));
    assert_eq!(m.last_eat_attempt_at_millis, 3000);
    assert_eq!(find_food_in_hotbar(&vec![false, false, true, true]), Some(2));
    assert_eq!(find_food_in_hotbar(&vec![false; 9]), None);
}

#[test]
fn tick_rate_samples() {
    let mut s = TpsSampler::new();
    assert_eq!(s.on_set_time(100, 0), None);
    assert_eq!(s.on_set_time(120, 1000), Some(TpsSample { gap_millis: 1000, ticks_elapsed: 20 }));
    assert_eq!(s.on_set_time(50, 2000), None);
    assert_eq!(s.on_set_time(60, 2500), Some(TpsSample { gap_millis: 500, ticks_elapsed: 10 }));
    s.reset();
    assert_eq!(s.on_set_time(70, 3000), None);
    assert!(is_server_likely_hanging(Some(1000), 3001));
    assert!(!is_server_likely_hanging(Some(1000), 3000));
    assert!(!is_server_likely_hanging(None, 3000));
}

#[test]
fn trapdoor_ticks_follow_tick_rate() {
    assert_eq!(recommended_closed_trapdoor_ticks(None), 30);
    let calm = TpsLevel { hanging: false, at_most_15: false, at_most_10: false, at_most_5: false };
    assert_eq!(recommended_closed_trapdoor_ticks(Some(calm)), 12);
    let slow = TpsLevel { hanging: true, at_most_15: true, at_most_10: true, at_most_5: true };
    assert_eq!(recommended_closed_trapdoor_ticks(Some(slow)), 97);
}

#[test]
fn counting_beer() {
    assert_eq!(beer_count(&vec![(true, 3), (false, 64), (true, -1), (true, 16)]), 19);
    assert_eq!(find_beer_slot(&vec![false, true]), Some(1));
    assert_eq!(find_beer_slot(&vec![]), None);
}

#[test]
fn webhook_queue_order_and_flags() {
    let mut w = ShulkerCounterModule::new();
    w.alert_role_id = Some(42);
    w.profile = Some(WebhookProfile { name: "Bot".to_string(), uuid: "abc".to_string() });
    assert!(w.webhook_alert("help!"));
    assert!(w.webhook_silent("quiet"));
    w.close_queue();
    assert!(!w.webhook("dropped"));
    match w.next_to_send() {
        SenderStep::Send(m) => {
            assert_eq!(m.content, "<@&42>\nhelp!");
            assert!(m.mention_roles);
            assert_eq!(m.username, "Bot");
            assert_eq!(m.avatar_url, "https://mc-heads.net/head/abc");
            assert_eq!(m.flags, 0);
        }
        _ => panic!("expected a message"),
    }
    match w.next_to_send() {
        SenderStep::Send(m) => {
            assert_eq!(m.content, "quiet");
            assert_eq!(m.flags, SUPPRESS_NOTIFICATIONS);
        }
        _ => panic!("expected a message"),
    }
    assert!(matches!(w.next_to_send(), SenderStep::Stop));
}

#[test]
fn devnet_requests() {
    let check = DevnetRequest::Check { destination: "here".to_string(), for_mc_id: 5 };
    assert!(matches!(devnet_action(false, &check, Some("Steve"), true),
        DevnetAction::Feedback { for_mc_id: 5, error: true, message } if message == "Stasis is not enabled!"));
    assert!(matches!(devnet_action(true, &check, None, true),
        DevnetAction::Feedback { error: true, message, .. }
            if message == "You need to be online for me to know your username and check your pearl!"));
    assert!(matches!(devnet_action(true, &check, Some("Steve"), true), DevnetAction::CheckResponse { for_mc_id: 5, has_pearl: true }));
    let pull = DevnetRequest::Pull { destination: "here".to_string(), pearl_index: 0, for_mc_id: 6 };
    assert!(matches!(devnet_action(true, &pull, Some("Steve"), false),
        DevnetAction::Pull { sender, for_mc_id: 6 } if sender == "Steve"));
    assert!(matches!(devnet_action(true, &DevnetRequest::Other, None, false), DevnetAction::Nothing));
}

#[test]
fn legacy_remembers_by_exact_name() {
    let mut legacy = LegacyStasisModule::new();
    legacy.remembered_trapdoor_positions.push(("Steve".to_string(), BlockPos::new(0, 0, 0)));
    assert!(legacy.remembers("Steve"));
    assert!(!legacy.remembers("steve"));
}

#[test]
fn periodic_swing_once_per_period() {
    let mut m = PeriodicSwingModule::new(3);
    let swings: Vec<bool> = (0..9).map(|_| m.on_tick(true)).collect();
    assert_eq!(swings, vec![false, false, true, false, false, true, false, false, true]);
    assert!(!m.on_tick(false));
    assert_eq!(m.ticks_since_last_swing, 0);
}
