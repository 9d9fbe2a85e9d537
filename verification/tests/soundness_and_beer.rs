use stasis_bot::beer::{BeerConfig, BeerRequest, BeertenderModule};
use stasis_bot::soundness::{describe_entity, lifecycle_message, EntityInfo, LifecycleEvent, SoundnessModule};

#[test]
fn status_changes_are_reported_once() {
    let mut s = SoundnessModule::new();
    assert_eq!(s.on_placed(false, false, 100), vec!["`🟢` In Game!".to_string()]);
    assert!(s.is_ingame());
    assert!(s.on_placed(false, true, 200).is_empty());
    assert!(s.is_ingame_for(1000, 1100));
    assert!(!s.is_ingame_for(1001, 1100));
    assert_eq!(
        s.on_disconnect(Some("Banned")),
        vec!["`👞` Kick: Banned".to_string(), "`🔴` Disconnected!".to_string()]
    );
    assert!(!s.interrupt_next_tick);
    assert_eq!(s.on_placed(true, false, 300), vec!["`🟣` In Limbo!".to_string()]);
    assert!(s.interrupt_next_tick);
    assert!(s.on_tick());
    assert!(!s.interrupt_next_tick);
    assert_eq!(s.on_title("Queue: 5"), vec!["`🟣` In Limbo: Queue: 5".to_string()]);
    assert!(s.on_title("Queue: 5").is_empty());
    assert_eq!(lifecycle_message(LifecycleEvent::Login), "`🔵` Logged in!");
}

#[test]
fn beer_limit_is_per_player() {
    let mut b = BeertenderModule::new(BeerConfig { max_beer: 2, ..BeerConfig::default() });
    assert!(!b.had_enough_beer("Steve"));
    b.gave_beer("Steve");
    b.gave_beer("steve");
    assert!(b.had_enough_beer("STEVE"));
    assert!(!b.had_enough_beer("Alex"));
    b.reset_beer_for("Steve");
    assert!(!b.had_enough_beer("Steve"));
}

#[test]
fn beer_requests() {
    let mut b = BeertenderModule::new(BeerConfig { max_beer: 1, ..BeerConfig::default() });
    assert!(matches!(b.request_beer("Steve", false, true),
        BeerRequest::Unseen(m) if m == "Is it the beer or why can't I see you?"));
    match b.request_beer("Steve", true, false) {
        BeerRequest::Plan { name, .. } => assert_eq!(name, "Urge Steve to come closer for beer"),
        _ => panic!("expected a plan"),
    }
    match b.request_beer("Steve", true, true) {
        BeerRequest::Plan { name, .. } => assert_eq!(name, "Give Steve's Beer"),
        _ => panic!("expected a plan"),
    }
    b.gave_beer("Steve");
    match b.request_beer("Steve", true, true) {
        BeerRequest::Plan { name, .. } => assert_eq!(name, "Deny Steve's Beer"),
        _ => panic!("expected a plan"),
    }
}

#[test]
fn default_beer_config() {
    let c = BeerConfig::default();
    assert_eq!(c.max_beer, 10);
    assert_eq!(c.messages_come_closer, vec!["Come closer".to_string()]);
    assert_eq!((c.random_positions_min_secs, c.random_positions_max_secs), (30, 120));
}

#[test]
fn describing_entities() {
    assert_eq!(describe_entity(3, &None), "<Unknown entity 3>");
    let zombie = EntityInfo { kind_id: "minecraft:zombie".to_string(), profile: None, custom_name: None };
    assert_eq!(describe_entity(-4, &Some(zombie.clone())), "zombie (-4)");
    let named = EntityInfo { custom_name: Some("Bob".to_string()), ..zombie.clone() };
    assert_eq!(describe_entity(5, &Some(named)), "Bob (type: zombie, id: 5)");
    let player = EntityInfo { kind_id: "minecraft:player".to_string(), profile: Some(("Steve".to_string(), 1)), custom_name: None };
    assert_eq!(describe_entity(6, &Some(player)), "Steve (uuid: 00000000-0000-0000-0000-000000000001, id: 6)");
}
