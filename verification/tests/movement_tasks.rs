use stasis_bot::blockpos::BlockPos;
use stasis_bot::modules::LookAtPlayersModule;
use stasis_bot::task::attack::AttackTask;
use stasis_bot::task::center::{CenterAction, CenterPhase, CenterTask, PING_ID_SPAN};
use stasis_bot::task::outcome::TaskOutcome;
use stasis_bot::task::pathfind::PathfindTask;

const MS: u64 = 1_000_000;

fn is_failed_with(o: &TaskOutcome, text: &str) -> bool {
    matches!(o, TaskOutcome::Failed { reason } if reason == text)
}

#[test]
fn centering_walks_then_teleports_and_waits_for_the_pong() {
    let pos = BlockPos::new(10, 64, -3);
    let mut t = CenterTask::new(pos);
    t.start();
    assert_eq!((t.attempt, t.phase), (0, CenterPhase::WaitForStandstill));

    // Still moving: nothing happens.
    let s = t.tick_with_draw(0, false, false, false, 0);
    assert!(matches!(s.outcome, TaskOutcome::Ongoing));
    assert_eq!((s.action, t.phase), (CenterAction::Nothing, CenterPhase::WaitForStandstill));

    // Standing still counts an attempt; too far away, so walk.
    t.tick_with_draw(0, true, false, false, 0);
    assert_eq!((t.attempt, t.phase), (1, CenterPhase::CheckAndLook));
    let s = t.tick_with_draw(0, false, false, false, 0);
    assert_eq!((s.action, t.phase), (CenterAction::LookTowardsCenter, CenterPhase::StartWalk));
    let s = t.tick_with_draw(0, false, false, false, 0);
    assert_eq!((s.action, t.phase), (CenterAction::WalkForward, CenterPhase::CheckWalk));
    assert!(t.stop());
    let s = t.tick_with_draw(0, false, false, false, 0);
    assert_eq!((s.action, t.phase), (CenterAction::Nothing, CenterPhase::CheckWalk));
    let s = t.tick_with_draw(0, false, false, true, 0);
    assert_eq!((s.action, t.phase), (CenterAction::StopWalking, CenterPhase::WaitForStandstill));
    assert!(!t.stop());

    // Close enough now: the small teleport.
    t.tick_with_draw(0, true, false, false, 0);
    assert_eq!(t.attempt, 2);
    let s = t.tick_with_draw(0, false, true, false, 0);
    assert_eq!((s.action, t.phase), (CenterAction::LookTowardsCenter, CenterPhase::StartMiniTeleport));
    let s = t.tick_with_draw(1000 * MS, false, false, false, 0);
    assert_eq!(s.action, CenterAction::TeleportToCenter);
    let s = t.tick_with_draw(1000 * MS, false, false, false, 5);
    assert_eq!(s.action, CenterAction::SendPing(i64::MIN + 5));

    // No pong yet: waiting. A pong for another ping changes nothing.
    assert!(matches!(t.tick_with_draw(1500 * MS, false, false, false, 0).outcome, TaskOutcome::Ongoing));
    t.on_pong(7, 1010 * MS);
    assert!(matches!(t.phase, CenterPhase::CheckMiniTeleport { received_pong_nanos: None, .. }));
    t.on_pong(i64::MIN + 5, 1020 * MS);
    assert!(matches!(t.phase, CenterPhase::CheckMiniTeleport { received_pong_nanos: Some(p), .. } if p == 20 * MS));
    // A second answer does not overwrite the first.
    t.on_pong(i64::MIN + 5, 1090 * MS);
    assert!(matches!(t.phase, CenterPhase::CheckMiniTeleport { received_pong_nanos: Some(p), .. } if p == 20 * MS));

    // Done once 100 ms (and twice the ping) passed since the teleport.
    assert!(matches!(t.tick_with_draw(1099 * MS, false, false, false, 0).outcome, TaskOutcome::Ongoing));
    assert!(matches!(t.tick_with_draw(1100 * MS, false, false, false, 0).outcome, TaskOutcome::Succeeded));
}

#[test]
fn centering_waits_twice_the_ping_and_retries_after_a_setback() {
    let mut t = CenterTask::new(BlockPos::new(0, 0, 0));
    t.phase = CenterPhase::CheckMiniTeleport {
        started_at_nanos: 0,
        sent_ping: Some((3, 0)),
        received_teleport: false,
        received_pong_nanos: Some(80 * MS),
    };
    assert!(matches!(t.tick_with_draw(159 * MS, false, false, false, 0).outcome, TaskOutcome::Ongoing));
    assert!(matches!(t.tick_with_draw(160 * MS, false, false, false, 0).outcome, TaskOutcome::Succeeded));

    t.on_teleport();
    assert!(matches!(t.phase, CenterPhase::CheckMiniTeleport { received_teleport: true, .. }));
    let s = t.tick_with_draw(500 * MS, false, false, false, 0);
    assert!(matches!(s.outcome, TaskOutcome::Ongoing));
    assert_eq!(t.phase, CenterPhase::WaitForStandstill);
    // Outside the teleport check a teleport changes nothing.
    t.on_teleport();
    assert_eq!(t.phase, CenterPhase::WaitForStandstill);
}

#[test]
fn centering_gives_up_after_twenty_five_attempts() {
    let mut t = CenterTask { attempt: 25, ..CenterTask::new(BlockPos::new(1, 2, 3)) };
    assert!(matches!(t.tick_with_draw(0, true, false, false, 0).outcome, TaskOutcome::Ongoing));
    assert_eq!(t.attempt, 26);
    let s = t.tick_with_draw(0, true, false, false, 0);
    assert!(is_failed_with(&s.outcome, "Failed to center after 25 tries!"));
    assert_eq!(t.attempt, 26);
}

#[test]
fn centering_thresholds_by_attempt() {
    let t = |attempt: u32| CenterTask { attempt, ..CenterTask::new(BlockPos::new(0, 0, 0)) };
    assert_eq!(t(7).desired_dist_hundredths(), 10);
    assert_eq!(t(8).desired_dist_hundredths(), 12);
    assert!(t(4).walks_away() && t(18).walks_away());
    assert!(!t(5).walks_away());
    assert_eq!(t(3).describe(), "Center");
}

#[test]
fn centering_ping_ids_are_drawn_low() {
    let mut t = CenterTask::new(BlockPos::new(0, 0, 0));
    t.phase = CenterPhase::CheckMiniTeleport {
        started_at_nanos: 0,
        sent_ping: None,
        received_teleport: false,
        received_pong_nanos: None,
    };
    match t.tick(5, false, false, false).action {
        CenterAction::SendPing(id) => {
            assert!((id as i128) < i64::MIN as i128 + PING_ID_SPAN as i128);
            assert!(matches!(t.phase, CenterPhase::CheckMiniTeleport { sent_ping: Some((sent, 5)), .. } if sent == id));
        }
        other => panic!("expected a ping, got {other:?}"),
    }
}

#[test]
fn attacking_fails_waits_and_hits() {
    let mut t = AttackTask::new(42, 10);
    assert_eq!(t.describe(), "Attack (<...>)");
    t.start("zombie (42)".to_string());
    assert_eq!(t.describe(), "Attack (zombie (42))");

    let s = t.tick(true, true, Some(true), None, Some(true));
    assert!(is_failed_with(&s.outcome, "Target is dead: zombie (42)") && !s.look && !s.attack);
    let s = t.tick(false, false, Some(true), None, Some(true));
    assert!(is_failed_with(&s.outcome, "Target has no physics: zombie (42)"));
    let s = t.tick(false, true, Some(false), None, Some(true));
    assert!(is_failed_with(&s.outcome, "Target is no longer reachable: zombie (42)"));

    // 499 ms are 9 ticks: too soon after the last attack.
    let s = t.tick(false, true, Some(true), Some(499), Some(true));
    assert!(matches!(s.outcome, TaskOutcome::Ongoing) && s.look && !s.attack);
    let s = t.tick(false, true, Some(true), Some(500), Some(true));
    assert!(matches!(s.outcome, TaskOutcome::Succeeded) && s.look && s.attack);
    // Not looking at the hitbox yet, or the eye position is unknown.
    let s = t.tick(false, true, None, None, Some(false));
    assert!(matches!(s.outcome, TaskOutcome::Ongoing) && s.look && !s.attack);
    let s = t.tick(false, true, None, None, None);
    assert!(matches!(s.outcome, TaskOutcome::Ongoing) && !s.attack);
}

#[test]
fn pathfinding_finishes_when_idle_again() {
    let mut t = PathfindTask::new(true, "old spot");
    assert_eq!(t.describe(), "Pathfind (walking to old spot)");
    t.start(true);
    assert_eq!(t.describe(), "Pathfind (calculating path to old spot)");

    // The pathfinder has not picked the goal up yet, and the bot is not there.
    let s = t.tick(0, Some((false, false)), false, false);
    assert!(matches!(s.outcome, TaskOutcome::Ongoing) && !s.record_position && !s.deadlocked);
    // Calculating: the position is recorded first.
    let s = t.tick(MS, Some((true, true)), false, false);
    assert!(matches!(s.outcome, TaskOutcome::Ongoing) && s.record_position);
    assert!(!t.wait_for_pathfind_start);
    assert_eq!(t.last_position_at_nanos, Some(MS));
    // Walking without having moved far: kept.
    let s = t.tick(2 * MS, Some((false, true)), false, false);
    assert!(matches!(s.outcome, TaskOutcome::Ongoing) && !s.record_position);
    assert_eq!(t.describe(), "Pathfind (walking to old spot)");
    // Arrived.
    let s = t.tick(3 * MS, Some((false, false)), false, true);
    assert!(matches!(s.outcome, TaskOutcome::Succeeded) && s.record_position);
}

#[test]
fn pathfinding_already_there_and_stuck() {
    let mut t = PathfindTask::new(false, "noteblock");
    t.start(false);
    assert!(matches!(t.tick(0, Some((false, false)), true, false).outcome, TaskOutcome::Succeeded));
    assert!(matches!(t.tick(0, None, true, false).outcome, TaskOutcome::Ongoing));

    let mut t = PathfindTask::new(false, "noteblock");
    t.start(true);
    t.tick(0, Some((true, true)), false, false);
    assert!(!t.tick(30_000 * MS, Some((false, true)), false, false).deadlocked);
    let s = t.tick(30_000 * MS + 1, Some((false, true)), false, false);
    assert!(s.deadlocked && matches!(s.outcome, TaskOutcome::Ongoing));
    // Having moved, the clock starts over.
    let s = t.tick(30_000 * MS + 1, Some((false, true)), false, true);
    assert!(!s.deadlocked && s.record_position);
}

#[test]
fn looking_at_players_only_when_idle() {
    let m = LookAtPlayersModule::new(16);
    assert!(m.active(false, 0, false));
    assert!(!m.active(true, 0, false));
    assert!(!m.active(false, 1, false));
    assert!(!m.active(false, 0, true));
    assert_eq!(m.max_distance_squared(), 256);
}
