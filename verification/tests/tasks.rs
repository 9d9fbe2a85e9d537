use stasis_bot::blockpos::BlockPos;
use stasis_bot::task::affect::{AffectBlockTask, WaitForBlockUnpowerTask};
use stasis_bot::task::container::OpenContainerBlockTask;
use stasis_bot::task::group::TaskGroup;
use stasis_bot::task::outcome::{TaskOutcome, TrackedTaskStatus};
use stasis_bot::task::simple::{CloseInventoryAndSyncTask, DelayDurationTask, DelayTicksTask, SyncEvent};
use stasis_bot::task::sip::SipBeerTask;

fn is_failed_with(o: &TaskOutcome, text: &str) -> bool {
    matches!(o, TaskOutcome::Failed { reason } if reason == text)
}

#[test]
fn affect_block_interacts_and_sees_the_change() {
    let mut t = AffectBlockTask::new(BlockPos::new(1, 2, 3));
    assert_eq!(t.describe(), "AffectBlock");
    assert!(t.start(1000, Some(7), true).is_ok());
    assert_eq!(t.orig_block_state, 7);
    let early = t.tick(1050, true, Some(7), false, Ok(()));
    assert!(!early.interact && matches!(early.outcome, TaskOutcome::Ongoing));
    let now = t.tick(1100, true, Some(7), false, Ok(()));
    assert!(now.interact && matches!(now.outcome, TaskOutcome::Ongoing));
    let done = t.tick(1150, true, Some(8), false, Ok(()));
    assert!(matches!(done.outcome, TaskOutcome::Succeeded));
}

#[test]
fn affect_block_gives_up_after_three_tries() {
    let mut t = AffectBlockTask::new(BlockPos::new(0, 0, 0));
    t.start(0, Some(1), true).unwrap();
    let mut now = 0;
    let mut retries = 0;
    loop {
        now += 100;
        let step = t.tick(now, true, Some(1), false, Ok(()));
        if step.look_again {
            retries += 1;
        }
        if let TaskOutcome::Failed { reason } = step.outcome {
            assert_eq!(reason, "Block did not get affected 5s after starting AffectBlockTask (and ran out of attempts)!");
            break;
        }
        assert!(now < 100_000);
    }
    assert_eq!(retries, 3);
}

#[test]
fn affect_block_errors() {
    let mut t = AffectBlockTask::new(BlockPos::new(0, 0, 0));
    assert_eq!(t.start(0, None, true), Err("Failed to find block state of block to affect!".to_string()));
    assert_eq!(t.start(0, Some(3), false), Err("No own_eye_pos".to_string()));
    let air = t.tick(200, true, Some(0), true, Ok(()));
    assert!(is_failed_with(&air.outcome, "Target block is air!"));
    let miss = t.tick(200, true, Some(3), false, Err("too far"));
    assert!(is_failed_with(&miss.outcome, "Failed to calculate block hit: too far"));
}

#[test]
fn waiting_for_unpower() {
    let mut t = WaitForBlockUnpowerTask::new(BlockPos::new(0, 0, 0));
    t.start(100);
    assert!(matches!(t.tick(200, true), TaskOutcome::Succeeded));
    assert!(matches!(t.tick(5000, false), TaskOutcome::Ongoing));
    assert!(is_failed_with(&t.tick(5100, false), "Block not result unpower 5s after starting WaitForBlockUnpowerTask!"));
}

#[test]
fn sipping_beer() {
    let t = SipBeerTask::new(true, -65, 20, 2);
    assert_eq!(t.describe(), "SipBeer (20 ticks, look away, repeats: 2)");
    assert_eq!(SipBeerTask::new(false, -20, 15, 0).describe(), "SipBeer (15 ticks)");
    let step = t.tick_after(true, 999, 24);
    assert_eq!(step.look_pitch, Some(-89));
    assert!(matches!(step.outcome, TaskOutcome::Ongoing));
    let step = t.tick_after(true, 1000, 0);
    assert_eq!(step.look_pitch, Some(-65));
    assert!(matches!(step.outcome, TaskOutcome::Succeeded));
    let low = SipBeerTask::new(true, -80, 20, 0).tick_after(true, 0, 20);
    assert_eq!(low.look_pitch, Some(-90));
    let none = t.tick_after(false, 0, 0);
    assert!(is_failed_with(&none.outcome, "No beer in hotbar to sip on"));
    assert_eq!(t.repeated().repeats, 3);
    for _ in 0..20 {
        let r = SipBeerTask::new_random(0);
        assert!((15..=31).contains(&r.ticks));
        assert_eq!(r.pitch, if r.look_away { -65 } else { -20 });
    }
}

#[test]
fn inventory_sync() {
    let t = CloseInventoryAndSyncTask::new();
    assert_eq!(t.describe(), "CloseInventoryAndSync");
    assert!(matches!(t.outcome_after(SyncEvent::ContainerContent, 0), TaskOutcome::Succeeded));
    assert!(matches!(t.outcome_after(SyncEvent::Tick, 5000), TaskOutcome::Ongoing));
    assert!(is_failed_with(&t.outcome_after(SyncEvent::Tick, 5001), "Waited over 5s waiting for inventory to sync!"));
}

#[test]
fn delays() {
    let mut t = DelayTicksTask::new(2);
    assert!(matches!(t.handle(true), TaskOutcome::Ongoing));
    assert!(matches!(t.handle(false), TaskOutcome::Ongoing));
    assert!(matches!(t.handle(true), TaskOutcome::Succeeded));
    let d = DelayDurationTask::new(61_005);
    assert_eq!(d.describe(), "DelayDuration (01m 01s 005ms)");
    assert!(matches!(d.outcome_after(61_004), TaskOutcome::Ongoing));
    assert!(matches!(d.outcome_after(61_005), TaskOutcome::Succeeded));
}

#[test]
fn container_opening_fails_without_screen() {
    let mut t = OpenContainerBlockTask::new(BlockPos::new(0, 0, 0));
    t.start(0);
    let first = t.tick(100, true, false, false, Ok(()));
    assert!(first.interact);
    let mut last = TaskOutcome::Ongoing;
    let mut now = 100;
    while matches!(last, TaskOutcome::Ongoing) && now < 100_000 {
        now += 100;
        last = t.tick(now, true, false, false, Ok(())).outcome;
    }
    assert!(is_failed_with(&last, "Block not result in a screen open 5s after starting OpenContainerBlockTask!"));
    assert_eq!(t.attempt, 3);
}

#[test]
fn tracked_status_keeps_conclusion() {
    let mut s = TrackedTaskStatus::NotStartedYet;
    assert!(s.is_not_started_yet());
    s.on_started(&Ok(()));
    assert!(s.is_running());
    s.on_handled(&Ok(TaskOutcome::Ongoing));
    assert!(s.is_running());
    s.on_handled(&Ok(TaskOutcome::Succeeded));
    assert!(s.is_finished());
    s.on_stopped(&Ok(()));
    assert!(matches!(s.outcome(), Some(TaskOutcome::Succeeded)));
    let mut r = TrackedTaskStatus::Running;
    r.on_stopped(&Ok(()));
    assert!(r.is_interrupted());
    let mut e = TrackedTaskStatus::Running;
    e.on_handled(&Err("boom".to_string()));
    assert_eq!(e.error().map(|x| x.describe()), Some("boom".to_string()));
}

#[test]
fn task_group_order_and_status_line() {
    let mut g: TaskGroup<u32> = TaskGroup::new("Pull").with(1).with(2);
    assert_eq!(g.remaining(), 2);
    assert_eq!(g.describe(Some("Walk")), "Pull: [1/2] ...Walk");
    g.put_at_cursor(0);
    assert_eq!(g.subtasks, vec![0, 1, 2]);
    g.next_unchecked();
    g.next_unchecked();
    g.next_unchecked();
    assert_eq!(g.remaining(), 0);
    assert_eq!(g.describe(None), "Pull: Finished (3)");
    let root: TaskGroup<u32> = TaskGroup::new_root();
    assert_eq!(root.name(), "<Root>");
    assert_eq!(root.describe(None), "Finished");
}
