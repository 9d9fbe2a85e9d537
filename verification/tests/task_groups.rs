use stasis_bot::beer::BeertenderModule;
use stasis_bot::beer::BeerConfig;
use stasis_bot::dj::rate_limit::SongRateLimiter;
use stasis_bot::nbs::defs::NbsInstrument;
use stasis_bot::task::group::{RootReport, Task, TaskGroup};
use stasis_bot::task::outcome::TaskOutcome;
use stasis_bot::task::simple::{OnceFuncTask, ValidateTask};

/// A task answering each handled event with the next scripted answer.
struct Scripted {
    name: &'static str,
    answers: Vec<Result<TaskOutcome, String>>,
    started: u32,
    stopped: u32,
    stop_fails: bool,
}

fn scripted(name: &'static str, answers: Vec<Result<TaskOutcome, String>>) -> Scripted {
    Scripted { name, answers, started: 0, stopped: 0, stop_fails: false }
}

impl Task<()> for Scripted {
    fn start(&mut self) -> Result<(), String> {
        self.started += 1;
        Ok(())
    }
    fn handle(&mut self, _event: &(), _is_tick: bool) -> Result<TaskOutcome, String> {
        if self.answers.is_empty() { Ok(TaskOutcome::Ongoing) } else { self.answers.remove(0) }
    }
    fn stop(&mut self) -> Result<(), String> {
        self.stopped += 1;
        if self.stop_fails { Err("stuck".to_string()) } else { Ok(()) }
    }
    fn describe_task(&self) -> String {
        self.name.to_string()
    }
}

fn failed(text: &str) -> Result<TaskOutcome, String> {
    Ok(TaskOutcome::Failed { reason: text.to_string() })
}

#[test]
fn group_waits_for_a_tick_then_runs_subtasks_in_order() {
    let mut g = TaskGroup::new("Pull")
        .with(scripted("Walk", vec![Ok(TaskOutcome::Succeeded)]))
        .with(scripted("Press", vec![Ok(TaskOutcome::Ongoing), Ok(TaskOutcome::Succeeded)]));
    // No tick: nothing starts.
    assert!(matches!(g.handle(&(), false), Ok(TaskOutcome::Ongoing)));
    assert_eq!(g.subtasks[0].started, 0);
    // A tick: Walk starts and succeeds, Press starts within the same event.
    assert!(matches!(g.handle(&(), true), Ok(TaskOutcome::Ongoing)));
    assert_eq!((g.subtask_index, g.subtasks[1].started), (1, 1));
    assert!(matches!(g.handle(&(), false), Ok(TaskOutcome::Succeeded)));
    assert_eq!(g.subtask_index, 2);
}

#[test]
fn named_group_fails_with_its_status_line() {
    let mut g = TaskGroup::new("Pull").with(scripted("Walk", vec![failed("no path")]));
    match g.handle(&(), true) {
        Ok(TaskOutcome::Failed { reason }) => assert_eq!(reason, "Pull: [1/1] Walk failed: no path"),
        other => panic!("unexpected {other:?}"),
    }
}

#[test]
fn root_group_skips_failed_tasks() {
    let mut g = TaskGroup::new_root()
        .with(scripted("A", vec![failed("no")]))
        .with(scripted("B", vec![Ok(TaskOutcome::Succeeded)]));
    assert!(matches!(g.handle(&(), true), Ok(TaskOutcome::Ongoing)));
    assert_eq!((g.subtask_index, g.subtask_started), (1, false));
    assert!(matches!(g.handle(&(), true), Ok(TaskOutcome::Succeeded)));
}

#[test]
fn subtask_error_stops_it_and_fails_the_group() {
    let mut g = TaskGroup::new_root().with(scripted("A", vec![Err("boom".to_string())]));
    match g.handle(&(), true) {
        Ok(TaskOutcome::Failed { reason }) => {
            assert_eq!(reason, "Error when handling subtask A: Handle [..1] A: boom");
        }
        other => panic!("unexpected {other:?}"),
    }
    assert_eq!(g.subtasks[0].stopped, 1);
    assert!(!g.subtask_started);
}

#[test]
fn add_now_stops_the_running_subtask() {
    let mut g = TaskGroup::new_root().with(scripted("A", vec![]));
    g.handle(&(), true).unwrap();
    assert!(g.subtask_started);
    assert!(g.add_now(scripted("B", vec![])).is_ok());
    assert_eq!(g.subtasks[1].stopped, 1);
    assert_eq!(g.subtasks.iter().map(|t| t.name).collect::<Vec<_>>(), vec!["B", "A"]);
    assert!(!g.subtask_started);

    let mut g = TaskGroup::new_root().with(Scripted { stop_fails: true, ..scripted("A", vec![]) });
    g.handle(&(), true).unwrap();
    assert_eq!(g.add_now(scripted("B", vec![])), Err("Stopping current Task: [..1] A: stuck".to_string()));
    assert_eq!(g.subtasks.len(), 1);
    assert_eq!(g.stop(), Err("Stop A: stuck".to_string()));
}

#[test]
fn once_func_runs_once_on_a_tick() {
    let mut t = OnceFuncTask::new("Save", |x: u32| if x == 1 { Ok(()) } else { Err("bad".to_string()) });
    assert!(matches!(t.handle(false, 1), TaskOutcome::Ongoing));
    assert!(matches!(t.handle(true, 1), TaskOutcome::Succeeded));
    assert!(matches!(t.handle(true, 2), TaskOutcome::Succeeded));
    let mut t = OnceFuncTask::new("Save", |x: u32| if x == 1 { Ok(()) } else { Err("bad".to_string()) });
    match t.handle(true, 2) {
        TaskOutcome::Failed { reason } => assert_eq!(reason, "OnceFunc error: Running OnceFunc (Save)"),
        other => panic!("unexpected {other:?}"),
    }
}

#[test]
fn validate_checks_once_on_a_tick() {
    let check = |x: u32| if x == 0 { Err("gone".to_string()) } else { Ok(x == 1) };
    let mut t = ValidateTask::new("pearl present", check);
    assert!(matches!(t.handle(false, 1), Ok(TaskOutcome::Ongoing)));
    assert!(matches!(t.handle(true, 1), Ok(TaskOutcome::Succeeded)));
    assert!(matches!(t.handle(true, 2), Ok(TaskOutcome::Succeeded)));
    let mut t = ValidateTask::new("pearl present", check);
    match t.handle(true, 2) {
        Ok(TaskOutcome::Failed { reason }) => assert_eq!(reason, "Failed to validate expectation: pearl present"),
        other => panic!("unexpected {other:?}"),
    }
    let mut t = ValidateTask::new("pearl present", check);
    assert_eq!(t.handle(true, 0).err(), Some("Running func of (Validate: pearl present): gone".to_string()));
}

#[test]
fn cosmetic_packets_stop_at_twenty_per_window() {
    let mut r = SongRateLimiter::new();
    r.tick_at(1_000);
    for k in 0..25u32 {
        assert_eq!(r.can_send_cosmetic_packet_at(1_000 + k as u64), k < 20);
        assert_eq!(r.can_send_packet_at(1_000 + k as u64), k < 20);
        r.on_packet_sent_at(1_000 + k as u64);
    }
    // A stop never outlasts the reduction.
    assert!(!r.can_send_cosmetic_packet_at(1_300));
    assert!(r.can_send_packet_at(1_300) || !r.can_send_cosmetic_packet_at(1_300));
}

#[test]
fn looks_and_swings_wait_after_being_sent() {
    let mut r = SongRateLimiter::new();
    r.tick_at(0);
    r.on_look_packet_sent_at(10);
    r.on_swing_packet_sent_at(10);
    r.tick_at(200);
    assert!(!r.can_send_look_packet_at(109));
    assert!(r.can_send_look_packet_at(110));
    assert!(!r.can_send_swing_packet_at(159));
    assert!(r.can_send_swing_packet_at(160));
    assert_eq!(r.estimated_packets(), 0);
}

#[test]
fn gifts_add_up_by_lowercase_name() {
    let mut config = BeerConfig::default();
    config.max_beer = 3;
    let mut b = BeertenderModule::new(config);
    for k in 0..3u32 {
        assert!(!b.had_enough_beer("Steve"), "after {k} beers");
        b.gave_beer(["Steve", "STEVE", "steve"][k as usize]);
    }
    assert!(b.had_enough_beer("sTeVe"));
    assert!(!b.had_enough_beer("Alex"));
}

#[test]
fn head_blocks_belong_to_mob_instruments() {
    for i in [NbsInstrument::Harp, NbsInstrument::Basedrum, NbsInstrument::Pling, NbsInstrument::Zombie, NbsInstrument::CustomHead] {
        assert_eq!(i.example_instrument_block_name().ends_with(" Head"), !i.is_instrument_block_below());
    }
    assert_eq!(NbsInstrument::Harp.example_instrument_block_name(), "Air");
    assert_eq!(NbsInstrument::Basedrum.example_instrument_block_name(), "Stone");
    assert_eq!(NbsInstrument::Pling.example_instrument_block_name(), "Glowstone");
}

#[test]
fn root_group_processing() {
    let mut g: TaskGroup<Scripted> = TaskGroup::new_root();
    assert!(matches!(g.process_root(&(), true, true), Ok(RootReport::Idle)));

    let mut g = TaskGroup::new_root().with(scripted("A", vec![Ok(TaskOutcome::Ongoing), Ok(TaskOutcome::Succeeded)]));
    assert!(matches!(g.process_root(&(), true, true), Ok(RootReport::Ongoing)));
    assert_eq!(g.subtasks.len(), 1);
    assert!(matches!(g.process_root(&(), true, true), Ok(RootReport::Done)));
    assert_eq!((g.subtasks.len(), g.subtask_index), (0, 0));

    let mut g = TaskGroup::new_root().with(scripted("A", vec![]));
    g.process_root(&(), true, true).unwrap();
    assert!(matches!(g.process_root(&(), true, false), Ok(RootReport::Canceled)));
    assert!(g.subtasks.is_empty());

    let mut g = TaskGroup::new_root().with(scripted("A", vec![Err("boom".to_string())]));
    match g.process_root(&(), true, true) {
        Ok(RootReport::Failed(reason)) => assert_eq!(reason, "Error when handling subtask A: Handle [..1] A: boom"),
        other => panic!("unexpected {other:?}"),
    }
    assert!(g.subtasks.is_empty());

    let mut g = TaskGroup::new_root().with(Scripted { stop_fails: true, ..scripted("A", vec![]) });
    g.process_root(&(), true, true).unwrap();
    assert_eq!(g.process_root(&(), true, false).err(), Some("Stop A: stuck".to_string()));
    assert_eq!(g.subtasks.len(), 1);
}
