use stasis_bot::blockpos::BlockPos;
use stasis_bot::dj::play::first_note_at_or_after;
use stasis_bot::dj::playback::{format_playback, format_timestamp, ActualPlaybackStatus, DesiredPlaybackStatus, SongProgress};
use stasis_bot::dj::queue::Queue;
use stasis_bot::dj::rate_limit::SongRateLimiter;
use stasis_bot::dj::search::search;
use stasis_bot::dj::task::{DiscJockeyTask, DjStep, Positioning, SongPlaybackPhase};
use stasis_bot::nbs::file::NbsSong;
use stasis_bot::dj::tune::{format_missing_block_list, plan_tuning, FoundBlock};
use stasis_bot::nbs::defs::{NbsInstrument, NbsPitch};
use stasis_bot::nbs::song::{NbsNote, NbsPositionedNote};

fn note(i: NbsInstrument, p: u8) -> NbsNote {
    NbsNote { instrument: i, pitch: NbsPitch::from_ordinal(p).unwrap() }
}

#[test]
fn queue_moves_in_order_and_wraps_in_repeat_mode() {
    let mut q: Queue<u32> = Queue::new();
    q.songs = vec![10, 20, 30];
    q.ensure_active();
    assert_eq!(q.current_song(), Some(&10));
    q.next();
    q.next();
    assert_eq!(q.current_song(), Some(&30));
    q.next();
    assert_eq!(q.current, None);
    q.current = Some(0);
    q.previous();
    assert_eq!(q.current, None);
    q.repeat = true;
    q.current = Some(0);
    q.previous();
    assert_eq!(q.current, Some(2));
    q.next();
    assert_eq!(q.current, Some(0));
}

#[test]
fn shuffle_never_repeats_the_current_song() {
    let mut q: Queue<u32> = Queue::new();
    q.songs = vec![1, 2, 3, 4];
    q.shuffle = true;
    for _ in 0..50 {
        q.current = Some(2);
        q.next();
        let after = q.current.unwrap();
        // The draw skips the current position; a draw of the last index then points
        // one past the end, where nothing plays.
        assert!(after <= 4);
        assert_ne!(after, 2);
        if after == 4 {
            assert_eq!(q.current_song(), None);
        }
    }
}

#[test]
fn timestamps() {
    assert_eq!(format_timestamp(61_234, false), "01:01");
    assert_eq!(format_timestamp(61_234, true), "01:01.23");
    assert_eq!(format_timestamp(0, true), "00:00.0");
    assert_eq!(format_timestamp(6_000_000, false), "100:00");
}

#[test]
fn playback_text() {
    assert_eq!(format_playback(ActualPlaybackStatus::Tuning, DesiredPlaybackStatus::Playing, None), "Playing » Tuning");
    let song = SongProgress { name: "Tune".to_string(), position_millis: 5_000, length_millis: 65_000 };
    assert_eq!(
        format_playback(ActualPlaybackStatus::Playing, DesiredPlaybackStatus::Playing, Some(song)),
        "Playing: Tune [00:05/01:05]"
    );
    let song = SongProgress { name: "Tune".to_string(), position_millis: 5_000, length_millis: 65_000 };
    assert_eq!(
        format_playback(ActualPlaybackStatus::Tuning, DesiredPlaybackStatus::Playing, Some(song)),
        "Playing » Tuning: Tune [00:05]"
    );
}

#[test]
fn rate_limiter_stops_bursts() {
    let mut r = SongRateLimiter::new();
    r.tick_at(1000);
    for _ in 0..19 {
        assert!(r.can_send_packet_at(1000));
        r.on_packet_sent_at(1000);
    }
    assert!(r.can_send_cosmetic_packet_at(1000));
    r.on_packet_sent_at(1000);
    // Twenty packets in the window: cosmetic ones are reduced for half a second.
    assert!(!r.can_send_cosmetic_packet_at(1050));
    assert!(!r.can_send_packet_at(1050));
    r.tick_at(1100);
    assert!(r.can_send_packet_at(1100));
    assert!(!r.can_send_cosmetic_packet_at(1500));
    assert!(r.can_send_cosmetic_packet_at(1501));
}

#[test]
fn look_and_swing_spacing() {
    let mut r = SongRateLimiter::new();
    r.tick_at(0);
    r.on_look_packet_sent_at(0);
    assert!(!r.can_send_look_packet_at(99));
    assert!(r.can_send_look_packet_at(100));
    r.on_swing_packet_sent_at(0);
    assert!(!r.can_send_swing_packet_at(149));
    assert!(r.can_send_swing_packet_at(150));
    assert_eq!(SongRateLimiter::max_cosmetic_packets_per_100_ms(), 20);
    assert_eq!(SongRateLimiter::max_packets_per_100_ms(), 25);
}

#[test]
fn finds_first_note_from_tick() {
    let n = note(NbsInstrument::Harp, 0);
    let notes = vec![
        NbsPositionedNote { tick: 0, layer: 0, note: n },
        NbsPositionedNote { tick: 4, layer: 0, note: n },
        NbsPositionedNote { tick: 4, layer: 1, note: n },
        NbsPositionedNote { tick: 9, layer: 0, note: n },
    ];
    assert_eq!(first_note_at_or_after(&notes, 0), 0);
    assert_eq!(first_note_at_or_after(&notes, 3), 1);
    assert_eq!(first_note_at_or_after(&notes, 5), 3);
    assert_eq!(first_note_at_or_after(&notes, 10), 4);
}

#[test]
fn tuning_plan_picks_fewest_clicks() {
    let wanted = vec![note(NbsInstrument::Harp, 5), note(NbsInstrument::Bell, 1), note(NbsInstrument::Harp, 7)];
    let found = vec![
        FoundBlock { pos: BlockPos::new(0, 0, 0), note: note(NbsInstrument::Harp, 0) },
        FoundBlock { pos: BlockPos::new(1, 0, 0), note: note(NbsInstrument::Harp, 4) },
    ];
    let (jobs, missing) = plan_tuning(&wanted, &found);
    assert_eq!(jobs.len(), 2);
    assert_eq!(jobs[0].pos, BlockPos::new(1, 0, 0));
    assert_eq!(jobs[0].wanted_pitch.ordinal(), 5);
    assert_eq!(jobs[1].pos, BlockPos::new(0, 0, 0));
    assert_eq!(jobs[1].wanted_pitch.ordinal(), 7);
    assert_eq!(missing.len(), 1);
    assert_eq!(missing[0].instrument, NbsInstrument::Bell);
}

#[test]
fn missing_blocks_most_needed_first() {
    let notes = vec![note(NbsInstrument::Flute, 0), note(NbsInstrument::Bell, 0), note(NbsInstrument::Bell, 3)];
    assert_eq!(format_missing_block_list(&notes), "2x Gold, 1x Clay");
    assert_eq!(format_missing_block_list(&vec![]), "");
}

#[test]
fn reset_limiter_allows_everything() {
    let mut r = SongRateLimiter::new();
    r.tick_at(0);
    for _ in 0..30 {
        r.on_packet_sent_at(0);
    }
    assert!(!r.can_send_packet_at(100));
    r.reset();
    assert!(r.can_send_packet_at(100));
    assert!(r.can_send_cosmetic_packet_at(100));
    assert!(r.can_send_look_packet_at(100));
    assert!(r.can_send_swing_packet_at(100));
}

fn push_text(out: &mut Vec<u8>, s: &[u8]) {
    out.extend_from_slice(&(s.len() as u32).to_le_bytes());
    out.extend_from_slice(s);
}

fn named_song(name: &str) -> NbsSong {
    let mut b = Vec::new();
    b.extend_from_slice(&4u16.to_le_bytes());
    b.extend_from_slice(&1u16.to_le_bytes());
    for s in [name.as_bytes(), b"", b"", b""] {
        push_text(&mut b, s);
    }
    b.extend_from_slice(&1000u16.to_le_bytes());
    b.extend_from_slice(&[0u8; 23]);
    push_text(&mut b, b"");
    b.extend_from_slice(&[0, 0]);
    NbsSong::from_reader(&b, None).unwrap()
}

#[test]
fn search_orders_by_looseness() {
    let songs = vec![
        named_song("Never Gonna Give You Up"),
        named_song("never gonna"),
        named_song("Tetris (Theme)"),
        named_song("Giving"),
        named_song("Dup"),
        named_song("Dup"),
    ];
    assert_eq!(search(&songs, "never gonna"), vec![1, 0]);
    assert_eq!(search(&songs, "tetris theme"), vec![2]);
    assert_eq!(search(&songs, "giv"), vec![3, 0]);
    assert_eq!(search(&songs, "DUP"), vec![4]);
    assert!(search(&songs, "zzz").is_empty());
}

fn two_note_song() -> NbsSong {
    let mut b = Vec::new();
    b.extend_from_slice(&4u16.to_le_bytes());
    b.extend_from_slice(&1u16.to_le_bytes());
    for s in [&b"Duet"[..], b"", b"", b""] {
        push_text(&mut b, s);
    }
    b.extend_from_slice(&1000u16.to_le_bytes());
    b.extend_from_slice(&[0u8; 23]);
    push_text(&mut b, b"");
    // tick 0: harp key 45 (pitch 12); tick 1: bass key 33 (pitch 0)
    b.extend_from_slice(&[1, 0, 1, 0, 0, 45, 0, 0, 1, 0, 1, 0, 1, 33, 0, 0, 0, 0]);
    NbsSong::from_reader(&b, None).unwrap()
}

#[test]
fn tuning_finishes_when_every_note_has_a_place() {
    let harp = note(NbsInstrument::Harp, 12);
    let bass = note(NbsInstrument::Bass, 0);
    let bell = note(NbsInstrument::Bell, 3);
    let mut task = DiscJockeyTask::new();
    task.song = Some(two_note_song());
    let found = vec![
        (harp, BlockPos::new(0, 0, 0)),
        (bell, BlockPos::new(1, 0, 0)),
        (bass, BlockPos::new(2, 0, 0)),
        (harp, BlockPos::new(3, 0, 0)),
    ];
    assert!(task.finish_tuning(&found).is_ok());
    assert_eq!(task.positions, vec![(harp, BlockPos::new(0, 0, 0)), (bass, BlockPos::new(2, 0, 0))]);
    assert_eq!(task.phase, SongPlaybackPhase::Playing);

    let mut short = DiscJockeyTask::new();
    short.song = Some(two_note_song());
    assert_eq!(
        short.finish_tuning(&vec![(harp, BlockPos::new(0, 0, 0))]),
        Err("Only found 1 out of 2 required unique notes nearby! Was tuning done?".to_string())
    );
}

#[test]
fn disc_jockey_steps_by_phase_and_stops_for_other_tasks() {
    let mut task = DiscJockeyTask::new();
    assert_eq!(task.next_step(), DjStep::Initialize);
    task.phase = SongPlaybackPhase::Centering;
    assert_eq!(task.next_step(), DjStep::Position(Positioning::Center));
    task.phase = SongPlaybackPhase::Playing;
    assert_eq!(task.next_step(), DjStep::Play);
    task.new_task_waiting();
    assert_eq!(task.next_step(), DjStep::StopVoluntarily);
}
