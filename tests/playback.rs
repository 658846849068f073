use midi_replay::dispatch::{Dispatcher, EventKind, MetaText, Output, PlaybackError, TrackEvent};
use midi_replay::pacing::{paced_duration, wait_for, wait_step, WaitStep, CHECK_INTERVAL_US};
use midi_replay::shutdown::all_notes_off_messages;
use midi_replay::tempo::{ticks_per_beat, TempoModel, Timing, TimingError};

fn ev(delta: u32, kind: EventKind, bytes: Vec<u8>) -> TrackEvent {
    TrackEvent { delta, kind, bytes }
}

#[test]
fn tempo_truncates_per_tick_rate() {
    let mut m = TempoModel::new(480);
    assert!(!m.is_established());
    m.set_tempo(500_000);
    assert!(m.is_established());
    assert_eq!(m.us_per_tick(), 1041);
    assert_eq!(m.microseconds_for(3), 3123);
    let mut m = TempoModel::new(7);
    m.set_tempo(100);
    assert_eq!(m.us_per_tick(), 14);
    assert_eq!(m.microseconds_for(0), 0);
    assert_eq!(m.microseconds_for(u32::MAX), u32::MAX as u64 * 14);
}

#[test]
fn tempo_below_ppqn_gives_zero_rate() {
    let mut m = TempoModel::new(480);
    m.set_tempo(100);
    assert_eq!(m.us_per_tick(), 0);
    assert_eq!(m.microseconds_for(240), 0);
}

#[test]
fn half_beat_at_480_ppqn() {
    let mut m = TempoModel::new(480);
    m.set_tempo(500_000);
    assert_eq!(m.microseconds_for(240), 249_840);
}

#[test]
fn timing_formats() {
    assert_eq!(ticks_per_beat(Timing::Metrical(96)), Ok(96));
    assert_eq!(ticks_per_beat(Timing::Metrical(0)), Err(TimingError::ZeroTicksPerBeat));
    assert_eq!(ticks_per_beat(Timing::Timecode(25, 40)), Err(TimingError::UnsupportedFormat));
}

#[test]
fn wait_already_due_returns_at_once() {
    assert_eq!(wait_for(1000, 1000), None);
    assert_eq!(wait_for(1000, 5000), None);
    assert_eq!(wait_for(0, 0), None);
}

#[test]
fn wait_is_paced_ten_percent_fast() {
    assert_eq!(wait_for(1100, 0), Some(1000));
    assert_eq!(wait_for(1200, 100), Some(1000));
    assert_eq!(wait_for(10, 9), Some(0));
    assert_eq!(paced_duration(11), 10);
    assert_eq!(paced_duration(21), 19);
    assert_eq!(paced_duration(u64::MAX), ((u64::MAX as u128) * 10 / 11) as u64);
}

#[test]
fn wait_steps_in_sub_intervals() {
    assert_eq!(wait_step(25_000, true), WaitStep::Sleep { duration: CHECK_INTERVAL_US, rest: 15_000 });
    assert_eq!(wait_step(5_000, true), WaitStep::Sleep { duration: 5_000, rest: 0 });
    assert_eq!(wait_step(0, true), WaitStep::Done);
    assert_eq!(wait_step(0, false), WaitStep::Cancelled);
    assert_eq!(wait_step(5_000, false), WaitStep::Cancelled);
}

#[test]
fn cancel_during_ten_interval_wait() {
    // The flag is cleared during the fourth sub-interval.
    let mut remaining = 10 * CHECK_INTERVAL_US;
    let mut slept: Vec<u64> = Vec::new();
    let mut looks = 0;
    let end = loop {
        let running = looks < 4;
        looks += 1;
        match wait_step(remaining, running) {
            WaitStep::Sleep { duration, rest } => {
                slept.push(duration);
                remaining = rest;
            }
            other => break other,
        }
    };
    assert_eq!(end, WaitStep::Cancelled);
    assert_eq!(slept, vec![CHECK_INTERVAL_US; 4]);
}

#[test]
fn uncancelled_wait_runs_to_end() {
    let mut remaining = 10 * CHECK_INTERVAL_US + 1;
    let mut total = 0;
    let mut count = 0;
    let end = loop {
        match wait_step(remaining, true) {
            WaitStep::Sleep { duration, rest } => {
                total += duration;
                count += 1;
                remaining = rest;
            }
            other => break other,
        }
    };
    assert_eq!(end, WaitStep::Done);
    assert_eq!(total, 10 * CHECK_INTERVAL_US + 1);
    assert_eq!(count, 11);
}

#[test]
fn all_notes_off_on_sixteen_channels() {
    let msgs = all_notes_off_messages();
    assert_eq!(msgs.len(), 16);
    for (c, m) in msgs.iter().enumerate() {
        assert_eq!(m, &vec![0xB0 + c as u8, 0x7B, 0x00]);
    }
    assert_eq!(msgs[15], vec![0xBF, 0x7B, 0x00]);
}

#[test]
fn tempo_event_is_not_sent() {
    let mut d = Dispatcher::new(480);
    let step = d.dispatch(&ev(0, EventKind::Tempo(500_000), vec![0xFF, 0x51, 0x03, 0x07, 0xA1, 0x20])).unwrap();
    assert_eq!(step.wait_us, 0);
    assert!(matches!(step.output, Output::Skip));
    let step = d.dispatch(&ev(240, EventKind::OtherMeta, vec![0xFF, 0x2F, 0x00])).unwrap();
    assert_eq!(step.wait_us, 249_840);
    assert!(matches!(step.output, Output::Skip));
}

#[test]
fn track_name_is_only_shown() {
    let mut d = Dispatcher::new(96);
    let step = d.dispatch(&ev(0, EventKind::Text(MetaText::TrackName), b"Piano".to_vec())).unwrap();
    assert!(matches!(step.output, Output::Show(MetaText::TrackName)));
    let step = d.dispatch(&ev(0, EventKind::Text(MetaText::Lyric), b"la".to_vec())).unwrap();
    assert!(matches!(step.output, Output::Show(MetaText::Lyric)));
}

#[test]
fn channel_message_bytes_unchanged() {
    let mut d = Dispatcher::new(96);
    let step = d.dispatch(&ev(0, EventKind::Transmit, vec![0x90, 0x3C, 0x64])).unwrap();
    match step.output {
        Output::Send(b) => assert_eq!(b, vec![0x90, 0x3C, 0x64]),
        other => panic!("unexpected output {:?}", other),
    }
}

#[test]
fn delta_before_tempo_is_an_error() {
    let mut d = Dispatcher::new(96);
    assert!(d.dispatch(&ev(0, EventKind::Transmit, vec![0x90, 0x3C, 0x64])).is_ok());
    assert_eq!(
        d.dispatch(&ev(10, EventKind::Transmit, vec![0x80, 0x3C, 0x64])).unwrap_err(),
        PlaybackError::MissingTempo { tick: 10 }
    );
    assert_eq!(d.ticks(), 0);
}

#[test]
fn ticks_restart_with_each_track_tempo_stays() {
    let mut d = Dispatcher::new(96);
    d.dispatch(&ev(0, EventKind::Tempo(480_000), vec![])).unwrap();
    d.dispatch(&ev(50, EventKind::Transmit, vec![0x90, 1, 1])).unwrap();
    assert_eq!(d.ticks(), 50);
    d.start_track();
    assert_eq!(d.ticks(), 0);
    let step = d.dispatch(&ev(2, EventKind::Transmit, vec![0x80, 1, 1])).unwrap();
    assert_eq!(step.wait_us, 10_000);
    assert_eq!(d.ticks(), 2);
}

/// Plays `events` against a device that refuses the send numbered `fail_at`.
fn play(events: &[TrackEvent], fail_at: Option<usize>) -> (Vec<u64>, Vec<Vec<u8>>, Result<(), PlaybackError>) {
    let mut d = Dispatcher::new(96);
    let mut waits = Vec::new();
    let mut sent = Vec::new();
    for (i, e) in events.iter().enumerate() {
        let step = match d.dispatch(e) {
            Ok(s) => s,
            Err(err) => return (waits, sent, Err(err)),
        };
        if step.wait_us > 0 {
            waits.push(step.wait_us);
        }
        if let Output::Send(bytes) = step.output {
            if fail_at == Some(i) {
                return (waits, sent, Err(d.transmission_failed(i, bytes.len())));
            }
            sent.push(bytes);
        }
    }
    (waits, sent, Ok(()))
}

fn three_note_track() -> Vec<TrackEvent> {
    vec![
        ev(0, EventKind::Tempo(500_000), vec![0xFF, 0x51, 0x03, 0x07, 0xA1, 0x20]),
        ev(0, EventKind::Transmit, vec![0x90, 60, 100]),
        ev(0, EventKind::Transmit, vec![0x80, 60, 100]),
        ev(96, EventKind::Transmit, vec![0x90, 62, 100]),
        ev(0, EventKind::Transmit, vec![0x80, 62, 100]),
        ev(96, EventKind::Transmit, vec![0x90, 64, 100]),
        ev(0, EventKind::Transmit, vec![0x80, 64, 100]),
    ]
}

#[test]
fn three_notes_at_96_ppqn() {
    let events = three_note_track();
    let (waits, sent, result) = play(&events, None);
    assert_eq!(result, Ok(()));
    // The first pair is due at tick 0: nothing to wait before it. A beat of
    // 500000 us at 96 ticks is 5208 us per tick once truncated, so 96 ticks
    // last 499968 us.
    assert_eq!(waits, vec![96 * (500_000 / 96), 96 * (500_000 / 96)]);
    assert_eq!(waits[0], 499_968);
    assert_eq!(sent.len(), 6);
    assert_eq!(sent[0], vec![0x90, 60, 100]);
    assert_eq!(sent[5], vec![0x80, 64, 100]);
}

#[test]
fn failed_send_aborts_with_its_tick() {
    let events = three_note_track();
    let (_, sent, result) = play(&events, Some(3));
    assert_eq!(sent.len(), 2);
    assert_eq!(result, Err(PlaybackError::Transmission { tick: 96, index: 3, len: 3 }));
}
