use fireflies::clock::{FrameClock, LoopAction, LoopEvent, NANOS_PER_MILLI};
use fireflies::config::Config;

#[test]
fn eight_milliseconds_in_nanoseconds() {
    let clock = FrameClock::from_millis(Config::default().tick_interval_ms).unwrap();
    assert_eq!(clock.interval_nanos, 8_000_000);
    assert_eq!(NANOS_PER_MILLI, 1_000_000);
}

#[test]
fn an_interval_beyond_64_bits_is_refused() {
    assert_eq!(FrameClock::from_millis(u64::MAX), None);
    assert_eq!(FrameClock::from_millis(u64::MAX / 1_000_000 + 1), None);
    assert_eq!(
        FrameClock::from_millis(u64::MAX / 1_000_000),
        Some(FrameClock { interval_nanos: 18_446_744_073_709_000_000 })
    );
    assert_eq!(FrameClock::from_millis(0), Some(FrameClock { interval_nanos: 0 }));
}

#[test]
fn an_early_frame_waits_for_the_rest_of_the_interval() {
    let clock = FrameClock { interval_nanos: 8_000_000 };
    assert_eq!(clock.remaining(0), 8_000_000);
    assert_eq!(clock.remaining(3_000_000), 5_000_000);
    assert_eq!(clock.remaining(7_999_999), 1);
}

#[test]
fn a_late_frame_does_not_wait() {
    let clock = FrameClock { interval_nanos: 8_000_000 };
    assert_eq!(clock.remaining(8_000_000), 0);
    assert_eq!(clock.remaining(20_000_000), 0);
    assert_eq!(clock.remaining(u64::MAX), 0);
}

#[test]
fn closing_leaves_the_loop() {
    let clock = FrameClock { interval_nanos: 8_000_000 };
    assert_eq!(clock.on_event(LoopEvent::CloseRequested), LoopAction::Exit);
}

#[test]
fn waiting_paces_the_frames() {
    let clock = FrameClock { interval_nanos: 8_000_000 };
    assert_eq!(
        clock.on_event(LoopEvent::AboutToWait { elapsed_nanos: 1_500_000 }),
        LoopAction::Pace { sleep_nanos: 6_500_000 }
    );
    assert_eq!(
        clock.on_event(LoopEvent::AboutToWait { elapsed_nanos: 9_000_000 }),
        LoopAction::Pace { sleep_nanos: 0 }
    );
}

#[test]
fn every_frame_is_one_tick() {
    let clock = FrameClock { interval_nanos: 8_000_000 };
    assert_eq!(clock.on_event(LoopEvent::RedrawRequested), LoopAction::Tick);
}

#[test]
fn other_events_are_ignored() {
    let clock = FrameClock { interval_nanos: 8_000_000 };
    assert_eq!(clock.on_event(LoopEvent::Other), LoopAction::Ignore);
}
