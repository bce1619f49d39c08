use quecksilber::anim::{next_frame, FrameAction};
use quecksilber::event_timer::{Elapsed, EventTimer, TimerMode};

#[test]
fn timer_hms_decomposition() {
    let timer = EventTimer::new("T", Elapsed::from_secs(3661)); // 1h 1m 1s
    assert_eq!(timer.hours(), 1);
    assert_eq!(timer.minutes(), 1);
    assert_eq!(timer.seconds(), 1);
}

#[test]
fn timer_zero() {
    let timer = EventTimer::new("T", Elapsed::zero());
    assert_eq!(timer.hours(), 0);
    assert_eq!(timer.minutes(), 0);
    assert_eq!(timer.seconds(), 0);
}

#[test]
fn timer_readout_pads_fields() {
    let timer = EventTimer::new("MET", Elapsed::from_secs(3661));
    assert_eq!(timer.readout(), "01:01:01");
    let timer = EventTimer::new("MET", Elapsed::zero());
    assert_eq!(timer.readout(), "00:00:00");
    let timer = EventTimer::new("MET", Elapsed::from_secs(100 * 3600 + 59 * 60 + 59));
    assert_eq!(timer.readout(), "100:59:59");
    let timer = EventTimer::new("MET", Elapsed::from_secs(12 * 3600 + 34 * 60 + 56));
    assert_eq!(timer.readout(), "12:34:56");
}

#[test]
fn timer_millis_split() {
    let e = Elapsed::from_millis(30500);
    assert_eq!(e.as_secs(), 30);
    assert_eq!(e.subsec_millis(), 500);
    let e = Elapsed::from_parts(7, 999_999_999);
    assert_eq!(e.subsec_millis(), 999);
}

#[test]
fn timer_builders_and_frames() {
    let timer = EventTimer::new("MET", Elapsed::from_secs(5));
    assert_eq!(timer.timer_mode(), TimerMode::CountUp);
    assert!(!timer.is_running());
    let timer = timer.mode(TimerMode::CountDown).running(true);
    assert_eq!(timer.timer_mode(), TimerMode::CountDown);
    assert!(timer.is_running());
    assert_eq!(timer.label(), "MET");
    assert_eq!(timer.elapsed().as_secs(), 5);
    assert_eq!(timer.frame_action(false), FrameAction::Advance);
    assert_eq!(timer.frame_action(true), FrameAction::Redraw);
    let stopped = timer.running(false);
    assert_eq!(stopped.frame_action(true), FrameAction::Rest);
    assert_eq!(next_frame(true, false), FrameAction::Rest);
    assert_eq!(next_frame(false, false), FrameAction::Advance);
}
