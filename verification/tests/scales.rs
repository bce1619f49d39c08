use quecksilber::event_timer::second_marks;
use quecksilber::gauge::{scale_ticks, ScaleTick};

#[test]
fn scale_ticks_interleave_major_and_minor() {
    let ticks = scale_ticks(5, 4);
    assert_eq!(ticks.len(), 26);
    assert_eq!(ticks[0], ScaleTick { position: 0, divisions: 25, major: true });
    assert!(!ticks[1].major);
    assert!(ticks[5].major);
    assert!(ticks[25].major);
    assert_eq!(ticks.iter().filter(|t| t.major).count(), 6);
    let edge = scale_ticks(10, 3);
    assert_eq!(edge.len(), 41);
    assert_eq!(edge.iter().filter(|t| t.major).count(), 11);
    assert!(scale_ticks(0, 4).is_empty());
    let bare = scale_ticks(3, 0);
    assert_eq!(bare.len(), 4);
    assert!(bare.iter().all(|t| t.major && t.divisions == 3));
}

#[test]
fn timer_dial_marks() {
    let marks = second_marks();
    assert_eq!(marks.len(), 60);
    assert_eq!(marks[0].as_deref(), Some("0"));
    assert_eq!(marks[5].as_deref(), Some("5"));
    assert_eq!(marks[55].as_deref(), Some("55"));
    assert_eq!(marks[1], None);
    assert_eq!(marks.iter().filter(|m| m.is_some()).count(), 12);
}
