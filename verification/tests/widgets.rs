use quecksilber::screenshot::{next_capture, screenshot_list, screenshot_names, screenshot_path, variants, Screenshot};
use quecksilber::selection::{clamp_index, Selection};
use quecksilber::widgets::circle::Circle;
use quecksilber::widgets::gauge::{is_label_step, ArmStyle, Origin, Subdivision};
use quecksilber::widgets::lever_switch::{lever_label_slots, lever_title_raised, LabelSlot, LeverOrientation};

#[test]
fn clamp_selection() {
    assert_eq!(clamp_index(2, 5), 2);
    assert_eq!(clamp_index(9, 5), 4);
    assert_eq!(clamp_index(3, 0), 0);
    let mut s = Selection::new(5, 7);
    assert_eq!(s.selected(), 4);
    s.select(1);
    assert_eq!(s.selected(), 1);
    assert!(s.step(2));
    assert_eq!(s.selected(), 3);
    assert!(s.step(10));
    assert_eq!(s.selected(), 4);
    assert!(!s.step(1));
    assert!(s.step(-100));
    assert_eq!(s.selected(), 0);
    let mut one = Selection::new(1, 0);
    assert!(!one.step(3));
    assert_eq!(one.count(), 1);
}

#[test]
fn gauge_enums_and_ticks() {
    assert_eq!(Origin::default(), Origin::Bottom);
    assert_eq!(ArmStyle::default(), ArmStyle::Blunt);
    assert_eq!(Subdivision::default(), Subdivision::Integer);
    assert_eq!(Subdivision::Every(0).normalized(), Subdivision::Every(1));
    assert_eq!(Subdivision::Fraction(1).normalized(), Subdivision::Fraction(2));
    assert_eq!(Subdivision::Fraction(5).normalized(), Subdivision::Fraction(5));
    assert_eq!(Subdivision::NoTicks.normalized(), Subdivision::NoTicks);
    assert!(is_label_step(0, 3, false));
    assert!(is_label_step(6, 3, false));
    assert!(!is_label_step(7, 3, false));
    assert!(is_label_step(7, 3, true));
    assert!(!is_label_step(5, 0, false));
    assert_eq!(Circle::new(), Circle);
}

#[test]
fn lever_label_layout() {
    assert_eq!(LeverOrientation::default(), LeverOrientation::Horizontal);
    assert_eq!(
        lever_label_slots(LeverOrientation::Horizontal, 2, 2),
        vec![LabelSlot::Left, LabelSlot::Right]
    );
    assert_eq!(
        lever_label_slots(LeverOrientation::Horizontal, 3, 3),
        vec![LabelSlot::Row, LabelSlot::Row, LabelSlot::Row]
    );
    assert_eq!(
        lever_label_slots(LeverOrientation::Vertical, 3, 5),
        vec![LabelSlot::Above, LabelSlot::Middle, LabelSlot::Below]
    );
    assert_eq!(
        lever_label_slots(LeverOrientation::Vertical, 2, 2),
        vec![LabelSlot::Above, LabelSlot::Below]
    );
    assert!(lever_label_slots(LeverOrientation::Vertical, 2, 0).is_empty());
    assert!(lever_title_raised(LeverOrientation::Vertical, 2, 2));
    assert!(!lever_title_raised(LeverOrientation::Horizontal, 3, 3));
    assert!(!lever_title_raised(LeverOrientation::Vertical, 2, 0));
}

#[test]
fn screenshot_catalogue() {
    let names = screenshot_names();
    assert_eq!(names.len(), 23);
    assert_eq!(names[0], "sub_none");
    assert_eq!(names[22], "lever_switch_vertical");
    let all = screenshot_list(None);
    assert_eq!(all.len(), names.len());
    for (i, (name, _)) in all.iter().enumerate() {
        assert_eq!(*name, names[i]);
    }
    assert_eq!(all[3].1, Screenshot::GaugeVariant(3));
    assert_eq!(all[15], ("dual_gauge", Screenshot::DualGauge));
    let one = screenshot_list(Some("rotary_selector"));
    assert_eq!(one, vec![("rotary_selector", Screenshot::RotarySelector)]);
    let vars = variants();
    assert_eq!(vars.len(), 15);
    assert_eq!(vars[7].name, "centered_100_mid");
    assert_eq!(vars[7].range, (0, 100));
    assert_eq!(vars[7].gap_percent, 20);
    assert_eq!(vars[13].subdivision, Subdivision::Fraction(4));
    assert_eq!(screenshot_path("every_5"), "screenshots/every_5.png");
    assert_eq!(next_capture(0, 23), Some(1));
    assert_eq!(next_capture(22, 23), None);
}

#[test]
fn selection_steps_back_to_start() {
    let mut s = Selection::new(5, 1);
    assert!(s.step(2));
    assert!(s.step(-2));
    assert_eq!(s.selected(), 1);
    s.select(3);
    s.select(s.selected());
    assert_eq!(s.selected(), 3);
}
