use quecksilber::async_action_button::{action_face, action_face_from_caption, ActionState};
use quecksilber::color::{MercuryColors, Rgba8};
use quecksilber::guarded_button::{guarded_faces, guarded_faces_from_caption, GuardPress, GuardState};
use quecksilber::indicator::{ColorPlan, IndicatorAnimation, IndicatorStatus};
use quecksilber::indicator_panel::panel_rows;
use quecksilber::theme::mercury_colors;
use quecksilber::toggle_switch::{toggle_face, ToggleFace};

#[test]
fn status_color_maps_correctly() {
    let colors = MercuryColors::<Rgba8>::default();
    assert_eq!(colors.status_color(IndicatorStatus::Off), colors.off);
    assert_eq!(
        colors.status_color(IndicatorStatus::Nominal),
        colors.nominal
    );
    assert_eq!(
        colors.status_color(IndicatorStatus::Caution),
        colors.caution
    );
    assert_eq!(colors.status_color(IndicatorStatus::Alert), colors.alert);
}

#[test]
fn default_colors_are_opaque() {
    let colors = mercury_colors();
    let all = [
        colors.off,
        colors.panel_bg,
        colors.bezel,
        colors.needle,
        colors.tick_mark,
        colors.nominal,
        colors.caution,
        colors.alert,
        colors.primary,
        colors.text,
        colors.background,
    ];
    for color in all {
        assert_eq!(color.a, 255, "Expected opaque color, got alpha={}", color.a);
    }
    assert_eq!(colors.alert, Rgba8::rgb(0xDA, 0x36, 0x33));
    assert_eq!(colors.needle, Rgba8 { r: 255, g: 255, b: 255, a: 255 });
}

#[test]
fn action_face_by_state() {
    let colors = mercury_colors();
    let idle = action_face("abort", ActionState::Idle, &colors);
    assert_eq!(idle.label, "ABORT");
    assert!(idle.clickable);
    assert_eq!(idle.background, colors.off);
    assert_eq!(idle.text_color, colors.text);
    let pending = action_face("abort", ActionState::Pending, &colors);
    assert!(!pending.clickable);
    assert_eq!(pending.background, colors.caution);
    assert_eq!(pending.text_color, colors.background);
    let done = action_face("x", ActionState::Succeeded, &colors);
    assert_eq!(done.background, colors.nominal);
    assert!(!done.clickable);
    let failed = action_face("x", ActionState::Failed, &colors);
    assert_eq!(failed.background, colors.alert);
    assert_eq!(failed.text_color, colors.text);
}

#[test]
fn guarded_faces_by_state() {
    let colors = mercury_colors();
    let armed = guarded_faces("retro fire", GuardState::Armed, &colors);
    assert_eq!(armed.len(), 1);
    assert_eq!(armed[0].text, "SAFE  RETRO FIRE");
    assert_eq!(armed[0].press, GuardPress::Confirm);
    assert_eq!(armed[0].background, colors.panel_bg);
    assert_eq!(armed[0].border, colors.alert);
    let confirming = guarded_faces("retro fire", GuardState::Confirming, &colors);
    assert_eq!(confirming.len(), 2);
    assert_eq!(confirming[0].text, "CONFIRM: RETRO FIRE");
    assert_eq!(confirming[0].press, GuardPress::Execute);
    assert_eq!(confirming[0].background, colors.alert);
    assert_eq!(confirming[1].text, "SAFE");
    assert_eq!(confirming[1].press, GuardPress::Arm);
    assert_eq!(confirming[1].background, colors.bezel);
}

#[test]
fn toggle_faces() {
    assert_eq!(toggle_face(Some(true)), ToggleFace::Covered);
    assert_eq!(toggle_face(Some(false)), ToggleFace::Open { lock_button: true });
    assert_eq!(toggle_face(None), ToggleFace::Open { lock_button: false });
}

#[test]
fn panel_rows_chunk_in_order() {
    let items = [1, 2, 3, 4, 5, 6, 7];
    let rows = panel_rows(&items, 3);
    assert_eq!(rows, vec![vec![1, 2, 3], vec![4, 5, 6], vec![7]]);
    let rows = panel_rows(&items, 0);
    assert_eq!(rows.len(), 7);
    assert_eq!(rows[6], vec![7]);
    let rows = panel_rows(&items, 10);
    assert_eq!(rows, vec![vec![1, 2, 3, 4, 5, 6, 7]]);
    let empty: [u8; 0] = [];
    assert!(panel_rows(&empty, 4).is_empty());
    let systems = [("ELEC", IndicatorStatus::Nominal), ("HEAT", IndicatorStatus::Alert)];
    let rows = panel_rows(&systems, 4);
    assert_eq!(rows, vec![vec![("ELEC", IndicatorStatus::Nominal), ("HEAT", IndicatorStatus::Alert)]]);
}

#[test]
fn indicator_color_plans() {
    let mut anim = IndicatorAnimation::new();
    assert_eq!(anim.plan(IndicatorStatus::Nominal), ColorPlan::Snap);
    assert_eq!(anim.plan(IndicatorStatus::Nominal), ColorPlan::Keep);
    assert_eq!(anim.plan(IndicatorStatus::Alert), ColorPlan::Retarget);
    assert_eq!(anim.last_status, IndicatorStatus::Alert);
    assert!(anim.initialized);
}

#[test]
fn faces_keep_the_caption_given() {
    let colors = mercury_colors();
    let face = action_face_from_caption("Mixed Case".to_string(), ActionState::Idle, &colors);
    assert_eq!(face.label, "Mixed Case");
    assert!(face.clickable);
    let faces = guarded_faces_from_caption("abort", GuardState::Armed, &colors);
    assert_eq!(faces[0].text, "SAFE  abort");
    let faces = guarded_faces_from_caption("abort", GuardState::Confirming, &colors);
    assert_eq!(faces[0].text, "CONFIRM: abort");
    assert_eq!(faces[1].text, "SAFE");
}

#[test]
fn uppercase_is_unicode_aware() {
    let colors = mercury_colors();
    assert_eq!(action_face("straße", ActionState::Idle, &colors).label, "STRASSE");
}
