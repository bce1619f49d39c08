//! Discrete logic of a set of Mercury-spacecraft styled instrument widgets:
//! status enumerations and their textual forms, colour palette selection,
//! button faces, panel layout, timer read-outs, dial scales, option selection
//! and the screenshot catalogue.

pub mod anim;
pub mod async_action_button;
pub mod color;
pub mod event_timer;
pub mod gauge;
pub mod guarded_button;
pub mod indicator;
pub mod indicator_panel;
pub mod screenshot;
pub mod selection;
pub mod text;
pub mod theme;
pub mod toggle_switch;
pub mod widgets;

pub use async_action_button::ActionState;
pub use color::MercuryColors;
pub use event_timer::EventTimer;
pub use guarded_button::GuardState;
pub use indicator::IndicatorStatus;
pub use theme::mercury_colors;
