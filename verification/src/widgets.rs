//! The discrete parts of the round cockpit instrument widgets.

pub mod circle;
pub mod gauge;
pub mod lever_switch;
