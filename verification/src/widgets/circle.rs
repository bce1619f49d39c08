use vstd::prelude::*;

verus! {

/// A filled circle in the theme's background color that fills the available space.
///
/// The circle radius is the largest that fits within the bounds.
/// The area outside the circle is transparent, showing whatever is behind the widget.
#[derive(Debug, Clone, Copy, PartialEq, Eq, Structural)]
pub struct Circle;

impl Circle {
    /// The circle.
    pub fn new() -> (c: Circle)
        ensures
            c == Circle,
    {
        Circle
    }
}

} // verus!
