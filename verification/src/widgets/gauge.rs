use vstd::prelude::*;

verus! {

/// Where the scale starts on the circle.
#[derive(Debug, Clone, Copy, PartialEq, Eq, Structural)]
pub enum Origin {
    /// The minimum value starts at the very bottom (6 o'clock).
    Bottom,
    /// The gap is centered at the bottom; the scale is symmetric around the top.
    Centered,
    /// The minimum value starts at the left (9 o'clock).
    Left,
    /// The minimum value starts at the right (3 o'clock).
    Right,
}

impl Default for Origin {
    fn default() -> (o: Self)
        ensures
            o == Origin::Bottom,
    {
        Origin::Bottom
    }
}

/// How to place small subdivision ticks between labeled ticks.
#[derive(Debug, Clone, Copy, PartialEq, Eq, Structural)]
pub enum Subdivision {
    /// No subdivision ticks.
    NoTicks,
    /// A small tick at every integer step.
    Integer,
    /// A small tick every N units.
    Every(u32),
    /// Subdivide every integer step into N equal parts with small ticks.
    Fraction(u32),
}

impl Default for Subdivision {
    fn default() -> (s: Self)
        ensures
            s == Subdivision::Integer,
    {
        Subdivision::Integer
    }
}

impl Subdivision {
    /// The subdivision the gauge draws: a tick every N units takes N at least
    /// one, and a split of each unit into N parts takes N at least two.
    pub fn normalized(self) -> (s: Subdivision)
        ensures
            self == Subdivision::NoTicks ==> s == Subdivision::NoTicks,
            self == Subdivision::Integer ==> s == Subdivision::Integer,
            self matches Subdivision::Every(n) ==> s == Subdivision::Every(
                if n == 0 { 1 } else { n },
            ),
            self matches Subdivision::Fraction(n) ==> s == Subdivision::Fraction(
                if n < 2 { 2 } else { n },
            ),
    {
        match self {
            Subdivision::Every(n) => Subdivision::Every(if n == 0 { 1 } else { n }),
            Subdivision::Fraction(n) => Subdivision::Fraction(if n < 2 { 2 } else { n }),
            other => other,
        }
    }
}

/// The style of the gauge arm (needle).
#[derive(Debug, Clone, Copy, PartialEq, Eq, Structural)]
pub enum ArmStyle {
    /// Wide rectangle with a triangular tip and short counterweight.
    Blunt,
    /// Thinner version of Blunt — narrower rectangle, smaller tip and counterweight.
    Slim,
    /// Thin elongated needle with a center circle and counterweight circle.
    Needle,
}

impl Default for ArmStyle {
    fn default() -> (a: Self)
        ensures
            a == ArmStyle::Blunt,
    {
        ArmStyle::Blunt
    }
}

/// Whether the tick `step` whole units past the scale's minimum carries a
/// numeric label: every `label_every` units (when that is not 0), the first
/// tick, and the tick that stands at the scale's maximum.
pub fn is_label_step(step: u32, label_every: u32, at_max: bool) -> (l: bool)
    ensures
        l == ((label_every > 0 && step % label_every == 0) || step == 0 || at_max),
{
    (label_every > 0 && step % label_every == 0) || step == 0 || at_max
}

} // verus!
