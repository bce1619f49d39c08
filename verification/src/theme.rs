use vstd::prelude::*;
use crate::color::{MercuryColors, Rgba8};

verus! {

/// Returns the default [`MercuryColors`] for widget rendering.
pub fn mercury_colors() -> (p: MercuryColors<Rgba8>)
    ensures
        p == MercuryColors::<Rgba8>::default_palette(),
{
    MercuryColors::default()
}

} // verus!
