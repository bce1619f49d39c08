use vstd::prelude::*;
use crate::indicator::IndicatorStatus;

verus! {

/// A colour as four 8-bit channels (red, green, blue, alpha; 255 is opaque).
#[derive(Debug, Clone, Copy, PartialEq, Eq, Structural)]
pub struct Rgba8 {
    pub r: u8,
    pub g: u8,
    pub b: u8,
    pub a: u8,
}

impl Rgba8 {
    /// An opaque colour from its three 8-bit channels.
    pub fn rgb(r: u8, g: u8, b: u8) -> (c: Rgba8)
        ensures
            c == (Rgba8 { r, g, b, a: 255 }),
    {
        Rgba8 { r, g, b, a: 255 }
    }
}

/// The extended colour palette of the widgets, one colour per role.
///
/// The palette is generic over the colour type so that a renderer can hold its
/// own colour values in it; the default palette is given in [`Rgba8`].
#[derive(Debug, Clone, Copy, PartialEq)]
pub struct MercuryColors<C> {
    /// Powered-down / inactive indicator color.
    pub off: C,
    /// Widget panel surface background.
    pub panel_bg: C,
    /// Gauge bezels, panel frames.
    pub bezel: C,
    /// Gauge needles, active scan lines.
    pub needle: C,
    /// Scale markings, tick marks.
    pub tick_mark: C,
    /// Nominal status glow (green).
    pub nominal: C,
    /// Caution status glow (amber).
    pub caution: C,
    /// Alert status glow (red).
    pub alert: C,
    /// Primary accent (cool blue).
    pub primary: C,
    /// Text color (warm off-white).
    pub text: C,
    /// Background color (dark blue-gray).
    pub background: C,
}

impl<C: Copy> MercuryColors<C> {
    /// The colour of the palette that shows `status`.
    pub open spec fn status_color_of(self, status: IndicatorStatus) -> C {
        match status {
            IndicatorStatus::Off => self.off,
            IndicatorStatus::Nominal => self.nominal,
            IndicatorStatus::Caution => self.caution,
            IndicatorStatus::Alert => self.alert,
        }
    }

    /// Returns the color associated with the given [`IndicatorStatus`].
    pub fn status_color(&self, status: IndicatorStatus) -> (c: C)
        ensures
            c == self.status_color_of(status),
    {
        match status {
            IndicatorStatus::Off => self.off,
            IndicatorStatus::Nominal => self.nominal,
            IndicatorStatus::Caution => self.caution,
            IndicatorStatus::Alert => self.alert,
        }
    }
}

impl MercuryColors<Rgba8> {
    /// The default Mercury palette.
    pub open spec fn default_palette() -> MercuryColors<Rgba8> {
        MercuryColors {
            off: Rgba8 { r: 0x3B, g: 0x3B, b: 0x3B, a: 255 },
            panel_bg: Rgba8 { r: 0x16, g: 0x1B, b: 0x22, a: 255 },
            bezel: Rgba8 { r: 0x30, g: 0x36, b: 0x3D, a: 255 },
            needle: Rgba8 { r: 0xFF, g: 0xFF, b: 0xFF, a: 255 },
            tick_mark: Rgba8 { r: 0x6E, g: 0x76, b: 0x81, a: 255 },
            nominal: Rgba8 { r: 0x2E, g: 0xA0, b: 0x43, a: 255 },
            caution: Rgba8 { r: 0xD4, g: 0xA0, b: 0x17, a: 255 },
            alert: Rgba8 { r: 0xDA, g: 0x36, b: 0x33, a: 255 },
            primary: Rgba8 { r: 0x4A, g: 0x90, b: 0xD9, a: 255 },
            text: Rgba8 { r: 0xD4, g: 0xD4, b: 0xC8, a: 255 },
            background: Rgba8 { r: 0x0D, g: 0x11, b: 0x17, a: 255 },
        }
    }
}

impl Default for MercuryColors<Rgba8> {
    fn default() -> (p: Self)
        ensures
            p == MercuryColors::<Rgba8>::default_palette(),
    {
        MercuryColors {
            off: Rgba8::rgb(0x3B, 0x3B, 0x3B),
            panel_bg: Rgba8::rgb(0x16, 0x1B, 0x22),
            bezel: Rgba8::rgb(0x30, 0x36, 0x3D),
            needle: Rgba8::rgb(0xFF, 0xFF, 0xFF),
            tick_mark: Rgba8::rgb(0x6E, 0x76, 0x81),
            nominal: Rgba8::rgb(0x2E, 0xA0, 0x43),
            caution: Rgba8::rgb(0xD4, 0xA0, 0x17),
            alert: Rgba8::rgb(0xDA, 0x36, 0x33),
            primary: Rgba8::rgb(0x4A, 0x90, 0xD9),
            text: Rgba8::rgb(0xD4, 0xD4, 0xC8),
            background: Rgba8::rgb(0x0D, 0x11, 0x17),
        }
    }
}

/// Whether a colour is a neutral grey: equal red, green and blue.
pub open spec fn is_grey(c: Rgba8) -> bool {
    c.r == c.g && c.g == c.b
}

/// Whether a colour is a green: green stronger than red and blue.
pub open spec fn is_green(c: Rgba8) -> bool {
    c.g > c.r && c.g > c.b
}

/// Whether a colour is an amber: red strongest, green at least half of it, blue
/// weakest.
pub open spec fn is_amber(c: Rgba8) -> bool {
    c.r > c.g && c.g > c.b && 2 * c.g >= c.r
}

/// Whether a colour is a red: red more than twice green and twice blue.
pub open spec fn is_red(c: Rgba8) -> bool {
    c.r > 2 * c.g && c.r > 2 * c.b
}

/// In the default palette each indicator status shows in its own hue: off in
/// grey, nominal in green, caution in amber and alert in red.
pub proof fn lemma_default_status_hues(status: IndicatorStatus)
    ensures
        ({
            let c = MercuryColors::<Rgba8>::default_palette().status_color_of(status);
            &&& status == IndicatorStatus::Off <==> is_grey(c)
            &&& status == IndicatorStatus::Nominal <==> is_green(c)
            &&& status == IndicatorStatus::Caution <==> is_amber(c)
            &&& status == IndicatorStatus::Alert <==> is_red(c)
        }),
{
}

/// Every colour of the default palette is opaque.
pub proof fn lemma_default_palette_opaque()
    ensures
        ({
            let p = MercuryColors::<Rgba8>::default_palette();
            &&& p.off.a == 255
            &&& p.panel_bg.a == 255
            &&& p.bezel.a == 255
            &&& p.needle.a == 255
            &&& p.tick_mark.a == 255
            &&& p.nominal.a == 255
            &&& p.caution.a == 255
            &&& p.alert.a == 255
            &&& p.primary.a == 255
            &&& p.text.a == 255
            &&& p.background.a == 255
        }),
{
}

} // verus!
