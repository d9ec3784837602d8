//! The integer side of the HSV to RGB colour conversion: hue wrapping, the
//! choice of 60-degree hue sector, the clamping of saturation and value to
//! percentages, and the placement of the chroma components in the RGB
//! channels for each sector. The chroma arithmetic itself is floating point
//! and stays with the caller.

use vstd::prelude::*;

verus! {

/// One of the six 60-degree sectors of the hue circle.
#[derive(Clone, Copy, Debug, PartialEq, Eq)]
pub enum HueSector {
    /// 0 ..= 59 degrees.
    RedToYellow,
    /// 60 ..= 119 degrees.
    YellowToGreen,
    /// 120 ..= 179 degrees.
    GreenToCyan,
    /// 180 ..= 239 degrees.
    CyanToBlue,
    /// 240 ..= 299 degrees.
    BlueToMagenta,
    /// 300 ..= 359 degrees.
    MagentaToRed,
}

/// The sector that holds the hue `h` (in degrees, 0 ..= 359).
pub open spec fn sector_of(h: int) -> HueSector {
    if h < 60 {
        HueSector::RedToYellow
    } else if h < 120 {
        HueSector::YellowToGreen
    } else if h < 180 {
        HueSector::GreenToCyan
    } else if h < 240 {
        HueSector::CyanToBlue
    } else if h < 300 {
        HueSector::BlueToMagenta
    } else {
        HueSector::MagentaToRed
    }
}

/// The hue `h` brought into 0 ..= 359 degrees.
pub fn wrap_hue(h: u16) -> (r: u16)
    ensures
        r == h % 360,
        r < 360,
{
    h % 360
}

/// The sector of a hue in 0 ..= 359 degrees.
pub fn hue_sector(h: u16) -> (s: HueSector)
    requires
        h < 360,
    ensures
        s == sector_of(h as int),
{
    match h {
        0..=59 => HueSector::RedToYellow,
        60..=119 => HueSector::YellowToGreen,
        120..=179 => HueSector::GreenToCyan,
        180..=239 => HueSector::CyanToBlue,
        240..=299 => HueSector::BlueToMagenta,
        _ => HueSector::MagentaToRed,
    }
}

/// A saturation or value brought into 0 ..= 100 percent.
pub fn clamp_percent(p: u8) -> (r: u8)
    ensures
        r == if p <= 100 {
            p
        } else {
            100u8
        },
{
    p.min(100)
}

/// The (red, green, blue) placement of the chroma `c`, the second-largest
/// component `x` and `zero` in sector `s`.
pub open spec fn channels_of<T>(s: HueSector, c: T, x: T, zero: T) -> (T, T, T) {
    match s {
        HueSector::RedToYellow => (c, x, zero),
        HueSector::YellowToGreen => (x, c, zero),
        HueSector::GreenToCyan => (zero, c, x),
        HueSector::CyanToBlue => (zero, x, c),
        HueSector::BlueToMagenta => (x, zero, c),
        HueSector::MagentaToRed => (c, zero, x),
    }
}

/// Places the chroma `c`, the second-largest component `x` and `zero` in the
/// (red, green, blue) channels as sector `s` orders them.
pub fn arrange_channels<T: Copy>(s: HueSector, c: T, x: T, zero: T) -> (r: (T, T, T))
    ensures
        r == channels_of(s, c, x, zero),
{
    match s {
        HueSector::RedToYellow => (c, x, zero),
        HueSector::YellowToGreen => (x, c, zero),
        HueSector::GreenToCyan => (zero, c, x),
        HueSector::CyanToBlue => (zero, x, c),
        HueSector::BlueToMagenta => (x, zero, c),
        HueSector::MagentaToRed => (c, zero, x),
    }
}

/// Position of a sector on the hue circle, counted from red.
pub open spec fn sector_position(s: HueSector) -> int {
    match s {
        HueSector::RedToYellow => 0,
        HueSector::YellowToGreen => 1,
        HueSector::GreenToCyan => 2,
        HueSector::CyanToBlue => 3,
        HueSector::BlueToMagenta => 4,
        HueSector::MagentaToRed => 5,
    }
}

/// Every hue lies in the `h / 60`-th sector: sectors are 60 degrees wide and
/// follow each other in order around the circle.
pub proof fn lemma_sector_is_sixty_degrees(h: int)
    requires
        0 <= h < 360,
    ensures
        sector_position(sector_of(h)) == h / 60,
        60 * sector_position(sector_of(h)) <= h < 60 * sector_position(sector_of(h)) + 60,
{
}

/// In every sector the chroma takes the sector's primary channel (red in
/// sectors 0 and 5, green in 1 and 2, blue in 3 and 4), zero takes the
/// channel opposite the hue, and the second component the remaining one.
pub proof fn lemma_channels_placement<T>(s: HueSector, c: T, x: T, zero: T)
    ensures
        ({
            let (r, g, b) = channels_of(s, c, x, zero);
            let p = sector_position(s);
            &&& (p == 0 || p == 5) ==> r == c
            &&& (p == 1 || p == 2) ==> g == c
            &&& (p == 3 || p == 4) ==> b == c
            &&& (p == 0 || p == 1) ==> b == zero
            &&& (p == 2 || p == 3) ==> r == zero
            &&& (p == 4 || p == 5) ==> g == zero
            &&& (p == 0 || p == 3) ==> g == x
            &&& (p == 1 || p == 4) ==> r == x
            &&& (p == 2 || p == 5) ==> b == x
        }),
{
}

} // verus!
