//! Colors and the two three-entry palettes that the procedural textures draw
//! from. Channels are held in thousandths of full intensity (0 ..= 1000), the
//! fixed-point form of the host library's 0.0 ..= 1.0 channel scale.

use vstd::prelude::*;

verus! {

/// A color with red, green, blue and alpha channels in thousandths of full
/// intensity.
#[derive(Clone, Copy, Debug, PartialEq, Eq, Structural)]
pub struct Rgba {
    pub red: u16,
    pub green: u16,
    pub blue: u16,
    pub alpha: u16,
}

/// The grass palette: three shades of green, indexed 0, 1 and 2; any index
/// past the palette falls back to the last entry.
pub open spec fn grass_palette_spec(i: int) -> Rgba {
    if i == 0 {
        Rgba { red: 0, green: 196, blue: 0, alpha: 1000 }
    } else if i == 1 {
        Rgba { red: 0, green: 592, blue: 0, alpha: 1000 }
    } else {
        Rgba { red: 0, green: 424, blue: 0, alpha: 1000 }
    }
}

/// The dirt palette: three shades of brown, indexed 0, 1 and 2 (the first two
/// entries coincide); any index past the palette falls back to the last entry.
pub open spec fn dirt_palette_spec(i: int) -> Rgba {
    if i == 0 {
        Rgba { red: 494, green: 176, blue: 0, alpha: 1000 }
    } else if i == 1 {
        Rgba { red: 494, green: 176, blue: 0, alpha: 1000 }
    } else {
        Rgba { red: 424, green: 165, blue: 0, alpha: 1000 }
    }
}

/// The color is one of the three grass palette entries.
pub open spec fn is_grass_color(c: Rgba) -> bool {
    c == grass_palette_spec(0) || c == grass_palette_spec(1) || c == grass_palette_spec(2)
}

/// The color is one of the three dirt palette entries.
pub open spec fn is_dirt_color(c: Rgba) -> bool {
    c == dirt_palette_spec(0) || c == dirt_palette_spec(1) || c == dirt_palette_spec(2)
}

/// The grass palette entry for a sampled index; indices at or past the
/// palette's end give the last entry.
pub fn grass_palette_color(idx: u32) -> (c: Rgba)
    ensures
        c == grass_palette_spec(if idx == 0 { 0int } else if idx == 1 { 1int } else { 2int }),
        is_grass_color(c),
{
    if idx == 0 {
        Rgba { red: 0, green: 196, blue: 0, alpha: 1000 }
    } else if idx == 1 {
        Rgba { red: 0, green: 592, blue: 0, alpha: 1000 }
    } else {
        Rgba { red: 0, green: 424, blue: 0, alpha: 1000 }
    }
}

/// The dirt palette entry for a sampled index; indices at or past the
/// palette's end give the last entry.
pub fn dirt_palette_color(idx: u32) -> (c: Rgba)
    ensures
        c == dirt_palette_spec(if idx == 0 { 0int } else if idx == 1 { 1int } else { 2int }),
        is_dirt_color(c),
{
    if idx == 0 {
        Rgba { red: 494, green: 176, blue: 0, alpha: 1000 }
    } else if idx == 1 {
        Rgba { red: 494, green: 176, blue: 0, alpha: 1000 }
    } else {
        Rgba { red: 424, green: 165, blue: 0, alpha: 1000 }
    }
}

} // verus!
