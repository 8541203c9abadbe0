//! Procedural texture generation: a square image whose pixels are drawn
//! uniformly at random from a three-entry palette. The random draw is the one
//! outside call; everything around it — palette lookup and image assembly —
//! is verified, so every generated pixel is provably a palette entry.

use vstd::prelude::*;
use crate::color::{
    dirt_palette_color, grass_palette_color, is_dirt_color, is_grass_color, Rgba,
};

verus! {

/// Edge length of each generated square texture, in pixels.
pub const TEXTURE_SIZE: u32 = 16;

/// Relies on quad_rand's `gen_range` (reached as macroquad's `rand` module):
/// for an integer type it computes `low + (high - low) * r` with `r` drawn in
/// `[0, 1)` and truncates toward zero, so the result lies in `[low, high)`.
#[verifier::external_body]
fn random_palette_index() -> (idx: u32)
    ensures
        idx < 3,
{
    macroquad::rand::gen_range(0u32, 3u32)
}

/// Generate the grass texture: `TEXTURE_SIZE` × `TEXTURE_SIZE` pixels in row
/// order, each drawn from the grass palette.
pub fn create_grass_texture() -> (pixels: Vec<Rgba>)
    ensures
        pixels@.len() == TEXTURE_SIZE * TEXTURE_SIZE,
        forall|i: int| 0 <= i < pixels@.len() ==> is_grass_color(#[trigger] pixels@[i]),
{
    let mut pixels: Vec<Rgba> = Vec::new();
    let mut y: u32 = 0;
    while y < TEXTURE_SIZE
        invariant
            y <= TEXTURE_SIZE,
            pixels@.len() == y * TEXTURE_SIZE,
            forall|i: int| 0 <= i < pixels@.len() ==> is_grass_color(#[trigger] pixels@[i]),
        decreases TEXTURE_SIZE - y,
    {
        let mut x: u32 = 0;
        while x < TEXTURE_SIZE
            invariant
                y < TEXTURE_SIZE,
                x <= TEXTURE_SIZE,
                pixels@.len() == y * TEXTURE_SIZE + x,
                forall|i: int| 0 <= i < pixels@.len() ==> is_grass_color(#[trigger] pixels@[i]),
            decreases TEXTURE_SIZE - x,
        {
            let idx: u32 = random_palette_index();
            let c: Rgba = grass_palette_color(idx);
            pixels.push(c);
            x = x + 1;
        }
        y = y + 1;
    }
    pixels
}

/// Generate the dirt texture: `TEXTURE_SIZE` × `TEXTURE_SIZE` pixels in row
/// order, each drawn from the dirt palette.
pub fn create_dirt_texture() -> (pixels: Vec<Rgba>)
    ensures
        pixels@.len() == TEXTURE_SIZE * TEXTURE_SIZE,
        forall|i: int| 0 <= i < pixels@.len() ==> is_dirt_color(#[trigger] pixels@[i]),
{
    let mut pixels: Vec<Rgba> = Vec::new();
    let mut y: u32 = 0;
    while y < TEXTURE_SIZE
        invariant
            y <= TEXTURE_SIZE,
            pixels@.len() == y * TEXTURE_SIZE,
            forall|i: int| 0 <= i < pixels@.len() ==> is_dirt_color(#[trigger] pixels@[i]),
        decreases TEXTURE_SIZE - y,
    {
        let mut x: u32 = 0;
        while x < TEXTURE_SIZE
            invariant
                y < TEXTURE_SIZE,
                x <= TEXTURE_SIZE,
                pixels@.len() == y * TEXTURE_SIZE + x,
                forall|i: int| 0 <= i < pixels@.len() ==> is_dirt_color(#[trigger] pixels@[i]),
            decreases TEXTURE_SIZE - x,
        {
            let idx: u32 = random_palette_index();
            let c: Rgba = dirt_palette_color(idx);
            pixels.push(c);
            x = x + 1;
        }
        y = y + 1;
    }
    pixels
}

} // verus!
