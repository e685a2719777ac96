//! Visual-intensity variants of a drop and their weighted random selection.

use vstd::prelude::*;
use crate::sampling::random_range_u16;

verus! {

/// Rendering-intensity variant of a drop, assigned at creation and at every
/// recycle and consumed only by a renderer.
pub enum RainDropStyle {
    Front,
    Middle,
    Back,
    Fading,
    Gradient,
}

/// The fixed percentile partition behind style selection: a uniform draw in
/// `[1, 100]` maps to `Front` (1-10), `Middle` (11-20), `Back` (21-40),
/// `Fading` (41-50) and `Gradient` (51-100), giving the five variants
/// probabilities of 10%, 10%, 20%, 10% and 50%.
pub open spec fn spec_style_for_percentile(p: int) -> RainDropStyle {
    if p <= 10 {
        RainDropStyle::Front
    } else if p <= 20 {
        RainDropStyle::Middle
    } else if p <= 40 {
        RainDropStyle::Back
    } else if p <= 50 {
        RainDropStyle::Fading
    } else {
        RainDropStyle::Gradient
    }
}

/// Maps a percentile draw to its style, exactly as the partition table says.
pub fn style_for_percentile(p: u16) -> (r: RainDropStyle)
    requires
        1 <= p <= 100,
    ensures
        r == spec_style_for_percentile(p as int),
{
    if p <= 10 {
        RainDropStyle::Front
    } else if p <= 20 {
        RainDropStyle::Middle
    } else if p <= 40 {
        RainDropStyle::Back
    } else if p <= 50 {
        RainDropStyle::Fading
    } else {
        RainDropStyle::Gradient
    }
}

/// Draws a style at random with the weights of the percentile partition.
pub fn random_style(rng: &mut rand::rngs::ThreadRng) -> RainDropStyle {
    let p = random_range_u16(rng, 1, 100);
    style_for_percentile(p)
}

} // verus!
