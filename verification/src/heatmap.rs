use vstd::prelude::*;

verus! {

/// Colour ramp used to display reconstructed intensities.
#[derive(Clone, Copy, Debug, PartialEq, Eq, Structural)]
pub enum Colormap {
    Grayscale,
    Thermal,
}

/// What a rendered heatmap texture depends on: the generation of the image
/// it shows, the bit patterns of the dynamic range and gain (in dB) it was
/// rendered with, and its colormap.
pub type TextureKey = (u64, u32, u32, Colormap);

/// The texture on hand can be shown as it is: there is one, and it was
/// rendered for exactly `key`. Otherwise it has to be rendered again.
pub fn texture_is_current(has_texture: bool, cached: Option<TextureKey>, key: TextureKey) -> (current: bool)
    ensures
        current == (has_texture && cached == Some(key)),
{
    match cached {
        Some(c) => has_texture && c.0 == key.0 && c.1 == key.1 && c.2 == key.2 && c.3 == key.3,
        None => false,
    }
}

} // verus!
