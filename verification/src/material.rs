use vstd::prelude::*;

verus! {

/// Common inspection materials with a tabulated longitudinal wave velocity.
#[derive(Clone, Copy, Debug, PartialEq, Eq)]
pub enum MaterialPreset {
    Steel,
    Aluminum,
    Copper,
    Water,
    Acrylic,
}

/// Longitudinal velocity of a preset, in metres per second.
pub open spec fn preset_velocity(p: MaterialPreset) -> u32 {
    match p {
        MaterialPreset::Steel => 5900,
        MaterialPreset::Aluminum => 6300,
        MaterialPreset::Copper => 4700,
        MaterialPreset::Water => 1480,
        MaterialPreset::Acrylic => 2700,
    }
}

impl MaterialPreset {
    /// Longitudinal velocity in metres per second (every preset is a whole
    /// number of metres per second).
    pub fn velocity_mps(self) -> (v: u32)
        ensures
            v == preset_velocity(self),
    {
        match self {
            MaterialPreset::Steel => 5900,
            MaterialPreset::Aluminum => 6300,
            MaterialPreset::Copper => 4700,
            MaterialPreset::Water => 1480,
            MaterialPreset::Acrylic => 2700,
        }
    }

    /// Every preset, each exactly once, in declaration order.
    pub fn all() -> (presets: &'static [MaterialPreset])
        ensures
            presets@ == seq![
                MaterialPreset::Steel,
                MaterialPreset::Aluminum,
                MaterialPreset::Copper,
                MaterialPreset::Water,
                MaterialPreset::Acrylic,
            ],
    {
        &[
            MaterialPreset::Steel,
            MaterialPreset::Aluminum,
            MaterialPreset::Copper,
            MaterialPreset::Water,
            MaterialPreset::Acrylic,
        ]
    }
}


/// The preset whose tabulated velocity equals `velocity_mps`; a velocity that
/// matches no preset is reported as steel.
pub open spec fn preset_for_velocity(velocity_mps: i32) -> MaterialPreset {
    if velocity_mps == 5900 {
        MaterialPreset::Steel
    } else if velocity_mps == 6300 {
        MaterialPreset::Aluminum
    } else if velocity_mps == 4700 {
        MaterialPreset::Copper
    } else if velocity_mps == 1480 {
        MaterialPreset::Water
    } else if velocity_mps == 2700 {
        MaterialPreset::Acrylic
    } else {
        MaterialPreset::Steel
    }
}

/// The preset that a material of the given (whole) velocity is shown as.
pub fn current_material_preset(velocity_mps: i32) -> (p: MaterialPreset)
    ensures
        p == preset_for_velocity(velocity_mps),
{
    match velocity_mps {
        5900 => MaterialPreset::Steel,
        6300 => MaterialPreset::Aluminum,
        4700 => MaterialPreset::Copper,
        1480 => MaterialPreset::Water,
        2700 => MaterialPreset::Acrylic,
        _ => MaterialPreset::Steel,
    }
}

/// Recognising a preset from its own velocity gives that preset back: the
/// tabulated velocities are pairwise distinct.
pub proof fn lemma_preset_velocity_roundtrip(p: MaterialPreset)
    ensures
        preset_for_velocity(preset_velocity(p) as i32) == p,
{
}

/// Distinct presets have distinct velocities.
pub proof fn lemma_preset_velocity_injective(p: MaterialPreset, q: MaterialPreset)
    ensures
        preset_velocity(p) == preset_velocity(q) <==> p == q,
{
}

/// The acoustic description of the inspected part. Every quantity has the
/// scalar type `F` (velocity in m/s, extents in mm).
#[derive(Clone, Debug, PartialEq)]
pub struct Material<F> {
    pub velocity_mps: F,
    pub width_mm: F,
    pub depth_mm: F,
}

impl<F> Material<F> {
    pub fn new(velocity_mps: F, width_mm: F, depth_mm: F) -> (m: Self)
        ensures
            m.velocity_mps == velocity_mps,
            m.width_mm == width_mm,
            m.depth_mm == depth_mm,
    {
        Material { velocity_mps, width_mm, depth_mm }
    }
}

impl<F: From<u32>> Material<F> {
    /// A material of the given extent whose velocity is the preset's,
    /// converted to `F` by `F::from`.
    pub fn from_preset(preset: MaterialPreset, width_mm: F, depth_mm: F) -> (m: Self)
        ensures
            call_ensures(F::from, (preset_velocity(preset),), m.velocity_mps),
            m.width_mm == width_mm,
            m.depth_mm == depth_mm,
    {
        Material { velocity_mps: F::from(preset.velocity_mps()), width_mm, depth_mm }
    }
}

impl<F: From<u32>> Default for Material<F> {
    /// A steel block 100 mm wide and 50 mm deep.
    fn default() -> (m: Self)
        ensures
            call_ensures(F::from, (5900u32,), m.velocity_mps),
            call_ensures(F::from, (100u32,), m.width_mm),
            call_ensures(F::from, (50u32,), m.depth_mm),
    {
        Self::from_preset(MaterialPreset::Steel, F::from(100), F::from(50))
    }
}

} // verus!
