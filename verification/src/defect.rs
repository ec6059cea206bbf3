use vstd::prelude::*;

verus! {

/// An omnidirectional point scatterer.
#[derive(Clone, Debug, PartialEq)]
pub struct PointReflector<F> {
    pub x: F,
    pub y: F,
    pub amplitude: F,
}

/// A straight crack of the given length, rotated by `angle` radians.
#[derive(Clone, Debug, PartialEq)]
pub struct Crack<F> {
    pub x: F,
    pub y: F,
    pub length: F,
    pub angle: F,
    pub amplitude: F,
}

/// A circular cavity.
#[derive(Clone, Debug, PartialEq)]
pub struct Void<F> {
    pub x: F,
    pub y: F,
    pub radius: F,
    pub amplitude: F,
}

/// A cluster of small pores within a disc; `density` lies in `[0, 1]`.
#[derive(Clone, Debug, PartialEq)]
pub struct Porosity<F> {
    pub x: F,
    pub y: F,
    pub radius: F,
    pub density: F,
    pub amplitude: F,
}

/// A delamination or lack of fusion of the given width, rotated by `angle`.
#[derive(Clone, Debug, PartialEq)]
pub struct PlanarDefect<F> {
    pub x: F,
    pub y: F,
    pub width: F,
    pub angle: F,
    pub amplitude: F,
}

/// A defect placed in the material. `(x, y)` is its reference position in
/// millimetres: `x` across the probe, `y` down from the probe surface.
#[derive(Clone, Debug, PartialEq)]
pub enum Defect<F> {
    PointReflector(PointReflector<F>),
    Crack(Crack<F>),
    Void(Void<F>),
    Porosity(Porosity<F>),
    PlanarDefect(PlanarDefect<F>),
}

/// The two defects are of the same kind (the same variant).
pub open spec fn same_kind<F>(a: Defect<F>, b: Defect<F>) -> bool {
    match (a, b) {
        (Defect::PointReflector(_), Defect::PointReflector(_)) => true,
        (Defect::Crack(_), Defect::Crack(_)) => true,
        (Defect::Void(_), Defect::Void(_)) => true,
        (Defect::Porosity(_), Defect::Porosity(_)) => true,
        (Defect::PlanarDefect(_), Defect::PlanarDefect(_)) => true,
        _ => false,
    }
}

impl<F> Defect<F> {
    /// The reference position `(x, y)`.
    pub open spec fn spec_position(self) -> (F, F) {
        match self {
            Defect::PointReflector(d) => (d.x, d.y),
            Defect::Crack(d) => (d.x, d.y),
            Defect::Void(d) => (d.x, d.y),
            Defect::Porosity(d) => (d.x, d.y),
            Defect::PlanarDefect(d) => (d.x, d.y),
        }
    }

    /// The reflection amplitude.
    pub open spec fn spec_amplitude(self) -> F {
        match self {
            Defect::PointReflector(d) => d.amplitude,
            Defect::Crack(d) => d.amplitude,
            Defect::Void(d) => d.amplitude,
            Defect::Porosity(d) => d.amplitude,
            Defect::PlanarDefect(d) => d.amplitude,
        }
    }

    /// The same defect moved to `(x, y)`: every other field is kept.
    pub open spec fn with_position(self, x: F, y: F) -> Self {
        match self {
            Defect::PointReflector(d) => Defect::PointReflector(PointReflector { x, y, ..d }),
            Defect::Crack(d) => Defect::Crack(Crack { x, y, ..d }),
            Defect::Void(d) => Defect::Void(Void { x, y, ..d }),
            Defect::Porosity(d) => Defect::Porosity(Porosity { x, y, ..d }),
            Defect::PlanarDefect(d) => Defect::PlanarDefect(PlanarDefect { x, y, ..d }),
        }
    }
}

impl<F: Copy> Defect<F> {
    pub fn position(&self) -> (p: (F, F))
        ensures
            p == self.spec_position(),
    {
        match self {
            Defect::PointReflector(d) => (d.x, d.y),
            Defect::Crack(d) => (d.x, d.y),
            Defect::Void(d) => (d.x, d.y),
            Defect::Porosity(d) => (d.x, d.y),
            Defect::PlanarDefect(d) => (d.x, d.y),
        }
    }

    pub fn set_position(&mut self, x: F, y: F)
        ensures
            *final(self) == old(self).with_position(x, y),
    {
        match self {
            Defect::PointReflector(d) => {
                d.x = x;
                d.y = y;
            },
            Defect::Crack(d) => {
                d.x = x;
                d.y = y;
            },
            Defect::Void(d) => {
                d.x = x;
                d.y = y;
            },
            Defect::Porosity(d) => {
                d.x = x;
                d.y = y;
            },
            Defect::PlanarDefect(d) => {
                d.x = x;
                d.y = y;
            },
        }
    }

    pub fn amplitude(&self) -> (a: F)
        ensures
            a == self.spec_amplitude(),
    {
        match self {
            Defect::PointReflector(d) => d.amplitude,
            Defect::Crack(d) => d.amplitude,
            Defect::Void(d) => d.amplitude,
            Defect::Porosity(d) => d.amplitude,
            Defect::PlanarDefect(d) => d.amplitude,
        }
    }
}

/// Moving a defect puts it exactly at the requested position and changes
/// nothing else: it keeps its kind and its amplitude, and moving it back to
/// where it was gives back the same defect.
pub proof fn lemma_move_defect<F>(d: Defect<F>, x: F, y: F)
    ensures
        d.with_position(x, y).spec_position() == (x, y),
        d.with_position(x, y).spec_amplitude() == d.spec_amplitude(),
        same_kind(d, d.with_position(x, y)),
        d.with_position(x, y).with_position(d.spec_position().0, d.spec_position().1) == d,
{
}

/// Moving twice is moving once, to the last position.
pub proof fn lemma_move_twice<F>(d: Defect<F>, x1: F, y1: F, x2: F, y2: F)
    ensures
        d.with_position(x1, y1).with_position(x2, y2) == d.with_position(x2, y2),
{
}

} // verus!
