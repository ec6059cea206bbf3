use vstd::prelude::*;

verus! {

/// A linear phased-array probe lying on the top surface of the material,
/// centred horizontally. Lengths are in millimetres, the frequency in MHz.
#[derive(Clone, Debug, PartialEq)]
pub struct Probe<F> {
    pub num_elements: usize,
    pub pitch_mm: F,
    pub element_width_mm: F,
    pub center_frequency_mhz: F,
}

} // verus!
