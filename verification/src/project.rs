use vstd::prelude::*;

use crate::defect::Defect;
use crate::material::Material;
use crate::probe::Probe;

verus! {

/// Everything the user edits: the material, the probe and the defects placed
/// in the material, in placement order.
#[derive(Clone, Debug)]
pub struct Project<F> {
    pub material: Material<F>,
    pub probe: Probe<F>,
    pub defects: Vec<Defect<F>>,
}

} // verus!
