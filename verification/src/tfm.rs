use vstd::prelude::*;

use crate::fmc::FmcData;

verus! {

/// Default reconstruction resolution, in pixels along each axis.
pub const DEFAULT_RESOLUTION: usize = 300;

/// The reconstruction grid: a `width_mm` × `depth_mm` region below the probe,
/// centred horizontally, sampled by `res_x` × `res_z` pixels.
#[derive(Clone, Copy, Debug, PartialEq)]
pub struct TfmGrid<F> {
    pub width_mm: F,
    pub depth_mm: F,
    pub res_x: usize,
    pub res_z: usize,
}

impl<F> TfmGrid<F> {
    pub fn new(width_mm: F, depth_mm: F, res_x: usize, res_z: usize) -> (g: Self)
        ensures
            g.width_mm == width_mm,
            g.depth_mm == depth_mm,
            g.res_x == res_x,
            g.res_z == res_z,
    {
        TfmGrid { width_mm, depth_mm, res_x, res_z }
    }

    /// A grid covering the material recorded with the data, at the default
    /// resolution.
    pub fn from_fmc<S>(fmc: &FmcData<F, S>) -> (g: Self) where F: Copy
        ensures
            g.width_mm == fmc.spec_metadata().material_width_mm,
            g.depth_mm == fmc.spec_metadata().material_depth_mm,
            g.res_x == DEFAULT_RESOLUTION,
            g.res_z == DEFAULT_RESOLUTION,
    {
        proof {
            crate::fmc::lemma_metadata_field(fmc);
        }
        let meta = &fmc.metadata;
        TfmGrid {
            width_mm: meta.material_width_mm,
            depth_mm: meta.material_depth_mm,
            res_x: DEFAULT_RESOLUTION,
            res_z: DEFAULT_RESOLUTION,
        }
    }
}

/// Position of pixel `(ix, iz)` in the row-major (one row per depth) array.
pub open spec fn pixel_index(res_x: int, ix: int, iz: int) -> int {
    iz * res_x + ix
}

/// A reconstructed image: one value per pixel of `grid`, row-major by depth.
#[derive(Clone, Debug, PartialEq)]
pub struct TfmImage<F, S> {
    pub grid: TfmGrid<F>,
    pub(crate) values: Vec<S>,
}

impl<F, S> View for TfmImage<F, S> {
    type V = Seq<S>;

    /// The pixel values, row-major by depth.
    closed spec fn view(&self) -> Seq<S> {
        self.values@
    }
}

impl<F, S> TfmImage<F, S> {
    /// The grid (the public `grid` field).
    pub closed spec fn spec_grid(&self) -> TfmGrid<F> {
        self.grid
    }

    pub fn new(grid: TfmGrid<F>, values: Vec<S>) -> (img: Self)
        requires
            values@.len() == grid.res_x * grid.res_z,
        ensures
            img.spec_grid() == grid,
            img@ == values@,
    {
        TfmImage { grid, values }
    }

    /// The value of pixel `(ix, iz)`.
    pub fn get(&self, ix: usize, iz: usize) -> (v: S) where S: Copy
        requires
            pixel_index(self.spec_grid().res_x as int, ix as int, iz as int) < self@.len(),
        ensures
            v == self@[pixel_index(self.spec_grid().res_x as int, ix as int, iz as int)],
    {
        assert(iz * self.grid.res_x <= iz * self.grid.res_x + ix);
        assert(self.values@.len() == self.values.len());
        self.values[iz * self.grid.res_x + ix]
    }

    pub fn as_slice(&self) -> (a: &[S])
        ensures
            a@ == self@,
    {
        self.values.as_slice()
    }

    /// The pixel `(ix, iz)` stored at `index` of the row-major array.
    pub fn coords_of_index(&self, index: usize) -> (c: (usize, usize))
        requires
            self.spec_grid().res_x > 0,
        ensures
            c == (index % self.spec_grid().res_x, index / self.spec_grid().res_x),
    {
        (index % self.grid.res_x, index / self.grid.res_x)
    }
}

/// Inside this crate the `grid` field can be read directly; it is the
/// image's grid.
pub(crate) proof fn lemma_grid_field<F, S>(img: &TfmImage<F, S>)
    ensures
        img.spec_grid() == img.grid,
{
}

/// The row-major layout is a one-to-one correspondence between the pixels
/// of a `res_x` × `res_z` grid and the indices `0 .. res_x * res_z`:
/// `coords_of_index` and `pixel_index` undo each other.
pub proof fn lemma_pixel_layout(res_x: int, res_z: int, ix: int, iz: int, index: int)
    requires
        res_x > 0,
        res_z >= 0,
    ensures
        0 <= ix < res_x && 0 <= iz < res_z ==> {
            let p = pixel_index(res_x, ix, iz);
            &&& 0 <= p < res_x * res_z
            &&& p % res_x == ix
            &&& p / res_x == iz
        },
        0 <= index < res_x * res_z ==> {
            &&& 0 <= index % res_x < res_x
            &&& 0 <= index / res_x < res_z
            &&& pixel_index(res_x, index % res_x, index / res_x) == index
        },
{
    if 0 <= ix < res_x && 0 <= iz < res_z {
        let p = iz * res_x + ix;
        assert(0 <= p < res_x * res_z) by (nonlinear_arith)
            requires
                0 <= ix < res_x,
                0 <= iz < res_z,
                p == iz * res_x + ix,
        ;
        vstd::arithmetic::div_mod::lemma_fundamental_div_mod_converse(p, res_x, iz, ix);
    }
    if 0 <= index < res_x * res_z {
        vstd::arithmetic::div_mod::lemma_fundamental_div_mod(index, res_x);
        let q = index / res_x;
        let r = index % res_x;
        assert(q < res_z) by (nonlinear_arith)
            requires
                index == res_x * q + r,
                0 <= r,
                index < res_x * res_z,
                res_x > 0,
        ;
        assert(q >= 0) by (nonlinear_arith)
            requires
                index == res_x * q + r,
                r < res_x,
                index >= 0,
                res_x > 0,
        ;
        vstd::arithmetic::mul::lemma_mul_is_commutative(q, res_x);
        vstd::arithmetic::div_mod::lemma_mod_bound(index, res_x);
    }
}

} // verus!
