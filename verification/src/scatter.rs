use vstd::prelude::*;

verus! {

/// Fewest sample scatterers placed along a linear defect (crack or planar).
pub const LINE_SCATTER_MIN_POINTS: usize = 2;

/// Most sample scatterers placed along a linear defect.
pub const LINE_SCATTER_MAX_POINTS: usize = 21;

/// Most sub-scatterers of a fully dense porosity cluster.
pub const POROSITY_MAX_POINTS: usize = 40;

/// Number of scatterers along a linear defect whose length spans `steps`
/// sampling intervals (rounded): `steps` kept within
/// `[LINE_SCATTER_MIN_POINTS, LINE_SCATTER_MAX_POINTS]`.
pub fn line_scatter_count(steps: usize) -> (n: usize)
    ensures
        n == if steps < LINE_SCATTER_MIN_POINTS {
            LINE_SCATTER_MIN_POINTS
        } else if steps > LINE_SCATTER_MAX_POINTS {
            LINE_SCATTER_MAX_POINTS
        } else {
            steps
        },
{
    if steps < LINE_SCATTER_MIN_POINTS {
        LINE_SCATTER_MIN_POINTS
    } else if steps > LINE_SCATTER_MAX_POINTS {
        LINE_SCATTER_MAX_POINTS
    } else {
        steps
    }
}

/// Number of sub-scatterers of a porosity cluster whose density, scaled to
/// `POROSITY_MAX_POINTS` and rounded, is `scaled`: at least one.
pub fn porosity_scatter_count(scaled: usize) -> (n: usize)
    ensures
        n == if scaled == 0 {
            1
        } else {
            scaled
        },
{
    if scaled == 0 {
        1
    } else {
        scaled
    }
}

/// Sample `i` lies in the A-scan and within `half_window` samples of `center`.
pub open spec fn pulse_touches(center: int, half_window: int, num_samples: int, i: int) -> bool {
    0 <= i < num_samples && center - half_window <= i <= center + half_window
}

/// The samples `[start, end)` of an A-scan of `num_samples` samples that a
/// pulse centred on sample `center` with half-width `half_window` touches:
/// exactly the in-range indices `center + ds` for `-half_window <= ds <=
/// half_window`, in increasing order.
pub fn pulse_sample_range(center: isize, half_window: isize, num_samples: usize) -> (r: (
    usize,
    usize,
))
    requires
        half_window >= 0 ==> center - half_window >= isize::MIN,
        half_window >= 0 ==> center + half_window <= isize::MAX,
    ensures
        r.0 <= r.1 <= num_samples,
        r.0 == r.1 ==> r == (0usize, 0usize),
        forall|i: int|
            (r.0 <= i < r.1) == #[trigger] pulse_touches(
                center as int,
                half_window as int,
                num_samples as int,
                i,
            ),
{
    if half_window < 0 {
        return (0, 0);
    }
    let lo = center - half_window;
    let hi = center + half_window;
    if hi < 0 {
        return (0, 0);
    }
    let start: usize = if lo < 0 {
        0
    } else {
        lo as usize
    };
    let past_hi: usize = hi as usize + 1;
    let end: usize = if past_hi > num_samples {
        num_samples
    } else {
        past_hi
    };
    if start >= end {
        (0, 0)
    } else {
        (start, end)
    }
}

} // verus!
