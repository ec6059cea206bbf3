use vstd::prelude::*;

use core::ops::Add;
use vstd::std_specs::ops::AddSpec;

verus! {

/// Acquisition settings of an FMC data set. Lengths in mm, frequencies and
/// sample rate in MHz, velocity in m/s, all of scalar type `F`.
#[derive(Clone, Debug, PartialEq)]
pub struct FmcMetadata<F> {
    pub num_elements: usize,
    pub pitch_mm: F,
    pub element_width_mm: F,
    pub center_frequency_mhz: F,
    pub sample_rate_mhz: F,
    pub num_samples: usize,
    pub material_velocity_mps: F,
    pub material_width_mm: F,
    pub material_depth_mm: F,
}

/// Number of samples in a full matrix: one A-scan of `num_samples` samples
/// for each (transmitter, receiver) pair of `num_elements` elements.
pub open spec fn matrix_len(num_elements: nat, num_samples: nat) -> nat {
    num_elements * num_elements * num_samples
}

/// Position of sample `t` of the A-scan for transmitter `tx` and receiver
/// `rx` in the flat, transmitter-major array.
pub open spec fn sample_index(num_elements: int, num_samples: int, tx: int, rx: int, t: int) -> int {
    (tx * num_elements + rx) * num_samples + t
}

/// Full Matrix Capture data: `metadata.num_elements`² A-scans of
/// `metadata.num_samples` samples each, stored flat.
#[derive(Clone, Debug, PartialEq)]
pub struct FmcData<F, S> {
    pub metadata: FmcMetadata<F>,
    pub(crate) data: Vec<S>,
}

impl<F, S> View for FmcData<F, S> {
    type V = Seq<S>;

    /// The flat sample array.
    closed spec fn view(&self) -> Seq<S> {
        self.data@
    }
}

impl<F, S> FmcData<F, S> {
    /// The acquisition settings (the public `metadata` field).
    pub closed spec fn spec_metadata(&self) -> FmcMetadata<F> {
        self.metadata
    }

    /// The sample array has exactly the length that the metadata calls for.
    pub closed spec fn well_formed(&self) -> bool {
        self@.len() == matrix_len(
            self.metadata.num_elements as nat,
            self.metadata.num_samples as nat,
        )
    }

    /// The flat index of `(tx, rx, t)` under the current metadata.
    pub closed spec fn spec_index(&self, tx: usize, rx: usize, t: usize) -> int {
        sample_index(
            self.metadata.num_elements as int,
            self.metadata.num_samples as int,
            tx as int,
            rx as int,
            t as int,
        )
    }

    /// Computing the flat index of `(tx, rx, t)` does not overflow and lands
    /// inside the sample array.
    pub closed spec fn index_in_bounds(&self, tx: usize, rx: usize, t: usize) -> bool {
        &&& tx * self.metadata.num_elements + rx <= usize::MAX
        &&& 0 <= self.spec_index(tx, rx, t) < self@.len()
    }

    /// A data set of the size the metadata calls for, every sample set to
    /// `S::default()`.
    pub fn new(metadata: FmcMetadata<F>) -> (fmc: Self) where S: Copy + Default
        requires
            metadata.num_elements * metadata.num_elements * metadata.num_samples <= usize::MAX,
        ensures
            fmc.spec_metadata() == metadata,
            fmc.well_formed(),
            forall|i: int|
                0 <= i < fmc@.len() ==> #[trigger] fmc@[i] == fmc@[0] && call_ensures(
                    S::default,
                    (),
                    fmc@[i],
                ),
    {
        let n = metadata.num_elements;
        let s = metadata.num_samples;
        let len: usize = if n == 0 || s == 0 {
            0
        } else {
            assert(n * n <= n * n * s) by (nonlinear_arith)
                requires
                    n >= 1,
                    s >= 1,
            ;
            n * n * s
        };
        assert(len == matrix_len(n as nat, s as nat)) by (nonlinear_arith)
            requires
                n == 0 || s == 0 ==> len == 0,
                n != 0 && s != 0 ==> len == n * n * s,
        ;
        let zero = S::default();
        let mut data: Vec<S> = Vec::new();
        while data.len() < len
            invariant
                data.len() <= len,
                forall|i: int| 0 <= i < data.len() ==> #[trigger] data@[i] == zero,
            decreases len - data.len(),
        {
            data.push(zero);
        }
        FmcData { metadata, data }
    }

    /// Wraps raw samples laid out transmitter-major, then receiver, then time.
    pub fn from_raw(metadata: FmcMetadata<F>, data: Vec<S>) -> (fmc: Self)
        requires
            data@.len() == matrix_len(metadata.num_elements as nat, metadata.num_samples as nat),
        ensures
            fmc.spec_metadata() == metadata,
            fmc@ == data@,
            fmc.well_formed(),
    {
        FmcData { metadata, data }
    }

    fn index(&self, tx: usize, rx: usize, t: usize) -> (i: usize)
        requires
            self.index_in_bounds(tx, rx, t),
        ensures
            i == self.spec_index(tx, rx, t),
    {
        let n = self.metadata.num_elements;
        let s = self.metadata.num_samples;
        let row = tx * n + rx;
        assert(row * s + t == self.spec_index(tx, rx, t));
        assert(self.data@.len() == self.data.len());
        row * s + t
    }

    /// Sample `t` of the A-scan from transmitter `tx` to receiver `rx`.
    pub fn get(&self, tx: usize, rx: usize, t: usize) -> (v: S) where S: Copy
        requires
            self.index_in_bounds(tx, rx, t),
        ensures
            v == self@[self.spec_index(tx, rx, t)],
    {
        self.data[self.index(tx, rx, t)]
    }

    /// Adds `value` to sample `t` of the A-scan from `tx` to `rx`; every
    /// other sample is left as it was.
    pub fn add(&mut self, tx: usize, rx: usize, t: usize, value: S) where S: Copy + Add<Output = S>
        requires
            old(self).index_in_bounds(tx, rx, t),
            call_requires(S::add, (old(self)@[old(self).spec_index(tx, rx, t)], value)),
        ensures
            final(self).spec_metadata() == old(self).spec_metadata(),
            final(self)@.len() == old(self)@.len(),
            forall|i: int|
                0 <= i < old(self)@.len() && i != old(self).spec_index(tx, rx, t)
                    ==> #[trigger] final(self)@[i] == old(self)@[i],
            call_ensures(
                S::add,
                (old(self)@[old(self).spec_index(tx, rx, t)], value),
                final(self)@[old(self).spec_index(tx, rx, t)],
            ),
            S::obeys_add_spec() ==> final(self)@[old(self).spec_index(tx, rx, t)]
                == old(self)@[old(self).spec_index(tx, rx, t)].add_spec(value),
    {
        let idx = self.index(tx, rx, t);
        let plus = S::add;
        let sum = plus(self.data[idx], value);
        self.data.set(idx, sum);
    }

    /// The whole A-scan from transmitter `tx` to receiver `rx`.
    pub fn ascan(&self, tx: usize, rx: usize) -> (a: &[S])
        requires
            tx * self.spec_metadata().num_elements + rx <= usize::MAX,
            self.spec_index(tx, rx, 0) + self.spec_metadata().num_samples <= self@.len(),
        ensures
            a@ == self@.subrange(
                self.spec_index(tx, rx, 0),
                self.spec_index(tx, rx, 0) + self.spec_metadata().num_samples,
            ),
    {
        let n = self.metadata.num_elements;
        let s = self.metadata.num_samples;
        let row = tx * n + rx;
        assert(row * s == self.spec_index(tx, rx, 0));
        assert(self.data@.len() == self.data.len());
        let start = row * s;
        &self.data[start..start + s]
    }

    /// The flat sample array.
    pub fn as_slice(&self) -> (a: &[S])
        ensures
            a@ == self@,
    {
        self.data.as_slice()
    }
}

/// What the accessors of an FMC data set mean, for callers outside this
/// module: well-formedness is the length law, `spec_index` is
/// `sample_index` under the data set's own counts, and an index is in bounds
/// exactly when its computation does not overflow and lands in the array.
pub proof fn lemma_fmc_accessors<F, S>(fmc: &FmcData<F, S>)
    ensures
        fmc.well_formed() == (fmc@.len() == matrix_len(
            fmc.spec_metadata().num_elements as nat,
            fmc.spec_metadata().num_samples as nat,
        )),
        forall|tx: usize, rx: usize, t: usize|
            #[trigger] fmc.spec_index(tx, rx, t) == sample_index(
                fmc.spec_metadata().num_elements as int,
                fmc.spec_metadata().num_samples as int,
                tx as int,
                rx as int,
                t as int,
            ),
        forall|tx: usize, rx: usize, t: usize|
            #[trigger] fmc.index_in_bounds(tx, rx, t) == (tx * fmc.spec_metadata().num_elements
                + rx <= usize::MAX && 0 <= sample_index(
                fmc.spec_metadata().num_elements as int,
                fmc.spec_metadata().num_samples as int,
                tx as int,
                rx as int,
                t as int,
            ) < fmc@.len()),
{
}

/// Inside this crate the `metadata` field can be read directly; it is the
/// data set's acquisition settings.
pub(crate) proof fn lemma_metadata_field<F, S>(fmc: &FmcData<F, S>)
    ensures
        fmc.spec_metadata() == fmc.metadata,
{
}

/// Sample `t` of an A-scan sits `t` places after the start of that A-scan,
/// so `ascan(tx, rx)[t]` and `get(tx, rx, t)` read the same sample.
pub proof fn lemma_ascan_offset(n: int, s: int, tx: int, rx: int, t: int)
    ensures
        sample_index(n, s, tx, rx, 0) + t == sample_index(n, s, tx, rx, t),
{
}

/// Every in-range `(tx, rx, t)` lands inside a well-formed data set, and two
/// different triples never share a slot: the flat layout is one-to-one.
pub proof fn lemma_sample_index_layout(
    n: int,
    s: int,
    tx1: int,
    rx1: int,
    t1: int,
    tx2: int,
    rx2: int,
    t2: int,
)
    requires
        0 <= tx1 < n,
        0 <= rx1 < n,
        0 <= t1 < s,
        0 <= tx2 < n,
        0 <= rx2 < n,
        0 <= t2 < s,
    ensures
        0 <= sample_index(n, s, tx1, rx1, t1) < n * n * s,
        sample_index(n, s, tx1, rx1, t1) == sample_index(n, s, tx2, rx2, t2) ==> tx1 == tx2
            && rx1 == rx2 && t1 == t2,
{
    let r1 = tx1 * n + rx1;
    let r2 = tx2 * n + rx2;
    assert(0 <= r1 < n * n) by (nonlinear_arith)
        requires
            0 <= tx1 < n,
            0 <= rx1 < n,
            r1 == tx1 * n + rx1,
    ;
    assert(0 <= r2 < n * n) by (nonlinear_arith)
        requires
            0 <= tx2 < n,
            0 <= rx2 < n,
            r2 == tx2 * n + rx2,
    ;
    assert(0 <= r1 * s + t1 < n * n * s) by (nonlinear_arith)
        requires
            0 <= r1 < n * n,
            0 <= t1 < s,
    ;
    if r1 * s + t1 == r2 * s + t2 {
        assert(r1 == r2 && t1 == t2) by (nonlinear_arith)
            requires
                r1 * s + t1 == r2 * s + t2,
                0 <= t1 < s,
                0 <= t2 < s,
                0 <= r1,
                0 <= r2,
        ;
        assert(tx1 == tx2 && rx1 == rx2) by (nonlinear_arith)
            requires
                tx1 * n + rx1 == tx2 * n + rx2,
                0 <= rx1 < n,
                0 <= rx2 < n,
                0 <= tx1,
                0 <= tx2,
        ;
    }
}

} // verus!
