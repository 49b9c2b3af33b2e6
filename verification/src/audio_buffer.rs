//! Audio buffers: audio data as a number of channels of equally many samples each.
use vstd::prelude::*;
use crate::sample::Sample;

verus! {

/// Two-dimensional `ndarray` storage of samples, rows being channels.
#[verifier::external_body]
pub struct Storage {
    inner: ndarray::Array2<i32>,
}

/// What a two-dimensional array holds: its rows, in order, each a sequence of its elements.
pub uninterp spec fn array_rows(a: Storage) -> Seq<Seq<i32>>;

/// The number of columns of a two-dimensional array (also when it has no rows).
pub uninterp spec fn array_ncols(a: Storage) -> nat;

/// Every row of `rows` has `ncols` elements.
pub open spec fn rectangular(rows: Seq<Seq<i32>>, ncols: nat) -> bool {
    forall|r: int| 0 <= r < rows.len() ==> #[trigger] rows[r].len() == ncols
}

/// `ndarray::ArrayBase::nrows`: the number of rows.
#[verifier::external_body]
fn array_nrows(a: &Storage) -> (r: usize)
    ensures
        r == array_rows(*a).len(),
{
    a.inner.nrows()
}

/// `ndarray::ArrayBase::ncols`: the number of columns.
#[verifier::external_body]
fn array_ncols_of(a: &Storage) -> (r: usize)
    ensures
        r == array_ncols(*a),
{
    a.inner.ncols()
}

/// Indexing `a[[row, col]]`: the element at that row and column.
#[verifier::external_body]
fn array_get(a: &Storage, row: usize, col: usize) -> (r: i32)
    requires
        row < array_rows(*a).len(),
        col < array_ncols(*a),
        rectangular(array_rows(*a), array_ncols(*a)),
    ensures
        r == array_rows(*a)[row as int][col as int],
{
    a.inner[[row, col]]
}

/// Assignment through `a[[row, col]]`: replaces that element only.
#[verifier::external_body]
fn array_set(a: &mut Storage, row: usize, col: usize, value: i32)
    requires
        row < array_rows(*old(a)).len(),
        col < array_ncols(*old(a)),
        rectangular(array_rows(*old(a)), array_ncols(*old(a))),
    ensures
        array_ncols(*final(a)) == array_ncols(*old(a)),
        array_rows(*final(a)) == array_rows(*old(a)).update(
            row as int,
            array_rows(*old(a))[row as int].update(col as int, value),
        ),
    no_unwind
{
    a.inner[[row, col]] = value;
}

/// Whether an array of `rows` by `cols` elements can exist: the product of its non-zero axis
/// lengths does not exceed `isize::MAX`.
pub open spec fn shape_fits(rows: nat, cols: nat) -> bool {
    (if rows == 0 {
        1
    } else {
        rows
    }) * (if cols == 0 {
        1
    } else {
        cols
    }) <= isize::MAX
}

/// An array shape that fits holds at most `isize::MAX` elements, and fits transposed too.
pub proof fn lemma_shape_fits(rows: nat, cols: nat)
    requires
        shape_fits(rows, cols),
    ensures
        rows * cols <= isize::MAX,
        shape_fits(cols, rows),
{
    let r: int = if rows == 0 {
        1
    } else {
        rows as int
    };
    let c: int = if cols == 0 {
        1
    } else {
        cols as int
    };
    assert(c * r == r * c) by (nonlinear_arith);
    if rows == 0 || cols == 0 {
        assert(rows * cols == 0) by (nonlinear_arith)
            requires
                rows == 0 || cols == 0,
        ;
    }
}

/// A shape that fits still fits with fewer columns.
pub proof fn lemma_shape_fits_fewer_columns(rows: nat, cols: nat, fewer: nat)
    requires
        shape_fits(rows, cols),
        fewer <= cols,
    ensures
        shape_fits(rows, fewer),
{
    let r: int = if rows == 0 {
        1
    } else {
        rows as int
    };
    let c: int = if cols == 0 {
        1
    } else {
        cols as int
    };
    let f: int = if fewer == 0 {
        1
    } else {
        fewer as int
    };
    assert(r * f <= r * c) by (nonlinear_arith)
        requires
            r >= 1,
            1 <= f <= c,
    ;
}

/// `ndarray::Array2::from_shape_vec` with a `(rows, cols)` shape, in row-major order: the array
/// exists exactly when the shape fits (the product of its non-zero axis lengths does not exceed
/// `isize::MAX`) and has as many elements as `v`; row `i` is then the `i`-th run of `cols`
/// elements of `v`.
#[verifier::external_body]
fn array_from_shape_vec(rows: usize, cols: usize, v: Vec<i32>) -> (r: Option<
    Storage,
>)
    ensures
        r is Some <==> (shape_fits(rows as nat, cols as nat) && rows * cols == v@.len()),
        r matches Some(a) ==> {
            &&& array_ncols(a) == cols
            &&& array_rows(a).len() == rows
            &&& forall|i: int|
                0 <= i < rows ==> #[trigger] array_rows(a)[i] == v@.subrange(
                    i * cols,
                    i * cols + cols,
                )
        },
{
    match ndarray::Array2::from_shape_vec((rows, cols), v) {
        Ok(inner) => Some(Storage { inner }),
        Err(_) => None,
    }
}

/// `ndarray::ArrayBase::reversed_axes` on a two-dimensional array: the transpose.
#[verifier::external_body]
fn array_reversed_axes(a: Storage) -> (r: Storage)
    requires
        rectangular(array_rows(a), array_ncols(a)),
    ensures
        array_ncols(r) == array_rows(a).len(),
        array_rows(r).len() == array_ncols(a),
        forall|i: int|
            0 <= i < array_ncols(a) ==> #[trigger] array_rows(r)[i] == Seq::new(
                array_rows(a).len(),
                |j: int| array_rows(a)[j][i],
            ),
{
    Storage { inner: a.inner.reversed_axes() }
}

/// `ndarray::ArrayBase::to_owned`: a copy holding the same elements in the same shape.
#[verifier::external_body]
fn array_to_owned(a: &Storage) -> (r: Storage)
    ensures
        array_rows(r) == array_rows(*a),
        array_ncols(r) == array_ncols(*a),
{
    Storage { inner: a.inner.to_owned() }
}

/// Audio buffer type, which backs all audio data interfacing with user code.
///
/// The buffer holds a number of channels, each of the same number of samples. Its view is the
/// sequence of its channels, each the sequence of its samples.
pub struct AudioBuffer {
    storage: Storage,
}

impl View for AudioBuffer {
    type V = Seq<Seq<i32>>;

    closed spec fn view(&self) -> Seq<Seq<i32>> {
        array_rows(self.storage)
    }
}

/// `data` holds the samples of `channels` (each of `num_samples` samples) frame by frame: all
/// channels of sample 0, then all channels of sample 1, and so on.
pub open spec fn is_interleaving(data: Seq<i32>, channels: Seq<Seq<i32>>, num_samples: nat) -> bool {
    &&& data.len() == num_samples * channels.len()
    &&& forall|i: int, c: int|
        0 <= i < num_samples && 0 <= c < channels.len() ==> data[i * channels.len() + c]
            == #[trigger] channels[c][i]
}

/// The interleaved data of a number of channels determines the channels: two buffers with as
/// many channels and samples whose interleavings are the same data hold the same samples.
pub proof fn lemma_interleaving_determines_channels(
    data: Seq<i32>,
    a: Seq<Seq<i32>>,
    b: Seq<Seq<i32>>,
    num_samples: nat,
)
    requires
        a.len() == b.len(),
        rectangular(a, num_samples),
        rectangular(b, num_samples),
        is_interleaving(data, a, num_samples),
        is_interleaving(data, b, num_samples),
    ensures
        a == b,
{
    assert forall|c: int| 0 <= c < a.len() implies #[trigger] a[c] == b[c] by {
        assert forall|i: int| 0 <= i < num_samples implies a[c][i] == b[c][i] by {
            assert(data[i * a.len() + c] == a[c][i]);
            assert(data[i * b.len() + c] == b[c][i]);
        }
        assert(a[c] =~= b[c]);
    }
    assert(a =~= b);
}

/// Interleaved data of one or more channels is a whole number of frames, one per sample: the
/// buffer read back from it with `from_interleaved` has the same number of samples (and so, by
/// `lemma_interleaving_determines_channels`, the same samples).
pub proof fn lemma_interleaving_length(data: Seq<i32>, channels: Seq<Seq<i32>>, num_samples: nat)
    requires
        channels.len() > 0,
        is_interleaving(data, channels, num_samples),
    ensures
        data.len() % channels.len() == 0,
        data.len() / channels.len() == num_samples,
{
    let n = channels.len() as int;
    vstd::arithmetic::div_mod::lemma_mod_multiples_basic(num_samples as int, n);
    vstd::arithmetic::div_mod::lemma_div_multiples_vanish(num_samples as int, n);
    assert(num_samples * n == n * num_samples) by (nonlinear_arith);
}

/// Channels have a single interleaving: two sequences that both interleave the same channels
/// are the same.
pub proof fn lemma_interleaving_unique(x: Seq<i32>, y: Seq<i32>, channels: Seq<Seq<i32>>, num_samples: nat)
    requires
        is_interleaving(x, channels, num_samples),
        is_interleaving(y, channels, num_samples),
    ensures
        x == y,
{
    let n = channels.len() as int;
    assert forall|k: int| 0 <= k < x.len() implies x[k] == y[k] by {
        vstd::arithmetic::div_mod::lemma_fundamental_div_mod(k, n);
        let i = k / n;
        let c = k % n;
        assert(0 <= c < n);
        assert(0 <= i < num_samples) by {
            assert(k < num_samples * n);
            assert(i * n <= k) by (nonlinear_arith)
                requires
                    k == n * i + c,
                    0 <= c,
            ;
            if i >= num_samples {
                assert(i * n >= num_samples * n) by (nonlinear_arith)
                    requires
                        i >= num_samples,
                        n > 0,
                ;
            }
            if i < 0 {
                assert(i * n < 0) by (nonlinear_arith)
                    requires
                        i < 0,
                        n > 0,
                ;
            }
        }
        assert(k == i * n + c) by (nonlinear_arith)
            requires
                k == n * i + c,
        ;
        assert(x[i * n + c] == channels[c][i]);
        assert(y[i * n + c] == channels[c][i]);
    }
    assert(x =~= y);
}

/// Row-major positions: row `r` of a `rows` by `cols` grid spans `r * cols` up to
/// `r * cols + cols`.
proof fn lemma_grid_index(r: int, rows: int, cols: int)
    requires
        0 <= r < rows,
        0 <= cols,
    ensures
        0 <= r * cols,
        r * cols + cols <= rows * cols,
{
    assert(0 <= r * cols) by (nonlinear_arith)
        requires
            0 <= r,
            0 <= cols,
    ;
    assert(r * cols + cols <= rows * cols) by (nonlinear_arith)
        requires
            0 <= r < rows,
            0 <= cols,
    ;
}

/// Earlier grid positions come before later ones.
proof fn lemma_grid_order(r1: int, c1: int, r2: int, c2: int, cols: int)
    requires
        0 <= c1 < cols,
        0 <= c2 < cols,
        0 <= r1,
        0 <= r2,
        r1 < r2 || (r1 == r2 && c1 < c2),
    ensures
        r1 * cols + c1 < r2 * cols + c2,
{
    if r1 < r2 {
        assert(r1 * cols + cols <= r2 * cols) by (nonlinear_arith)
            requires
                r1 < r2,
                0 <= c1 < cols,
        ;
    }
}

impl AudioBuffer {
    #[verifier::type_invariant]
    spec fn well_formed(self) -> bool {
        &&& rectangular(array_rows(self.storage), array_ncols(self.storage))
        &&& shape_fits(array_rows(self.storage).len(), array_ncols(self.storage))
        &&& array_rows(self.storage).len() * array_ncols(self.storage) <= usize::MAX
    }

    /// Number of samples in each channel.
    pub closed spec fn spec_num_samples(&self) -> nat {
        array_ncols(self.storage)
    }

    /// The buffer built from `v`, whose `channels * samples` values are the channels one after
    /// the other.
    fn from_channel_major(channels: usize, samples: usize, v: Vec<i32>) -> (r: AudioBuffer)
        requires
            v@.len() == channels * samples,
            shape_fits(channels as nat, samples as nat),
        ensures
            r@.len() == channels,
            r.spec_num_samples() == samples,
            forall|c: int|
                0 <= c < channels ==> #[trigger] r@[c] == v@.subrange(
                    c * samples,
                    c * samples + samples,
                ),
    {
        proof {
            lemma_shape_fits(channels as nat, samples as nat);
        }
        let storage = match array_from_shape_vec(channels, samples, v) {
            Some(a) => a,
            None => unreached(),
        };
        proof {
            assert forall|c: int| 0 <= c < channels implies #[trigger] array_rows(storage)[c].len()
                == samples by {
                lemma_grid_index(c, channels as int, samples as int);
            }
        }
        AudioBuffer { storage }
    }

    /// Number of samples present in this buffer; every channel holds that many.
    pub fn num_samples(&self) -> (r: usize)
        ensures
            r == self.spec_num_samples(),
            rectangular(self@, self.spec_num_samples()),
            shape_fits(self@.len(), self.spec_num_samples()),
            self@.len() * self.spec_num_samples() <= usize::MAX,
    {
        proof {
            use_type_invariant(self);
        }
        array_ncols_of(&self.storage)
    }

    /// Number of channels present in this buffer.
    pub fn num_channels(&self) -> (r: usize)
        ensures
            r == self@.len(),
    {
        array_nrows(&self.storage)
    }

    /// The sample at index `sample` of channel `channel`.
    pub fn get_sample(&self, channel: usize, sample: usize) -> (r: i32)
        requires
            channel < self@.len(),
            sample < self.spec_num_samples(),
        ensures
            r == self@[channel as int][sample as int],
    {
        proof {
            use_type_invariant(self);
        }
        array_get(&self.storage, channel, sample)
    }

    /// Replaces the sample at index `sample` of channel `channel`; nothing else changes.
    pub fn set_sample(&mut self, channel: usize, sample: usize, value: i32)
        requires
            channel < old(self)@.len(),
            sample < old(self).spec_num_samples(),
        ensures
            final(self).spec_num_samples() == old(self).spec_num_samples(),
            final(self)@ == old(self)@.update(
                channel as int,
                old(self)@[channel as int].update(sample as int, value),
            ),
    {
        proof {
            use_type_invariant(&*self);
        }
        array_set(&mut self.storage, channel, sample, value);
    }

    /// Create a new audio buffer with the provided number of channels and sample size, filling
    /// it with the provided value.
    pub fn fill(channels: usize, sample_size: usize, value: i32) -> (r: AudioBuffer)
        requires
            shape_fits(channels as nat, sample_size as nat),
        ensures
            r@ == Seq::new(channels as nat, |c: int| Seq::new(sample_size as nat, |i: int| value)),
            r.spec_num_samples() == sample_size,
    {
        proof {
            lemma_shape_fits(channels as nat, sample_size as nat);
        }
        let mut v: Vec<i32> = Vec::new();
        let total = channels * sample_size;
        let mut k: usize = 0;
        while k < total
            invariant
                k <= total,
                v@ == Seq::new(k as nat, |j: int| value),
            decreases total - k,
        {
            v.push(value);
            k = k + 1;
        }
        let r = Self::from_channel_major(channels, sample_size, v);
        proof {
            assert forall|c: int| 0 <= c < channels implies #[trigger] r@[c] == Seq::new(
                sample_size as nat,
                |i: int| value,
            ) by {
                lemma_grid_index(c, channels as int, sample_size as int);
            }
        }
        r
    }

    /// Create a new audio buffer with the provided number of channels and sample size, filling
    /// it with the provided fill function, called with each channel index and sample index.
    ///
    /// Not realtime-safe.
    pub fn fill_with<F: Fn(usize, usize) -> i32>(
        channels: usize,
        sample_size: usize,
        fill: F,
    ) -> (r: AudioBuffer)
        requires
            shape_fits(channels as nat, sample_size as nat),
            forall|c: usize, i: usize|
                c < channels && i < sample_size ==> #[trigger] fill.requires((c, i)),
        ensures
            r@.len() == channels,
            r.spec_num_samples() == sample_size,
            rectangular(r@, sample_size as nat),
            forall|c: int, i: int|
                0 <= c < channels && 0 <= i < sample_size ==> fill.ensures(
                    (c as usize, i as usize),
                    #[trigger] r@[c][i],
                ),
    {
        proof {
            lemma_shape_fits(channels as nat, sample_size as nat);
        }
        let mut v: Vec<i32> = Vec::new();
        let mut c: usize = 0;
        while c < channels
            invariant
                c <= channels,
                channels * sample_size <= usize::MAX,
                forall|c: usize, i: usize|
                    c < channels && i < sample_size ==> #[trigger] fill.requires((c, i)),
                v@.len() == c * sample_size,
                forall|c2: int, i2: int|
                    0 <= c2 < c && 0 <= i2 < sample_size ==> #[trigger] fill.ensures(
                        (c2 as usize, i2 as usize),
                        v@[c2 * sample_size + i2],
                    ),
            decreases channels - c,
        {
            let mut i: usize = 0;
            while i < sample_size
                invariant
                    c < channels,
                    i <= sample_size,
                    channels * sample_size <= usize::MAX,
                    forall|c: usize, i: usize|
                        c < channels && i < sample_size ==> #[trigger] fill.requires((c, i)),
                    v@.len() == c * sample_size + i,
                    forall|c2: int, i2: int|
                        0 <= c2 < c && 0 <= i2 < sample_size ==> #[trigger] fill.ensures(
                            (c2 as usize, i2 as usize),
                            v@[c2 * sample_size + i2],
                        ),
                    forall|i2: int|
                        0 <= i2 < i ==> #[trigger] fill.ensures(
                            (c, i2 as usize),
                            v@[c * sample_size + i2],
                        ),
                decreases sample_size - i,
            {
                proof {
                    lemma_grid_index(c as int, channels as int, sample_size as int);
                }
                let x = fill(c, i);
                let ghost before = v@;
                v.push(x);
                proof {
                    assert forall|c2: int, i2: int|
                        0 <= c2 < c && 0 <= i2 < sample_size implies #[trigger] fill.ensures(
                        (c2 as usize, i2 as usize),
                        v@[c2 * sample_size + i2],
                    ) by {
                        lemma_grid_order(c2, i2, c as int, 0, sample_size as int);
                        assert(v@[c2 * sample_size + i2] == before[c2 * sample_size + i2]);
                    }
                }
                i = i + 1;
            }
            proof {
                lemma_grid_index(c as int, channels as int, sample_size as int);
                assert((c + 1) * sample_size == c * sample_size + sample_size) by (nonlinear_arith);
            }
            c = c + 1;
        }
        let ghost vv = v@;
        let r = Self::from_channel_major(channels, sample_size, v);
        proof {
            assert forall|c: int, i: int|
                0 <= c < channels && 0 <= i < sample_size implies fill.ensures(
                (c as usize, i as usize),
                #[trigger] r@[c][i],
            ) by {
                lemma_grid_index(c, channels as int, sample_size as int);
                assert(r@[c][i] == vv[c * sample_size + i]);
            }
            assert forall|c: int| 0 <= c < channels implies #[trigger] r@[c].len()
                == sample_size by {
                lemma_grid_index(c, channels as int, sample_size as int);
            }
        }
        r
    }

    /// Construct a zeroed buffer with the provided channels and sample size, that is one filled
    /// with the zero of the sample type.
    ///
    /// Not realtime-safe.
    pub fn zeroed(channels: usize, sample_size: usize) -> (r: AudioBuffer)
        requires
            shape_fits(channels as nat, sample_size as nat),
        ensures
            r@ == Seq::new(
                channels as nat,
                |c: int| Seq::new(sample_size as nat, |i: int| <i32 as Sample>::ZERO),
            ),
            r.spec_num_samples() == sample_size,
    {
        Self::fill(channels, sample_size, <i32 as Sample>::ZERO)
    }

    /// Create a new audio buffer with the provided number of channels and sample size, filling
    /// it with the default value of the sample type.
    pub fn defaulted(channels: usize, sample_size: usize) -> (r: AudioBuffer)
        requires
            shape_fits(channels as nat, sample_size as nat),
        ensures
            r@ == Seq::new(channels as nat, |c: int| Seq::new(sample_size as nat, |i: int| 0i32)),
            r.spec_num_samples() == sample_size,
    {
        Self::fill(channels, sample_size, 0)
    }
}

impl AudioBuffer {
    /// The samples of a single channel. The requested channel must exist.
    pub fn get_channel(&self, channel: usize) -> (r: Vec<i32>)
        requires
            channel < self@.len(),
        ensures
            r@ == self@[channel as int],
    {
        let n = self.num_samples();
        let mut out: Vec<i32> = Vec::new();
        let mut i: usize = 0;
        while i < n
            invariant
                n == self.spec_num_samples(),
                rectangular(self@, self.spec_num_samples()),
                channel < self@.len(),
                i <= n,
                out@ == self@[channel as int].subrange(0, i as int),
            decreases n - i,
        {
            let x = self.get_sample(channel, i);
            out.push(x);
            i = i + 1;
        }
        out
    }

    /// The samples of every channel, in channel order.
    pub fn channels(&self) -> (r: Vec<Vec<i32>>)
        ensures
            r@.len() == self@.len(),
            forall|c: int| 0 <= c < self@.len() ==> (#[trigger] r@[c])@ == self@[c],
    {
        let nch = self.num_channels();
        let mut out: Vec<Vec<i32>> = Vec::new();
        let mut c: usize = 0;
        while c < nch
            invariant
                nch == self@.len(),
                c <= nch,
                out@.len() == c,
                forall|c2: int| 0 <= c2 < c ==> (#[trigger] out@[c2])@ == self@[c2],
            decreases nch - c,
        {
            let ch = self.get_channel(c);
            out.push(ch);
            c = c + 1;
        }
        out
    }

    /// A single frame, that is all channels at the specified sample index. The sample must be
    /// in range.
    pub fn get_frame(&self, sample: usize) -> (r: Vec<i32>)
        requires
            sample < self.spec_num_samples(),
        ensures
            r@ == Seq::new(self@.len(), |c: int| self@[c][sample as int]),
    {
        let nch = self.num_channels();
        let mut out: Vec<i32> = Vec::new();
        let mut c: usize = 0;
        while c < nch
            invariant
                nch == self@.len(),
                sample < self.spec_num_samples(),
                c <= nch,
                out@ == Seq::new(c as nat, |c2: int| self@[c2][sample as int]),
            decreases nch - c,
        {
            let x = self.get_sample(c, sample);
            out.push(x);
            c = c + 1;
        }
        out
    }

    /// The samples of this buffer interleaved: all channels of the first sample, then all
    /// channels of the second sample, and so on.
    pub fn as_interleaved(&self) -> (r: Vec<i32>)
        ensures
            is_interleaving(r@, self@, self.spec_num_samples()),
    {
        let n = self.num_samples();
        let nch = self.num_channels();
        let mut out: Vec<i32> = Vec::new();
        let mut i: usize = 0;
        while i < n
            invariant
                n == self.spec_num_samples(),
                nch == self@.len(),
                rectangular(self@, self.spec_num_samples()),
                nch * n <= usize::MAX,
                i <= n,
                out@.len() == i * nch,
                forall|i2: int, c2: int|
                    0 <= i2 < i && 0 <= c2 < nch ==> out@[i2 * nch + c2] == #[trigger] self@[c2][i2],
            decreases n - i,
        {
            let mut c: usize = 0;
            while c < nch
                invariant
                    n == self.spec_num_samples(),
                    nch == self@.len(),
                    rectangular(self@, self.spec_num_samples()),
                    nch * n <= usize::MAX,
                    i < n,
                    c <= nch,
                    out@.len() == i * nch + c,
                    forall|i2: int, c2: int|
                        0 <= i2 < i && 0 <= c2 < nch ==> out@[i2 * nch + c2]
                            == #[trigger] self@[c2][i2],
                    forall|c2: int| 0 <= c2 < c ==> out@[i * nch + c2] == #[trigger] self@[c2][i as int],
                decreases nch - c,
            {
                proof {
                    lemma_grid_index(i as int, n as int, nch as int);
                    assert(n * nch == nch * n) by (nonlinear_arith);
                }
                let x = self.get_sample(c, i);
                let ghost before = out@;
                out.push(x);
                proof {
                    assert forall|i2: int, c2: int|
                        0 <= i2 < i && 0 <= c2 < nch implies out@[i2 * nch + c2]
                        == #[trigger] self@[c2][i2] by {
                        lemma_grid_order(i2, c2, i as int, 0, nch as int);
                        assert(out@[i2 * nch + c2] == before[i2 * nch + c2]);
                    }
                }
                c = c + 1;
            }
            proof {
                assert((i + 1) * nch == i * nch + nch) by (nonlinear_arith);
            }
            i = i + 1;
        }
        proof {
            assert(n * nch == nch * n) by (nonlinear_arith);
        }
        out
    }

    /// Copies the audio data of this buffer into `output`, interleaved. `output` must have room
    /// for exactly all samples of all channels; otherwise nothing is copied and `false` is
    /// returned.
    pub fn copy_into_interleaved(&self, output: &mut [i32]) -> (r: bool)
        ensures
            r == (old(output)@.len() == self@.len() * self.spec_num_samples()),
            r ==> is_interleaving(final(output)@, self@, self.spec_num_samples()),
            !r ==> final(output)@ == old(output)@,
    {
        let n = self.num_samples();
        let nch = self.num_channels();
        if output.len() != nch * n {
            return false;
        }
        let ghost len = output@.len();
        let mut i: usize = 0;
        while i < n
            invariant
                n == self.spec_num_samples(),
                nch == self@.len(),
                rectangular(self@, self.spec_num_samples()),
                nch * n <= usize::MAX,
                output@.len() == nch * n,
                i <= n,
                forall|i2: int, c2: int|
                    0 <= i2 < i && 0 <= c2 < nch ==> output@[i2 * nch + c2]
                        == #[trigger] self@[c2][i2],
            decreases n - i,
        {
            let mut c: usize = 0;
            while c < nch
                invariant
                    n == self.spec_num_samples(),
                    nch == self@.len(),
                    rectangular(self@, self.spec_num_samples()),
                    nch * n <= usize::MAX,
                    output@.len() == nch * n,
                    i < n,
                    c <= nch,
                    forall|i2: int, c2: int|
                        0 <= i2 < i && 0 <= c2 < nch ==> output@[i2 * nch + c2]
                            == #[trigger] self@[c2][i2],
                    forall|c2: int|
                        0 <= c2 < c ==> output@[i * nch + c2] == #[trigger] self@[c2][i as int],
                decreases nch - c,
            {
                proof {
                    lemma_grid_index(i as int, n as int, nch as int);
                    assert(n * nch == nch * n) by (nonlinear_arith);
                }
                let x = self.get_sample(c, i);
                let k = i * nch + c;
                let ghost before = output@;
                output[k] = x;
                proof {
                    assert forall|i2: int, c2: int|
                        0 <= i2 < i && 0 <= c2 < nch implies output@[i2 * nch + c2]
                        == #[trigger] self@[c2][i2] by {
                        lemma_grid_order(i2, c2, i as int, c as int, nch as int);
                        assert(output@[i2 * nch + c2] == before[i2 * nch + c2]);
                    }
                    assert forall|c2: int| 0 <= c2 < c + 1 implies output@[i * nch + c2]
                        == #[trigger] self@[c2][i as int] by {
                        if c2 < c {
                            lemma_grid_order(i as int, c2, i as int, c as int, nch as int);
                            assert(output@[i * nch + c2] == before[i * nch + c2]);
                        }
                    }
                }
                c = c + 1;
            }
            i = i + 1;
        }
        proof {
            assert(n * nch == nch * n) by (nonlinear_arith);
        }
        true
    }

    /// A copy of this buffer.
    ///
    /// Not realtime-safe.
    pub fn to_owned(&self) -> (r: AudioBuffer)
        ensures
            r@ == self@,
            r.spec_num_samples() == self.spec_num_samples(),
    {
        proof {
            use_type_invariant(self);
        }
        AudioBuffer { storage: array_to_owned(&self.storage) }
    }
}

impl AudioBuffer {
    /// A copy of the samples at indices within `range`, for every channel. The range must lie
    /// within the buffer.
    pub fn slice(&self, range: std::ops::Range<usize>) -> (r: AudioBuffer)
        requires
            range.start <= range.end <= self.spec_num_samples(),
        ensures
            r@ == Seq::new(
                self@.len(),
                |c: int| self@[c].subrange(range.start as int, range.end as int),
            ),
            r.spec_num_samples() == range.end - range.start,
    {
        let n = self.num_samples();
        let nch = self.num_channels();
        let start = range.start;
        let end = range.end;
        let len = end - start;
        proof {
            lemma_shape_fits_fewer_columns(nch as nat, n as nat, len as nat);
            assert(nch * len <= nch * n) by (nonlinear_arith)
                requires
                    len <= n,
            ;
        }
        let mut v: Vec<i32> = Vec::new();
        let mut c: usize = 0;
        while c < nch
            invariant
                n == self.spec_num_samples(),
                nch == self@.len(),
                rectangular(self@, self.spec_num_samples()),
                start <= end <= n,
                len == end - start,
                nch * len <= usize::MAX,
                shape_fits(nch as nat, len as nat),
                c <= nch,
                v@.len() == c * len,
                forall|c2: int|
                    0 <= c2 < c ==> #[trigger] v@.subrange(c2 * len, c2 * len + len)
                        == self@[c2].subrange(start as int, end as int),
            decreases nch - c,
        {
            let ghost before = v@;
            let mut i: usize = start;
            while i < end
                invariant
                    n == self.spec_num_samples(),
                    nch == self@.len(),
                    rectangular(self@, self.spec_num_samples()),
                    start <= i <= end <= n,
                    len == end - start,
                    c < nch,
                    v@ == before + self@[c as int].subrange(start as int, i as int),
                decreases end - i,
            {
                let x = self.get_sample(c, i);
                v.push(x);
                i = i + 1;
            }
            proof {
                lemma_grid_index(c as int, nch as int, len as int);
                assert((c + 1) * len == c * len + len) by (nonlinear_arith);
                assert forall|c2: int| 0 <= c2 < c + 1 implies #[trigger] v@.subrange(
                    c2 * len,
                    c2 * len + len,
                ) == self@[c2].subrange(start as int, end as int) by {
                    lemma_grid_index(c2, c + 1, len as int);
                    if c2 < c {
                        lemma_grid_index(c2, c as int, len as int);
                        assert(v@.subrange(c2 * len, c2 * len + len) == before.subrange(
                            c2 * len,
                            c2 * len + len,
                        ));
                    } else {
                        assert(v@.subrange(c2 * len, c2 * len + len) == self@[c2].subrange(
                            start as int,
                            end as int,
                        ));
                    }
                }
            }
            c = c + 1;
        }
        let r = Self::from_channel_major(nch, len, v);
        proof {
            assert forall|c: int| 0 <= c < nch implies #[trigger] r@[c] == self@[c].subrange(
                start as int,
                end as int,
            ) by {
                assert(r@[c] == v@.subrange(c * len, c * len + len));
            }
        }
        r
    }

    /// Create an audio buffer from interleaved data: `data` holds all channels of the first
    /// sample, then all channels of the second sample, and so on. The buffer holds the whole
    /// frames of `data`; a trailing partial frame is left out. `None` when that many frames of
    /// that many channels make an array shape too large.
    pub fn from_interleaved(data: &[i32], channels: usize) -> (r: Option<AudioBuffer>)
        requires
            channels > 0,
        ensures
            r is Some <==> shape_fits(data@.len() / (channels as nat), channels as nat),
            r matches Some(b) ==> {
                &&& b@.len() == channels
                &&& b.spec_num_samples() == data@.len() / (channels as nat)
                &&& is_interleaving(
                    data@.subrange(0, b.spec_num_samples() * channels),
                    b@,
                    b.spec_num_samples(),
                )
            },
    {
        let buffer_size = data.len() / channels;
        proof {
            vstd::arithmetic::div_mod::lemma_fundamental_div_mod(data@.len() as int, channels as int);
            assert(buffer_size * channels == channels * buffer_size) by (nonlinear_arith);
            assert(0 <= (data@.len() as int) % (channels as int));
        }
        let n = buffer_size * channels;
        let mut v: Vec<i32> = Vec::new();
        let mut k: usize = 0;
        while k < n
            invariant
                n <= data@.len(),
                k <= n,
                v@ == data@.subrange(0, k as int),
            decreases n - k,
        {
            v.push(data[k]);
            k = k + 1;
        }
        let raw = match array_from_shape_vec(buffer_size, channels, v) {
            Some(a) => a,
            None => {
                return None;
            },
        };
        proof {
            assert forall|i: int| 0 <= i < buffer_size implies #[trigger] array_rows(raw)[i].len()
                == channels by {
                lemma_grid_index(i, buffer_size as int, channels as int);
            }
        }
        let storage = array_reversed_axes(raw);
        proof {
            lemma_shape_fits(buffer_size as nat, channels as nat);
            assert(channels * buffer_size == buffer_size * channels) by (nonlinear_arith);
            let prefix = data@.subrange(0, buffer_size * channels);
            assert forall|i: int, c: int|
                0 <= i < buffer_size && 0 <= c < channels implies prefix[i * channels + c]
                == #[trigger] array_rows(storage)[c][i] by {
                lemma_grid_index(i, buffer_size as int, channels as int);
                assert(array_rows(raw)[i] == v@.subrange(i * channels, i * channels + channels));
                assert(v@[i * channels + c] == data@[i * channels + c]);
            }
        }
        Some(AudioBuffer { storage })
    }

    /// Sets audio data of a single frame, that is all channels at the specified sample index,
    /// from `data`, which holds one value per channel. The sample must be in range.
    pub fn set_frame(&mut self, sample: usize, data: &[i32])
        requires
            sample < old(self).spec_num_samples(),
            data@.len() == old(self)@.len(),
        ensures
            final(self).spec_num_samples() == old(self).spec_num_samples(),
            final(self)@ == Seq::new(
                old(self)@.len(),
                |c: int| old(self)@[c].update(sample as int, data@[c]),
            ),
    {
        let ghost orig = self@;
        let nch = self.num_channels();
        let mut c: usize = 0;
        while c < nch
            invariant
                nch == orig.len(),
                self@.len() == nch,
                self.spec_num_samples() == old(self).spec_num_samples(),
                sample < self.spec_num_samples(),
                data@.len() == nch,
                c <= nch,
                forall|c2: int|
                    0 <= c2 < nch ==> #[trigger] self@[c2] == if c2 < c {
                        orig[c2].update(sample as int, data@[c2])
                    } else {
                        orig[c2]
                    },
            decreases nch - c,
        {
            self.set_sample(c, sample, data[c]);
            c = c + 1;
        }
        proof {
            assert(self@ == Seq::new(orig.len(), |c: int| orig[c].update(sample as int, data@[c])));
        }
    }

    /// Sets audio data of a single sample, copying the provided value to each channel at that
    /// sample index. The sample index must be in range.
    pub fn set_mono(&mut self, i: usize, value: i32)
        requires
            i < old(self).spec_num_samples(),
        ensures
            final(self).spec_num_samples() == old(self).spec_num_samples(),
            final(self)@ == Seq::new(
                old(self)@.len(),
                |c: int| old(self)@[c].update(i as int, value),
            ),
    {
        let ghost orig = self@;
        let nch = self.num_channels();
        let mut c: usize = 0;
        while c < nch
            invariant
                nch == orig.len(),
                self@.len() == nch,
                self.spec_num_samples() == old(self).spec_num_samples(),
                i < self.spec_num_samples(),
                c <= nch,
                forall|c2: int|
                    0 <= c2 < nch ==> #[trigger] self@[c2] == if c2 < c {
                        orig[c2].update(i as int, value)
                    } else {
                        orig[c2]
                    },
            decreases nch - c,
        {
            self.set_sample(c, i, value);
            c = c + 1;
        }
        proof {
            assert(self@ == Seq::new(orig.len(), |c: int| orig[c].update(i as int, value)));
        }
    }
}

impl Default for AudioBuffer {
    /// An empty buffer: no channels, no samples.
    fn default() -> (r: AudioBuffer)
        ensures
            r@.len() == 0,
            r.spec_num_samples() == 0,
    {
        let v: Vec<i32> = Vec::new();
        let storage = match array_from_shape_vec(0, 0, v) {
            Some(a) => a,
            None => unreached(),
        };
        AudioBuffer { storage }
    }
}

} // verus!
