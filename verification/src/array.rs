use vstd::prelude::*;

use crate::model::{nonzero_dim_product, GridModel};

verus! {

/// Holder for ndarray's `Array3`, which Verus cannot look into; every access
/// to it goes through the trusted functions of this file.
#[verifier::external_body]
#[verifier::reject_recursive_types(C)]
struct RawArray<C> {
    inner: ndarray::Array3<C>,
}

/// A shaped `(height, width, channels)` array holding exclusive ownership of
/// a contiguous row-major sample sequence. It is backed by ndarray's
/// `Array3` in standard layout, so the sample at `(y, x, c)` lies at flat
/// position `(y * width + x) * channels + c` of the backing storage.
#[verifier::reject_recursive_types(C)]
pub struct OwnedArray<C> {
    raw: RawArray<C>,
    height: usize,
    width: usize,
    channels: usize,
    samples: Ghost<Seq<C>>,
}

/// Relies on ndarray's `Array3::from_shape_vec`: it accepts a shape whose
/// product of non-zero dimensions fits a signed machine integer, together
/// with a vector of exactly `height * width * channels` elements, and wraps
/// the vector as a standard-layout row-major array over the same allocation,
/// without copying. Outside those bounds it refuses the shape, so both are
/// demanded of every caller here.
#[verifier::external_body]
fn raw_from_vec<C>(height: usize, width: usize, channels: usize, v: Vec<C>) -> RawArray<C>
    requires
        v@.len() == height * width * channels,
        nonzero_dim_product(height as int, width as int, channels as int) <= isize::MAX,
{
    RawArray { inner: ndarray::Array3::from_shape_vec((height, width, channels), v).unwrap() }
}

impl<C> View for OwnedArray<C> {
    type V = GridModel<C>;

    closed spec fn view(&self) -> GridModel<C> {
        GridModel {
            height: self.height as nat,
            width: self.width as nat,
            channels: self.channels as nat,
            samples: self.samples@,
        }
    }
}

impl<C> OwnedArray<C> {
    /// Shapes a flat row-major sample vector as a `(height, width, channels)`
    /// array, taking ownership of the vector's allocation without copying.
    ///
    /// The vector must fill the grid exactly, and the product of the
    /// non-zero dimensions must fit a signed machine integer, the bound the
    /// shaped-array layer puts on any allocation it addresses; callers
    /// uphold both as preconditions, as that layer documents them.
    pub fn from_vec(height: usize, width: usize, channels: usize, v: Vec<C>) -> (r: OwnedArray<C>)
        requires
            v@.len() == height * width * channels,
            nonzero_dim_product(height as int, width as int, channels as int) <= isize::MAX,
        ensures
            r@ == (GridModel { height: height as nat, width: width as nat,
                channels: channels as nat, samples: v@ }),
            r@.wf(),
    {
        let ghost samples = v@;
        // the vector's actual length bounds the grid's sample total
        let total: usize = v.len();
        proof {
            assert(total == height * width * channels);
        }
        let raw = raw_from_vec(height, width, channels, v);
        OwnedArray { raw, height, width, channels, samples: Ghost(samples) }
    }

    /// Releases the array's backing storage as a flat row-major vector; the
    /// array handle is consumed.
    ///
    /// Relies on ndarray's `Array3::into_raw_vec_and_offset`: on a
    /// standard-layout array it returns the backing vector itself, holding
    /// the samples in row-major order, without copying.
    #[verifier::external_body]
    pub fn into_vec(self) -> (v: Vec<C>)
        ensures
            v@ == self@.samples,
    {
        self.raw.inner.into_raw_vec_and_offset().0
    }

    /// Number of rows.
    pub fn height(&self) -> (h: usize)
        ensures
            h == self@.height,
    {
        self.height
    }

    /// Number of columns.
    pub fn width(&self) -> (w: usize)
        ensures
            w == self@.width,
    {
        self.width
    }

    /// Number of interleaved samples per pixel.
    pub fn channels(&self) -> (c: usize)
        ensures
            c == self@.channels,
    {
        self.channels
    }
}

impl<C: Copy> OwnedArray<C> {
    /// Reads the sample at row `y`, column `x`, channel `c`.
    ///
    /// Relies on ndarray's indexing: on a standard-layout array,
    /// `[[y, x, c]]` reads the sample at flat position
    /// `(y * width + x) * channels + c` of the backing vector.
    #[verifier::external_body]
    pub fn read(&self, y: usize, x: usize, c: usize) -> (r: C)
        requires
            self@.wf(),
            self@.contains_coord(y as int, x as int, c as int),
        ensures
            r == self@.sample_at(y as int, x as int, c as int),
    {
        self.raw.inner[[y, x, c]]
    }

    /// Writes `v` at row `y`, column `x`, channel `c`; every other sample is
    /// left as it was.
    ///
    /// Relies on ndarray's mutable indexing, at the same flat position as
    /// `read`.
    #[verifier::external_body]
    pub fn write(&mut self, y: usize, x: usize, c: usize, v: C)
        requires
            old(self)@.wf(),
            old(self)@.contains_coord(y as int, x as int, c as int),
        ensures
            final(self)@ == old(self)@.with_sample(y as int, x as int, c as int, v),
    {
        self.raw.inner[[y, x, c]] = v;
    }
}

} // verus!
