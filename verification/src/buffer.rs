use vstd::prelude::*;

use crate::array::OwnedArray;
use crate::error::Error;
use crate::layout::sample_index;
use crate::model::{nonzero_dim_product, GridModel};

verus! {

/// A pixel container: a `width` x `height` image whose pixels each hold
/// `channels` interleaved samples of type `C`, stored flat in row-major
/// order, so that channel `c` of the pixel at column `x`, row `y` lies at
/// flat position `(y * width + x) * channels + c`. Width and height are
/// bounded as a pixel container's dimensions are.
pub struct PixelBuffer<C> {
    width: u32,
    height: u32,
    channels: usize,
    data: Vec<C>,
}

impl<C> View for PixelBuffer<C> {
    type V = GridModel<C>;

    closed spec fn view(&self) -> GridModel<C> {
        GridModel {
            height: self.height as nat,
            width: self.width as nat,
            channels: self.channels as nat,
            samples: self.data@,
        }
    }
}

impl<C> PixelBuffer<C> {
    /// Wraps a flat row-major sample vector as a `width` x `height` pixel
    /// container with `channels` samples per pixel, taking ownership of the
    /// vector's allocation without copying. The storage is validated: the
    /// vector is handed back untouched if it does not fill the grid exactly,
    /// or if the product of the non-zero dimensions exceeds what a signed
    /// machine integer holds, the bound the shaped-array layer puts on any
    /// allocation it addresses.
    pub fn from_vec(width: u32, height: u32, channels: usize, v: Vec<C>) -> (r: Result<
        PixelBuffer<C>,
        Vec<C>,
    >)
        ensures
            match r {
                Ok(img) => {
                    &&& img@ == (GridModel { height: height as nat, width: width as nat,
                        channels: channels as nat, samples: v@ })
                    &&& img@.wf()
                    &&& v@.len() == width * height * channels
                },
                Err(v2) => v2@ == v@ && (v@.len() != width * height * channels
                    || nonzero_dim_product(height as int, width as int, channels as int)
                        > isize::MAX),
            },
    {
        let len: usize = v.len();
        proof {
            assert(width * height * channels == height * width * channels) by (nonlinear_arith);
        }
        let nzh: usize = if height == 0 { 1 } else { height as usize };
        let nzw: usize = if width == 0 { 1 } else { width as usize };
        let nzc: usize = if channels == 0 { 1 } else { channels };
        let allocation: usize = match nzh.checked_mul(nzw) {
            Some(p) => match p.checked_mul(nzc) {
                Some(q) => q,
                None => {
                    return Err(v);
                },
            },
            None => {
                proof {
                    assert(nzh * nzw * nzc > usize::MAX) by (nonlinear_arith)
                        requires
                            nzh * nzw > usize::MAX,
                            nzc >= 1,
                    ;
                }
                return Err(v);
            },
        };
        if allocation > (isize::MAX as usize) {
            return Err(v);
        }
        if channels == 0 {
            if len == 0 {
                return Ok(PixelBuffer { width, height, channels, data: v });
            }
            return Err(v);
        }
        let pixels: usize = match (width as usize).checked_mul(height as usize) {
            Some(p) => p,
            None => {
                proof {
                    assert(width * height * channels > usize::MAX) by (nonlinear_arith)
                        requires
                            width * height > usize::MAX,
                            channels >= 1,
                    ;
                }
                return Err(v);
            },
        };
        let needed: usize = match pixels.checked_mul(channels) {
            Some(n) => n,
            None => {
                return Err(v);
            },
        };
        if len == needed {
            Ok(PixelBuffer { width, height, channels, data: v })
        } else {
            Err(v)
        }
    }

    /// Releases the container's backing storage as a flat row-major vector;
    /// the container handle is consumed and nothing is copied.
    pub fn into_vec(self) -> (v: Vec<C>)
        ensures
            v@ == self@.samples,
    {
        self.data
    }

    /// Width of the container, in pixels.
    pub fn width(&self) -> (w: u32)
        ensures
            w == self@.width,
    {
        self.width
    }

    /// Height of the container, in pixels.
    pub fn height(&self) -> (h: u32)
        ensures
            h == self@.height,
    {
        self.height
    }

    /// Number of interleaved samples per pixel.
    pub fn channels(&self) -> (c: usize)
        ensures
            c == self@.channels,
    {
        self.channels
    }

    /// A pixel container's dimensions always fit the container's bounded
    /// width and height fields.
    pub proof fn lemma_dims_bounded(&self)
        ensures
            self@.width <= u32::MAX,
            self@.height <= u32::MAX,
    {
    }

    /// Interprets the container as a `(height, width, channels)` shaped
    /// array over the same storage: the container handle is consumed, the
    /// array holds the identical samples, and nothing is copied.
    pub fn to_ndarray(self) -> (r: OwnedArray<C>)
        requires
            self@.wf(),
        ensures
            r@ == self@,
            r@.wf(),
    {
        let width = self.width;
        let height = self.height;
        let channels = self.channels;
        let v = self.into_vec();
        OwnedArray::from_vec(height as usize, width as usize, channels, v)
    }

    /// Moves a shaped array into a pixel container whose format carries
    /// `format_channels` samples per pixel, over the same storage, without
    /// copying.
    ///
    /// Validation comes strictly before the ownership transfer, so no
    /// failure path can strand or leak the storage: on a channel-count
    /// mismatch the call fails with `ChannelMismatch`, and when the array's
    /// dimensions exceed what a pixel container can carry it fails with
    /// `ImageConstructFailed`; either way the array is handed back fully
    /// intact. Success is owed on every other input.
    pub fn from_ndarray(array: OwnedArray<C>, format_channels: usize) -> (r: Result<
        PixelBuffer<C>,
        (Error, OwnedArray<C>),
    >)
        requires
            array@.wf(),
        ensures
            match r {
                Ok(img) => {
                    &&& img@ == array@
                    &&& img@.wf()
                    &&& array@.channels == format_channels
                    &&& array@.width <= u32::MAX
                    &&& array@.height <= u32::MAX
                },
                Err((e, a)) => {
                    &&& a@ == array@
                    &&& match e {
                        Error::ChannelMismatch => array@.channels != format_channels,
                        Error::ImageConstructFailed => array@.channels == format_channels
                            && (array@.width > u32::MAX || array@.height > u32::MAX),
                    }
                },
            },
    {
        if array.channels() != format_channels {
            return Err((Error::ChannelMismatch, array));
        }
        let height = array.height();
        let width = array.width();
        let channels = array.channels();
        if width > (u32::MAX as usize) || height > (u32::MAX as usize) {
            return Err((Error::ImageConstructFailed, array));
        }
        let v = array.into_vec();
        match Self::from_vec(width as u32, height as u32, channels, v) {
            Ok(img) => Ok(img),
            Err(v2) => {
                // This arm is dead: the vector fills the grid exactly, the
                // dimensions were validated above, and a well-formed array's
                // shape is within the allocation bound, which the proof shows.
                proof {
                    assert((width as u32) as usize == width);
                    assert((height as u32) as usize == height);
                    assert(width * height * channels == height * width * channels)
                        by (nonlinear_arith);
                    assert(false);
                }
                Err((Error::ImageConstructFailed, OwnedArray::from_vec(height, width, channels, v2)))
            },
        }
    }

    /// Lossless round trip: a container moved into a shaped array and then
    /// back into a container with the matching channel count always
    /// succeeds and recovers the identical shape and samples.
    pub fn roundtrip_through_ndarray(self) -> (r: Result<
        PixelBuffer<C>,
        (Error, OwnedArray<C>),
    >)
        requires
            self@.wf(),
        ensures
            r is Ok,
            r matches Ok(img) ==> img@ == self@,
    {
        let channels = self.channels();
        proof {
            self.lemma_dims_bounded();
        }
        Self::from_ndarray(self.to_ndarray(), channels)
    }
}

impl<C: Copy> PixelBuffer<C> {
    /// The shaped view addresses the container's own samples: interpreting a
    /// container as an array and reading the array at `(y, x, c)` gives
    /// exactly the container's channel `c` of the pixel at column `x`, row
    /// `y`, at every in-bounds coordinate.
    pub fn view_read_agrees(self, y: usize, x: usize, c: usize) -> (pair: (C, C))
        requires
            self@.wf(),
            self@.contains_coord(y as int, x as int, c as int),
        ensures
            pair.0 == pair.1,
            pair.0 == self@.sample_at(y as int, x as int, c as int),
    {
        let from_buffer = self.read(x, y, c);
        let array = self.to_ndarray();
        let from_array = array.read(y, x, c);
        (from_buffer, from_array)
    }

    /// Reads channel `c` of the pixel at column `x`, row `y`.
    pub fn read(&self, x: usize, y: usize, c: usize) -> (r: C)
        requires
            self@.wf(),
            self@.contains_coord(y as int, x as int, c as int),
        ensures
            r == self@.sample_at(y as int, x as int, c as int),
    {
        let i = sample_index(y, x, c, self.height as usize, self.width as usize, self.channels);
        self.data[i]
    }

    /// Writes `v` to channel `c` of the pixel at column `x`, row `y`; every
    /// other sample is left as it was.
    pub fn write(&mut self, x: usize, y: usize, c: usize, v: C)
        requires
            old(self)@.wf(),
            old(self)@.contains_coord(y as int, x as int, c as int),
        ensures
            final(self)@ == old(self)@.with_sample(y as int, x as int, c as int, v),
    {
        let i = sample_index(y, x, c, self.height as usize, self.width as usize, self.channels);
        self.data[i] = v;
    }
}

} // verus!
