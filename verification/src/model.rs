use vstd::prelude::*;

use crate::layout::{coord_in_bounds, flat_index, lemma_flat_index_in_range,
    lemma_flat_index_injective};

verus! {

/// Product of a grid's dimensions with every zero dimension counted as one:
/// the shaped-array layer sizes its backing allocation by this product and
/// refuses one that a signed machine integer cannot hold, even when a zero
/// dimension makes the grid itself empty.
pub open spec fn nonzero_dim_product(height: int, width: int, channels: int) -> int {
    (if height == 0 { 1int } else { height })
    * (if width == 0 { 1int } else { width })
    * (if channels == 0 { 1int } else { channels })
}

/// Mathematical model shared by the pixel buffer and the shaped array: a grid
/// of `height` rows and `width` columns with `channels` interleaved samples
/// per pixel, stored row-major in `samples`.
#[verifier::ext_equal]
pub ghost struct GridModel<C> {
    pub height: nat,
    pub width: nat,
    pub channels: nat,
    pub samples: Seq<C>,
}

impl<C> GridModel<C> {
    /// The samples fill the grid exactly, the whole grid is addressable with
    /// a machine integer, and the shape is one the shaped-array layer
    /// accepts.
    pub open spec fn wf(self) -> bool {
        &&& self.samples.len() == self.height * self.width * self.channels
        &&& self.height * self.width * self.channels <= usize::MAX
        &&& nonzero_dim_product(self.height as int, self.width as int, self.channels as int)
            <= isize::MAX
    }

    /// Whether `(y, x, c)` addresses a sample of this grid.
    pub open spec fn contains_coord(self, y: int, x: int, c: int) -> bool {
        coord_in_bounds(y, x, c, self.height as int, self.width as int, self.channels as int)
    }

    /// The sample at row `y`, column `x`, channel `c`.
    pub open spec fn sample_at(self, y: int, x: int, c: int) -> C {
        self.samples[flat_index(y, x, c, self.width as int, self.channels as int)]
    }

    /// The grid after writing `v` at `(y, x, c)`.
    pub open spec fn with_sample(self, y: int, x: int, c: int, v: C) -> GridModel<C> {
        GridModel {
            samples: self.samples.update(
                flat_index(y, x, c, self.width as int, self.channels as int),
                v,
            ),
            ..self
        }
    }
}

/// Writing one sample is visible at exactly its own coordinate: afterwards,
/// reading the written coordinate gives the new value, and reading any other
/// in-bounds coordinate gives the value the grid held before.
pub proof fn lemma_write_visible<C>(
    g: GridModel<C>,
    y: int,
    x: int,
    c: int,
    v: C,
    y2: int,
    x2: int,
    c2: int,
)
    requires
        g.wf(),
        g.contains_coord(y, x, c),
        g.contains_coord(y2, x2, c2),
    ensures
        g.with_sample(y, x, c, v).sample_at(y2, x2, c2) == if y == y2 && x == x2 && c == c2 {
            v
        } else {
            g.sample_at(y2, x2, c2)
        },
{
    let h = g.height as int;
    let w = g.width as int;
    let ch = g.channels as int;
    lemma_flat_index_in_range(y, x, c, h, w, ch);
    lemma_flat_index_in_range(y2, x2, c2, h, w, ch);
    if !(y == y2 && x == x2 && c == c2) {
        if flat_index(y, x, c, w, ch) == flat_index(y2, x2, c2, w, ch) {
            lemma_flat_index_injective(y, x, c, y2, x2, c2, h, w, ch);
        }
    }
}

} // verus!
