use vstd::prelude::*;

verus! {

/// Flat position of the sample at row `y`, column `x`, channel `c` of a
/// row-major buffer with `width` columns and `channels` interleaved samples
/// per pixel: rows are stored consecutively, and within a pixel the channels
/// are adjacent.
pub open spec fn flat_index(y: int, x: int, c: int, width: int, channels: int) -> int {
    (y * width + x) * channels + c
}

/// Whether `(y, x, c)` addresses a sample of a grid with `height` rows,
/// `width` columns and `channels` samples per pixel.
pub open spec fn coord_in_bounds(
    y: int,
    x: int,
    c: int,
    height: int,
    width: int,
    channels: int,
) -> bool {
    &&& 0 <= y < height
    &&& 0 <= x < width
    &&& 0 <= c < channels
}

/// Every in-bounds coordinate addresses a sample that lies inside a buffer of
/// `height * width * channels` samples.
pub proof fn lemma_flat_index_in_range(
    y: int,
    x: int,
    c: int,
    height: int,
    width: int,
    channels: int,
)
    requires
        coord_in_bounds(y, x, c, height, width, channels),
    ensures
        0 <= y * width + x < height * width,
        0 <= flat_index(y, x, c, width, channels) < height * width * channels,
{
    assert(0 <= y * width + x < height * width) by (nonlinear_arith)
        requires
            0 <= y < height,
            0 <= x < width,
    ;
    assert(0 <= (y * width + x) * channels + c < height * width * channels) by (nonlinear_arith)
        requires
            0 <= y * width + x < height * width,
            0 <= c < channels,
    ;
}

/// Distinct in-bounds coordinates address distinct samples, so writing one
/// sample can never be observed at any other coordinate.
pub proof fn lemma_flat_index_injective(
    y1: int,
    x1: int,
    c1: int,
    y2: int,
    x2: int,
    c2: int,
    height: int,
    width: int,
    channels: int,
)
    requires
        coord_in_bounds(y1, x1, c1, height, width, channels),
        coord_in_bounds(y2, x2, c2, height, width, channels),
        flat_index(y1, x1, c1, width, channels) == flat_index(y2, x2, c2, width, channels),
    ensures
        y1 == y2 && x1 == x2 && c1 == c2,
{
    assert(y1 * width + x1 == y2 * width + x2 && c1 == c2) by (nonlinear_arith)
        requires
            0 <= c1 < channels,
            0 <= c2 < channels,
            (y1 * width + x1) * channels + c1 == (y2 * width + x2) * channels + c2,
    ;
    assert(y1 == y2 && x1 == x2) by (nonlinear_arith)
        requires
            0 <= x1 < width,
            0 <= x2 < width,
            y1 * width + x1 == y2 * width + x2,
    ;
}

/// Computes the flat position of the sample at `(y, x, c)`; the arithmetic
/// cannot overflow because the whole grid fits in `usize`.
pub fn sample_index(
    y: usize,
    x: usize,
    c: usize,
    height: usize,
    width: usize,
    channels: usize,
) -> (i: usize)
    requires
        coord_in_bounds(y as int, x as int, c as int, height as int, width as int, channels as int),
        height * width * channels <= usize::MAX,
    ensures
        i == flat_index(y as int, x as int, c as int, width as int, channels as int),
        i < height * width * channels,
{
    proof {
        lemma_flat_index_in_range(
            y as int,
            x as int,
            c as int,
            height as int,
            width as int,
            channels as int,
        );
        assert(height * width <= height * width * channels) by (nonlinear_arith)
            requires
                0 <= height * width,
                1 <= channels,
        ;
    }
    (y * width + x) * channels + c
}

} // verus!
