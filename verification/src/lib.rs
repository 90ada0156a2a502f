//! Reinterpreting flat, row-major pixel buffers as shaped
//! `(height, width, channels)` arrays and back, without copying: a verified
//! pixel-container model, an ndarray-backed owned array, and the
//! validate-then-move ownership transfer between the two.

mod array;
mod buffer;
mod error;
mod layout;
mod model;

pub use array::OwnedArray;
pub use buffer::PixelBuffer;
pub use error::Error;
pub use layout::{
    coord_in_bounds, flat_index, lemma_flat_index_in_range, lemma_flat_index_injective,
    sample_index,
};
pub use model::{lemma_write_visible, GridModel};
