use vstd::prelude::*;

verus! {

/// Failures of the array-to-buffer ownership transfer.
#[derive(Clone, Copy, Debug, PartialEq, Eq, Structural)]
pub enum Error {
    /// The array's trailing dimension does not equal the channel count of the
    /// target pixel format, so the samples cannot be reinterpreted as pixels
    /// of that format.
    ChannelMismatch,
    /// The receiving pixel container refused the storage handed to it, for
    /// example because its dimensions do not fit the container's limits.
    ImageConstructFailed,
}

} // verus!
