//! Audio streams.
use vstd::prelude::*;

verus! {

/// Trait for types which handle an audio stream (input or output).
pub trait AudioStreamHandle<Callback> {
    /// Type of errors which have caused the stream to fail.
    type Error;

    /// Eject the stream, returning ownership of the callback.
    ///
    /// An error can occur when an irrecoverable error has occurred and ownership has been lost
    /// already.
    fn eject(self) -> Result<Callback, Self::Error>
        where Self: Sized;
}

} // verus!
