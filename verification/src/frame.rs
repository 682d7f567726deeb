//! What every frame view has in common.

use vstd::prelude::*;

verus! {

/// A view over a captured frame: a read-only window into a buffer that the
/// caller owns.
pub trait FrameTrait {
    /// The bytes of the whole frame.
    spec fn raw(&self) -> Seq<u8>;

    /// The frame's full backing bytes.
    fn bytes(&self) -> (bytes: &[u8])
        ensures
            bytes@ == self.raw(),
    ;
}

} // verus!
