//! What the store and the encoder report to their callers. Neither failure
//! changes anything: the caller keeps its store and its buffers as they were.

use vstd::prelude::*;

verus! {

#[derive(Clone, Copy, Debug, PartialEq, Eq, Structural)]
pub enum SceneError {
    /// A collection holds more primitives than a uniform block has slots.
    CapacityExceeded,
    /// An index does not name an element of the collection.
    IndexOutOfRange,
}

} // verus!
