use vstd::prelude::*;

verus! {

/// Why an engine or allocator call was rejected.
#[derive(Clone, Copy, Debug, PartialEq, Eq, Structural)]
pub enum VectorError {
    /// An operand's length disagrees with the declared dimensionality, or a
    /// flattened set's length disagrees with `count * dimensions`.
    DimensionMismatch,
    /// A buffer call named an unknown or freed handle, an out-of-range
    /// element, or a size that disagrees with the one given at allocation.
    BufferMismatch,
    /// An allocation would push the memory space past what a byte count can
    /// address.
    CapacityExceeded,
}

} // verus!
