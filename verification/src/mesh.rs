//! Mesh interfaces: the index types a mesh may index its vertices with,
//! and the trait a mesh source implements to hand its streams to the
//! batcher.

use vstd::prelude::*;

verus! {

/// An unsigned type usable as a mesh index: it has a zero, a bounded
/// range, and offsetting within that range.
pub trait VulkanIndexable: Sized + Copy {
    /// The index's numeric value.
    spec fn as_int(&self) -> int;

    /// The largest value the index type holds.
    spec fn max_value() -> int;

    /// Every index value is a natural number within the type's range.
    proof fn bounds(&self)
        ensures
            0 <= self.as_int() <= Self::max_value(),
    ;

    /// The zero index.
    fn zero() -> (r: Self)
        ensures
            r.as_int() == 0,
    ;

    /// This index moved up by another: the sum must stay in range.
    fn offset_by(&self, offset: &Self) -> (r: Self)
        requires
            self.as_int() + offset.as_int() <= Self::max_value(),
        ensures
            r.as_int() == self.as_int() + offset.as_int(),
    ;

    /// This index moved up by a count: the sum must stay in range.
    fn bump(&self, n: usize) -> (r: Self)
        requires
            self.as_int() + n <= Self::max_value(),
        ensures
            r.as_int() == self.as_int() + n,
    ;
}

impl VulkanIndexable for u8 {
    open spec fn as_int(&self) -> int {
        *self as int
    }

    open spec fn max_value() -> int {
        u8::MAX as int
    }

    proof fn bounds(&self) {
    }

    fn zero() -> (r: Self) {
        0
    }

    fn offset_by(&self, offset: &Self) -> (r: Self) {
        *self + *offset
    }

    fn bump(&self, n: usize) -> (r: Self) {
        *self + (n as u8)
    }
}

impl VulkanIndexable for u16 {
    open spec fn as_int(&self) -> int {
        *self as int
    }

    open spec fn max_value() -> int {
        u16::MAX as int
    }

    proof fn bounds(&self) {
    }

    fn zero() -> (r: Self) {
        0
    }

    fn offset_by(&self, offset: &Self) -> (r: Self) {
        *self + *offset
    }

    fn bump(&self, n: usize) -> (r: Self) {
        *self + (n as u16)
    }
}

impl VulkanIndexable for u32 {
    open spec fn as_int(&self) -> int {
        *self as int
    }

    open spec fn max_value() -> int {
        u32::MAX as int
    }

    proof fn bounds(&self) {
    }

    fn zero() -> (r: Self) {
        0
    }

    fn offset_by(&self, offset: &Self) -> (r: Self) {
        *self + *offset
    }

    fn bump(&self, n: usize) -> (r: Self) {
        *self + (n as u32)
    }
}

/// A source of one vertex stream and one index stream; the batcher
/// merges several such sources into one combined buffer pair.
pub trait Mesh<V, I> {
    /// The source's vertices, in order.
    fn vertices(&self) -> Vec<V>;

    /// The source's indices into its own vertices, in order.
    fn indices(&self) -> Vec<I>;
}

} // verus!
