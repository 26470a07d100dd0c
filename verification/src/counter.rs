//! Reference-counting strategies for shared cells.

use vstd::prelude::*;

verus! {

/// A reference-counting strategy: how a shared block's count is initialised,
/// incremented, and decremented to zero.
///
/// The strategy is chosen at the type level. The library implements it for
/// the common unsigned integer widths; users may add their own, provided the
/// same contract holds. Every counter starts at one, `increment` adds one
/// while the count is below the strategy's limit, and `decrement` subtracts
/// one and reports whether the count has reached zero — the moment at which a
/// shared block must be deallocated.
///
/// Counters are only ever touched through exclusive access to the heap that
/// owns their block, so a strategy needs no interior mutability and no
/// atomicity here; the overflow and underflow panics of checked variants are
/// ruled out by the preconditions instead.
pub trait Counter: Sized {
    /// The current count, as a mathematical number.
    spec fn count(&self) -> nat;

    /// The largest count this strategy can represent.
    spec fn limit() -> nat;

    /// A fresh counter, for a block that has exactly one handle.
    fn new() -> (c: Self)
        ensures
            c.count() == 1;

    /// Record one more live handle.
    fn increment(&mut self)
        requires
            old(self).count() < Self::limit(),
        ensures
            final(self).count() == old(self).count() + 1;

    /// Record one handle gone; true exactly when no handle is left.
    fn decrement(&mut self) -> (zero: bool)
        requires
            old(self).count() >= 1,
        ensures
            final(self).count() == old(self).count() - 1,
            zero <==> final(self).count() == 0;
}

impl Counter for u8 {
    open spec fn count(&self) -> nat {
        *self as nat
    }

    open spec fn limit() -> nat {
        u8::MAX as nat
    }

    fn new() -> (c: Self) {
        1
    }

    fn increment(&mut self) {
        *self = *self + 1;
    }

    fn decrement(&mut self) -> (zero: bool) {
        *self = *self - 1;
        *self == 0
    }
}

impl Counter for u16 {
    open spec fn count(&self) -> nat {
        *self as nat
    }

    open spec fn limit() -> nat {
        u16::MAX as nat
    }

    fn new() -> (c: Self) {
        1
    }

    fn increment(&mut self) {
        *self = *self + 1;
    }

    fn decrement(&mut self) -> (zero: bool) {
        *self = *self - 1;
        *self == 0
    }
}

impl Counter for u32 {
    open spec fn count(&self) -> nat {
        *self as nat
    }

    open spec fn limit() -> nat {
        u32::MAX as nat
    }

    fn new() -> (c: Self) {
        1
    }

    fn increment(&mut self) {
        *self = *self + 1;
    }

    fn decrement(&mut self) -> (zero: bool) {
        *self = *self - 1;
        *self == 0
    }
}

impl Counter for u64 {
    open spec fn count(&self) -> nat {
        *self as nat
    }

    open spec fn limit() -> nat {
        u64::MAX as nat
    }

    fn new() -> (c: Self) {
        1
    }

    fn increment(&mut self) {
        *self = *self + 1;
    }

    fn decrement(&mut self) -> (zero: bool) {
        *self = *self - 1;
        *self == 0
    }
}

impl Counter for u128 {
    open spec fn count(&self) -> nat {
        *self as nat
    }

    open spec fn limit() -> nat {
        u128::MAX as nat
    }

    fn new() -> (c: Self) {
        1
    }

    fn increment(&mut self) {
        *self = *self + 1;
    }

    fn decrement(&mut self) -> (zero: bool) {
        *self = *self - 1;
        *self == 0
    }
}

impl Counter for usize {
    open spec fn count(&self) -> nat {
        *self as nat
    }

    open spec fn limit() -> nat {
        usize::MAX as nat
    }

    fn new() -> (c: Self) {
        1
    }

    fn increment(&mut self) {
        *self = *self + 1;
    }

    fn decrement(&mut self) -> (zero: bool) {
        *self = *self - 1;
        *self == 0
    }
}

} // verus!
