//! The readiness flag set: an opaque bit-flag value over the kernel's
//! readiness and behaviour conditions.
//!
//! The raw integer form round-trips losslessly: bits the kernel may set but
//! this module does not enumerate are preserved opaquely, never rejected.

use vstd::prelude::*;

verus! {

/// The associated file is available for read operations.
pub const EPOLLIN: u32 = 0x001;

/// There is urgent data available for read operations.
pub const EPOLLPRI: u32 = 0x002;

/// The associated file is available for write operations.
pub const EPOLLOUT: u32 = 0x004;

/// Error condition happened on the associated file descriptor.
/// `wait` always reports this condition; it need not be registered.
pub const EPOLLERR: u32 = 0x008;

/// Hang up happened on the associated file descriptor.
/// `wait` always reports this condition; it need not be registered.
pub const EPOLLHUP: u32 = 0x010;

/// Stream socket peer closed connection, or shut down the writing half.
pub const EPOLLRDHUP: u32 = 0x2000;

/// Sets an exclusive wakeup mode when several instances watch one descriptor.
pub const EPOLLEXCLUSIVE: u32 = 0x1000_0000;

/// Keeps the system from suspending while this event is pending or processed.
pub const EPOLLWAKEUP: u32 = 0x2000_0000;

/// Sets the one-shot behaviour for the associated file descriptor.
pub const EPOLLONESHOT: u32 = 0x4000_0000;

/// Sets the edge-triggered behaviour for the associated file descriptor.
/// The default behaviour is level-triggered.
pub const EPOLLET: u32 = 0x8000_0000;

/// A set of readiness and behaviour conditions, stored in the raw integer
/// form the kernel uses.
#[derive(Clone, Copy, Debug, PartialEq, Eq, Structural, Hash)]
pub struct Events {
    bits: u32,
}

impl View for Events {
    type V = u32;

    closed spec fn view(&self) -> u32 {
        self.bits
    }
}

impl Events {
    /// The flag set holding exactly the bits of `raw`, known or not.
    pub closed spec fn spec_from_bits(raw: u32) -> Events {
        Events { bits: raw }
    }

    /// Every condition of `self` also stands in `other`.
    pub open spec fn spec_subset_of(self, other: Events) -> bool {
        self@ & !other@ == 0u32
    }

    /// The empty flag set.
    pub fn empty() -> (r: Events)
        ensures
            r@ == 0u32,
    {
        Events { bits: 0 }
    }

    /// Total and lossless: unknown bits are preserved, never rejected,
    /// because the kernel may report conditions this module does not
    /// enumerate.
    pub fn from_bits(raw: u32) -> (r: Events)
        ensures
            r == Events::spec_from_bits(raw),
            r@ == raw,
    {
        Events { bits: raw }
    }

    /// The raw integer form, as the kernel consumes it.
    pub fn bits(&self) -> (r: u32)
        ensures
            r == self@,
    {
        self.bits
    }

    /// Bitwise union of the two condition sets.
    pub fn union(self, other: Events) -> (r: Events)
        ensures
            r@ == self@ | other@,
    {
        Events { bits: self.bits | other.bits }
    }

    /// Bitwise intersection of the two condition sets.
    pub fn intersection(self, other: Events) -> (r: Events)
        ensures
            r@ == self@ & other@,
    {
        Events { bits: self.bits & other.bits }
    }

    /// The conditions of `self` that are not in `other`.
    pub fn difference(self, other: Events) -> (r: Events)
        ensures
            r@ == self@ & !other@,
    {
        Events { bits: self.bits & !other.bits }
    }

    /// Whether every condition of `other` stands in `self`.
    pub fn contains(self, other: Events) -> (r: bool)
        ensures
            r == other.spec_subset_of(self),
    {
        let a: u32 = self.bits;
        let b: u32 = other.bits;
        proof {
            assert(((a & b) == b) == (b & !a == 0u32)) by (bit_vector);
        }
        a & b == b
    }

    /// Whether no condition is set.
    pub fn is_empty(self) -> (r: bool)
        ensures
            r == (self@ == 0u32),
    {
        self.bits == 0
    }
}

/// Law: converting a flag set to its raw integer form and back yields the
/// same flag set, for every flag combination, known bits or not.
pub proof fn lemma_from_bits_round_trip(f: Events)
    ensures
        Events::spec_from_bits(f@) == f,
{
}

/// Law: the union of two flag sets does not depend on their order.
pub proof fn lemma_union_commutes(a: Events, b: Events)
    ensures
        a@ | b@ == b@ | a@,
{
    let x: u32 = a@;
    let y: u32 = b@;
    assert(x | y == y | x) by (bit_vector);
}

} // verus!
