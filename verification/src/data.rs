//! The tagged user-data payload: a closed set of four mutually exclusive
//! kinds a caller may attach to a registration.
//!
//! The kind is fixed at compile time by a type parameter, so mixing kinds
//! within one multiplexer instance is a type error rather than a runtime
//! hazard. For the owned kind, the payload owns a heap allocation whose only
//! sanctioned reclamation is [`Data::into_inner`]; every removal and close
//! path of the multiplexer hands the payload back so it can be reclaimed.

use core::marker::PhantomData;
use vstd::prelude::*;

verus! {

/// The closed set of payload kinds. Each kind fixes the concrete storage a
/// payload of that kind holds.
pub trait DataKind: Sized {
    /// The storage a payload of this kind holds.
    type Store;
}

/// A payload kind whose stored value can be duplicated, as the wait
/// operation must duplicate a registered payload into each reported record.
pub trait DupKind: DataKind {
    /// Whether duplication is exact: whether the duplicate is equal, as a
    /// value, to the stored payload. It is exact for the plain kinds; for
    /// the owned kind the duplicate is a fresh deep copy, about which the
    /// element type's own clone decides.
    spec fn exact_dup() -> bool;

    /// Duplicates a stored payload.
    fn dup_store(s: &Self::Store) -> (r: Self::Store)
        ensures
            Self::exact_dup() ==> r == *s,
    ;
}

/// The owned-payload kind: the slot owns a heap-allocated `T`.
pub struct Ptr<T> {
    phantom: PhantomData<T>,
}

/// The raw-descriptor kind.
#[derive(Debug, Copy, Clone)]
pub struct Fd;

/// The 32-bit tag kind.
#[derive(Debug, Copy, Clone)]
pub struct U32;

/// The 64-bit tag kind.
#[derive(Debug, Copy, Clone)]
pub struct U64;

impl<T> DataKind for Ptr<T> {
    type Store = Box<T>;
}

impl DataKind for Fd {
    type Store = i32;
}

impl DataKind for U32 {
    type Store = u32;
}

impl DataKind for U64 {
    type Store = u64;
}

impl<T: Clone> DupKind for Ptr<T> {
    open spec fn exact_dup() -> bool {
        false
    }

    fn dup_store(s: &Box<T>) -> (r: Box<T>) {
        Box::new((**s).clone())
    }
}

impl DupKind for Fd {
    open spec fn exact_dup() -> bool {
        true
    }

    fn dup_store(s: &i32) -> (r: i32) {
        *s
    }
}

impl DupKind for U32 {
    open spec fn exact_dup() -> bool {
        true
    }

    fn dup_store(s: &u32) -> (r: u32) {
        *s
    }
}

impl DupKind for U64 {
    open spec fn exact_dup() -> bool {
        true
    }

    fn dup_store(s: &u64) -> (r: u64) {
        *s
    }
}

/// User data attached to a registration. Exactly one kind is ever
/// materialized per slot, fixed by the parameter `K`; use the constructor
/// of the matching kind.
pub struct Data<K: DataKind> {
    raw: K::Store,
}

impl<K: DataKind> View for Data<K> {
    type V = K::Store;

    closed spec fn view(&self) -> K::Store {
        self.raw
    }
}

impl Data<Fd> {
    /// A payload holding a raw file descriptor.
    pub fn new_fd(fd: i32) -> (r: Self)
        ensures
            r@ == fd,
    {
        Data { raw: fd }
    }

    /// The stored descriptor.
    pub fn fd(&self) -> (r: i32)
        ensures
            r == self@,
    {
        self.raw
    }
}

impl<T> Data<Ptr<T>> {
    /// Moves `t` onto the heap and stores ownership of the allocation in
    /// the slot, until [`Data::into_inner`] reclaims it.
    pub fn new_ptr(t: T) -> (r: Self)
        ensures
            r@ == t,
    {
        Data { raw: Box::new(t) }
    }

    /// A reference to the owned value.
    pub fn ptr(&self) -> (r: &T)
        ensures
            *r == self@,
    {
        &self.raw
    }

    /// A mutable reference to the owned value; the slot afterwards holds
    /// whatever the caller leaves behind it.
    pub fn ptr_mut(&mut self) -> (r: &mut T)
        ensures
            *r == old(self)@,
            final(self)@ == *final(r),
    {
        &mut self.raw
    }

    /// Reclaims the heap allocation, consuming the payload. This is the one
    /// sanctioned way to free an owned payload.
    pub fn into_inner(self) -> (r: Box<T>)
        ensures
            r == self@,
    {
        self.raw
    }
}

impl Data<U32> {
    /// A payload holding a 32-bit tag.
    pub fn new_u32(v: u32) -> (r: Self)
        ensures
            r@ == v,
    {
        Data { raw: v }
    }

    /// The stored tag.
    pub fn _u32(&self) -> (r: u32)
        ensures
            r == self@,
    {
        self.raw
    }
}

impl Data<U64> {
    /// A payload holding a 64-bit tag.
    pub fn new_u64(v: u64) -> (r: Self)
        ensures
            r@ == v,
    {
        Data { raw: v }
    }

    /// The stored tag.
    pub fn _u64(&self) -> (r: u64)
        ensures
            r == self@,
    {
        self.raw
    }
}

impl<K: DupKind> Data<K> {
    /// Duplicates the payload by its kind's rule: a value copy for the
    /// plain kinds, a deep copy of the pointee for the owned kind.
    pub fn duplicate(&self) -> (r: Self)
        ensures
            K::exact_dup() ==> r == *self,
    {
        Data { raw: K::dup_store(&self.raw) }
    }
}

impl<K: DupKind> Clone for Data<K> {
    /// Cloning duplicates the payload by its kind's rule: an exact value
    /// copy for the plain kinds, a fresh deep copy of the pointee for the
    /// owned kind.
    fn clone(&self) -> (r: Self)
        ensures
            K::exact_dup() ==> r == *self,
    {
        self.duplicate()
    }
}

} // verus!
