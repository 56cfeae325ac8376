//! The registration record: the pairing of a readiness flag set with
//! exactly one tagged payload, and the raw record shape the kernel reads
//! and writes.

use vstd::prelude::*;

use crate::data::{Data, DataKind, DupKind};
use crate::flags::Events;

verus! {

/// The kernel's raw event record: a 4-byte flags field and an 8-byte
/// opaque user-data field. The kernel fills records of this shape during a
/// wait call; the multiplexer turns each into a typed [`Event`].
#[allow(non_camel_case_types)]
#[derive(Clone, Copy, Debug, PartialEq, Eq, Structural)]
pub struct epoll_event {
    /// The readiness conditions, in the raw integer form.
    pub events: u32,
    /// The opaque user-data field.
    pub data: u64,
}

/// A registration record: a readiness flag set paired with one payload of
/// the instance's kind.
pub struct Event<K: DataKind> {
    events: Events,
    data: Data<K>,
}

impl<K: DataKind> Event<K> {
    /// The record's flag set.
    pub closed spec fn spec_events(&self) -> Events {
        self.events
    }

    /// The record's payload.
    pub closed spec fn spec_data(&self) -> Data<K> {
        self.data
    }

    /// Pairs a flag set with a payload.
    pub fn new(events: Events, data: Data<K>) -> (r: Self)
        ensures
            r.spec_events() == events,
            r.spec_data() == data,
    {
        Event { events, data }
    }

    /// The flag set of this record.
    pub fn events(&self) -> (r: Events)
        ensures
            r == self.spec_events(),
    {
        self.events
    }

    /// The payload of this record.
    pub fn data(&self) -> (r: &Data<K>)
        ensures
            *r == self.spec_data(),
    {
        &self.data
    }

    /// Consumes the record, handing the payload back to the caller.
    pub fn into_data(self) -> (r: Data<K>)
        ensures
            r == self.spec_data(),
    {
        self.data
    }
}

impl<K: DupKind> Event<K> {
    /// A record with the given flag set and a duplicate of this record's
    /// payload, made by the kind's rule.
    pub fn with_duplicate_data(&self, events: Events) -> (r: Self)
        ensures
            r.spec_events() == events,
            K::exact_dup() ==> r.spec_data() == self.spec_data(),
    {
        Event { events, data: self.data.duplicate() }
    }
}

impl<K: DupKind> Clone for Event<K> {
    /// Cloning keeps the flag set and duplicates the payload by the
    /// kind's rule.
    fn clone(&self) -> (r: Self)
        ensures
            r.spec_events() == self.spec_events(),
            K::exact_dup() ==> r == *self,
    {
        Event { events: self.events, data: self.data.clone() }
    }
}

} // verus!
