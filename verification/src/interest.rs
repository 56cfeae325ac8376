//! A plain registration request: a descriptor, a flag set and a 64-bit
//! tag, convertible into the kernel's raw record shape.

use vstd::prelude::*;

use crate::event::epoll_event;
use crate::flags::Events;

verus! {

/// A descriptor paired with the conditions to watch it for and an
/// arbitrary 64-bit tag.
pub struct Interest {
    fd: i32,
    events: Events,
    data: u64,
}

impl Clone for Interest {
    /// Cloning copies the descriptor, the flags and the tag.
    fn clone(&self) -> (r: Self)
        ensures
            r == *self,
    {
        Interest { fd: self.fd, events: self.events, data: self.data }
    }
}

impl Interest {
    /// The watched descriptor.
    pub closed spec fn spec_fd(&self) -> i32 {
        self.fd
    }

    /// The flag set.
    pub closed spec fn spec_events(&self) -> Events {
        self.events
    }

    /// The tag.
    pub closed spec fn spec_data(&self) -> u64 {
        self.data
    }

    /// Creates a new interest.
    pub fn new(fd: i32, flags: Events, data: u64) -> (r: Interest)
        ensures
            r.spec_fd() == fd,
            r.spec_events() == flags,
            r.spec_data() == data,
    {
        Interest { fd, events: flags, data }
    }

    /// Copy of the flag set associated with this interest.
    pub fn events(&self) -> (r: Events)
        ensures
            r == self.spec_events(),
    {
        self.events
    }

    /// A mutable reference to the flag set.
    pub fn events_mut(&mut self) -> (r: &mut Events)
        ensures
            *r == old(self).spec_events(),
            final(self).spec_events() == *final(r),
            final(self).spec_fd() == old(self).spec_fd(),
            final(self).spec_data() == old(self).spec_data(),
    {
        &mut self.events
    }

    /// Replaces all associated flags with `events`.
    pub fn set_events(&mut self, events: Events)
        ensures
            final(self).spec_events() == events,
            final(self).spec_fd() == old(self).spec_fd(),
            final(self).spec_data() == old(self).spec_data(),
    {
        self.events = events;
    }

    /// Copy of the arbitrary tag associated with this interest.
    pub fn data(&self) -> (r: u64)
        ensures
            r == self.spec_data(),
    {
        self.data
    }

    /// A mutable reference to the arbitrary tag.
    pub fn data_mut(&mut self) -> (r: &mut u64)
        ensures
            *r == old(self).spec_data(),
            final(self).spec_data() == *final(r),
            final(self).spec_fd() == old(self).spec_fd(),
            final(self).spec_events() == old(self).spec_events(),
    {
        &mut self.data
    }

    /// Replaces the arbitrary tag with `data`.
    pub fn set_data(&mut self, data: u64)
        ensures
            final(self).spec_data() == data,
            final(self).spec_fd() == old(self).spec_fd(),
            final(self).spec_events() == old(self).spec_events(),
    {
        self.data = data;
    }

    /// The raw descriptor this interest watches.
    pub fn as_raw_fd(&self) -> (r: i32)
        ensures
            r == self.spec_fd(),
    {
        self.fd
    }
}

/// The raw kernel record that registers this interest: its flag bits and
/// its tag, in the kernel's record shape.
pub fn int2event(interest: &Interest) -> (r: epoll_event)
    ensures
        r.events == interest.spec_events()@,
        r.data == interest.spec_data(),
{
    epoll_event { events: interest.events().bits(), data: interest.data() }
}

} // verus!
