//! The multiplexer instance: the kernel instance handle, the mirrored
//! registration table, and the wait/reap loop with its buffer management.
//!
//! The registration table is the single source of truth for what is
//! currently watched: every mutating call is validated against it before
//! the corresponding kernel call is issued, and every removal and the
//! final close hand the stored records back to the caller so owned
//! payloads can be reclaimed.
//!
//! The kernel record's opaque user-data field carries the watched
//! descriptor itself; a wait call reads it back and duplicates the payload
//! out of the mirrored table, so a reported record survives later changes
//! to the registration.

use std::collections::HashMap;
use vstd::prelude::*;

use crate::data::{DataKind, DupKind};
use crate::errors::{CreateError, CtlError, InvalidCapacity, WaitError};
use crate::event::{epoll_event, Event};
use crate::flags::{Events, EPOLLERR, EPOLLHUP};
use crate::sys::{sys_close, sys_epoll_create, sys_epoll_ctl, sys_epoll_wait, ControlOp};

verus! {

broadcast use vstd::std_specs::hash::group_hash_axioms;

/// What `wait` promises of each record it reports, against the
/// registration table at the time of the call: the record belongs to some
/// registered descriptor, its flags are a subset of that registration's
/// flags together with the always-reported error and hang-up conditions,
/// and, for a kind whose duplication is exact, its payload equals the
/// registered payload.
pub open spec fn reported_record_ok<K: DupKind>(datas: Map<i32, Event<K>>, ev: Event<K>) -> bool {
    exists|fd: i32|
        {
            &&& #[trigger] datas.contains_key(fd)
            &&& ev.spec_events()@ & !(datas[fd].spec_events()@ | EPOLLERR | EPOLLHUP) == 0u32
            &&& K::exact_dup() ==> ev.spec_data() == datas[fd].spec_data()
        }
}

/// The descriptor a raw record's user-data field names: its low 32 bits,
/// read back as the signed descriptor the registration path stored there.
pub open spec fn raw_key(r: epoll_event) -> i32 {
    let low = r.data % 0x1_0000_0000;
    if low < 0x8000_0000 {
        low as i32
    } else {
        (low - 0x1_0000_0000) as i32
    }
}

/// The raw records of a wait that belong to a registered descriptor, in
/// the order the kernel wrote them: exactly these become typed records,
/// and no others.
pub open spec fn spec_kept<K: DataKind>(
    datas: Map<i32, Event<K>>,
    raw: Seq<epoll_event>,
) -> Seq<epoll_event>
    decreases raw.len(),
{
    if raw.len() == 0 {
        Seq::empty()
    } else if datas.contains_key(raw_key(raw.last())) {
        spec_kept(datas, raw.drop_last()).push(raw.last())
    } else {
        spec_kept(datas, raw.drop_last())
    }
}

/// The typed record that a kept raw record becomes: its flags are the
/// reported conditions restricted to the registration's flags together
/// with the always-reported error and hang-up conditions, and, for a kind
/// whose duplication is exact, its payload equals the registered payload.
pub open spec fn typed_record_of<K: DupKind>(
    datas: Map<i32, Event<K>>,
    r: epoll_event,
    ev: Event<K>,
) -> bool {
    &&& datas.contains_key(raw_key(r))
    &&& ev.spec_events()@ == r.events & (datas[raw_key(r)].spec_events()@ | EPOLLERR | EPOLLHUP)
    &&& K::exact_dup() ==> ev.spec_data() == datas[raw_key(r)].spec_data()
}

/// At most as many records are kept as the kernel wrote.
pub proof fn lemma_kept_len<K: DataKind>(datas: Map<i32, Event<K>>, raw: Seq<epoll_event>)
    ensures
        spec_kept(datas, raw).len() <= raw.len(),
    decreases raw.len(),
{
    if raw.len() > 0 {
        lemma_kept_len(datas, raw.drop_last());
    }
}

/// Types the raw records of a wait against the registration table: keeps,
/// in the kernel's order, exactly those whose user-data field names a
/// registered descriptor, and turns each into the typed record that
/// `typed_record_of` fixes.
pub fn reap<K: DupKind>(datas: &HashMap<i32, Event<K>>, raw: &Vec<epoll_event>) -> (evs: Vec<
    Event<K>,
>)
    ensures
        evs@.len() == spec_kept(datas@, raw@).len(),
        forall|i: int|
            0 <= i < evs@.len() ==> #[trigger] typed_record_of(
                datas@,
                spec_kept(datas@, raw@)[i],
                evs@[i],
            ),
        forall|i: int| 0 <= i < evs@.len() ==> #[trigger] reported_record_ok(datas@, evs@[i]),
{
    let mut evs: Vec<Event<K>> = Vec::new();
    let mut i: usize = 0;
    while i < raw.len()
        invariant
            i <= raw@.len(),
            evs@.len() == spec_kept(datas@, raw@.take(i as int)).len(),
            forall|j: int|
                0 <= j < evs@.len() ==> #[trigger] typed_record_of(
                    datas@,
                    spec_kept(datas@, raw@.take(i as int))[j],
                    evs@[j],
                ),
            forall|j: int| 0 <= j < evs@.len() ==> #[trigger] reported_record_ok(datas@, evs@[j]),
        decreases raw@.len() - i,
    {
        let r: epoll_event = raw[i];
        let low: u64 = r.data % 0x1_0000_0000;
        let fd_key: i32 = if low < 0x8000_0000 {
            low as i32
        } else {
            ((low as i64) - 0x1_0000_0000) as i32
        };
        proof {
            assert(fd_key == raw_key(r));
            assert(raw@.take(i as int + 1).drop_last() =~= raw@.take(i as int));
            assert(raw@.take(i as int + 1).last() == r);
        }
        match datas.get(&fd_key) {
            Some(reg) => {
                let mask: u32 = reg.events().bits() | EPOLLERR | EPOLLHUP;
                let bits: u32 = r.events & mask;
                proof {
                    let b: u32 = r.events;
                    let m: u32 = mask;
                    assert((b & m) & !m == 0u32) by (bit_vector);
                }
                let rec = reg.with_duplicate_data(Events::from_bits(bits));
                proof {
                    assert(datas@.contains_key(fd_key) && rec.spec_events()@ & !(
                    datas@[fd_key].spec_events()@ | EPOLLERR | EPOLLHUP) == 0u32 && (K::exact_dup()
                        ==> rec.spec_data() == datas@[fd_key].spec_data()));
                    assert(typed_record_of(datas@, r, rec));
                }
                evs.push(rec);
            },
            None => {
            },
        }
        i = i + 1;
    }
    proof {
        assert(raw@.take(raw@.len() as int) =~= raw@);
    }
    evs
}

/// A multiplexer instance fixed to one payload kind.
///
/// It owns the kernel instance handle, the registration table mapping each
/// watched descriptor to its current record, and a reusable buffer that
/// receives the raw records of the latest wait call, up to the configured
/// capacity, for the reap loop to type. A single instance is not meant for
/// concurrent use: the caller serializes all operations.
pub struct EPoll<K: DataKind> {
    fd: i32,
    datas: HashMap<i32, Event<K>>,
    buffer: Vec<epoll_event>,
    capacity: usize,
    handle_open: bool,
}

impl<K: DataKind> View for EPoll<K> {
    type V = Map<i32, Event<K>>;

    /// The registration table: the authoritative watch set.
    closed spec fn view(&self) -> Map<i32, Event<K>> {
        self.datas@
    }
}

impl<K: DataKind> EPoll<K> {
    /// The configured capacity of the wait buffer: the greatest number of
    /// records one wait call may report.
    pub closed spec fn spec_capacity(&self) -> int {
        self.capacity as int
    }

    /// The kernel instance handle.
    pub closed spec fn spec_handle(&self) -> int {
        self.fd as int
    }

    /// The raw records the kernel wrote during the latest wait call;
    /// empty before the first wait, after a resize, and after a failed
    /// wait.
    pub closed spec fn spec_buffer(&self) -> Seq<epoll_event> {
        self.buffer@
    }

    /// Well-formed: the wait buffer's configured capacity is positive and
    /// fits the kernel's signed 32-bit record count.
    pub open spec fn wf(&self) -> bool {
        1 <= self.spec_capacity() <= 0x7fff_ffff
    }

    /// Requests a new kernel instance whose wait buffer holds up to
    /// `max_events` records. If `cloexec` is set, the instance handle is
    /// not inherited across an exec.
    ///
    /// A capacity that is not positive is rejected as `EINVAL` before any
    /// kernel call; otherwise a failure is the kernel's, mapped to its
    /// variant. On success the registration table is empty.
    pub fn create(cloexec: bool, max_events: i32) -> (r: Result<Self, CreateError>)
        ensures
            max_events <= 0 ==> r == Err::<Self, CreateError>(CreateError::EINVAL),
            r matches Ok(ep) ==> {
                &&& max_events > 0
                &&& ep.wf()
                &&& ep@ == Map::<i32, Event<K>>::empty()
                &&& ep.spec_capacity() == max_events
                &&& ep.spec_handle() >= 0
                &&& ep.spec_buffer().len() == 0
            },
    {
        if max_events <= 0 {
            return Err(CreateError::EINVAL);
        }
        match sys_epoll_create(cloexec) {
            Ok(fd) => Ok(
                EPoll {
                    fd,
                    datas: HashMap::new(),
                    buffer: Vec::with_capacity(max_events as usize),
                    capacity: max_events as usize,
                    handle_open: true,
                },
            ),
            Err(e) => Err(CreateError::from_errno(e)),
        }
    }

    /// Adds `fd` to the watch set with the given record.
    ///
    /// Fails with `EEXIST`, before any kernel call, if `fd` is already
    /// registered, leaving the prior registration unchanged. On any kernel
    /// failure the table is likewise unchanged: it is extended exactly
    /// when the kernel accepted the addition.
    pub fn ctl_add(&mut self, fd: i32, event: Event<K>) -> (r: Result<(), CtlError>)
        requires
            old(self).wf(),
        ensures
            final(self).wf(),
            final(self).spec_capacity() == old(self).spec_capacity(),
            final(self).spec_handle() == old(self).spec_handle(),
            old(self)@.contains_key(fd) ==> r == Err::<(), CtlError>(CtlError::EEXIST) && final(self)@
                == old(self)@,
            r is Ok ==> !old(self)@.contains_key(fd) && final(self)@ == old(self)@.insert(
                fd,
                event,
            ),
            r is Err ==> final(self)@ == old(self)@,
    {
        if self.datas.contains_key(&fd) {
            return Err(CtlError::EEXIST);
        }
        match sys_epoll_ctl(self.fd, ControlOp::Add, fd, event.events().bits(), fd as u64) {
            Ok(()) => {
                self.datas.insert(fd, event);
                Ok(())
            },
            Err(e) => Err(CtlError::from_errno(e)),
        }
    }

    /// Replaces the record stored for an already-registered `fd`,
    /// returning the previous record so a replaced owned payload is handed
    /// back rather than silently leaked.
    ///
    /// Fails with `ENOENT`, before any kernel call, if `fd` is not
    /// registered. On any kernel failure the table is unchanged.
    pub fn ctl_mod(&mut self, fd: i32, event: Event<K>) -> (r: Result<Event<K>, CtlError>)
        requires
            old(self).wf(),
        ensures
            final(self).wf(),
            final(self).spec_capacity() == old(self).spec_capacity(),
            final(self).spec_handle() == old(self).spec_handle(),
            !old(self)@.contains_key(fd) ==> r == Err::<Event<K>, CtlError>(CtlError::ENOENT)
                && final(self)@ == old(self)@,
            r matches Ok(prev) ==> {
                &&& old(self)@.contains_key(fd)
                &&& prev == old(self)@[fd]
                &&& final(self)@ == old(self)@.insert(fd, event)
            },
            r is Err ==> final(self)@ == old(self)@,
    {
        if !self.datas.contains_key(&fd) {
            return Err(CtlError::ENOENT);
        }
        match sys_epoll_ctl(self.fd, ControlOp::Mod, fd, event.events().bits(), fd as u64) {
            Ok(()) => {
                let prev = self.datas.insert(fd, event);
                Ok(prev.unwrap())
            },
            Err(e) => Err(CtlError::from_errno(e)),
        }
    }

    /// Removes `fd` from the kernel watch set and the table, returning its
    /// last record so an owned payload can be reclaimed.
    ///
    /// Fails with `ENOENT`, before any kernel call, if `fd` is not
    /// registered. On any kernel failure the table is unchanged. The
    /// kernel call is issued with a non-null, ignored record, which some
    /// kernel versions demand even for removal.
    pub fn ctl_del(&mut self, fd: i32) -> (r: Result<Event<K>, CtlError>)
        requires
            old(self).wf(),
        ensures
            final(self).wf(),
            final(self).spec_capacity() == old(self).spec_capacity(),
            final(self).spec_handle() == old(self).spec_handle(),
            !old(self)@.contains_key(fd) ==> r == Err::<Event<K>, CtlError>(CtlError::ENOENT)
                && final(self)@ == old(self)@,
            r matches Ok(last) ==> {
                &&& old(self)@.contains_key(fd)
                &&& last == old(self)@[fd]
                &&& final(self)@ == old(self)@.remove(fd)
            },
            r is Err ==> final(self)@ == old(self)@,
    {
        if !self.datas.contains_key(&fd) {
            return Err(CtlError::ENOENT);
        }
        match sys_epoll_ctl(self.fd, ControlOp::Del, fd, 0, 0) {
            Ok(()) => {
                let last = self.datas.remove(&fd);
                Ok(last.unwrap())
            },
            Err(e) => Err(CtlError::from_errno(e)),
        }
    }

    /// Sets the wait buffer's capacity to exactly `max_events` records
    /// and discards any previously buffered content. The kernel takes the
    /// capacity as a signed 32-bit count, so the same type is taken here;
    /// a capacity that is not positive is rejected.
    pub fn resize_buffer(&mut self, max_events: i32) -> (r: Result<(), InvalidCapacity>)
        requires
            old(self).wf(),
        ensures
            final(self).wf(),
            final(self)@ == old(self)@,
            final(self).spec_handle() == old(self).spec_handle(),
            max_events <= 0 ==> {
                &&& r == Err::<(), InvalidCapacity>(InvalidCapacity)
                &&& final(self).spec_capacity() == old(self).spec_capacity()
                &&& final(self).spec_buffer() == old(self).spec_buffer()
            },
            max_events > 0 ==> {
                &&& r == Ok::<(), InvalidCapacity>(())
                &&& final(self).spec_capacity() == max_events
                &&& final(self).spec_buffer().len() == 0
            },
    {
        if max_events <= 0 {
            return Err(InvalidCapacity);
        }
        self.capacity = max_events as usize;
        self.buffer.clear();
        Ok(())
    }

    /// Releases the kernel instance handle and returns the full
    /// registration table by value, so the caller can reclaim every
    /// still-owned payload. A failure of the release cannot return the
    /// handle, and the registrations are handed back regardless.
    pub fn close(self) -> (datas: HashMap<i32, Event<K>>)
        ensures
            datas@ == self@,
    {
        let mut this = self;
        let _ = sys_close(this.fd);
        this.handle_open = false;
        let mut datas: HashMap<i32, Event<K>> = HashMap::new();
        core::mem::swap(&mut this.datas, &mut datas);
        datas
    }

    /// The full registration table, borrowed. A stored record cannot be
    /// changed through it; use `ctl_mod` for that.
    pub fn get_data(&self) -> (r: &HashMap<i32, Event<K>>)
        ensures
            r@ == self@,
    {
        &self.datas
    }
}

/// The timeout handed to the kernel: any negative value stands for
/// blocking indefinitely and is normalized to the kernel's sentinel.
pub open spec fn spec_wait_timeout(timeout: i32) -> i32 {
    if timeout < 0 {
        -1i32
    } else {
        timeout
    }
}

/// Normalizes a wait timeout to the form the kernel takes.
pub fn normalize_timeout(timeout: i32) -> (r: i32)
    ensures
        r == spec_wait_timeout(timeout),
{
    if timeout < 0 {
        -1
    } else {
        timeout
    }
}

impl<K: DupKind> EPoll<K> {
    /// Blocks until at least one watched descriptor is ready or
    /// `timeout` milliseconds elapse; a negative timeout blocks
    /// indefinitely.
    ///
    /// On success the buffer holds the raw records the kernel wrote, at
    /// most the configured capacity of them, and the result is exactly
    /// their typing by [`reap`]: in the kernel's order, one record for
    /// each raw record whose user-data field names a registered
    /// descriptor, its flags the reported conditions within that
    /// registration's flags plus the always-reported error and hang-up
    /// conditions, its payload a duplicate of the registered payload at
    /// wait time, so it survives later `ctl_mod` or `ctl_del` calls. The
    /// registration table is never changed by a wait.
    ///
    /// On `EINTR` no events were consumed and the caller may retry.
    pub fn wait(&mut self, timeout: i32) -> (r: Result<Vec<Event<K>>, WaitError>)
        requires
            old(self).wf(),
        ensures
            final(self).wf(),
            final(self)@ == old(self)@,
            final(self).spec_capacity() == old(self).spec_capacity(),
            final(self).spec_handle() == old(self).spec_handle(),
            r matches Ok(evs) ==> {
                &&& final(self).spec_buffer().len() <= old(self).spec_capacity()
                &&& evs@.len() == spec_kept(old(self)@, final(self).spec_buffer()).len()
                &&& evs@.len() <= old(self).spec_capacity()
                &&& forall|j: int|
                    0 <= j < evs@.len() ==> #[trigger] typed_record_of(
                        old(self)@,
                        spec_kept(old(self)@, final(self).spec_buffer())[j],
                        evs@[j],
                    )
                &&& forall|j: int|
                    0 <= j < evs@.len() ==> #[trigger] reported_record_ok(old(self)@, evs@[j])
            },
            r is Err ==> final(self).spec_buffer().len() == 0,
    {
        let timeout_ms: i32 = normalize_timeout(timeout);
        match sys_epoll_wait(self.fd, self.capacity, timeout_ms, &mut self.buffer) {
            Ok(_n) => {
                let evs = reap(&self.datas, &self.buffer);
                proof {
                    lemma_kept_len(self.datas@, self.buffer@);
                }
                Ok(evs)
            },
            Err(e) => Err(WaitError::from_errno(e)),
        }
    }
}

impl<K: DataKind> Drop for EPoll<K> {
    /// Releases the kernel handle exactly once when an instance is
    /// discarded without an explicit close; the owned payloads of any
    /// still-registered records are then unreachable, which only an
    /// explicit close avoids.
    fn drop(&mut self)
        opens_invariants none
        no_unwind
    {
        if self.handle_open {
            let _ = sys_close(self.fd);
        }
    }
}

/// Law: registering a record for a descriptor that is absent from the
/// table, replacing it, and then removing it, as the contracts of
/// `ctl_add`, `ctl_mod` and `ctl_del` describe those steps on the table,
/// makes the removal hand back exactly the last record stored, and leaves
/// the table as it began.
pub proof fn lemma_register_modify_deregister<K: DataKind>(
    m: Map<i32, Event<K>>,
    fd: i32,
    first: Event<K>,
    last: Event<K>,
)
    requires
        !m.contains_key(fd),
    ensures
        m.insert(fd, first).insert(fd, last)[fd] == last,
        m.insert(fd, first).insert(fd, last).remove(fd) =~= m,
{
}

/// Law: when exactly one descriptor is registered, every record a wait
/// call reports carries only that registration's flags together with the
/// always-reported error and hang-up conditions, and, for a kind whose
/// duplication is exact, exactly that registration's payload. Whether and
/// when the descriptor becomes ready is the kernel's to decide; this
/// states the part the library decides.
pub proof fn lemma_single_registration_report<K: DupKind>(
    datas: Map<i32, Event<K>>,
    fd: i32,
    reg: Event<K>,
    rec: Event<K>,
)
    requires
        datas =~= map![fd => reg],
        reported_record_ok(datas, rec),
    ensures
        rec.spec_events()@ & !(reg.spec_events()@ | EPOLLERR | EPOLLHUP) == 0u32,
        K::exact_dup() ==> rec.spec_data() == reg.spec_data(),
{
    let w = choose|w: i32|
        {
            &&& #[trigger] datas.contains_key(w)
            &&& rec.spec_events()@ & !(datas[w].spec_events()@ | EPOLLERR | EPOLLHUP) == 0u32
            &&& K::exact_dup() ==> rec.spec_data() == datas[w].spec_data()
        };
    assert(datas.contains_key(w));
    assert(w == fd);
}

} // verus!
