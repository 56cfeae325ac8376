//! The kernel operations the multiplexer consumes, as result-returning
//! black boxes: create an instance, change the watch set, wait for ready
//! records, release the handle.
//!
//! Each failure is handed on as the raw kernel failure code; the error
//! taxonomy maps it to a named variant in verified code.

use vstd::prelude::*;

use crate::event::epoll_event;

verus! {

/// A change to the kernel watch set.
#[derive(Clone, Copy, Debug, PartialEq, Eq, Structural)]
pub(crate) enum ControlOp {
    /// Add a descriptor to the watch set.
    Add,
    /// Replace the record of a watched descriptor.
    Mod,
    /// Remove a descriptor from the watch set.
    Del,
}

/// Relies on nix::sys::epoll::epoll_create1: it returns a newly allocated
/// instance handle, which is a file descriptor and so non-negative, or the
/// failure code the kernel reported.
#[verifier::external_body]
pub(crate) fn sys_epoll_create(cloexec: bool) -> (r: Result<i32, i32>)
    ensures
        r matches Ok(fd) ==> fd >= 0,
{
    let flags = if cloexec {
        nix::sys::epoll::EpollCreateFlags::EPOLL_CLOEXEC
    } else {
        nix::sys::epoll::EpollCreateFlags::empty()
    };
    nix::sys::epoll::epoll_create1(flags).map_err(|e| e as i32)
}

/// Relies on nix::sys::epoll::epoll_ctl: it applies the requested change
/// to the kernel watch set and reports success or the kernel's failure
/// code. The record argument is always handed over non-null, which the
/// removal operation ignores; some kernel versions reject a null record
/// even for removal.
///
/// nix's flag type is built with from_bits_truncate, so a flag bit
/// outside nix's enumeration is silently dropped before the kernel sees
/// it; nix's safe interface offers no lossless handover of the raw bits.
#[verifier::external_body]
pub(crate) fn sys_epoll_ctl(epfd: i32, op: ControlOp, fd: i32, events: u32, data: u64) -> (r:
    Result<(), i32>)
{
    let nix_op = match op {
        ControlOp::Add => nix::sys::epoll::EpollOp::EpollCtlAdd,
        ControlOp::Mod => nix::sys::epoll::EpollOp::EpollCtlMod,
        ControlOp::Del => nix::sys::epoll::EpollOp::EpollCtlDel,
    };
    let flags = nix::sys::epoll::EpollFlags::from_bits_truncate(events as i32);
    let mut record = nix::sys::epoll::EpollEvent::new(flags, data);
    nix::sys::epoll::epoll_ctl(epfd, nix_op, fd, &mut record).map_err(|e| e as i32)
}

/// Relies on nix::sys::epoll::epoll_wait: it blocks until a watched
/// descriptor is ready or the timeout elapses, writes one record per ready
/// descriptor into the buffer it is given, and returns how many it wrote,
/// which is never more than the buffer holds. `out` receives exactly the
/// written records; on failure it is left empty.
///
/// Reading a record's flags goes through nix's EpollEvent::events, which
/// unwraps its flag conversion: a kernel that reported a flag bit outside
/// nix's enumeration would make this wrapper panic. Every bit this
/// library registers is within that enumeration, as are the
/// always-reported error and hang-up bits, so no current kernel can
/// trigger it; nix's safe interface offers nothing stronger.
#[verifier::external_body]
pub(crate) fn sys_epoll_wait(epfd: i32, max_events: usize, timeout_ms: i32, out: &mut Vec<
    epoll_event,
>) -> (r: Result<usize, i32>)
    requires
        max_events <= 0x7fff_ffff,
    ensures
        r matches Ok(n) ==> n <= max_events && final(out)@.len() == n,
        r matches Err(_) ==> final(out)@.len() == 0,
{
    out.clear();
    let mut buf = vec![nix::sys::epoll::EpollEvent::empty(); max_events];
    match nix::sys::epoll::epoll_wait(epfd, &mut buf, timeout_ms as isize) {
        Ok(n) => {
            out.extend(buf[..n].iter().map(|e| epoll_event {
                events: e.events().bits() as u32,
                data: e.data(),
            }));
            Ok(n)
        },
        Err(e) => Err(e as i32),
    }
}

/// Relies on nix::unistd::close: it releases the instance handle and
/// reports success or the kernel's failure code; the call neither
/// allocates nor panics.
#[verifier::external_body]
pub(crate) fn sys_close(fd: i32) -> (r: Result<(), i32>)
    opens_invariants none
    no_unwind
{
    nix::unistd::close(fd).map_err(|e| e as i32)
}

} // verus!
