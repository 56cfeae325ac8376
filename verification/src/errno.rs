//! The kernel failure codes that the create, control and wait operations
//! document, as the target platform defines them.
//!
//! These are environment facts sourced from the platform's definitions, not
//! state of this library.

use vstd::prelude::*;

verus! {

/// Operation not permitted.
pub const EPERM: i32 = 1;

/// No such file or directory, or no such registration.
pub const ENOENT: i32 = 2;

/// Interrupted by a signal.
pub const EINTR: i32 = 4;

/// Bad file descriptor.
pub const EBADF: i32 = 9;

/// Out of memory.
pub const ENOMEM: i32 = 12;

/// Bad address.
pub const EFAULT: i32 = 14;

/// Already exists, or already registered.
pub const EEXIST: i32 = 17;

/// Invalid argument.
pub const EINVAL: i32 = 22;

/// The system-wide limit on open files has been reached.
pub const ENFILE: i32 = 23;

/// The per-process limit on open files has been reached.
pub const EMFILE: i32 = 24;

/// No space left, or insufficient resources for the operation.
pub const ENOSPC: i32 = 28;

} // verus!
