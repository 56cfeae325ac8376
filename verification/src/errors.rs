//! The error taxonomy: a closed enumeration per operation family, each
//! variant corresponding to one documented kernel failure code.
//!
//! A failure code outside the known set of its family is surfaced as the
//! distinct `Unexpected` case, never silently swallowed or guessed at.

use vstd::prelude::*;

use crate::errno;

verus! {

/// A failure of the create operation.
#[derive(Clone, Copy, Debug, PartialEq, Eq, Structural)]
pub enum CreateError {
    /// Invalid value specified in flags, or a wait-buffer capacity that is
    /// not positive.
    EINVAL,
    /// The per-user limit on the number of instances was encountered.
    EMFILE,
    /// The system limit on the total number of open files has been reached.
    ENFILE,
    /// There was insufficient memory to create the kernel object.
    ENOMEM,
    /// A failure code outside the documented set, carried verbatim.
    Unexpected(i32),
}

/// A failure of the register, modify or deregister operations.
#[derive(Clone, Copy, Debug, PartialEq, Eq, Structural)]
pub enum CtlError {
    /// The watched descriptor is not a valid file descriptor.
    EBADF,
    /// The descriptor is already registered with this instance.
    EEXIST,
    /// The instance handle is not valid for the operation, or the operation
    /// is not supported for the descriptor.
    EINVAL,
    /// The descriptor is not registered with this instance.
    ENOENT,
    /// There was insufficient memory to handle the requested operation.
    ENOSPC,
    /// The limit on the number of watched descriptors was encountered.
    EPERM,
    /// A failure code outside the documented set, carried verbatim.
    Unexpected(i32),
}

/// A failure of the wait operation.
#[derive(Clone, Copy, Debug, PartialEq, Eq, Structural)]
pub enum WaitError {
    /// The instance handle is not a valid file descriptor.
    EBADF,
    /// The memory area receiving the events is not writable.
    EFAULT,
    /// The call was interrupted by a signal before any requested event
    /// occurred or the timeout expired; no events are consumed and the
    /// caller may retry immediately.
    EINTR,
    /// The instance handle is not valid, or the buffer capacity is not
    /// positive.
    EINVAL,
    /// A failure code outside the documented set, carried verbatim.
    Unexpected(i32),
}

/// The rejection of a wait-buffer capacity that is not positive.
#[derive(Clone, Copy, Debug, PartialEq, Eq, Structural)]
pub struct InvalidCapacity;

impl CreateError {
    /// The variant that the failure code `e` names.
    pub open spec fn spec_from_errno(e: i32) -> CreateError {
        if e == errno::EINVAL {
            CreateError::EINVAL
        } else if e == errno::EMFILE {
            CreateError::EMFILE
        } else if e == errno::ENFILE {
            CreateError::ENFILE
        } else if e == errno::ENOMEM {
            CreateError::ENOMEM
        } else {
            CreateError::Unexpected(e)
        }
    }

    /// Maps a kernel failure code of the create operation to its variant.
    pub fn from_errno(e: i32) -> (r: CreateError)
        ensures
            r == CreateError::spec_from_errno(e),
    {
        if e == errno::EINVAL {
            CreateError::EINVAL
        } else if e == errno::EMFILE {
            CreateError::EMFILE
        } else if e == errno::ENFILE {
            CreateError::ENFILE
        } else if e == errno::ENOMEM {
            CreateError::ENOMEM
        } else {
            CreateError::Unexpected(e)
        }
    }

    /// The errno name of the failure; the unexpected case has none of its
    /// own and is named `EUNKNOWN`.
    pub fn name(&self) -> (r: &'static str)
        ensures
            self is EINVAL ==> r@ == "EINVAL"@,
            self is EMFILE ==> r@ == "EMFILE"@,
            self is ENFILE ==> r@ == "ENFILE"@,
            self is ENOMEM ==> r@ == "ENOMEM"@,
            self is Unexpected ==> r@ == "EUNKNOWN"@,
    {
        match self {
            CreateError::EINVAL => "EINVAL",
            CreateError::EMFILE => "EMFILE",
            CreateError::ENFILE => "ENFILE",
            CreateError::ENOMEM => "ENOMEM",
            CreateError::Unexpected(_) => "EUNKNOWN",
        }
    }

    /// A short account of the failure.
    pub fn description(&self) -> (r: &'static str)
        ensures
            self is EINVAL ==> r@ == "Invalid flags"@,
            self is EMFILE ==> r@ == "/proc/sys/fs/epoll/max_user_instances limit reached"@,
            self is ENFILE ==> r@ == "NOFILE limit has been reached"@,
            self is ENOMEM ==> r@ == "Insufficient memory"@,
            self is Unexpected ==> r@ == "Unexpected failure code"@,
    {
        match self {
            CreateError::EINVAL => "Invalid flags",
            CreateError::EMFILE => "/proc/sys/fs/epoll/max_user_instances limit reached",
            CreateError::ENFILE => "NOFILE limit has been reached",
            CreateError::ENOMEM => "Insufficient memory",
            CreateError::Unexpected(_) => "Unexpected failure code",
        }
    }
}

impl CtlError {
    /// The variant that the failure code `e` names.
    pub open spec fn spec_from_errno(e: i32) -> CtlError {
        if e == errno::EBADF {
            CtlError::EBADF
        } else if e == errno::EEXIST {
            CtlError::EEXIST
        } else if e == errno::EINVAL {
            CtlError::EINVAL
        } else if e == errno::ENOENT {
            CtlError::ENOENT
        } else if e == errno::ENOSPC {
            CtlError::ENOSPC
        } else if e == errno::EPERM {
            CtlError::EPERM
        } else {
            CtlError::Unexpected(e)
        }
    }

    /// Maps a kernel failure code of a control operation to its variant.
    pub fn from_errno(e: i32) -> (r: CtlError)
        ensures
            r == CtlError::spec_from_errno(e),
    {
        if e == errno::EBADF {
            CtlError::EBADF
        } else if e == errno::EEXIST {
            CtlError::EEXIST
        } else if e == errno::EINVAL {
            CtlError::EINVAL
        } else if e == errno::ENOENT {
            CtlError::ENOENT
        } else if e == errno::ENOSPC {
            CtlError::ENOSPC
        } else if e == errno::EPERM {
            CtlError::EPERM
        } else {
            CtlError::Unexpected(e)
        }
    }

    /// The errno name of the failure; the unexpected case has none of its
    /// own and is named `EUNKNOWN`.
    pub fn name(&self) -> (r: &'static str)
        ensures
            self is EBADF ==> r@ == "EBADF"@,
            self is EEXIST ==> r@ == "EEXIST"@,
            self is EINVAL ==> r@ == "EINVAL"@,
            self is ENOENT ==> r@ == "ENOENT"@,
            self is ENOSPC ==> r@ == "ENOSPC"@,
            self is EPERM ==> r@ == "EPERM"@,
            self is Unexpected ==> r@ == "EUNKNOWN"@,
    {
        match self {
            CtlError::EBADF => "EBADF",
            CtlError::EEXIST => "EEXIST",
            CtlError::EINVAL => "EINVAL",
            CtlError::ENOENT => "ENOENT",
            CtlError::ENOSPC => "ENOSPC",
            CtlError::EPERM => "EPERM",
            CtlError::Unexpected(_) => "EUNKNOWN",
        }
    }

    /// A short account of the failure.
    pub fn description(&self) -> (r: &'static str)
        ensures
            self is EBADF ==> r@ == "Invalid file descriptor"@,
            self is EEXIST ==> r@ == "File descriptor already registered"@,
            self is EINVAL ==> r@ == "epoll_fd is not an epoll file descriptor"@,
            self is ENOENT ==> r@ == "File descriptor not registered"@,
            self is ENOSPC ==> r@ == "Insufficient memory"@,
            self is EPERM ==> r@ == "/proc/sys/fs/epoll/max_user_watches limit reached"@,
            self is Unexpected ==> r@ == "Unexpected failure code"@,
    {
        match self {
            CtlError::EBADF => "Invalid file descriptor",
            CtlError::EEXIST => "File descriptor already registered",
            CtlError::EINVAL => "epoll_fd is not an epoll file descriptor",
            CtlError::ENOENT => "File descriptor not registered",
            CtlError::ENOSPC => "Insufficient memory",
            CtlError::EPERM => "/proc/sys/fs/epoll/max_user_watches limit reached",
            CtlError::Unexpected(_) => "Unexpected failure code",
        }
    }
}

impl WaitError {
    /// The variant that the failure code `e` names.
    pub open spec fn spec_from_errno(e: i32) -> WaitError {
        if e == errno::EBADF {
            WaitError::EBADF
        } else if e == errno::EFAULT {
            WaitError::EFAULT
        } else if e == errno::EINTR {
            WaitError::EINTR
        } else if e == errno::EINVAL {
            WaitError::EINVAL
        } else {
            WaitError::Unexpected(e)
        }
    }

    /// Maps a kernel failure code of the wait operation to its variant.
    pub fn from_errno(e: i32) -> (r: WaitError)
        ensures
            r == WaitError::spec_from_errno(e),
    {
        if e == errno::EBADF {
            WaitError::EBADF
        } else if e == errno::EFAULT {
            WaitError::EFAULT
        } else if e == errno::EINTR {
            WaitError::EINTR
        } else if e == errno::EINVAL {
            WaitError::EINVAL
        } else {
            WaitError::Unexpected(e)
        }
    }

    /// The errno name of the failure; the unexpected case has none of its
    /// own and is named `EUNKNOWN`.
    pub fn name(&self) -> (r: &'static str)
        ensures
            self is EBADF ==> r@ == "EBADF"@,
            self is EFAULT ==> r@ == "EFAULT"@,
            self is EINTR ==> r@ == "EINTR"@,
            self is EINVAL ==> r@ == "EINVAL"@,
            self is Unexpected ==> r@ == "EUNKNOWN"@,
    {
        match self {
            WaitError::EBADF => "EBADF",
            WaitError::EFAULT => "EFAULT",
            WaitError::EINTR => "EINTR",
            WaitError::EINVAL => "EINVAL",
            WaitError::Unexpected(_) => "EUNKNOWN",
        }
    }

    /// A short account of the failure.
    pub fn description(&self) -> (r: &'static str)
        ensures
            self is EBADF ==> r@ == "Invalid file descriptor"@,
            self is EFAULT ==> r@
                == "Memory pointed to by events is not accessible with write permissions"@,
            self is EINTR ==> r@
                == "Interrupted by a signal before any requested events occurred or timeout expired"@,
            self is EINVAL ==> r@
                == "epoll_fd not an epoll file descriptor, or maxevents is less than or equal to zero."@,
            self is Unexpected ==> r@ == "Unexpected failure code"@,
    {
        match self {
            WaitError::EBADF => "Invalid file descriptor",
            WaitError::EFAULT => {
                "Memory pointed to by events is not accessible with write permissions"
            },
            WaitError::EINTR => {
                "Interrupted by a signal before any requested events occurred or timeout expired"
            },
            WaitError::EINVAL => {
                "epoll_fd not an epoll file descriptor, or maxevents is less than or equal to zero."
            },
            WaitError::Unexpected(_) => "Unexpected failure code",
        }
    }
}

} // verus!
