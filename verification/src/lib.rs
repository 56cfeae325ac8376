//! A type-discriminated multiplexer over the kernel's readiness-notification
//! facility for file descriptors.
//!
//! A caller creates an [`EPoll`] instance fixed to one payload kind
//! ([`Ptr`], [`Fd`], [`U32`] or [`U64`]), registers descriptors with
//! [`Events`] flag sets and [`Data`] payloads, blocks on `wait` for ready
//! records, and finally closes the instance, which hands every
//! still-registered record back so owned payloads are not lost.

pub mod data;
pub mod errno;
pub mod errors;
pub mod event;
pub mod flags;
pub mod interest;
pub mod mux;
mod sys;

pub use data::{Data, DataKind, DupKind, Fd, Ptr, U32, U64};
pub use errors::{CreateError, CtlError, InvalidCapacity, WaitError};
pub use event::{epoll_event, Event};
pub use flags::Events;
pub use interest::{int2event, Interest};
pub use mux::EPoll;
