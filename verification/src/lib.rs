//! A verified model of a subclassing bridge over a native object system.
//!
//! The library captures the protocol that lets a type written here override
//! virtual operations of a native base class: per-capability override
//! traits whose unimplemented methods delegate to the parent class, a
//! parent-call accessor per operation, a vtable installer that runs once at
//! class initialisation, and trampolines that convert results and errors
//! into the raw shapes the native caller expects.
//!
//! Borrowing stands in for the native reference counting: a trampoline
//! call borrows the instance for its duration, which models the native
//! caller's guarantee that an instance outlives every call running
//! against it.  The vtables themselves are written only during class
//! initialisation and only read afterwards.

pub mod boundary;
pub mod cancellable;
pub mod error;
pub mod file;
pub mod registry;
pub mod subclass;
