//! Volatile accessors whose read and write permissions are checked at compile
//! time.
//!
//! An accessor is a handle over memory it does not own, bound to a capability
//! tag from [`access`]: [`ReadWrite`], [`ReadOnly`], [`WriteOnly`] or
//! [`NoAccess`]. Reading needs a [`Readable`] tag, writing a [`Writable`] one,
//! and updating both, so an operation that the tag does not permit is a
//! program that does not compile. There is no runtime permission check.
//!
//! - [`VolatileRefMut`] holds the exclusive borrow of the memory it views: it
//!   reads, writes and updates as its tag permits, and projects onto fields,
//!   elements, sub-slices, halves and fixed-size chunks. Exclusive projections
//!   keep the tag; shared ones narrow it with [`Access::RestrictShared`], which
//!   keeps read access and always drops write access.
//! - [`VolatileRef`] is a shared view: freely copyable, it reads as its tag
//!   permits and never writes.
//! - [`VolatileCell`] owns its value and hands out both kinds of accessor.
//!
//! Every access is a single load or store through the borrow that the
//! accessor holds; `update` is a read followed by a write, never an atomic
//! operation. Accessors only ever borrow the memory they view, so Rust's
//! borrowing rules, not the caller, keep two exclusive accessors over the same
//! memory apart. Bounds violations (an index past the end, a split point or a copy
//! range outside the slice, slices of different lengths) are excluded by the
//! preconditions of the operations.
//!
//! Contracts speak of `target()`, the borrow an accessor holds: `*target()` is
//! what the memory holds now and, for an exclusive accessor, `*final(target())`
//! is what it holds when the borrow ends. [`slices`] holds the sequence model
//! of splitting, chunking and copying, and [`laws`] the laws that relate reads,
//! writes and updates.
pub mod access;
pub mod cell;
pub mod laws;
pub mod reference;
pub mod reference_mut;
pub mod slices;

pub use access::{Access, NoAccess, Permission, ReadOnly, ReadWrite, Readable, Writable, WriteOnly};
pub use cell::VolatileCell;
pub use reference::VolatileRef;
pub use reference_mut::VolatileRefMut;
