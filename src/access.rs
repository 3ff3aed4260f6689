//! Capability tags: zero-sized markers that decide, at compile time, which
//! operations an accessor offers.
//!
//! Each tag also carries its meaning as specification: whether it permits
//! reads and whether it permits writes. The traits [`Readable`] and
//! [`Writable`] gate the operations, and their proof methods tie each gate to
//! that meaning, so a tag can never offer more than it states.
use vstd::prelude::*;

verus! {

/// The spec-level meaning of a capability tag.
pub trait Permission {
    /// Whether an accessor with this tag may read the memory it views.
    spec fn readable() -> bool;

    /// Whether an accessor with this tag may write the memory it views.
    spec fn writable() -> bool;
}

/// A capability tag.
///
/// `RestrictShared` is the tag that a shared (non-exclusive) view derived from
/// an accessor with this tag receives: read access is kept, write access is
/// always dropped.
pub trait Access: Permission + Copy {
    /// The tag of a shared view derived from an accessor with this tag.
    type RestrictShared: Permission + Copy;

    /// The tag value of a shared view derived from an accessor with this tag.
    fn restrict_shared(self) -> Self::RestrictShared;

    /// A shared view keeps the read permission and never has write permission.
    proof fn lemma_restrict_shared()
        ensures
            <Self::RestrictShared as Permission>::readable() == Self::readable(),
            !<Self::RestrictShared as Permission>::writable(),
    ;
}

/// Implemented by the tags that permit reads: [`ReadWrite`] and [`ReadOnly`].
pub trait Readable: Access {
    /// A tag that offers reads states that it permits them.
    proof fn lemma_readable()
        ensures
            Self::readable(),
    ;
}

/// Implemented by the tags that permit writes: [`ReadWrite`] and [`WriteOnly`].
pub trait Writable: Access {
    /// A tag that offers writes states that it permits them.
    proof fn lemma_writable()
        ensures
            Self::writable(),
    ;
}

/// Zero-sized marker type for allowing both read and write access.
#[derive(Clone, Copy)]
pub struct ReadWrite;

/// Zero-sized marker type for allowing only read access.
#[derive(Clone, Copy)]
pub struct ReadOnly;

/// Zero-sized marker type for allowing only write access.
#[derive(Clone, Copy)]
pub struct WriteOnly;

/// Zero-sized marker type that grants no access.
#[derive(Clone, Copy)]
pub struct NoAccess;

impl Permission for ReadWrite {
    open spec fn readable() -> bool {
        true
    }

    open spec fn writable() -> bool {
        true
    }
}

impl Permission for ReadOnly {
    open spec fn readable() -> bool {
        true
    }

    open spec fn writable() -> bool {
        false
    }
}

impl Permission for WriteOnly {
    open spec fn readable() -> bool {
        false
    }

    open spec fn writable() -> bool {
        true
    }
}

impl Permission for NoAccess {
    open spec fn readable() -> bool {
        false
    }

    open spec fn writable() -> bool {
        false
    }
}

impl Access for ReadWrite {
    type RestrictShared = ReadOnly;

    fn restrict_shared(self) -> ReadOnly {
        ReadOnly
    }

    proof fn lemma_restrict_shared() {
    }
}

impl Access for ReadOnly {
    type RestrictShared = ReadOnly;

    fn restrict_shared(self) -> ReadOnly {
        ReadOnly
    }

    proof fn lemma_restrict_shared() {
    }
}

impl Access for WriteOnly {
    type RestrictShared = NoAccess;

    fn restrict_shared(self) -> NoAccess {
        NoAccess
    }

    proof fn lemma_restrict_shared() {
    }
}

impl Access for NoAccess {
    type RestrictShared = NoAccess;

    fn restrict_shared(self) -> NoAccess {
        NoAccess
    }

    proof fn lemma_restrict_shared() {
    }
}

impl Readable for ReadWrite {
    proof fn lemma_readable() {
    }
}

impl Readable for ReadOnly {
    proof fn lemma_readable() {
    }
}

impl Writable for ReadWrite {
    proof fn lemma_writable() {
    }
}

impl Writable for WriteOnly {
    proof fn lemma_writable() {
    }
}

/// Narrowing a read-write tag for sharing gives a tag that reads and does not
/// write; narrowing a write-only tag gives a tag that does neither.
pub proof fn lemma_capability_narrowing()
    ensures
        <<ReadWrite as Access>::RestrictShared as Permission>::readable(),
        !<<ReadWrite as Access>::RestrictShared as Permission>::writable(),
        !<<WriteOnly as Access>::RestrictShared as Permission>::readable(),
        !<<WriteOnly as Access>::RestrictShared as Permission>::writable(),
{
}

/// For every tag, a shared view keeps exactly its read permission and has no
/// write permission.
pub proof fn lemma_restrict_shared_keeps_reads<A: Access>()
    ensures
        <A::RestrictShared as Permission>::readable() == A::readable(),
        !<A::RestrictShared as Permission>::writable(),
{
    A::lemma_restrict_shared();
}

} // verus!
