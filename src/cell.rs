//! A cell that owns its value and gives volatile access to it.
use vstd::prelude::*;

use crate::access::{Access, ReadWrite, Readable, Writable};
use crate::reference::VolatileRef;
use crate::reference_mut::VolatileRefMut;

verus! {

/// A cell that owns a value of type `T` and reads and writes it only as its
/// capability tag `A` permits. Its size is that of the value: the tag is a
/// zero-sized marker.
///
/// Nothing here makes accesses atomic.
pub struct VolatileCell<T, A = ReadWrite> {
    value: T,
    access: A,
}

impl<T, A> View for VolatileCell<T, A> {
    type V = T;

    /// The value the cell holds.
    closed spec fn view(&self) -> T {
        self.value
    }
}

impl<T> VolatileCell<T, ReadWrite> {
    /// Constructs a read-write cell holding `value`.
    pub fn new(value: T) -> (r: VolatileCell<T, ReadWrite>)
        ensures
            r@ == value,
    {
        VolatileCell::new_restricted(ReadWrite, value)
    }

    /// Constructs a cell holding `value` whose operations are those that
    /// `access` permits.
    pub fn new_restricted<A: Access>(access: A, value: T) -> (r: VolatileCell<T, A>)
        ensures
            r@ == value,
    {
        VolatileCell { value, access }
    }
}

impl<T, A: Access> VolatileCell<T, A> {
    /// The capability tag of this cell.
    pub fn access(&self) -> A {
        self.access
    }

    /// A shared accessor over the held value, with the tag narrowed for
    /// sharing.
    pub fn as_ptr(&self) -> (r: VolatileRef<'_, T, A::RestrictShared>)
        ensures
            *r.target() == self@,
    {
        VolatileRef::from_parts(&self.value, self.access.restrict_shared())
    }

    /// An exclusive accessor over the held value, with the same tag.
    pub fn as_mut_ptr(&mut self) -> (r: VolatileRefMut<'_, T, A>)
        ensures
            *r.target() == old(self)@,
            final(self)@ == *final(r.target()),
    {
        VolatileRefMut::new_restricted(self.access, &mut self.value)
    }
}

impl<T: Copy, A: Access> VolatileCell<T, A> {
    /// Reads the held value once and returns a copy of it.
    pub fn read(&self) -> (r: T) where A: Readable
        ensures
            r == self@,
    {
        VolatileRef::from_parts(&self.value, self.access).read()
    }

    /// Writes `value` into the cell once.
    pub fn write(&mut self, value: T) where A: Writable
        ensures
            final(self)@ == value,
    {
        let mut target = self.as_mut_ptr();
        target.write(value);
        proof {
            crate::reference_mut::lemma_resolved(target);
        }
    }

    /// Reads the held value once, passes it to `f`, and writes what `f`
    /// returns once. The read and the write are two separate accesses.
    pub fn update<F>(&mut self, f: F) where A: Readable + Writable, F: FnOnce(T) -> T
        requires
            f.requires((old(self)@,)),
        ensures
            f.ensures((old(self)@,), final(self)@),
    {
        let new = f(self.read());
        self.write(new);
    }
}

/// A cell can be cloned only where its value can be read: the clone holds
/// a copy of what one read returns, under the same tag.
impl<T: Copy, A: Readable> Clone for VolatileCell<T, A> {
    fn clone(&self) -> (r: Self)
        ensures
            r@ == self@,
    {
        VolatileCell { value: self.read(), access: self.access }
    }
}

} // verus!
