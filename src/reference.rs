//! The shared accessor: a freely copyable view that can read, never write.
use core::ops::Range;
use vstd::prelude::*;

use crate::access::{ReadOnly, Readable};
use crate::slices::{chunked, split_parts};

verus! {

/// A shared volatile accessor over a value of type `T` (or a slice `[T]`).
///
/// It borrows the memory it views for `'a` and is freely copyable, as shared
/// references are. It never writes; the capability tag `A` decides whether it
/// may read. Shared views handed out by an exclusive accessor carry the
/// narrowed tag of their parent (see [`crate::access::Access::RestrictShared`]).
pub struct VolatileRef<'a, T: ?Sized, A = ReadOnly> {
    value: &'a T,
    access: A,
}

impl<'a, T: ?Sized, A: Copy> Clone for VolatileRef<'a, T, A> {
    fn clone(&self) -> (r: Self)
        ensures
            r.target() == self.target(),
    {
        VolatileRef { value: self.value, access: self.access }
    }
}

impl<'a, T: ?Sized, A: Copy> Copy for VolatileRef<'a, T, A> {
}

impl<'a, T: ?Sized, A> VolatileRef<'a, T, A> {
    /// The memory this accessor views.
    pub closed spec fn target(self) -> &'a T {
        self.value
    }

    /// An accessor over `value` with the tag `access`, for the other accessor
    /// types of this crate, which narrow the tag before they call it.
    pub(crate) fn from_parts(value: &'a T, access: A) -> (r: Self)
        ensures
            r.target() == value,
    {
        VolatileRef { value, access }
    }
}

impl<'a, T: ?Sized> VolatileRef<'a, T, ReadOnly> {
    /// Constructs a read-only accessor over the value behind `value`.
    pub fn new(value: &'a T) -> (r: VolatileRef<'a, T, ReadOnly>)
        ensures
            r.target() == value,
    {
        VolatileRef { value, access: ReadOnly }
    }
}

impl<'a, T: ?Sized, A: Copy> VolatileRef<'a, T, A> {
    /// The capability tag of this accessor.
    pub fn access(&self) -> A {
        self.access
    }

    /// Projects this accessor onto a part of the value it views (a field, for
    /// instance), keeping its tag.
    ///
    /// `f` must only compute where the part lies; it must not read through the
    /// reference that it receives.
    pub fn map<F, U: ?Sized>(self, f: F) -> (r: VolatileRef<'a, U, A>) where
        F: FnOnce(&'a T) -> &'a U,

        requires
            f.requires((self.target(),)),
        ensures
            f.ensures((self.target(),), r.target()),
    {
        VolatileRef { value: f(self.value), access: self.access }
    }
}

impl<'a, T: Copy, A: Readable> VolatileRef<'a, T, A> {
    /// Reads the value once and returns a copy of it.
    pub fn read(&self) -> (r: T)
        ensures
            r == *self.target(),
    {
        *self.value
    }
}

impl<'a, T, A: Copy> VolatileRef<'a, [T], A> {
    /// The number of elements in the viewed slice.
    pub fn len(&self) -> (r: usize)
        ensures
            r == self.target()@.len(),
    {
        self.value.len()
    }

    /// Whether the viewed slice has no elements.
    pub fn is_empty(&self) -> (r: bool)
        ensures
            r == (self.target()@.len() == 0),
    {
        self.value.len() == 0
    }

    /// An accessor over the element at `index`, with the same tag.
    pub fn index(self, index: usize) -> (r: VolatileRef<'a, T, A>)
        requires
            index < self.target()@.len(),
        ensures
            *r.target() == self.target()@[index as int],
    {
        VolatileRef { value: &self.value[index], access: self.access }
    }

    /// An accessor over the elements in `range`, with the same tag.
    pub fn index_range(self, range: Range<usize>) -> (r: VolatileRef<'a, [T], A>)
        requires
            range.start <= range.end <= self.target()@.len(),
        ensures
            r.target()@ == self.target()@.subrange(range.start as int, range.end as int),
    {
        VolatileRef { value: &self.value[range], access: self.access }
    }

    /// Splits the viewed slice in two at `mid`: the elements before `mid`,
    /// and the elements from `mid` on.
    pub fn split_at(self, mid: usize) -> (r: (VolatileRef<'a, [T], A>, VolatileRef<'a, [T], A>))
        requires
            mid <= self.target()@.len(),
        ensures
            split_parts(self.target()@, mid as int, r.0.target()@, r.1.target()@),
    {
        let (left, right) = self.value.split_at(mid);
        (VolatileRef { value: left, access: self.access }, VolatileRef {
            value: right,
            access: self.access,
        })
    }

    /// Groups the viewed slice into arrays of `N` elements from the start,
    /// and returns them together with the elements left over.
    pub fn as_chunks<const N: usize>(self) -> (r: (
        VolatileRef<'a, [[T; N]], A>,
        VolatileRef<'a, [T], A>,
    ))
        requires
            N > 0,
        ensures
            chunked(self.target()@, r.0.target()@, r.1.target()@),
    {
        let (chunks, rest) = slice_as_chunks::<T, N>(self.value);
        (VolatileRef { value: chunks, access: self.access }, VolatileRef {
            value: rest,
            access: self.access,
        })
    }

    /// One accessor per element, in order, each with the same tag.
    pub fn iter(self) -> (r: Vec<VolatileRef<'a, T, A>>)
        ensures
            r@.len() == self.target()@.len(),
            forall|i: int| 0 <= i < r@.len() ==> *(#[trigger] r@[i]).target() == self.target()@[i],
    {
        let mut out: Vec<VolatileRef<'a, T, A>> = Vec::new();
        let len = self.value.len();
        let mut i: usize = 0;
        while i < len
            invariant
                len == self.target()@.len(),
                i <= len,
                out@.len() == i,
                forall|j: int| 0 <= j < i ==> *(#[trigger] out@[j]).target() == self.target()@[j],
            decreases len - i,
        {
            out.push(VolatileRef { value: &self.value[i], access: self.access });
            i = i + 1;
        }
        out
    }
}

impl<'a, T: Copy, A: Readable> VolatileRef<'a, [T], A> {
    /// Copies every element of the viewed slice into `dst`, reading each
    /// element once. `dst` must have the same length.
    pub fn copy_into_slice(&self, dst: &mut [T])
        requires
            old(dst)@.len() == self.target()@.len(),
        ensures
            final(dst)@ == self.target()@,
    {
        let len = self.value.len();
        let mut i: usize = 0;
        while i < len
            invariant
                len == self.target()@.len(),
                dst@.len() == len,
                i <= len,
                forall|j: int| 0 <= j < i ==> dst@[j] == self.target()@[j],
            decreases len - i,
        {
            dst[i] = self.value[i];
            i = i + 1;
        }
        assert(dst@ =~= self.target()@);
    }
}

impl<'a, T, A: Copy, const N: usize> VolatileRef<'a, [T; N], A> {
    /// The same array viewed as a slice, with the same tag.
    pub fn as_slice(self) -> (r: VolatileRef<'a, [T], A>)
        ensures
            r.target()@ == self.target()@,
    {
        let s: &'a [T] = self.value;
        VolatileRef { value: s, access: self.access }
    }
}

/// Relies on `<[T]>::as_chunks`: it splits a slice into `len / N` arrays of
/// `N` consecutive elements from the start, followed by the remaining
/// `len % N` elements; it panics if `N` is zero.
#[verifier::external_body]
fn slice_as_chunks<'a, T, const N: usize>(s: &'a [T]) -> (r: (&'a [[T; N]], &'a [T]))
    requires
        N > 0,
    ensures
        chunked(s@, r.0@, r.1@),
{
    s.as_chunks::<N>()
}

} // verus!
