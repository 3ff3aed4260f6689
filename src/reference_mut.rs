//! The exclusive accessor: reads and writes as its tag permits, and hands out
//! narrowed shared views and exclusive sub-accessors.
use core::ops::Range;
use vstd::prelude::*;

use crate::access::{Access, ReadOnly, ReadWrite, Readable, Writable, WriteOnly};
use crate::slices::{chunked, copied_within, flatten, split_parts};
use crate::reference::VolatileRef;

verus! {

/// An exclusive volatile accessor over a value of type `T` (or a slice `[T]`).
///
/// It holds the exclusive borrow of the memory it views for `'a`, so two
/// exclusive accessors over the same memory cannot coexist. The capability
/// tag `A` decides which of read, write and update it offers.
///
/// In contracts, `target()` is the borrow it holds: `*target()` is what the
/// memory holds now, and `*final(target())` what it holds when the borrow ends.
/// Methods that take `&mut self` keep that borrow, which their contracts state
/// as `*final(final(self).target()) == *final(old(self).target())`.
pub struct VolatileRefMut<'a, T: ?Sized, A = ReadWrite> {
    value: &'a mut T,
    access: A,
}

impl<'a, T: ?Sized, A> VolatileRefMut<'a, T, A> {
    /// The exclusive borrow of the memory this accessor views.
    pub closed spec fn target(self) -> &'a mut T {
        self.value
    }
}

/// Once an accessor is used no more, the memory it viewed holds what the
/// accessor last saw there.
pub proof fn lemma_resolved<'a, T: ?Sized, A>(r: VolatileRefMut<'a, T, A>)
    requires
        has_resolved(r),
    ensures
        &*final(r.target()) == &*r.target(),
{
}

impl<'a, T: ?Sized> VolatileRefMut<'a, T, ReadWrite> {
    /// Constructs a read-write accessor over the value behind `value`.
    pub fn new(value: &'a mut T) -> (r: VolatileRefMut<'a, T, ReadWrite>)
        ensures
            &*r.target() == &*old(value),
            &*final(r.target()) == &*final(value),
    {
        VolatileRefMut { value, access: ReadWrite }
    }
}

impl<'a, T: ?Sized, A: Access> VolatileRefMut<'a, T, A> {
    /// Constructs an accessor over the value behind `value` whose operations
    /// are those that `access` permits.
    pub fn new_restricted(access: A, value: &'a mut T) -> (r: VolatileRefMut<'a, T, A>)
        ensures
            &*r.target() == &*old(value),
            &*final(r.target()) == &*final(value),
    {
        VolatileRefMut { value, access }
    }

    /// The capability tag of this accessor.
    pub fn access(&self) -> A {
        self.access
    }

    /// A shared view of the same memory, with the tag narrowed for sharing.
    pub fn borrow<'b>(&'b self) -> (r: VolatileRef<'b, T, A::RestrictShared>)
        ensures
            &*r.target() == &*self.target(),
    {
        VolatileRef::from_parts(&*self.value, self.access.restrict_shared())
    }

    /// A short-lived exclusive accessor over the same memory, with the same tag.
    pub fn borrow_mut<'b>(&'b mut self) -> (r: VolatileRefMut<'b, T, A>)
        ensures
            &*r.target() == &*old(self).target(),
            &*final(self).target() == &*final(r.target()),
            &*final(final(self).target()) == &*final(old(self).target()),
    {
        VolatileRefMut { value: &mut *self.value, access: self.access }
    }

    /// A shared projection onto a part of the viewed value (a field, for
    /// instance), with the tag narrowed for sharing.
    ///
    /// `f` must only compute where the part lies; it must not read through the
    /// reference that it receives.
    pub fn map<'b, F, U: ?Sized>(&'b self, f: F) -> (r: VolatileRef<'b, U, A::RestrictShared>) where
        F: FnOnce(&'b T) -> &'b U,

        requires
            f.requires((&*self.target(),)),
        ensures
            f.ensures((&*self.target(),), r.target()),
    {
        let shared: &'b T = &*self.value;
        VolatileRef::from_parts(f(shared), self.access.restrict_shared())
    }

    /// An exclusive projection onto a part of the viewed value (a field, for
    /// instance), with the same tag.
    ///
    /// `f` is called once, on a borrow that stands for this accessor's whole
    /// borrow, and the result views what `f` returns. `f` must only compute
    /// where the part lies; it must not read or write through the reference
    /// that it receives.
    pub fn map_mut<F, U: ?Sized>(self, f: F) -> (r: VolatileRefMut<'a, U, A>) where
        F: FnOnce(&'a mut T) -> &'a mut U,

        requires
            forall|arg: &'a mut T| &*arg == &*self.target() ==> f.requires((arg,)),
        ensures
            exists|arg: &'a mut T, out: &'a mut U|
                {
                    &&& &*arg == &*self.target()
                    &&& &*final(arg) == &*final(self.target())
                    &&& f.ensures((arg,), out)
                    &&& &*out == &*r.target()
                    &&& &*final(out) == &*final(r.target())
                },
    {
        let VolatileRefMut { value, access } = self;
        let projected = project(value, f);
        VolatileRefMut { value: projected, access }
    }
}

impl<'a, T: ?Sized> VolatileRefMut<'a, T, ReadWrite> {
    /// The same accessor, restricted to reads.
    pub fn read_only(self) -> (r: VolatileRefMut<'a, T, ReadOnly>)
        ensures
            &*r.target() == &*self.target(),
            &*final(r.target()) == &*final(self.target()),
    {
        VolatileRefMut { value: self.value, access: ReadOnly }
    }

    /// The same accessor, restricted to writes.
    pub fn write_only(self) -> (r: VolatileRefMut<'a, T, WriteOnly>)
        ensures
            &*r.target() == &*self.target(),
            &*final(r.target()) == &*final(self.target()),
    {
        VolatileRefMut { value: self.value, access: WriteOnly }
    }
}

impl<'a, T: Copy, A> VolatileRefMut<'a, T, A> {
    /// Reads the value once and returns a copy of it.
    pub fn read(&self) -> (r: T) where A: Readable
        ensures
            r == *self.target(),
    {
        *self.value
    }

    /// Writes `value` once.
    pub fn write(&mut self, value: T) where A: Writable
        ensures
            *final(self).target() == value,
            *final(final(self).target()) == *final(old(self).target()),
    {
        *self.value = value;
    }

    /// Reads the value once, passes it to `f`, and writes what `f` returns
    /// once. The read and the write are two separate accesses: nothing makes
    /// the pair atomic.
    pub fn update<F>(&mut self, f: F) where A: Readable + Writable, F: FnOnce(T) -> T
        requires
            f.requires((*old(self).target(),)),
        ensures
            f.ensures((*old(self).target(),), *final(self).target()),
            *final(final(self).target()) == *final(old(self).target()),
    {
        let new = f(self.read());
        self.write(new);
    }
}

impl<'a, T, A: Access> VolatileRefMut<'a, [T], A> {
    /// The number of elements in the viewed slice.
    pub fn len(&self) -> (r: usize)
        ensures
            r == self.target()@.len(),
    {
        self.value.len()
    }

    /// Whether the viewed slice has no elements.
    pub fn is_empty(&self) -> (r: bool)
        ensures
            r == (self.target()@.len() == 0),
    {
        self.value.len() == 0
    }

    /// A shared accessor over the element at `index`, with the tag narrowed
    /// for sharing.
    pub fn index<'b>(&'b self, index: usize) -> (r: VolatileRef<'b, T, A::RestrictShared>)
        requires
            index < self.target()@.len(),
        ensures
            *r.target() == self.target()@[index as int],
    {
        VolatileRef::from_parts(&self.value[index], self.access.restrict_shared())
    }

    /// An exclusive accessor over the element at `index`, with the same tag.
    pub fn index_mut<'b>(&'b mut self, index: usize) -> (r: VolatileRefMut<'b, T, A>)
        requires
            index < old(self).target()@.len(),
        ensures
            *r.target() == old(self).target()@[index as int],
            final(self).target()@ == old(self).target()@.update(index as int, *final(r.target())),
            final(final(self).target())@ == final(old(self).target())@,
    {
        let (_, tail) = self.value.split_at_mut(index);
        let element = tail.first_mut().unwrap();
        VolatileRefMut { value: element, access: self.access }
    }

    /// A shared accessor over the elements in `range`, with the tag narrowed
    /// for sharing.
    pub fn index_range<'b>(&'b self, range: Range<usize>) -> (r: VolatileRef<'b, [T], A::RestrictShared>)
        requires
            range.start <= range.end <= self.target()@.len(),
        ensures
            r.target()@ == self.target()@.subrange(range.start as int, range.end as int),
    {
        VolatileRef::from_parts(&self.value[range], self.access.restrict_shared())
    }

    /// An exclusive accessor over the elements in `range`, with the same tag.
    pub fn index_range_mut<'b>(&'b mut self, range: Range<usize>) -> (r: VolatileRefMut<'b, [T], A>)
        requires
            range.start <= range.end <= old(self).target()@.len(),
        ensures
            r.target()@ == old(self).target()@.subrange(range.start as int, range.end as int),
            final(self).target()@ == old(self).target()@.subrange(0, range.start as int)
                + final(r.target())@ + old(self).target()@.subrange(
                range.end as int,
                old(self).target()@.len() as int,
            ),
            final(final(self).target())@ == final(old(self).target())@,
    {
        let (head, _) = self.value.split_at_mut(range.end);
        let (_, middle) = head.split_at_mut(range.start);
        VolatileRefMut { value: middle, access: self.access }
    }

    /// Splits the viewed slice in two shared accessors at `mid`, with the tag
    /// narrowed for sharing.
    pub fn split_at<'b>(&'b self, mid: usize) -> (r: (
        VolatileRef<'b, [T], A::RestrictShared>,
        VolatileRef<'b, [T], A::RestrictShared>,
    ))
        requires
            mid <= self.target()@.len(),
        ensures
            split_parts(self.target()@, mid as int, r.0.target()@, r.1.target()@),
    {
        let (left, right) = self.value.split_at(mid);
        let access = self.access.restrict_shared();
        (VolatileRef::from_parts(left, access), VolatileRef::from_parts(right, access))
    }

    /// Splits this accessor in two exclusive accessors at `mid`, with the
    /// same tag: the elements before `mid`, and the elements from `mid` on.
    /// The two do not overlap, so they may be handed to separate users.
    pub fn split_at_mut(self, mid: usize) -> (r: (VolatileRefMut<'a, [T], A>, VolatileRefMut<'a, [T], A>))
        requires
            mid <= self.target()@.len(),
        ensures
            split_parts(self.target()@, mid as int, r.0.target()@, r.1.target()@),
            final(self.target())@ == final(r.0.target())@ + final(r.1.target())@,
    {
        let VolatileRefMut { value, access } = self;
        let (left, right) = value.split_at_mut(mid);
        (VolatileRefMut { value: left, access }, VolatileRefMut { value: right, access })
    }

    /// Groups the viewed slice into shared accessors over arrays of `N`
    /// elements from the start, and the elements left over, with the tag
    /// narrowed for sharing.
    pub fn as_chunks<'b, const N: usize>(&'b self) -> (r: (
        VolatileRef<'b, [[T; N]], A::RestrictShared>,
        VolatileRef<'b, [T], A::RestrictShared>,
    ))
        requires
            N > 0,
        ensures
            chunked(self.target()@, r.0.target()@, r.1.target()@),
    {
        self.borrow().as_chunks::<N>()
    }

    /// Groups this accessor into an exclusive accessor over arrays of `N`
    /// elements from the start, and one over the elements left over, with
    /// the same tag.
    pub fn as_chunks_mut<const N: usize>(self) -> (r: (
        VolatileRefMut<'a, [[T; N]], A>,
        VolatileRefMut<'a, [T], A>,
    ))
        requires
            N > 0,
        ensures
            chunked(self.target()@, r.0.target()@, r.1.target()@),
            final(self.target())@ == flatten(final(r.0.target())@) + final(r.1.target())@,
    {
        let VolatileRefMut { value, access } = self;
        let (chunks, rest) = slice_as_chunks_mut::<T, N>(value);
        (VolatileRefMut { value: chunks, access }, VolatileRefMut { value: rest, access })
    }

    /// Shared accessors over each element, in order, with the tag narrowed
    /// for sharing.
    pub fn iter<'b>(&'b self) -> (r: Vec<VolatileRef<'b, T, A::RestrictShared>>)
        ensures
            r@.len() == self.target()@.len(),
            forall|i: int| 0 <= i < r@.len() ==> *(#[trigger] r@[i]).target() == self.target()@[i],
    {
        self.borrow().iter()
    }
}

impl<'a, T, A: Copy> VolatileRefMut<'a, [T], A> {
    /// Splits this accessor into exclusive accessors over each element, in
    /// order, each with the same tag.
    pub fn iter_mut(self) -> (r: Vec<VolatileRefMut<'a, T, A>>)
        ensures
            r@.len() == self.target()@.len(),
            forall|i: int| 0 <= i < r@.len() ==> *(#[trigger] r@[i]).target() == self.target()@[i],
            final(self.target())@ == Seq::new(r@.len(), |i: int| *final(r@[i].target())),
    {
        let ghost whole = self.target()@;
        let VolatileRefMut { value, access } = self;
        let len = value.len();
        let mut rest: &'a mut [T] = value;
        let mut out: Vec<VolatileRefMut<'a, T, A>> = Vec::new();
        while rest.len() > 0
            invariant
                len == whole.len(),
                out@.len() + rest@.len() == len,
                forall|i: int| 0 <= i < out@.len() ==> *(#[trigger] out@[i]).target() == whole[i],
                rest@ == whole.subrange(out@.len() as int, len as int),
                final(self.target())@ == Seq::new(out@.len(), |i: int| *final(out@[i].target()))
                    + final(rest)@,
            decreases rest@.len(),
        {
            let (head, tail) = rest.split_at_mut(1);
            let element = head.first_mut().unwrap();
            out.push(VolatileRefMut { value: element, access });
            rest = tail;
        }
        out
    }
}

impl<'a, T: Copy, A: Readable> VolatileRefMut<'a, [T], A> {
    /// Copies every element of the viewed slice into `dst`, reading each
    /// element once. `dst` must have the same length.
    pub fn copy_into_slice(&self, dst: &mut [T])
        requires
            old(dst)@.len() == self.target()@.len(),
        ensures
            final(dst)@ == self.target()@,
    {
        let len = self.value.len();
        let mut i: usize = 0;
        while i < len
            invariant
                len == self.target()@.len(),
                dst@.len() == len,
                i <= len,
                forall|j: int| 0 <= j < i ==> dst@[j] == self.target()@[j],
            decreases len - i,
        {
            dst[i] = self.value[i];
            i = i + 1;
        }
        assert(dst@ =~= self.target()@);
    }
}

impl<'a, T: Copy, A: Writable> VolatileRefMut<'a, [T], A> {
    /// Copies every element of `src` into the viewed slice, writing each
    /// element once. `src` must have the same length.
    pub fn copy_from_slice(&mut self, src: &[T])
        requires
            src@.len() == old(self).target()@.len(),
        ensures
            final(self).target()@ == src@,
            final(final(self).target())@ == final(old(self).target())@,
    {
        let len = self.value.len();
        let mut i: usize = 0;
        while i < len
            invariant
                len == src@.len(),
                self.target()@.len() == len,
                i <= len,
                forall|j: int| 0 <= j < i ==> self.target()@[j] == src@[j],
                final(self.target())@ == final(old(self).target())@,
            decreases len - i,
        {
            self.value[i] = src[i];
            i = i + 1;
        }
        assert(self.target()@ =~= src@);
    }
}

impl<'a, T: Copy, A: Readable + Writable> VolatileRefMut<'a, [T], A> {
    /// Copies the elements in `src` to the positions from `dest` on, within
    /// the viewed slice; the two ranges may overlap. Each element is read
    /// once and written once, in an order that never reads a position after
    /// writing it.
    pub fn copy_within(&mut self, src: Range<usize>, dest: usize)
        requires
            src.start <= src.end <= old(self).target()@.len(),
            dest <= old(self).target()@.len() - (src.end - src.start),
        ensures
            final(self).target()@ == copied_within(
                old(self).target()@,
                src.start as int,
                src.end as int,
                dest as int,
            ),
            final(final(self).target())@ == final(old(self).target())@,
    {
        let ghost before = self.target()@;
        let len = self.value.len();
        let start = src.start;
        let count = src.end - src.start;
        if dest <= start {
            let mut k: usize = 0;
            while k < count
                invariant
                    len == before.len(),
                    start + count <= len,
                    dest <= start,
                    k <= count,
                    self.target()@.len() == len,
                    forall|j: int|
                        0 <= j < len ==> #[trigger] self.target()@[j] == if dest <= j < dest + k {
                            before[start + (j - dest)]
                        } else {
                            before[j]
                        },
                    final(self.target())@ == final(old(self).target())@,
                decreases count - k,
            {
                let v = self.value[start + k];
                self.value[dest + k] = v;
                k = k + 1;
            }
        } else {
            let mut k: usize = count;
            while k > 0
                invariant
                    len == before.len(),
                    start + count <= len,
                    dest + count <= len,
                    start < dest,
                    k <= count,
                    self.target()@.len() == len,
                    forall|j: int|
                        0 <= j < len ==> #[trigger] self.target()@[j] == if dest + k <= j < dest
                            + count {
                            before[start + (j - dest)]
                        } else {
                            before[j]
                        },
                    final(self.target())@ == final(old(self).target())@,
                decreases k,
            {
                k = k - 1;
                let v = self.value[start + k];
                self.value[dest + k] = v;
            }
        }
        assert(self.target()@ =~= copied_within(before, start as int, src.end as int, dest as int));
    }
}

impl<'a, A: Writable> VolatileRefMut<'a, [u8], A> {
    /// Writes `value` to every byte of the viewed slice, once each.
    pub fn fill(&mut self, value: u8)
        ensures
            final(self).target()@ == Seq::new(old(self).target()@.len(), |_j: int| value),
            final(final(self).target())@ == final(old(self).target())@,
    {
        let len = self.value.len();
        let mut i: usize = 0;
        while i < len
            invariant
                self.target()@.len() == len,
                len == old(self).target()@.len(),
                i <= len,
                forall|j: int| 0 <= j < i ==> self.target()@[j] == value,
                final(self.target())@ == final(old(self).target())@,
            decreases len - i,
        {
            self.value[i] = value;
            i = i + 1;
        }
        assert(self.target()@ =~= Seq::new(len as nat, |_j: int| value));
    }
}

impl<'a, T, A: Access, const N: usize> VolatileRefMut<'a, [T; N], A> {
    /// A shared accessor over the same array viewed as a slice, with the tag
    /// narrowed for sharing.
    pub fn as_slice<'b>(&'b self) -> (r: VolatileRef<'b, [T], A::RestrictShared>)
        ensures
            r.target()@ == self.target()@,
    {
        self.borrow().as_slice()
    }

    /// The same accessor with the array viewed as a slice, with the same tag.
    pub fn as_slice_mut(self) -> (r: VolatileRefMut<'a, [T], A>)
        ensures
            r.target()@ == self.target()@,
            final(r.target())@ == final(self.target())@,
    {
        let VolatileRefMut { value, access } = self;
        let s: &'a mut [T] = value;
        VolatileRefMut { value: s, access }
    }
}

/// Relies on `<[T]>::as_chunks_mut`: it splits a slice into `len / N` arrays
/// of `N` consecutive elements from the start, followed by the remaining
/// `len % N` elements, both parts borrowing those very elements; it panics if
/// `N` is zero.
#[verifier::external_body]
fn slice_as_chunks_mut<'a, T, const N: usize>(s: &'a mut [T]) -> (r: (&'a mut [[T; N]], &'a mut [T]))
    requires
        N > 0,
    ensures
        chunked(old(s)@, r.0@, r.1@),
        final(s)@ == flatten(final(r.0)@) + final(r.1)@,
{
    s.as_chunks_mut::<N>()
}

/// Calls `f` once on `value`, which it receives as a fresh borrow standing for
/// the whole of `value`.
fn project<'a, T: ?Sized, U: ?Sized, F: FnOnce(&'a mut T) -> &'a mut U>(value: &'a mut T, f: F) -> (r:
    &'a mut U)
    requires
        forall|arg: &'a mut T| &*arg == &*value ==> f.requires((arg,)),
    ensures
        exists|arg: &'a mut T|
            {
                &&& &*arg == &*old(value)
                &&& &*final(arg) == &*final(value)
                &&& f.ensures((arg,), r)
            },
{
    f(value)
}

} // verus!
