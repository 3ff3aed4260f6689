//! Laws that relate the read, write and update operations of the accessors.
//!
//! Each is stated over the same terms as the operations' own contracts: the
//! value an accessor views (`*target()`, or `@` for a cell) and the
//! postcondition of the function handed to `update`.
use vstd::prelude::*;

use crate::cell::VolatileCell;
use crate::reference_mut::VolatileRefMut;

verus! {

/// A read after a write of `v` returns `v`: `write` leaves `v` as the viewed
/// value, and `read` returns the viewed value.
pub proof fn lemma_write_then_read<'a, T, A>(after_write: VolatileRefMut<'a, T, A>, v: T, read: T)
    requires
        *after_write.target() == v,
        read == *after_write.target(),
    ensures
        read == v,
{
}

/// The same round trip on a cell: a read after a write of `v` returns `v`.
pub proof fn lemma_cell_write_then_read<T, A>(after_write: VolatileCell<T, A>, v: T, read: T)
    requires
        after_write@ == v,
        read == after_write@,
    ensures
        read == v,
{
}

/// Updating with a function `f` that computes `g` leaves the value that a
/// read followed by a write of `g` of what was read leaves: `g(before)`.
pub proof fn lemma_update_is_write_of_read<T, F: FnOnce(T) -> T>(
    f: F,
    g: spec_fn(T) -> T,
    before: T,
    after_update: T,
)
    requires
        forall|x: T, y: T| f.ensures((x,), y) ==> y == g(x),
        f.ensures((before,), after_update),
    ensures
        after_update == g(before),
{
}

} // verus!
