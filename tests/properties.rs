use volatile::access::{NoAccess, ReadOnly, ReadWrite, WriteOnly};
use volatile::{Access, VolatileCell, VolatileRef, VolatileRefMut};

#[test]
fn round_trip_random_values() {
    let mut val: i64 = 0;
    for _ in 0..64 {
        let v: i64 = rand::random();
        let mut volatile = VolatileRefMut::new(&mut val);
        volatile.write(v);
        assert_eq!(volatile.read(), v);
    }
    let mut cell = VolatileCell::new(0u16);
    for _ in 0..64 {
        let v: u16 = rand::random();
        cell.write(v);
        assert_eq!(cell.read(), v);
    }
}

#[test]
fn update_matches_write_of_read() {
    let mut a: u32 = 21;
    let mut b: u32 = 21;
    VolatileRefMut::new(&mut a).update(|v| v * 2 + 1);
    let mut vb = VolatileRefMut::new(&mut b);
    let old = vb.read();
    vb.write(old * 2 + 1);
    assert_eq!(a, b);
    assert_eq!(a, 43);
}

#[test]
fn restricting_for_sharing() {
    let _: ReadOnly = ReadWrite.restrict_shared();
    let _: ReadOnly = ReadOnly.restrict_shared();
    let _: NoAccess = WriteOnly.restrict_shared();
    let _: NoAccess = NoAccess.restrict_shared();

    let mut val = 9u8;
    let volatile = VolatileRefMut::new(&mut val);
    let shared: VolatileRef<'_, u8, ReadOnly> = volatile.borrow();
    assert_eq!(shared.read(), 9);
    let write_only = volatile.write_only();
    let _: VolatileRef<'_, u8, NoAccess> = write_only.borrow();
}

#[test]
fn downgrades_keep_the_memory() {
    let mut val = 3u32;
    VolatileRefMut::new(&mut val).write_only().write(8);
    assert_eq!(VolatileRefMut::new(&mut val).read_only().read(), 8);
    let _: ReadOnly = VolatileRefMut::new(&mut val).read_only().access();
}

#[test]
fn index_aliases_the_element() {
    let mut val = [10u16, 20, 30, 40];
    let mut volatile = VolatileRefMut::new(&mut val[..]);
    for i in 0..4 {
        volatile.index_mut(i).write(100 + i as u16);
        assert_eq!(volatile.index(i).read(), 100 + i as u16);
    }
    assert_eq!(val, [100, 101, 102, 103]);
}

#[test]
fn index_ranges() {
    let val = [1u8, 2, 3, 4, 5];
    let shared = VolatileRef::new(&val[..]);
    let middle = shared.index_range(1..4);
    assert_eq!(middle.len(), 3);
    assert_eq!(middle.index(0).read(), 2);
    assert!(shared.index_range(2..2).is_empty());

    let mut val = [1u8, 2, 3, 4, 5];
    let mut volatile = VolatileRefMut::new(&mut val[..]);
    volatile.index_range_mut(1..3).fill(0);
    assert_eq!(volatile.index_range(0..5).index(4).read(), 5);
    assert_eq!(val, [1, 0, 0, 4, 5]);
}

#[test]
fn split_lengths_and_contents() {
    let val = [1u32, 2, 3, 4, 5];
    let shared = VolatileRef::new(&val[..]);
    for mid in 0..=5 {
        let (left, right) = shared.split_at(mid);
        assert_eq!(left.len(), mid);
        assert_eq!(right.len(), 5 - mid);
        let mut joined = vec![0u32; 5];
        left.copy_into_slice(&mut joined[..mid]);
        right.copy_into_slice(&mut joined[mid..]);
        assert_eq!(joined, val);
    }
}

#[test]
fn split_mut_parts_are_independent() {
    let mut val = [0u8; 6];
    let volatile = VolatileRefMut::new(&mut val[..]);
    let (mut left, mut right) = volatile.split_at_mut(2);
    left.fill(1);
    right.fill(2);
    assert_eq!(val, [1, 1, 2, 2, 2, 2]);
}

#[test]
fn split_of_empty_slice() {
    let val: [u8; 0] = [];
    let (left, right) = VolatileRef::new(&val[..]).split_at(0);
    assert!(left.is_empty());
    assert!(right.is_empty());
}

#[test]
fn chunk_counts_and_reconstruction() {
    let val = [1u8, 2, 3, 4, 5, 6, 7];
    let shared = VolatileRef::new(&val[..]);
    let (chunks, rest) = shared.as_chunks::<3>();
    assert_eq!(chunks.len(), 7 / 3);
    assert_eq!(rest.len(), 7 % 3);
    let mut joined = Vec::new();
    for chunk in chunks.iter() {
        joined.extend_from_slice(&chunk.read());
    }
    for element in rest.iter() {
        joined.push(element.read());
    }
    assert_eq!(joined, val);

    let (ones, none) = shared.as_chunks::<1>();
    assert_eq!(ones.len(), 7);
    assert!(none.is_empty());

    let (too_big, all) = shared.as_chunks::<8>();
    assert!(too_big.is_empty());
    assert_eq!(all.len(), 7);
}

#[test]
fn chunks_mut_write_through() {
    let mut val = [0u16; 5];
    let volatile = VolatileRefMut::new(&mut val[..]);
    let (mut chunks, mut rest) = volatile.as_chunks_mut::<2>();
    chunks.index_mut(0).write([1, 2]);
    chunks.index_mut(1).write([3, 4]);
    rest.index_mut(0).write(5);
    assert_eq!(val, [1, 2, 3, 4, 5]);
}

#[test]
fn chunks_of_an_exclusive_accessor() {
    let mut val = [1u8, 2, 3, 4];
    let volatile = VolatileRefMut::new(&mut val[..]);
    let (chunks, rest) = volatile.as_chunks::<2>();
    assert_eq!(chunks.index(1).read(), [3, 4]);
    assert!(rest.is_empty());
}

#[test]
fn copy_from_slice_writes_every_element() {
    let mut val = [0i32; 4];
    VolatileRefMut::new(&mut val[..]).copy_from_slice(&[4, 3, 2, 1]);
    assert_eq!(val, [4, 3, 2, 1]);
}

#[test]
fn copy_within_forward_overlap() {
    let mut val = [1u8, 2, 3, 4, 5, 6];
    VolatileRefMut::new(&mut val[..]).copy_within(2..6, 0);
    assert_eq!(val, [3, 4, 5, 6, 5, 6]);
}

#[test]
fn copy_within_backward_overlap() {
    let mut val = [1u8, 2, 3, 4, 5, 6];
    VolatileRefMut::new(&mut val[..]).copy_within(0..4, 2);
    assert_eq!(val, [1, 2, 1, 2, 3, 4]);
}

#[test]
fn copy_within_disjoint_and_empty() {
    let mut val = [1u8, 2, 3, 4];
    VolatileRefMut::new(&mut val[..]).copy_within(0..2, 2);
    assert_eq!(val, [1, 2, 1, 2]);
    VolatileRefMut::new(&mut val[..]).copy_within(1..1, 4);
    assert_eq!(val, [1, 2, 1, 2]);
}

#[test]
fn fill_sets_every_byte() {
    let mut val = [0u8; 5];
    VolatileRefMut::new(&mut val[..]).fill(0xAB);
    assert_eq!(val, [0xAB; 5]);
}

#[test]
fn iter_yields_each_element() {
    let mut val = [7u8, 8, 9];
    let volatile = VolatileRefMut::new(&mut val[..]);
    let values: Vec<u8> = volatile.iter().iter().map(|e| e.read()).collect();
    assert_eq!(values, vec![7, 8, 9]);
    assert_eq!(volatile.iter().len(), 3);
}

#[test]
fn arrays_as_slices() {
    let mut val = [5u8, 6, 7];
    let mut volatile = VolatileRefMut::new(&mut val);
    assert_eq!(volatile.as_slice().len(), 3);
    assert_eq!(volatile.borrow().as_slice().index(2).read(), 7);
    volatile.borrow_mut().as_slice_mut().index_mut(0).write(1);
    assert_eq!(val, [1, 6, 7]);
}

#[test]
fn shared_projection_reads_a_field() {
    let pair = (3u8, 4u16);
    let shared = VolatileRef::new(&pair);
    assert_eq!(shared.map(|p: &(u8, u16)| &p.1).read(), 4);

    let mut pair = (3u8, 4u16);
    let volatile = VolatileRefMut::new(&mut pair);
    let field: VolatileRef<'_, u8, ReadOnly> = volatile.map(|p: &(u8, u16)| &p.0);
    assert_eq!(field.read(), 3);
}

#[test]
fn shared_accessors_copy() {
    let val = 11u64;
    let a = VolatileRef::new(&val);
    let b = a;
    let c = a.clone();
    assert_eq!(a.read() + b.read() + c.read(), 33);
    let _: ReadOnly = a.access();
}

#[test]
fn iter_mut_hands_out_every_element() {
    let mut val = [1u32, 2, 3, 4];
    let volatile = VolatileRefMut::new(&mut val[..]);
    for (i, mut element) in volatile.iter_mut().into_iter().enumerate() {
        element.update(|v| v * 10 + i as u32);
    }
    assert_eq!(val, [10, 21, 32, 43]);

    let mut empty: [u32; 0] = [];
    assert!(VolatileRefMut::new(&mut empty[..]).iter_mut().is_empty());
}

#[test]
fn cell_clone_copies_the_value() {
    let cell = VolatileCell::new_restricted(ReadOnly, 17u8);
    let copy = cell.clone();
    assert_eq!(copy.read(), 17);
    let _: ReadOnly = copy.access();
}
