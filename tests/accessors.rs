use volatile::access::{ReadOnly, ReadWrite, WriteOnly};
use volatile::{VolatileRef, VolatileRefMut};

#[derive(Debug, PartialEq)]
struct S {
    field_1: u32,
    field_2: bool,
}

#[test]
fn foo_test_read() {
    assert_eq!(VolatileRef::new(&42).read(), 42);
}

#[test]
fn foo_test_write() {
    let mut val = 50;
    let mut volatile = VolatileRefMut::new(&mut val);
    volatile.write(50);
    assert_eq!(val, 50);
}

#[test]
fn foo_test_update() {
    let mut val = 42;
    let mut volatile = VolatileRefMut::new(&mut val);
    volatile.update(|v| v + 1);
    assert_eq!(val, 43);
}

#[test]
fn foo_test_slice() {
    let mut val = [1, 2, 3];
    let mut volatile = VolatileRefMut::new(&mut val[..]);
    volatile.index_mut(0).update(|v| v + 1);
    assert_eq!(val, [2, 2, 3]);
}

#[test]
fn tests_test_read() {
    let val = 42;
    assert_eq!(VolatileRef::new(&val).read(), 42);
}

#[test]
fn tests_test_write() {
    let mut val = 50;
    let mut volatile = VolatileRefMut::new(&mut val);
    volatile.write(50);
    assert_eq!(val, 50);
}

#[test]
fn tests_test_update() {
    let mut val = 42;
    let mut volatile = VolatileRefMut::new(&mut val);
    volatile.update(|v| v + 1);
    assert_eq!(val, 43);
}

#[test]
fn tests_test_access() {
    let mut val: i64 = 42;

    // ReadWrite
    assert_eq!(VolatileRefMut::new_restricted(ReadWrite, &mut val).read(), 42);
    VolatileRefMut::new_restricted(ReadWrite, &mut val).write(50);
    assert_eq!(val, 50);
    VolatileRefMut::new_restricted(ReadWrite, &mut val).update(|i| i + 1);
    assert_eq!(val, 51);

    // ReadOnly and WriteOnly
    assert_eq!(VolatileRefMut::new_restricted(ReadOnly, &mut val).read(), 51);
    VolatileRefMut::new_restricted(WriteOnly, &mut val).write(12);
    assert_eq!(val, 12);
}

#[test]
fn tests_test_struct() {
    let mut val = S {
        field_1: 60,
        field_2: true,
    };
    let mut volatile = VolatileRefMut::new(&mut val);
    volatile
        .borrow_mut()
        .map_mut(|s: &mut S| &mut s.field_1)
        .update(|v| v + 1);
    let mut field_2 = volatile.map_mut(|s: &mut S| &mut s.field_2);
    assert!(field_2.read());
    field_2.write(false);
    assert_eq!(
        val,
        S {
            field_1: 61,
            field_2: false
        }
    );
}

#[test]
fn tests_test_struct_macro() {
    let mut val = S {
        field_1: 60,
        field_2: true,
    };
    let mut volatile = VolatileRefMut::new(&mut val);
    let volatile_borrowed = volatile.borrow_mut();
    let mut field_1 = volatile_borrowed.map_mut(|s: &mut S| &mut s.field_1);
    field_1.update(|v| v + 1);
    let mut field_2 = volatile.map_mut(|s: &mut S| &mut s.field_2);
    assert!(field_2.read());
    field_2.write(false);
    assert_eq!(
        val,
        S {
            field_1: 61,
            field_2: false
        }
    );
}

#[test]
fn tests_test_slice() {
    let val: &mut [u32] = &mut [1, 2, 3];
    let mut volatile = VolatileRefMut::new(val);
    volatile.borrow_mut().index_mut(0).update(|v| v + 1);

    let mut dst = [0; 3];
    volatile.copy_into_slice(&mut dst);
    assert_eq!(dst, [2, 2, 3]);
}

#[test]
#[should_panic]
fn tests_test_bounds_check_1() {
    let val: &mut [u32] = &mut [1, 2, 3];
    let mut volatile = VolatileRefMut::new(val);
    volatile.index_mut(3);
}

#[test]
#[should_panic]
fn tests_test_bounds_check_2() {
    let val: &mut [u32] = &mut [1, 2, 3];
    let mut volatile = VolatileRefMut::new(val);
    volatile.index_range_mut(2..1);
}

#[test]
#[should_panic]
fn tests_test_bounds_check_3() {
    let val: &mut [u32] = &mut [1, 2, 3];
    let mut volatile = VolatileRefMut::new(val);
    let len = volatile.len();
    volatile.index_range_mut(4..len); // `3..len` is still ok (see next test)
}

#[test]
fn tests_test_bounds_check_4() {
    let val: &mut [u32] = &mut [1, 2, 3];
    let mut volatile = VolatileRefMut::new(val);
    let len = volatile.len();
    assert_eq!(volatile.index_range_mut(3..len).len(), 0);
}

#[test]
#[should_panic]
fn tests_test_bounds_check_5() {
    let val: &mut [u32] = &mut [1, 2, 3];
    let mut volatile = VolatileRefMut::new(val);
    volatile.index_range_mut(0..4);
}

#[test]
fn tests_test_chunks() {
    let val: &mut [u32] = &mut [1, 2, 3, 4, 5, 6];
    let volatile = VolatileRefMut::new(val);
    let mut chunks = volatile.as_chunks_mut::<3>().0;
    chunks.borrow_mut().index_mut(1).write([10, 11, 12]);
    assert_eq!(chunks.borrow().index(0).read(), [1, 2, 3]);
    assert_eq!(chunks.index(1).read(), [10, 11, 12]);
}

#[test]
fn tests_test_lifetime() {
    let mut val = 50;
    let mut volatile = VolatileRefMut::new(&mut val);
    volatile.write(50);
    assert_eq!(val, 50);
}
