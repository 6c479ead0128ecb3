//! Element-level behavior of the instrumented container: every operation
//! delegates faithfully, and the conversions round-trip the elements.

use smallvectune::{channel, with_log, SmallVec};

#[test]
fn push_pop_order() {
    let (s, _r) = channel(128);
    let mut log = with_log(s);
    let mut v: SmallVec<u32, 4> = SmallVec::new(&mut log);
    v.push(1);
    v.push(2);
    v.push(3);
    assert_eq!(v.len(), 3);
    assert!(!v.is_empty());
    assert_eq!(v.as_slice(), &[1, 2, 3]);
    assert_eq!(v.pop(), Some(3));
    assert_eq!(v.pop(), Some(2));
    assert_eq!(v.pop(), Some(1));
    assert_eq!(v.pop(), None);
    assert!(v.is_empty());
}

#[test]
fn insert_and_remove_shift() {
    let (s, _r) = channel(128);
    let mut log = with_log(s);
    let mut v: SmallVec<u32, 4> = SmallVec::from_vec(vec![1, 3, 4], &mut log);
    v.insert(1, 2);
    assert_eq!(v.as_slice(), &[1, 2, 3, 4]);
    let taken = v.remove(0);
    assert_eq!(taken, 1);
    assert_eq!(v.as_slice(), &[2, 3, 4]);
    let swapped = v.swap_remove(0);
    assert_eq!(swapped, 2);
    assert_eq!(v.as_slice(), &[4, 3]);
}

#[test]
fn insert_many_splices() {
    let (s, _r) = channel(128);
    let mut log = with_log(s);
    let mut v: SmallVec<u32, 4> = SmallVec::from_vec(vec![1, 5], &mut log);
    v.insert_many(1, vec![2, 3, 4]);
    assert_eq!(v.as_slice(), &[1, 2, 3, 4, 5]);
}

#[test]
fn extend_appends() {
    let (s, _r) = channel(128);
    let mut log = with_log(s);
    let mut v: SmallVec<u32, 4> = SmallVec::new(&mut log);
    v.extend(vec![1, 2]);
    v.extend_from_slice(&[3, 4]);
    v.insert_from_slice(0, &[0]);
    assert_eq!(v.as_slice(), &[0, 1, 2, 3, 4]);
}

#[test]
fn resize_truncates_and_pads() {
    let (s, _r) = channel(128);
    let mut log = with_log(s);
    let mut v: SmallVec<u32, 4> = SmallVec::from_vec(vec![1, 2, 3], &mut log);
    v.resize(1, 0);
    assert_eq!(v.as_slice(), &[1]);
    v.resize(4, 7);
    assert_eq!(v.as_slice(), &[1, 7, 7, 7]);
}

#[test]
fn truncate_and_clear() {
    let (s, _r) = channel(128);
    let mut log = with_log(s);
    let mut v: SmallVec<u32, 4> = SmallVec::from_vec(vec![1, 2, 3], &mut log);
    v.truncate(5);
    assert_eq!(v.len(), 3);
    v.truncate(2);
    assert_eq!(v.as_slice(), &[1, 2]);
    v.clear();
    assert!(v.is_empty());
}

#[test]
fn constructors_hold_their_values() {
    let (s, _r) = channel(128);
    let mut log = with_log(s);
    let a: SmallVec<u8, 2> = SmallVec::from_buf([7, 9], &mut log);
    assert_eq!(a.as_slice(), &[7, 9]);
    let b: SmallVec<u8, 4> = SmallVec::from_buf_and_len([1, 2, 3, 4], 2, &mut log);
    assert_eq!(b.as_slice(), &[1, 2]);
    let c: SmallVec<u8, 2> = SmallVec::from_slice(&[5, 6, 7], &mut log);
    assert_eq!(c.as_slice(), &[5, 6, 7]);
    let d: SmallVec<u8, 2> = SmallVec::from_elem(9, 4, &mut log);
    assert_eq!(d.as_slice(), &[9, 9, 9, 9]);
    assert_eq!(d.inline_size(), 2);
}

#[test]
fn capacity_reports_growth() {
    let (s, _r) = channel(128);
    let mut log = with_log(s);
    let mut v: SmallVec<u8, 2> = SmallVec::new(&mut log);
    assert_eq!(v.capacity(), 2);
    v.grow(10);
    assert_eq!(v.capacity(), 10);
    v.reserve_exact(12);
    assert_eq!(v.capacity(), 12);
    v.shrink_to_fit();
    assert_eq!(v.capacity(), 2);
}

#[test]
fn into_vec_round_trips() {
    let (s, _r) = channel(128);
    let mut log = with_log(s);
    let v: SmallVec<u32, 4> = SmallVec::from_vec(vec![1, 2, 3], &mut log);
    let (plain, _) = v.into_vec();
    let w: SmallVec<u32, 4> = SmallVec::from_vec(plain, &mut log);
    assert_eq!(w.as_slice(), &[1, 2, 3]);
}

#[test]
fn as_mut_slice_writes_through() {
    let (s, _r) = channel(128);
    let mut log = with_log(s);
    let mut v: SmallVec<u32, 4> = SmallVec::from_vec(vec![1, 2, 3], &mut log);
    let slice = v.as_mut_slice();
    slice[0] = 9;
    assert_eq!(v.as_slice(), &[9, 2, 3]);
    assert_eq!(v.capacity(), 4);
}


#[test]
fn spilled_tracks_heap_storage() {
    let (s, _r) = channel(128);
    let mut log = with_log(s);
    let mut v: SmallVec<u8, 2> = SmallVec::new(&mut log);
    assert!(!v.spilled());
    v.grow(10);
    assert!(v.spilled());
    v.truncate(0);
    v.shrink_to_fit();
    assert!(!v.spilled());
}

#[test]
fn dedup_removes_consecutive_runs() {
    let (s, _r) = channel(128);
    let mut log = with_log(s);
    let mut v: SmallVec<u32, 4> = SmallVec::from_vec(vec![1, 1, 2, 2, 2, 3, 1], &mut log);
    v.dedup();
    assert_eq!(v.as_slice(), &[1, 2, 3, 1]);
}
