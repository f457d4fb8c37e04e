use vga_terminal::cursor::Cursor;
use vga_terminal::data_structure::{IteratorType, StackVec};

#[test]
fn push_fills_up_to_capacity_and_then_fails() {
    let mut v: StackVec<u8, 4> = StackVec::new(0);
    assert!(v.push(1));
    assert!(v.push(2));
    assert!(v.push(3));
    assert!(v.push(4));
    assert_eq!(v.len(), 4);
    assert!(!v.push(5));
    assert_eq!(v.len(), 4);
    assert_eq!(v.data(), &[1, 2, 3, 4]);
}

#[test]
fn push_at_shifts_right() {
    let mut v: StackVec<u8, 4> = StackVec::new(0);
    assert!(v.push(1));
    assert!(v.push(2));
    assert!(v.push(3));
    assert!(v.push_at(1, 9));
    assert_eq!(v.data(), &[1, 9, 2, 3]);
    assert!(!v.push_at(0, 7));
    assert!(!v.push_at(9, 7));
}

#[test]
fn push_at_beyond_length_fails() {
    let mut v: StackVec<u8, 4> = StackVec::new(0);
    assert!(v.push(1));
    assert!(!v.push_at(2, 9));
    assert_eq!(v.data(), &[1]);
}

#[test]
fn insert_then_remove_restores_the_sequence() {
    let mut v: StackVec<u8, 8> = StackVec::new(0);
    for b in [10, 20, 30] {
        assert!(v.push(b));
    }
    assert!(v.push_at(1, 99));
    assert_eq!(v.data(), &[10, 99, 20, 30]);
    assert_eq!(v.pop_at(1), Some(99));
    assert_eq!(v.data(), &[10, 20, 30]);
    assert_eq!(v.len(), 3);
}

#[test]
fn pop_returns_last_and_restores_fill() {
    let mut v: StackVec<u8, 4> = StackVec::new(7);
    assert!(v.push(1));
    assert!(v.push(2));
    assert_eq!(v.pop(), Some(2));
    assert_eq!(v.len(), 1);
    assert_eq!(*v.get_unsafe(1), 7);
    assert_eq!(v.pop(), Some(1));
    assert_eq!(v.pop(), None);
}

#[test]
fn pop_at_shifts_left_and_fills_tail() {
    let mut v: StackVec<u8, 4> = StackVec::new(0);
    for b in [1, 2, 3, 4] {
        assert!(v.push(b));
    }
    assert_eq!(v.pop_at(1), Some(2));
    assert_eq!(v.data(), &[1, 3, 4]);
    assert_eq!(*v.get_unsafe(3), 0);
    assert_eq!(v.pop_at(5), None);
}

#[test]
fn set_at_extends_length_and_keeps_fill_between() {
    let mut v: StackVec<u8, 6> = StackVec::new(9);
    assert!(v.set_at(3, 5));
    assert_eq!(v.len(), 4);
    assert_eq!(v.data(), &[9, 9, 9, 5]);
    assert!(v.set_at(0, 1));
    assert_eq!(v.len(), 4);
    assert!(!v.set_at(6, 8));
}

#[test]
fn get_is_bounds_checked_against_length() {
    let mut v: StackVec<u8, 4> = StackVec::new(0);
    assert!(v.push(42));
    assert_eq!(v.get(0), Some(&42));
    assert_eq!(v.get(1), None);
    assert_eq!(*v.get_unsafe(1), 0);
}

#[test]
fn get_mut_writes_through() {
    let mut v: StackVec<u8, 4> = StackVec::new(0);
    assert!(v.push(1));
    assert!(v.push(2));
    if let Some(slot) = v.get_mut(1) {
        *slot = 20;
    }
    assert_eq!(v.data(), &[1, 20]);
    assert!(v.get_mut(2).is_none());
}

#[test]
fn get_mut_unsafe_writes_raw_storage() {
    let mut v: StackVec<u8, 4> = StackVec::new(0);
    assert!(v.push(1));
    *v.get_mut_unsafe(0) = 11;
    assert_eq!(v.data(), &[11]);
}

#[test]
fn slice_reads_raw_storage_past_the_length() {
    let mut v: StackVec<u8, 4> = StackVec::new(6);
    assert!(v.push(1));
    assert!(v.push(2));
    assert_eq!(v.slice(0..4), &[1, 2, 6, 6]);
    assert_eq!(v.slice(1..3), &[2, 6]);
}

#[test]
fn iterate_by_length_or_by_capacity() {
    let mut v: StackVec<u8, 4> = StackVec::new(0);
    assert!(v.push(5));
    assert_eq!(v.iter(IteratorType::Len), &[5]);
    assert_eq!(v.iter(IteratorType::Capacity), &[5, 0, 0, 0]);
}

#[test]
fn iterate_mutably_writes_through() {
    let mut v: StackVec<u8, 4> = StackVec::new(0);
    assert!(v.push(1));
    assert!(v.push(2));
    let content = v.iter_mut(IteratorType::Len);
    assert_eq!(content.len(), 2);
    content[0] = 10;
    assert_eq!(v.data(), &[10, 2]);
    let storage = v.iter_mut(IteratorType::Capacity);
    assert_eq!(storage.len(), 4);
    storage[3] = 9;
    assert_eq!(*v.get_unsafe(3), 9);
}

#[test]
fn clear_empties_and_refills() {
    let mut v: StackVec<u8, 4> = StackVec::new(3);
    assert!(v.push(1));
    assert!(v.push(2));
    v.clear();
    assert_eq!(v.len(), 0);
    assert_eq!(v.iter(IteratorType::Capacity), &[3, 3, 3, 3]);
    assert_eq!(v.default(), 3);
    assert_eq!(v.capacity(), 4);
}

#[test]
fn copy_and_copy_from_round_trip() {
    let mut v: StackVec<u8, 4> = StackVec::new(0);
    assert!(v.push(1));
    assert!(v.push(2));
    assert!(v.push(3));
    let (data, len) = v.copy();
    let mut w: StackVec<u8, 4> = StackVec::new(0);
    assert!(w.push(9));
    w.copy_from(&data, len);
    assert_eq!(w.data(), &[1, 2, 3]);
    w.copy_from(&data, 2);
    assert_eq!(w.data(), &[1, 2]);
    assert_eq!(*w.get_unsafe(2), 0);
}

#[test]
fn cursor_moves_clamp_at_the_edges() {
    let mut c = Cursor { x: 0, y: 0 };
    c.move_left();
    assert_eq!((c.x, c.y), (0, 0));
    c.move_right(&3);
    assert_eq!(c.x, 1);
    c.move_right(&3);
    assert_eq!(c.x, 2);
    c.move_right(&3);
    assert_eq!(c.x, 2);
    c.move_up();
    assert_eq!(c.y, 0);
    c.move_down(&2);
    assert_eq!(c.y, 1);
    c.move_down(&2);
    assert_eq!(c.y, 1);
    c.move_left();
    assert_eq!(c.x, 1);
}
