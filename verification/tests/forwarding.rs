use std::borrow::{Borrow, BorrowMut};
use std::cmp::Ordering;
use std::collections::hash_map::DefaultHasher;
use std::hash::{Hash, Hasher};

use clear_on_drop::ClearOnDrop;

fn hash_of<T: Hash>(value: &T) -> u64 {
    let mut state = DefaultHasher::new();
    value.hash(&mut state);
    state.finish()
}

#[test]
fn compares_as_the_values_do() {
    let (mut low, mut high) = (3u32, 4u32);
    let a = ClearOnDrop::new(&mut low);
    let b = ClearOnDrop::new(&mut high);
    assert!(a != b);
    assert!(!(a == b));
    assert!(a < b);
    assert!(a <= b);
    assert!(!(a > b));
    assert!(!(a >= b));
    assert_eq!(a.partial_cmp(&b), Some(Ordering::Less));
    assert_eq!(b.partial_cmp(&a), Some(Ordering::Greater));
    assert_eq!(a.cmp(&b), Ordering::Less);
    assert_eq!(b.cmp(&a), Ordering::Greater);
    assert_eq!(a.cmp(&a), Ordering::Equal);
}

#[test]
fn compares_across_kinds_of_places() {
    let mut borrowed = [1u8, 2, 3];
    let a = ClearOnDrop::new(&mut borrowed[..]);
    let b = ClearOnDrop::new(vec![1u8, 2, 3]);
    let c = ClearOnDrop::new(vec![1u8, 2, 4].into_boxed_slice());
    assert!(a == b);
    assert!(b == a);
    assert!(a != c);
    assert!(a < c);
    assert!(c > b);

    let text = ClearOnDrop::new(String::from("abc"));
    let more = ClearOnDrop::new(String::from("abd"));
    assert!(text < more);
    assert!(text == text);
    assert_eq!(text.cmp(&more), Ordering::Less);
}

#[test]
fn hashes_as_the_place_does() {
    let clear = ClearOnDrop::new(Box::new(0x01234567u32));
    assert_eq!(hash_of(&clear), hash_of(&Box::new(0x01234567u32)));
    assert_eq!(hash_of(&clear), hash_of(&0x01234567u32));

    let clear = ClearOnDrop::new(String::from("test"));
    assert_eq!(hash_of(&clear), hash_of(&"test"));

    let clear = ClearOnDrop::new(vec![1u8, 2]);
    assert_eq!(hash_of(&clear), hash_of(&vec![1u8, 2]));
    assert_ne!(hash_of(&clear), hash_of(&vec![2u8, 1]));
}

#[test]
fn converts_as_the_place_does() {
    let mut clear = ClearOnDrop::new(vec![1u8, 2, 3]);
    let view: &[u8] = clear.as_ref();
    assert_eq!(view, [1, 2, 3]);
    let view: &mut [u8] = clear.as_mut();
    view[0] = 9;
    assert_eq!(&clear[..], [9, 2, 3]);

    let clear = ClearOnDrop::new(String::from("test"));
    let view: &str = clear.as_ref();
    assert_eq!(view, "test");
    let view: &[u8] = clear.as_ref();
    assert_eq!(view, b"test");
}

#[test]
fn borrows_as_the_place_does() {
    let mut clear = ClearOnDrop::new(vec![1u32, 2]);
    let view: &[u32] = clear.borrow();
    assert_eq!(view, [1, 2]);
    let view: &mut [u32] = clear.borrow_mut();
    view[1] = 7;
    assert_eq!(&clear[..], [1, 7]);

    let mut clear = ClearOnDrop::new(Box::new(5u64));
    let view: &u64 = clear.borrow();
    assert_eq!(*view, 5);
    let view: &mut u64 = clear.borrow_mut();
    *view = 6;
    assert_eq!(*clear, 6);
}

#[test]
fn reads_and_writes_reach_the_value() {
    let mut place = [0u8; 4];
    {
        let mut clear = ClearOnDrop::new(&mut place);
        clear[2] = 7;
        clear[0] += 1;
        assert_eq!(*clear, [1, 0, 7, 0]);
        assert_eq!(clear.iter().sum::<u8>(), 8);
        assert_eq!(format!("{:?}", &*clear), "[1, 0, 7, 0]");
    }
    assert_eq!(place, [0; 4]);
}

#[test]
fn clones_the_place() {
    let clear = ClearOnDrop::new(vec![1u8, 2, 3]);
    let copy = clear.clone();
    assert!(clear == copy);
    let place = ClearOnDrop::into_place(clear);
    assert_eq!(place, [0, 0, 0]);
    assert_eq!(&copy[..], [1, 2, 3]);
}
