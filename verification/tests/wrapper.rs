use clear_on_drop::{ClearOnDrop, InitializableFromZeroed};

#[derive(Debug, Default)]
struct Place {
    data: [u32; 4],
}

impl InitializableFromZeroed for Place {
    const INITIAL: Place = Place { data: [0; 4] };
}

const DATA: [u32; 4] = [0x01234567, 0x89abcdef, 0xfedcba98, 0x76543210];

#[test]
fn on_stack() {
    let mut place: Place = Default::default();
    {
        let mut clear = ClearOnDrop::new(&mut place);
        clear.data = DATA;
        assert_eq!(clear.data, DATA);
    }
    assert_eq!(place.data, [0; 4]);
}

#[test]
fn on_box() {
    let place: Box<Place> = Box::new(Default::default());
    let mut clear = ClearOnDrop::new(place);
    clear.data = DATA;
    assert_eq!(clear.data, DATA);
}

#[test]
fn into_box() {
    let place: Box<Place> = Box::new(Default::default());
    let mut clear = ClearOnDrop::new(place);
    clear.data = DATA;
    assert_eq!(clear.data, DATA);

    let place = ClearOnDrop::into_place(clear);
    assert_eq!(place.data, [0; 4]);
}

#[test]
fn into_uncleared_box() {
    let place: Box<Place> = Box::new(Default::default());
    let mut clear = ClearOnDrop::new(place);
    clear.data = DATA;
    assert_eq!(clear.data, DATA);

    let place = ClearOnDrop::into_uncleared_place(clear);
    assert_eq!(place.data, DATA);
}

#[test]
fn on_fixed_size_array() {
    let mut place: [u32; 4] = Default::default();
    {
        let mut clear = ClearOnDrop::new(&mut place);
        clear.copy_from_slice(&DATA);
        assert_eq!(&clear[..], DATA);
    }
    assert_eq!(place, [0; 4]);
}

#[test]
fn on_slice() {
    let mut place: [u32; 4] = Default::default();
    {
        let mut clear = ClearOnDrop::new(&mut place[..]);
        clear.copy_from_slice(&DATA);
        assert_eq!(&clear[..], DATA);
    }
    assert_eq!(place, [0; 4]);
}

#[test]
fn on_boxed_slice() {
    let place: Box<[u32]> = vec![0; 4].into_boxed_slice();
    let mut clear = ClearOnDrop::new(place);
    clear.copy_from_slice(&DATA);
    assert_eq!(&clear[..], DATA);
}

#[test]
fn on_string() {
    let place: String = "test".into();
    let clear = ClearOnDrop::new(place);
    assert_eq!(&clear[..], "test");
}

#[test]
fn into_string() {
    let place: String = "test".into();
    let ptr = place.as_ptr();

    let clear = ClearOnDrop::new(place);
    assert_eq!(&clear[..], "test");

    let place = ClearOnDrop::into_place(clear);
    assert_eq!(place, "\x00\x00\x00\x00");
    assert_eq!(place.as_ptr(), ptr);
}

#[test]
fn into_uncleared_string() {
    let place: String = "test".into();
    let ptr = place.as_ptr();

    let clear = ClearOnDrop::new(place);
    assert_eq!(&clear[..], "test");

    let place = ClearOnDrop::into_uncleared_place(clear);
    assert_eq!(place, "test");
    assert_eq!(place.as_ptr(), ptr);
}

#[test]
fn on_vec() {
    let place: Vec<u32> = DATA.to_vec();
    let ptr = place.as_ptr();

    let mut clear = ClearOnDrop::new(place);
    assert_eq!(&clear[..], DATA);
    clear[0] = 1;
    assert_eq!(clear[0], 1);

    let place = ClearOnDrop::into_place(clear);
    assert_eq!(place, [0; 4]);
    assert_eq!(place.len(), 4);
    assert_eq!(place.as_ptr(), ptr);
}

#[test]
fn into_uncleared_vec() {
    let place: Vec<u8> = vec![1, 2, 3];
    let ptr = place.as_ptr();
    let clear = ClearOnDrop::new(place);
    let place = ClearOnDrop::into_uncleared_place(clear);
    assert_eq!(place, [1, 2, 3]);
    assert_eq!(place.as_ptr(), ptr);
}

#[test]
fn into_boxed_slice_keeps_the_allocation() {
    let place: Box<[u32]> = DATA.to_vec().into_boxed_slice();
    let ptr = place.as_ptr();
    let clear = ClearOnDrop::new(place);
    let place = ClearOnDrop::into_place(clear);
    assert_eq!(&place[..], [0; 4]);
    assert_eq!(place.as_ptr(), ptr);
}

#[test]
fn into_box_keeps_the_allocation() {
    let place: Box<Place> = Box::new(Place { data: DATA });
    let before = format!("{:p}", place);
    let clear = ClearOnDrop::new(place);
    let place = ClearOnDrop::into_place(clear);
    assert_eq!(place.data, [0; 4]);
    assert_eq!(format!("{:p}", place), before);
}

#[test]
fn on_boxed_array() {
    let place: Box<[u32; 4]> = Box::new(DATA);
    let before = format!("{:p}", place);
    let clear = ClearOnDrop::new(place);
    assert_eq!(*clear, DATA);
    let place = ClearOnDrop::into_place(clear);
    assert_eq!(*place, [0; 4]);
    assert_eq!(format!("{:p}", place), before);
}

#[test]
fn into_borrowed_array() {
    let mut place: [u16; 3] = [7, 8, 9];
    {
        let clear = ClearOnDrop::new(&mut place);
        let back = ClearOnDrop::into_place(clear);
        assert_eq!(*back, [0; 3]);
        back[1] = 5;
    }
    assert_eq!(place, [0, 5, 0]);
}

#[test]
fn into_uncleared_borrow() {
    let mut place = Place { data: DATA };
    {
        let clear = ClearOnDrop::new(&mut place);
        let back = ClearOnDrop::into_uncleared_place(clear);
        assert_eq!(back.data, DATA);
    }
    assert_eq!(place.data, DATA);
}

#[test]
fn into_uncleared_slice() {
    let mut place: [i64; 2] = [1, -2];
    {
        let clear = ClearOnDrop::new(&mut place[..]);
        let back = ClearOnDrop::into_uncleared_place(clear);
        assert_eq!(back, [1, -2]);
    }
    assert_eq!(place, [1, -2]);
}

#[test]
fn empty_places() {
    let mut nothing: [u8; 0] = [];
    {
        let clear = ClearOnDrop::new(&mut nothing[..]);
        assert_eq!(clear.len(), 0);
    }
    let clear = ClearOnDrop::new(Vec::<u64>::new());
    assert_eq!(ClearOnDrop::into_place(clear), []);
    let clear = ClearOnDrop::new(String::new());
    assert_eq!(ClearOnDrop::into_place(clear), "");
    let clear = ClearOnDrop::new(Vec::<u8>::new().into_boxed_slice());
    drop(clear);
}

#[test]
fn string_is_cleared_byte_by_byte() {
    let place: String = "a\u{e9}\u{20ac}\u{1f600}".into();
    assert_eq!(place.len(), 10);
    let mut clear = ClearOnDrop::new(place);
    clear.make_ascii_uppercase();
    assert_eq!(&clear[..], "A\u{e9}\u{20ac}\u{1f600}");
    let place = ClearOnDrop::into_place(clear);
    assert_eq!(place.len(), 10);
    assert_eq!(place.chars().count(), 10);
    assert!(place.bytes().all(|byte| byte == 0));
}

#[test]
fn string_on_scope_exit() {
    let place: String = "test".into();
    let clear = ClearOnDrop::new(place);
    assert_eq!(clear.len(), 4);
    drop(clear);
}

#[test]
fn only_the_first_level_is_cleared() {
    let mut inner: Box<u32> = Box::new(7);
    {
        let mut clear = ClearOnDrop::new(&mut *inner);
        *clear = 9;
    }
    assert_eq!(*inner, 0);
}
