use clear_on_drop::clear::{reset, zero_fill, Clear, InitializableFromZeroed};

#[derive(Debug, PartialEq)]
struct Record {
    id: u32,
    name: String,
}

impl InitializableFromZeroed for Record {
    const INITIAL: Record = Record { id: 7, name: String::new() };
}

#[test]
fn integers_clear_to_zero() {
    let mut a: u8 = 0xff;
    let mut b: i8 = -1;
    let mut c: u16 = 0xffff;
    let mut d: i16 = i16::MIN;
    let mut e: u32 = 0x01234567;
    let mut f: i32 = -0x01234567;
    let mut g: u64 = u64::MAX;
    let mut h: i64 = i64::MIN;
    let mut i: usize = usize::MAX;
    let mut j: isize = isize::MIN;
    a.clear();
    b.clear();
    c.clear();
    d.clear();
    e.clear();
    f.clear();
    g.clear();
    h.clear();
    i.clear();
    j.clear();
    assert_eq!((a, b, c, d, e), (0, 0, 0, 0, 0));
    assert_eq!((f, g, h, i, j), (0, 0, 0, 0, 0));
}

#[test]
fn initial_values() {
    assert_eq!(<u8 as InitializableFromZeroed>::INITIAL, 0);
    assert_eq!(<i64 as InitializableFromZeroed>::INITIAL, 0);
    assert_eq!(<usize as InitializableFromZeroed>::INITIAL, 0);
    assert_eq!(Record::INITIAL, Record { id: 7, name: String::new() });
}

#[test]
fn no_byte_is_left() {
    let mut words: [u32; 4] = [0x41414141, 0x42424242, 0x43434343, 0x44444444];
    words.clear();
    assert!(words.iter().all(|word| word.to_ne_bytes() == [0; 4]));

    let mut bytes: Vec<u8> = (1..=255).collect();
    bytes[..].clear();
    assert_eq!(bytes.len(), 255);
    assert!(bytes.iter().all(|byte| *byte == 0));

    let mut wide: [i64; 3] = [-1, i64::MIN, 0x4141414141414141];
    zero_fill(&mut wide[..]);
    assert!(wide.iter().all(|word| word.to_ne_bytes() == [0; 8]));
}

#[test]
fn part_of_a_slice() {
    let mut bytes: [u8; 5] = [1, 2, 3, 4, 5];
    zero_fill(&mut bytes[1..3]);
    assert_eq!(bytes, [1, 0, 0, 4, 5]);
}

#[test]
fn empty_regions() {
    let mut nothing: [u64; 0] = [];
    nothing.clear();
    nothing[..].clear();
    zero_fill(&mut nothing[..]);
    assert_eq!(nothing, []);
}

#[test]
fn reconstructible_values() {
    let mut record = Record { id: 99, name: "secret".into() };
    record.clear();
    assert_eq!(record, Record { id: 7, name: String::new() });

    let mut record = Record { id: 1, name: "x".into() };
    reset(&mut record);
    assert_eq!(record, Record::INITIAL);

    let mut record = Record { id: 1, name: "y".into() };
    Record::initialize(&mut record);
    assert_eq!(record, Record::INITIAL);
}

#[test]
fn values_of_the_standard_library() {
    let mut flag = true;
    flag.clear();
    assert!(!flag);

    let mut letter = 'x';
    letter.clear();
    assert_eq!(letter, '\0');

    let mut maybe = Some(0x41414141u32);
    maybe.clear();
    assert_eq!(maybe, None);

    let mut pair = (7u8, Some(true));
    pair.clear();
    assert_eq!(pair, (0, None));

    let mut unit = ();
    unit.clear();
    assert_eq!(unit, ());
}

#[derive(Debug, PartialEq)]
struct MyData {
    value: Option<u32>,
}

impl InitializableFromZeroed for MyData {
    const INITIAL: MyData = MyData { value: None };

    fn initialize(place: &mut Self) {
        Option::initialize(&mut place.value);
    }
}

#[test]
fn record_with_an_option() {
    let mut place = MyData { value: Some(0x41414141) };
    place.clear();
    assert_eq!(place.value, None);
    assert_eq!(place, MyData::INITIAL);
}
