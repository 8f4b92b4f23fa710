use clear_on_drop::barrier;

struct Place {
    data: [u32; 4],
}

const DATA: [u32; 4] = [0x01234567, 0x89abcdef, 0xfedcba98, 0x76543210];

#[test]
fn hide_mem() {
    let mut place = Place { data: DATA };
    barrier::hide_mem(&mut place);
    assert_eq!(place.data, DATA);
}

#[test]
fn hide_ptr() {
    let mut place = Place { data: DATA };
    let before = format!("{:p}", &place);
    let after = barrier::hide_ptr(&mut place);
    assert_eq!(before, format!("{:p}", after));
    assert_eq!(after.data, DATA);
}

#[test]
fn hide_unsized() {
    let mut place = vec![1u64, 2u64];
    barrier::hide_mem::<[u64]>(place.as_mut_slice());
    assert_eq!(place.as_slice(), &[1, 2]);
}
