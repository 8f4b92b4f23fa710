use clear_on_drop::Clearable;

#[derive(Clone, Copy, Debug, PartialEq)]
struct Pair {
    left: u8,
    right: i32,
}

impl Default for Pair {
    fn default() -> Pair {
        Pair { left: 1, right: -1 }
    }
}

#[test]
fn copy_values_take_their_default() {
    let mut word: u32 = 0x01234567;
    word.clear();
    assert_eq!(word, 0);

    let mut flag = true;
    flag.clear();
    assert!(!flag);

    let mut pair = Pair { left: 9, right: 9 };
    pair.clear();
    assert_eq!(pair, Pair { left: 1, right: -1 });
}

#[test]
fn slices_are_cleared_element_by_element() {
    let mut words: [u64; 3] = [1, 2, 3];
    words[..].clear();
    assert_eq!(words, [0, 0, 0]);

    let mut pairs = vec![Pair { left: 0, right: 0 }; 4];
    pairs[1..].clear();
    assert_eq!(pairs[0], Pair { left: 0, right: 0 });
    assert_eq!(&pairs[1..], [Pair::default(); 3]);

    let mut nothing: [u8; 0] = [];
    nothing[..].clear();
    assert_eq!(nothing, []);
}
