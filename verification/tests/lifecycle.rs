use std::sync::atomic::{AtomicU32, Ordering};

use clear_on_drop::{ClearOnDrop, Exit, InitializableFromZeroed};

/// How often a `Probe` has been initialized in this process.
static FILLS: AtomicU32 = AtomicU32::new(0);

fn fills() -> u32 {
    FILLS.load(Ordering::SeqCst)
}

/// A value that counts how often it is initialized.
#[derive(Debug)]
struct Probe {
    word: u32,
}

impl InitializableFromZeroed for Probe {
    const INITIAL: Probe = Probe { word: 0 };

    fn initialize(place: &mut Self) {
        FILLS.fetch_add(1, Ordering::SeqCst);
        *place = Self::INITIAL;
    }
}

#[test]
fn scope_exit_clears_once() {
    let before = fills();
    let mut probe = Probe { word: 0x01234567 };
    {
        let _clear = ClearOnDrop::new(&mut probe);
    }
    assert_eq!(fills() - before, 1);
    assert_eq!(probe.word, 0);
}

#[test]
fn into_place_clears_once() {
    let before = fills();
    let mut probe = Probe { word: 0x01234567 };
    {
        let clear = ClearOnDrop::new(&mut probe);
        let back = ClearOnDrop::into_place(clear);
        assert_eq!(fills() - before, 1);
        assert_eq!(back.word, 0);
        back.word = 5;
    }
    assert_eq!(fills() - before, 1);
    assert_eq!(probe.word, 5);
}

#[test]
fn into_uncleared_place_clears_never() {
    let before = fills();
    let mut probe = Probe { word: 0x01234567 };
    {
        let clear = ClearOnDrop::new(&mut probe);
        let back = ClearOnDrop::into_uncleared_place(clear);
        assert_eq!(back.word, 0x01234567);
    }
    assert_eq!(fills() - before, 0);
    assert_eq!(probe.word, 0x01234567);
}

#[test]
fn boxed_place_clears_once() {
    let before = fills();
    let clear = ClearOnDrop::new(Box::new(Probe { word: 7 }));
    let mut back = ClearOnDrop::into_place(clear);
    assert_eq!(fills() - before, 1);
    assert_eq!(back.word, 0);
    back.word = 8;
    let clear = ClearOnDrop::new(back);
    let back = ClearOnDrop::into_uncleared_place(clear);
    assert_eq!(fills() - before, 1);
    assert_eq!(back.word, 8);
    drop(ClearOnDrop::new(back));
    assert_eq!(fills() - before, 2);
}

#[test]
fn early_return_clears() {
    fn leave_early(probe: &mut Probe, early: bool) -> u32 {
        let clear = ClearOnDrop::new(probe);
        if early {
            return 1;
        }
        let _ = ClearOnDrop::into_uncleared_place(clear);
        2
    }
    let before = fills();
    let mut probe = Probe { word: 3 };
    assert_eq!(leave_early(&mut probe, true), 1);
    assert_eq!(fills() - before, 1);
    assert_eq!(probe.word, 0);
    probe.word = 4;
    assert_eq!(leave_early(&mut probe, false), 2);
    assert_eq!(fills() - before, 1);
    assert_eq!(probe.word, 4);
}

#[test]
fn clone_from_clears_what_it_replaces() {
    let mut clear = ClearOnDrop::new(Box::new(7u32));
    let source = ClearOnDrop::new(Box::new(9u32));
    clear.clone_from(&source);
    assert_eq!(*clear, 9);
    assert_eq!(*source, 9);
    let copy = source.clone();
    assert_eq!(*ClearOnDrop::into_uncleared_place(copy), 9);
}

#[test]
fn exits() {
    assert!(Exit::ScopeExit.is_clearing());
    assert!(Exit::IntoPlace.is_clearing());
    assert!(!Exit::IntoUnclearedPlace.is_clearing());
}
