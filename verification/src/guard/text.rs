//! The guard for a place that leads to text: `String`.
//!
//! Text cannot be overwritten byte by byte while it is a `String`. To clear it,
//! the guard turns the string into its bytes, fills them with zeros, and turns
//! the bytes back into a string, which then holds one NUL character for each
//! byte that the text took. The buffer stays the same throughout.

use vstd::prelude::*;
use vstd::utf8::{decode_utf8, encode_utf8, valid_utf8};

use crate::clear::{zero_fill, zeros};
use crate::guard::slice::contents_mut;
use crate::place::{fills, Exit, Place};
use crate::scalar::lemma_initial_integers;

verus! {

/// The string slice that `String::as_str` returns for a string of the
/// characters `text`.
pub uninterp spec fn as_str_of(text: Seq<char>) -> &'static str;

/// Trusted: `String::as_str`, the string slice of the whole string. The slice
/// holds the characters of the string, and is the same for any two strings of
/// the same characters.
#[verifier::external_body]
fn text_ref(text: &String) -> (slice: &str)
    ensures
        slice == as_str_of(text@),
        slice@ == text@,
{
    text.as_str()
}

/// Trusted: `String::as_mut_str`, the mutable string slice of the whole
/// string. The slice shows the characters of the string, what is written to it
/// is written to the string, and the call never unwinds.
#[verifier::external_body]
fn text_mut(text: &mut String) -> (slice: &mut str)
    ensures
        slice@ == old(text)@,
        final(slice)@ == final(text)@,
    opens_invariants none
    no_unwind
{
    text.as_mut_str()
}

/// Trusted: `String::into_bytes`, which turns a string into the vector of its
/// bytes, the UTF-8 encoding of its characters. The call never unwinds.
#[verifier::external_body]
fn into_bytes(text: String) -> (bytes: Vec<u8>)
    ensures
        bytes@ == encode_utf8(text@),
    opens_invariants none
    no_unwind
{
    text.into_bytes()
}

/// Trusted: `String::from_utf8`, which turns a vector of bytes into a string
/// if the bytes are valid UTF-8, and fails if they are not. The string holds
/// the characters that the bytes encode. The call never unwinds.
#[verifier::external_body]
fn from_bytes(bytes: Vec<u8>) -> (text: Option<String>)
    ensures
        text is Some <==> valid_utf8(bytes@),
        text is Some ==> text.unwrap()@ == decode_utf8(bytes@),
    opens_invariants none
    no_unwind
{
    match String::from_utf8(bytes) {
        Ok(text) => Some(text),
        Err(_) => None,
    }
}

/// The text of `len` NUL characters: what text of `len` bytes holds once it is
/// cleared.
pub open spec fn nuls(len: nat) -> Seq<char> {
    Seq::new(len, |i: int| '\0')
}

/// Zero bytes are valid UTF-8, and encode one NUL character each.
pub proof fn lemma_zero_bytes_are_nuls(len: nat)
    ensures
        valid_utf8(zeros::<u8>(len)),
        decode_utf8(zeros::<u8>(len)) == nuls(len),
    decreases len,
{
    let bytes = zeros::<u8>(len);
    if len == 0 {
        assert(decode_utf8(bytes) =~= nuls(len));
    } else {
        let rest = zeros::<u8>((len - 1) as nat);
        lemma_zero_bytes_are_nuls((len - 1) as nat);
        lemma_initial_integers();
        assert(bytes[0] == 0u8);
        assert(0u8 & 0x7f == 0u8) by (bit_vector);
        assert(vstd::utf8::pop_first_scalar(bytes) =~= rest);
        assert(vstd::utf8::decode_first_scalar(bytes) == 0u32);
        assert(0u32 as char == '\0');
        assert(decode_utf8(bytes) =~= nuls(len));
    }
}

/// Text of NUL characters takes one zero byte for each character, and nothing
/// else: cleared text holds zero bytes only.
pub proof fn lemma_nuls_are_zero_bytes(len: nat)
    ensures
        encode_utf8(nuls(len)) == zeros::<u8>(len),
{
    lemma_zero_bytes_are_nuls(len);
    vstd::utf8::decode_utf8_encode_utf8(zeros::<u8>(len));
}

/// A string that is held until it is given up.
pub struct StringSlot {
    slot: Option<String>,
}

impl StringSlot {
    /// The string that is held, if any.
    pub closed spec fn held(&self) -> Option<String> {
        self.slot
    }

    /// Whether the string is still held.
    pub open spec fn armed(&self) -> bool {
        self.held() is Some
    }

    /// The string, for reading; `None` once it is gone.
    pub fn place_ref<'g>(&'g self) -> (place: Option<&'g String>)
        ensures
            place is Some <==> self.armed(),
            place is Some ==> *place.unwrap() == self.held().unwrap(),
    {
        match &self.slot {
            Some(place) => Some(place),
            None => None,
        }
    }

    /// The string, for writing; `None` once it is gone. What is handed out
    /// shows the string that is held, and what is left behind it is what the
    /// slot holds afterwards.
    pub fn place_mut<'g>(&'g mut self) -> (place: Option<&'g mut String>)
        ensures
            place is Some <==> old(self).armed(),
            final(self).armed() <==> old(self).armed(),
            place is Some ==> *place.unwrap() == old(self).held().unwrap(),
            place is Some ==> *final(place.unwrap()) == final(self).held().unwrap(),
        opens_invariants none
        no_unwind
    {
        match &mut self.slot {
            Some(place) => Some(place),
            None => None,
        }
    }

    /// The text, for writing; `None` once the string is gone.
    pub fn target_mut<'g>(&'g mut self) -> (target: Option<&'g mut str>)
        ensures
            target is Some <==> old(self).armed(),
            final(self).armed() <==> old(self).armed(),
            target is Some ==> target.unwrap()@ == old(self).held().unwrap()@,
            target is Some ==> final(target.unwrap())@ == final(self).held().unwrap()@,
        opens_invariants none
        no_unwind
    {
        match &mut self.slot {
            Some(place) => Some(text_mut(place)),
            None => None,
        }
    }

    /// Gives up the string, after filling the bytes of its text with zeros if
    /// `exit` asks for it. An empty slot stays as it is and clears nothing.
    pub fn leave(&mut self, exit: Exit) -> (place: Option<String>)
        ensures
            !final(self).armed(),
            place is Some <==> old(self).armed(),
            fills(old(self).armed(), exit)
                ==> place.unwrap()@ == nuls(encode_utf8(old(self).held().unwrap()@).len()),
            place is Some && !exit.clears() ==> place == old(self).held(),
        opens_invariants none
        no_unwind
    {
        let mut taken: Option<String> = None;
        core::mem::swap(&mut self.slot, &mut taken);
        match taken {
            Some(place) => {
                if exit.is_clearing() {
                    let mut bytes = into_bytes(place);
                    zero_fill(contents_mut(&mut bytes));
                    proof {
                        lemma_zero_bytes_are_nuls(bytes@.len());
                    }
                    from_bytes(bytes)
                } else {
                    Some(place)
                }
            },
            None => None,
        }
    }
}

impl Drop for StringSlot {
    /// Clears the text if the string is still held, and does nothing if it is
    /// not.
    fn drop(&mut self)
        ensures
            !final(self).armed(),
        opens_invariants none
        no_unwind
    {
        let _ = self.leave(Exit::ScopeExit);
    }
}

/// The guard of a `String`. It always holds its place.
pub struct Text {
    inner: StringSlot,
}

impl Text {
    #[verifier::type_invariant]
    spec fn armed(&self) -> bool {
        self.inner.armed()
    }

    /// The place that the guard holds.
    pub closed spec fn place(&self) -> String {
        self.inner.held().unwrap()
    }
}

impl Place for String {
    type Target = str;

    type Content = Seq<char>;

    type Guard = Text;

    open spec fn target(&self) -> &str {
        as_str_of(self@)
    }

    open spec fn content(&self) -> Seq<char> {
        self@
    }

    open spec fn content_of(target: &str) -> Seq<char> {
        target@
    }

    open spec fn cleared(before: Seq<char>) -> Seq<char> {
        nuls(encode_utf8(before).len())
    }

    open spec fn held(guard: &Text) -> Self {
        guard.place()
    }

    /// The guard holds the string that is given.
    fn arm(self) -> (guard: Text)
        ensures
            Self::held(&guard) == self,
    {
        Text { inner: StringSlot { slot: Some(self) } }
    }

    /// A string that is not cleared comes back as it was held.
    fn release(guard: Text, exit: Exit) -> (place: Self)
        ensures
            !exit.clears() ==> place == Self::held(&guard),
    {
        proof {
            use_type_invariant(&guard);
        }
        let mut inner = guard.inner;
        match inner.leave(exit) {
            Some(place) => place,
            None => vstd::pervasive::unreached(),
        }
    }

    fn place_ref<'g>(guard: &'g Text) -> (place: &'g Self) {
        proof {
            use_type_invariant(guard);
        }
        match guard.inner.place_ref() {
            Some(place) => place,
            None => vstd::pervasive::unreached(),
        }
    }

    fn place_mut<'g>(guard: &'g mut Text) -> (place: &'g mut Self) {
        proof {
            use_type_invariant(&*guard);
        }
        match guard.inner.place_mut() {
            Some(place) => place,
            None => vstd::pervasive::unreached(),
        }
    }

    fn target_ref<'g>(guard: &'g Text) -> (target: &'g str) {
        proof {
            use_type_invariant(guard);
        }
        match guard.inner.place_ref() {
            Some(place) => text_ref(place),
            None => vstd::pervasive::unreached(),
        }
    }

    fn target_mut<'g>(guard: &'g mut Text) -> (target: &'g mut str) {
        proof {
            use_type_invariant(&*guard);
        }
        match guard.inner.target_mut() {
            Some(target) => target,
            None => vstd::pervasive::unreached(),
        }
    }
}

} // verus!
