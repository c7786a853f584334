//! String wrappers built on the sized traits: one that takes any string, and
//! one that takes ASCII strings only.
use vstd::prelude::*;

use vstd::utf8::encode_utf8;

use crate::traits::{
    OpaqueTypedefSized, OpaqueTypedefSizedInfallible, OpaqueTypedefSizedMut, OpaqueTypedefUnsized,
    OpaqueTypedefUnsizedInfallible, OpaqueTypedefUnsizedInfallibleMut, OpaqueTypedefUnsizedMut,
};

verus! {

/// The position of the first byte of a string that is not ASCII.
#[derive(Debug, Clone, Copy, PartialEq, Eq)]
pub struct AsciiError {
    valid_up_to: usize,
}

impl AsciiError {
    /// The index of the first non-ASCII byte.
    pub closed spec fn position(&self) -> usize {
        self.valid_up_to
    }

    /// The length of the ASCII prefix: the index of the first non-ASCII byte.
    pub fn valid_up_to(&self) -> (r: usize)
        ensures
            r == self.position(),
    {
        self.valid_up_to
    }
}

/// A string that is not ASCII, handed back with the position of its first
/// non-ASCII byte.
#[derive(Debug)]
pub struct FromAsciiError {
    string: String,
    error: AsciiError,
}

impl FromAsciiError {
    /// The rejected string.
    pub closed spec fn rejected(&self) -> String {
        self.string
    }

    /// Where the rejected string stops being ASCII.
    pub closed spec fn cause(&self) -> AsciiError {
        self.error
    }

    /// Returns the rejected string.
    pub fn into_string(self) -> (r: String)
        ensures
            r == self.rejected(),
    {
        self.string
    }

    /// Returns where the rejected string stops being ASCII.
    pub fn ascii_error(&self) -> (r: AsciiError)
        ensures
            r == self.cause(),
    {
        self.error
    }
}

/// Every byte of `bytes` before `end` is ASCII.
pub open spec fn ascii_prefix(bytes: Seq<u8>, end: int) -> bool {
    forall|i: int| 0 <= i < end ==> #[trigger] bytes[i] < 128
}

/// All the bytes of the text `s` are ASCII.
pub open spec fn is_ascii_text(s: Seq<char>) -> bool {
    ascii_prefix(encode_utf8(s), encode_utf8(s).len() as int)
}

/// Byte `pos` of the text `s` is its first byte that is not ASCII.
pub open spec fn first_non_ascii(s: Seq<char>, pos: int) -> bool {
    &&& 0 <= pos < encode_utf8(s).len()
    &&& encode_utf8(s)[pos] >= 128
    &&& ascii_prefix(encode_utf8(s), pos)
}

/// Accepts `s` when all its bytes are ASCII; otherwise reports the first
/// byte that is not.
pub fn validate_str(s: &str) -> (r: Result<&str, AsciiError>)
    ensures
        match r {
            Ok(t) => t == s && is_ascii_text(s@),
            Err(e) => first_non_ascii(s@, e.position() as int),
        },
{
    let bytes = s.as_bytes();
    let mut i: usize = 0;
    while i < bytes.len()
        invariant
            bytes@ == encode_utf8(s@),
            i <= bytes@.len(),
            ascii_prefix(bytes@, i as int),
        decreases bytes@.len() - i,
    {
        if bytes[i] >= 128 {
            return Err(AsciiError { valid_up_to: i });
        }
        i += 1;
    }
    Ok(s)
}

/// Accepts `s` when all its bytes are ASCII; otherwise hands it back with
/// the position of the first byte that is not.
pub fn validate_string(s: String) -> (r: Result<String, FromAsciiError>)
    ensures
        match r {
            Ok(t) => t == s && is_ascii_text(s@),
            Err(e) => e.rejected() == s && first_non_ascii(s@, e.cause().position() as int),
        },
{
    match validate_str(s.as_str()) {
        Ok(_) => Ok(s),
        Err(e) => Err(FromAsciiError { string: s, error: e }),
    }
}

/// A string of any content, as a type of its own.
#[derive(Debug, Clone)]
pub struct MyString(String);

impl OpaqueTypedefSized for MyString {
    type Inner = String;
    type Error = core::convert::Infallible;

    closed spec fn inner_value(&self) -> String {
        self.0
    }

    open spec fn accepts(inner: String) -> bool {
        true
    }

    fn try_from_inner(inner: String) -> (r: Result<Self, Self::Error>) {
        Ok(MyString(inner))
    }

    fn from_inner_unchecked(inner: String) -> (r: Self) {
        MyString(inner)
    }

    fn into_inner(self) -> (r: String) {
        self.0
    }

    fn as_inner(&self) -> (r: &String) {
        &self.0
    }
}

impl OpaqueTypedefSizedInfallible for MyString {
    fn from_inner(inner: String) -> (r: Self) {
        MyString(inner)
    }
}

impl OpaqueTypedefSizedMut for MyString {
    fn as_inner_mut(&mut self) -> (r: &mut String) {
        &mut self.0
    }
}

/// A string whose bytes are all ASCII.
#[derive(Debug, Clone)]
pub struct AsciiString(String);

impl OpaqueTypedefSized for AsciiString {
    type Inner = String;
    type Error = FromAsciiError;

    closed spec fn inner_value(&self) -> String {
        self.0
    }

    open spec fn accepts(inner: String) -> bool {
        is_ascii_text(inner@)
    }

    fn try_from_inner(inner: String) -> (r: Result<Self, Self::Error>) {
        match validate_string(inner) {
            Ok(s) => Ok(AsciiString(s)),
            Err(e) => Err(e),
        }
    }

    fn from_inner_unchecked(inner: String) -> (r: Self) {
        AsciiString(inner)
    }

    fn into_inner(self) -> (r: String) {
        self.0
    }

    fn as_inner(&self) -> (r: &String) {
        &self.0
    }
}

impl OpaqueTypedefSizedMut for AsciiString {
    fn as_inner_mut(&mut self) -> (r: &mut String) {
        &mut self.0
    }
}

/// A string slice taken as its own unsized wrapper: every string is
/// accepted and every conversion hands back the same slice.
pub type MyStr = str;

impl OpaqueTypedefUnsized for str {
    type Inner = str;
    type Error = core::convert::Infallible;

    open spec fn accepts(inner: &str) -> bool {
        true
    }

    open spec fn inner_of(w: &str) -> &str {
        w
    }

    fn try_from_inner(inner: &str) -> (r: Result<&str, Self::Error>) {
        Ok(inner)
    }

    fn from_inner_unchecked(inner: &str) -> (r: &str) {
        inner
    }

    fn as_inner(&self) -> (r: &str) {
        self
    }
}

impl OpaqueTypedefUnsizedInfallible for str {
    fn from_inner(inner: &str) -> (r: &str) {
        inner
    }
}

impl OpaqueTypedefUnsizedMut for str {
    fn try_from_inner_mut(inner: &mut str) -> (r: Result<&mut str, Self::Error>) {
        Ok(inner)
    }

    fn from_inner_unchecked_mut(inner: &mut str) -> (r: &mut str) {
        inner
    }

    fn as_inner_mut(&mut self) -> (r: &mut str) {
        self
    }
}

impl OpaqueTypedefUnsizedInfallibleMut for str {
    fn from_inner_mut(inner: &mut str) -> (r: &mut str) {
        inner
    }
}

} // verus!
