//! What a lookup hands back: the decrypted bytes, tagged as text when they
//! are text.

use vstd::prelude::*;
use vstd::utf8::{decode_utf8, decode_utf8_encode_utf8, encode_utf8, encode_utf8_valid_utf8, valid_utf8};

verus! {

/// A decrypted payload.
///
/// The tag is advisory: both variants stand for a byte sequence, see
/// [`Value::bytes`], and that sequence is what was stored.
#[derive(Debug, Clone, PartialEq, Eq)]
pub enum Value {
    /// The payload is valid UTF-8.
    Utf8(String),
    /// The payload is not valid UTF-8.
    Binary(Vec<u8>),
}

/// The mathematical content of a [`Value`].
pub enum ValueView {
    Utf8(Seq<char>),
    Binary(Seq<u8>),
}

impl ValueView {
    /// The bytes the value stands for.
    pub open spec fn bytes(self) -> Seq<u8> {
        match self {
            ValueView::Utf8(text) => encode_utf8(text),
            ValueView::Binary(bytes) => bytes,
        }
    }
}

/// The value that a payload is classified as: text exactly when the bytes
/// are valid UTF-8.
pub open spec fn classified(bytes: Seq<u8>) -> ValueView {
    if valid_utf8(bytes) {
        ValueView::Utf8(decode_utf8(bytes))
    } else {
        ValueView::Binary(bytes)
    }
}

impl View for Value {
    type V = ValueView;

    open spec fn view(&self) -> ValueView {
        match self {
            Value::Utf8(text) => ValueView::Utf8(text@),
            Value::Binary(bytes) => ValueView::Binary(bytes@),
        }
    }
}

/// `String::from_utf8` of std, with the rejected bytes handed back by
/// `FromUtf8Error::into_bytes`.
///
/// Trusted: valid UTF-8 becomes the string of the characters it encodes;
/// anything else comes back unchanged.
#[verifier::external_body]
fn string_from_utf8(bytes: Vec<u8>) -> (r: Result<String, Vec<u8>>)
    ensures
        r is Ok <==> valid_utf8(bytes@),
        r matches Ok(text) ==> text@ == decode_utf8(bytes@),
        r matches Err(rejected) ==> rejected@ == bytes@,
{
    match String::from_utf8(bytes) {
        Ok(text) => Ok(text),
        Err(error) => Err(error.into_bytes()),
    }
}

impl Value {
    /// Classifies decrypted bytes. Never fails: bytes that are not text stay
    /// bytes.
    pub fn new(bytes: Vec<u8>) -> (value: Value)
        ensures
            value@ == classified(bytes@),
            value@.bytes() == bytes@,
    {
        proof {
            if valid_utf8(bytes@) {
                decode_utf8_encode_utf8(bytes@);
            }
        }
        match string_from_utf8(bytes) {
            Ok(text) => Value::Utf8(text),
            Err(rejected) => Value::Binary(rejected),
        }
    }

    /// The payload as bytes, whatever its tag.
    pub fn to_bytes(&self) -> (bytes: Vec<u8>)
        ensures
            bytes@ == self@.bytes(),
    {
        match self {
            Value::Utf8(text) => text.as_str().as_bytes_vec(),
            Value::Binary(bytes) => bytes.clone(),
        }
    }
}

/// Classification loses nothing: the classified value stands for exactly the
/// bytes that were classified, valid text or not.
pub proof fn lemma_classified_keeps_bytes(bytes: Seq<u8>)
    ensures
        classified(bytes).bytes() == bytes,
        classified(bytes) is Utf8 <==> valid_utf8(bytes),
{
    if valid_utf8(bytes) {
        decode_utf8_encode_utf8(bytes);
    }
}

/// A text value is always classified as text again: encoding text gives valid
/// UTF-8, and decoding that gives the text back.
pub proof fn lemma_text_classified_as_text(text: Seq<char>)
    ensures
        classified(encode_utf8(text)) == ValueView::Utf8(text),
{
    encode_utf8_valid_utf8(text);
    vstd::utf8::encode_utf8_decode_utf8(text);
}

} // verus!
