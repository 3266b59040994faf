//! The metadata sidecar of a secret: which algorithm sealed it and under
//! which nonce, as one small JSON document.
//!
//! The document is stored beside the cipher text and is, byte for byte, the
//! associated data of the encryption. It is never rewritten on the way in:
//! what is authenticated is what was stored.

use base64::Engine;
use serde::ser::SerializeMap;
use serde::Serializer;
use vstd::prelude::*;
use vstd::utf8::encode_utf8;

use crate::errors::VaultError;

verus! {

/// Length of a nonce in bytes.
pub const NONCE_LENGTH: usize = 12;

/// Length of a nonce's base64 text in characters.
pub const NONCE_TEXT_LENGTH: usize = 16;

/// Longest input handed to the base64 encoder; its text still fits a `usize`
/// on every machine.
pub const BASE64_INPUT_MAX: usize = 0x3fff_ffff;

/// The tag of the one algorithm the vault seals with.
pub open spec fn aesgcm_tag() -> Seq<char> {
    "aesgcm"@
}

/// Name of the member that holds the nonce.
pub open spec fn nonce_member() -> Seq<char> {
    "nonce"@
}

/// Name of the member that holds the algorithm tag.
pub open spec fn alg_member() -> Seq<char> {
    "alg"@
}

/// The text that `base64`'s standard engine encodes `bytes` as.
pub uninterp spec fn base64_text(bytes: Seq<u8>) -> Seq<char>;

/// The bytes that `base64`'s standard engine decodes `text` to, where it
/// accepts the text.
pub uninterp spec fn base64_bytes(text: Seq<char>) -> Option<Seq<u8>>;

/// The string that `serde_json` reads at `member` of the JSON object in
/// `document`; nothing where the document is no JSON object or holds no
/// string there.
pub uninterp spec fn json_member_text(document: Seq<u8>, member: Seq<char>) -> Option<Seq<char>>;

/// The JSON object of two string members that `serde_json` writes, where it
/// writes one.
pub uninterp spec fn json_object_text(
    first: Seq<char>,
    first_text: Seq<char>,
    second: Seq<char>,
    second_text: Seq<char>,
) -> Option<Seq<char>>;

/// A character of the standard base64 alphabet, or the padding character.
pub open spec fn is_base64_char(c: char) -> bool {
    ||| 'A' <= c <= 'Z'
    ||| 'a' <= c <= 'z'
    ||| '0' <= c <= '9'
    ||| c == '+'
    ||| c == '/'
    ||| c == '='
}

/// Text made of base64 characters only.
pub open spec fn is_base64_alphabet(text: Seq<char>) -> bool {
    forall|i: int| 0 <= i < text.len() ==> is_base64_char(#[trigger] text[i])
}

/// A character that JSON writes inside a string as it is: no quote, no
/// backslash, no control character.
pub open spec fn is_json_plain_char(c: char) -> bool {
    c != '"' && c != '\\' && ' ' <= c
}

/// Text that JSON writes inside a string as it is.
pub open spec fn is_json_plain(text: Seq<char>) -> bool {
    forall|i: int| 0 <= i < text.len() ==> is_json_plain_char(#[trigger] text[i])
}

/// The compact JSON object of two string members whose names and texts need
/// no escaping.
pub open spec fn plain_object(
    first: Seq<char>,
    first_text: Seq<char>,
    second: Seq<char>,
    second_text: Seq<char>,
) -> Seq<char> {
    "{\""@ + first + "\":\""@ + first_text + "\",\""@ + second + "\":\""@ + second_text + "\"}"@
}

/// The metadata document of a nonce text and an algorithm tag.
pub open spec fn meta_document(nonce_text: Seq<char>, alg: Seq<char>) -> Seq<char> {
    plain_object(nonce_member(), nonce_text, alg_member(), alg)
}

/// `Engine::encode` of `base64`, on its `STANDARD` engine.
///
/// Trusted: the result is the encoder's text of the bytes; it holds four
/// characters for every three bytes begun, all of the standard alphabet or
/// padding; and the decoder reads it back as the bytes it was made from. The
/// encoder panics where the length of the text overflows `usize`; the bound
/// on the input rules that out.
#[verifier::external_body]
fn base64_encode(bytes: &[u8]) -> (text: String)
    requires
        bytes@.len() <= BASE64_INPUT_MAX,
    ensures
        text@ == base64_text(bytes@),
        text@.len() == 4 * ((bytes@.len() + 2) / 3),
        is_base64_alphabet(text@),
        base64_bytes(text@) == Some(bytes@),
{
    base64::engine::general_purpose::STANDARD.encode(bytes)
}

#[verifier::external_type_specification]
#[verifier::external_body]
pub struct ExDecodeError(base64::DecodeError);

/// `Engine::decode` of `base64`, on its `STANDARD` engine.
///
/// Trusted: the result is the decoder's reading of the text, and an error
/// exactly where the decoder rejects the text.
#[verifier::external_body]
fn base64_decode(text: &str) -> (bytes: Result<Vec<u8>, base64::DecodeError>)
    ensures
        bytes is Ok <==> base64_bytes(text@) is Some,
        bytes matches Ok(b) ==> base64_bytes(text@) == Some(b@),
{
    base64::engine::general_purpose::STANDARD.decode(text)
}

/// Reads one string member of a JSON object: `serde_json::from_slice` into a
/// `serde_json::Value`, then `Value::get` and `Value::as_str`.
///
/// Trusted: the result is what `serde_json` reads there.
#[verifier::external_body]
fn read_json_member(document: &[u8], member: &str) -> (text: Option<String>)
    ensures
        text is Some <==> json_member_text(document@, member@) is Some,
        text matches Some(t) ==> json_member_text(document@, member@) == Some(t@),
{
    let value: serde_json::Value = serde_json::from_slice(document).ok()?;
    value.get(member)?.as_str().map(|text| text.to_owned())
}

/// Writes a JSON object of two string members, in the order given, with
/// `serde_json::Serializer` through `serde`'s `SerializeMap`.
///
/// Trusted: the result is what `serde_json` writes; it is the compact object
/// spelled out by [`plain_object`] where no name and no text needs escaping;
/// and `serde_json` reads each member back from it, the second one also where
/// both members have the same name.
#[verifier::external_body]
fn write_json_object(first: &str, first_text: &str, second: &str, second_text: &str) -> (document:
    Option<String>)
    ensures
        document.deep_view() == json_object_text(first@, first_text@, second@, second_text@),
        document matches Some(d) ==> {
            &&& json_member_text(encode_utf8(d@), second@) == Some(second_text@)
            &&& first@ != second@ ==> json_member_text(encode_utf8(d@), first@) == Some(
                first_text@,
            )
        },
        is_json_plain(first@) && is_json_plain(first_text@) && is_json_plain(second@)
            && is_json_plain(second_text@) ==> document.deep_view() == Some(
            plain_object(first@, first_text@, second@, second_text@),
        ),
{
    let mut out: Vec<u8> = Vec::new();
    let mut writer = serde_json::Serializer::new(&mut out);
    let mut object = writer.serialize_map(Some(2)).ok()?;
    object.serialize_entry(first, first_text).ok()?;
    object.serialize_entry(second, second_text).ok()?;
    object.end().ok()?;
    String::from_utf8(out).ok()
}

/// Encryption metadata: the algorithm tag and the nonce as base64 text.
#[derive(Debug, Clone, PartialEq, Eq)]
pub struct Meta {
    /// Tag of the algorithm that sealed the payload.
    pub alg: String,
    /// The nonce, base64-encoded.
    pub nonce: String,
}

/// The mathematical content of [`Meta`].
pub struct MetaView {
    pub alg: Seq<char>,
    pub nonce: Seq<char>,
}

impl View for Meta {
    type V = MetaView;

    open spec fn view(&self) -> MetaView {
        MetaView { alg: self.alg@, nonce: self.nonce@ }
    }
}

impl MetaView {
    /// The document that the metadata is written as: what `serde_json` makes
    /// of the two members, nonce first.
    pub open spec fn document(self) -> Option<Seq<char>> {
        json_object_text(nonce_member(), self.nonce, alg_member(), self.alg)
    }

    /// The nonce that the metadata names: its base64 text decoded, where that
    /// gives twelve bytes.
    pub open spec fn nonce_bytes(self) -> Result<Seq<u8>, VaultError> {
        match base64_bytes(self.nonce) {
            Some(bytes) if bytes.len() == NONCE_LENGTH => Ok(bytes),
            _ => Err(VaultError::NonceParseError),
        }
    }
}

/// The metadata that a stored document holds: both members must be there as
/// strings.
pub open spec fn stored_meta(document: Seq<u8>) -> Result<MetaView, VaultError> {
    match (json_member_text(document, alg_member()), json_member_text(document, nonce_member())) {
        (Some(alg), Some(nonce)) => Ok(MetaView { alg, nonce }),
        _ => Err(VaultError::EncryptObjectMetaToJsonError),
    }
}

/// The nonce that a stored document names, or why it names none.
pub open spec fn stored_nonce(document: Seq<u8>) -> Result<Seq<u8>, VaultError> {
    match stored_meta(document) {
        Ok(meta) => meta.nonce_bytes(),
        Err(error) => Err(error),
    }
}

impl Meta {
    /// Metadata for `algorithm` and `nonce`.
    pub fn new(algorithm: &str, nonce: &[u8; 12]) -> (meta: Meta)
        ensures
            meta@ == (MetaView { alg: algorithm@, nonce: base64_text(nonce@) }),
            meta@.nonce.len() == NONCE_TEXT_LENGTH,
            is_base64_alphabet(meta@.nonce),
            meta@.nonce_bytes() == Ok::<Seq<u8>, VaultError>(nonce@),
    {
        Meta { alg: String::from_str(algorithm), nonce: base64_encode(nonce.as_slice()) }
    }

    /// Metadata of a payload sealed with AES-GCM under `nonce`.
    pub fn aesgcm(nonce: &[u8; 12]) -> (meta: Meta)
        ensures
            meta@ == (MetaView { alg: aesgcm_tag(), nonce: base64_text(nonce@) }),
            meta@.nonce.len() == NONCE_TEXT_LENGTH,
            is_base64_alphabet(meta@.nonce),
            meta@.nonce_bytes() == Ok::<Seq<u8>, VaultError>(nonce@),
    {
        Meta::new("aesgcm", nonce)
    }

    /// Writes the metadata as its JSON document.
    ///
    /// What is written reads back as this metadata. Where neither member needs
    /// escaping the document is `{"nonce":"<nonce>","alg":"<alg>"}`, with
    /// nothing between the tokens.
    pub fn to_json(&self) -> (document: Result<String, VaultError>)
        ensures
            match document {
                Ok(d) => self@.document() == Some(d@) && stored_meta(encode_utf8(d@)) == Ok::<
                    MetaView,
                    VaultError,
                >(self@),
                Err(error) => self@.document() is None
                    && error == VaultError::EncryptObjectMetaToJsonError,
            },
            is_json_plain(self@.nonce) && is_json_plain(self@.alg) ==> document.is_ok()
                && document.unwrap()@ == meta_document(self@.nonce, self@.alg),
    {
        proof {
            lemma_member_names();
        }
        match write_json_object("nonce", self.nonce.as_str(), "alg", self.alg.as_str()) {
            Some(document) => Ok(document),
            None => Err(VaultError::EncryptObjectMetaToJsonError),
        }
    }

    /// Reads the metadata out of a stored document.
    pub fn from_json(document: &[u8]) -> (meta: Result<Meta, VaultError>)
        ensures
            match meta {
                Ok(m) => stored_meta(document@) == Ok::<MetaView, VaultError>(m@),
                Err(error) => stored_meta(document@) == Err::<MetaView, VaultError>(error),
            },
    {
        let alg = read_json_member(document, "alg");
        let nonce = read_json_member(document, "nonce");
        match (alg, nonce) {
            (Some(alg), Some(nonce)) => Ok(Meta { alg, nonce }),
            _ => Err(VaultError::EncryptObjectMetaToJsonError),
        }
    }

    /// Decodes the nonce. Text that is no base64, or that decodes to another
    /// number of bytes than twelve, is rejected.
    pub fn nonce_bytes(&self) -> (nonce: Result<[u8; 12], VaultError>)
        ensures
            match nonce {
                Ok(n) => self@.nonce_bytes() == Ok::<Seq<u8>, VaultError>(n@),
                Err(error) => self@.nonce_bytes() == Err::<Seq<u8>, VaultError>(error),
            },
    {
        match base64_decode(self.nonce.as_str()) {
            Ok(bytes) => {
                if bytes.len() != NONCE_LENGTH {
                    return Err(VaultError::NonceParseError);
                }
                let mut nonce: [u8; 12] = [0u8; 12];
                let mut i: usize = 0;
                while i < NONCE_LENGTH
                    invariant
                        i <= NONCE_LENGTH,
                        bytes.len() == NONCE_LENGTH,
                        forall|j: int| 0 <= j < i ==> nonce@[j] == bytes@[j],
                    decreases NONCE_LENGTH - i,
                {
                    nonce[i] = bytes[i];
                    i += 1;
                }
                assert(nonce@ =~= bytes@);
                Ok(nonce)
            },
            Err(_) => Err(VaultError::NonceParseError),
        }
    }
}

/// The two member names differ, and neither needs escaping.
pub proof fn lemma_member_names()
    ensures
        nonce_member() != alg_member(),
        is_json_plain(nonce_member()),
        is_json_plain(alg_member()),
        is_json_plain(aesgcm_tag()),
{
    reveal_strlit("nonce");
    reveal_strlit("alg");
    reveal_strlit("aesgcm");
    assert(nonce_member().len() != alg_member().len());
}

/// Base64 text needs no escaping inside a JSON string.
pub proof fn lemma_base64_is_json_plain(text: Seq<char>)
    requires
        is_base64_alphabet(text),
    ensures
        is_json_plain(text),
{
    assert forall|i: int| 0 <= i < text.len() implies is_json_plain_char(#[trigger] text[i]) by {
        assert(is_base64_char(text[i]));
    }
}

} // verus!
