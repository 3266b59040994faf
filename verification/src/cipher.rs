//! Envelope encryption of one payload: sealing it under a data key into the
//! three artifacts that are stored, and opening what was fetched.
//!
//! The data key comes from the key-management service and is handed in; this
//! module never asks for it and never keeps it.

use aes_gcm::aead::{Aead, Payload};
use aes_gcm::{Aes256Gcm, KeyInit, Nonce};
use rand::RngCore;
use vstd::prelude::*;
use vstd::utf8::{encode_utf8, is_ascii_chars, is_ascii_chars_encode_utf8};

use crate::codec::{
    aesgcm_tag, base64_text, is_base64_alphabet, lemma_base64_is_json_plain, lemma_member_names,
    meta_document, stored_nonce, Meta, NONCE_LENGTH, NONCE_TEXT_LENGTH,
};
use crate::errors::VaultError;
use crate::value::{classified, Value};

verus! {

/// Length of a data key in bytes.
pub const KEY_LENGTH: usize = 32;

/// Length of the authentication tag that ends a cipher text.
pub const TAG_LENGTH: usize = 16;

/// Longest payload the cipher seals, in bytes.
pub const PAYLOAD_MAX: u64 = 0x10_0000_0000;

/// Longest associated data the cipher authenticates, in bytes.
pub const ASSOCIATED_DATA_MAX: u64 = 0x10_0000_0000;

/// Length of the metadata document of a sealed payload, in bytes.
pub const META_DOCUMENT_LENGTH: usize = 43;

/// The cipher text and tag that `aes_gcm` seals `message` into under a
/// 256-bit key and a 96-bit nonce, with `associated` authenticated beside it.
pub uninterp spec fn aes256_gcm_sealed(
    key: Seq<u8>,
    nonce: Seq<u8>,
    associated: Seq<u8>,
    message: Seq<u8>,
) -> Seq<u8>;

/// The message that `aes_gcm` opens `sealed` to under a 256-bit key and a
/// 96-bit nonce with `associated` beside it, where the tag verifies.
pub uninterp spec fn aes256_gcm_opened(
    key: Seq<u8>,
    nonce: Seq<u8>,
    associated: Seq<u8>,
    sealed: Seq<u8>,
) -> Option<Seq<u8>>;

/// Whether the cipher takes a message with its associated data: neither may
/// be longer than the cipher's limit.
pub open spec fn within_limits(associated: Seq<u8>, message: Seq<u8>) -> bool {
    message.len() <= PAYLOAD_MAX && associated.len() <= ASSOCIATED_DATA_MAX
}

#[verifier::external_type_specification]
#[verifier::external_body]
pub struct ExAeadError(aes_gcm::Error);

/// `Aead::encrypt` of `aes_gcm`, on an `Aes256Gcm` made by
/// `KeyInit::new_from_slice`.
///
/// Trusted: sealing succeeds exactly where payload and associated data are
/// within the cipher's limits; the result is the cipher's sealing of the
/// message, one tag longer than the message; and the cipher opens it to the
/// message again under the same key, nonce and associated data. The lengths
/// required of key and nonce are those outside of which the cipher refuses
/// the key or panics on the nonce.
#[verifier::external_body]
fn aes256_gcm_seal(key: &[u8], nonce: &[u8], associated: &[u8], message: &[u8]) -> (sealed: Result<
    Vec<u8>,
    aes_gcm::Error,
>)
    requires
        key@.len() == KEY_LENGTH,
        nonce@.len() == NONCE_LENGTH,
    ensures
        sealed is Ok <==> within_limits(associated@, message@),
        sealed matches Ok(s) ==> {
            &&& s@ == aes256_gcm_sealed(key@, nonce@, associated@, message@)
            &&& s@.len() == message@.len() + TAG_LENGTH
            &&& aes256_gcm_opened(key@, nonce@, associated@, s@) == Some(message@)
        },
{
    let cipher = Aes256Gcm::new_from_slice(key).map_err(|_| aes_gcm::Error)?;
    cipher.encrypt(Nonce::from_slice(nonce), Payload { msg: message, aad: associated })
}

/// `Aead::decrypt` of `aes_gcm`, on an `Aes256Gcm` made by
/// `KeyInit::new_from_slice`.
///
/// Trusted: the result is the cipher's opening of the sealed bytes, and an
/// error exactly where the cipher refuses them. The lengths required of key
/// and nonce are those outside of which the cipher refuses the key or panics
/// on the nonce.
#[verifier::external_body]
fn aes256_gcm_open(key: &[u8], nonce: &[u8], associated: &[u8], sealed: &[u8]) -> (message: Result<
    Vec<u8>,
    aes_gcm::Error,
>)
    requires
        key@.len() == KEY_LENGTH,
        nonce@.len() == NONCE_LENGTH,
    ensures
        message is Ok <==> aes256_gcm_opened(key@, nonce@, associated@, sealed@) is Some,
        message matches Ok(m) ==> aes256_gcm_opened(key@, nonce@, associated@, sealed@) == Some(
            m@,
        ),
{
    let cipher = Aes256Gcm::new_from_slice(key).map_err(|_| aes_gcm::Error)?;
    cipher.decrypt(Nonce::from_slice(nonce), Payload { msg: sealed, aad: associated })
}

/// `RngCore::try_fill_bytes` of `rand`, on the operating system's generator
/// `OsRng`.
///
/// Trusted: nothing is claimed of the bytes. They differ from call to call.
/// Where the operating system gives no random bytes, nothing comes back.
#[verifier::external_body]
fn create_random_nonce() -> (nonce: Option<[u8; 12]>) {
    let mut nonce: [u8; 12] = [0; 12];
    rand::rngs::OsRng.try_fill_bytes(nonce.as_mut_slice()).ok()?;
    Some(nonce)
}

/// The content of bytes that may be absent.
pub open spec fn optional_bytes(bytes: Option<Vec<u8>>) -> Option<Seq<u8>> {
    match bytes {
        Some(b) => Some(b@),
        None => None,
    }
}

/// What the key-management service answered to a request for a data key.
#[derive(Debug, Clone, PartialEq, Eq)]
pub struct DataKey {
    /// The key itself, if the service sent it.
    pub plaintext: Option<Vec<u8>>,
    /// The key wrapped under the master key, if the service sent it.
    pub ciphertext_blob: Option<Vec<u8>>,
}

/// The mathematical content of [`DataKey`].
pub struct DataKeyView {
    pub plaintext: Option<Seq<u8>>,
    pub ciphertext_blob: Option<Seq<u8>>,
}

impl View for DataKey {
    type V = DataKeyView;

    open spec fn view(&self) -> DataKeyView {
        DataKeyView {
            plaintext: optional_bytes(self.plaintext),
            ciphertext_blob: optional_bytes(self.ciphertext_blob),
        }
    }
}

/// The three artifacts of one sealed payload.
#[derive(Debug, Clone, PartialEq, Eq)]
pub struct EncryptObject {
    /// The data key, wrapped under the master key.
    pub data_key: Vec<u8>,
    /// Cipher text and tag of the payload.
    pub aes_gcm_ciphertext: Vec<u8>,
    /// The metadata document, which is also the associated data.
    pub meta: String,
}

/// The mathematical content of [`EncryptObject`].
pub struct EncryptObjectView {
    pub data_key: Seq<u8>,
    pub aes_gcm_ciphertext: Seq<u8>,
    pub meta: Seq<char>,
}

impl View for EncryptObject {
    type V = EncryptObjectView;

    open spec fn view(&self) -> EncryptObjectView {
        EncryptObjectView {
            data_key: self.data_key@,
            aes_gcm_ciphertext: self.aes_gcm_ciphertext@,
            meta: self.meta@,
        }
    }
}

/// The metadata document of a payload sealed under `nonce`.
pub open spec fn sealed_meta(nonce: Seq<u8>) -> Seq<char> {
    meta_document(base64_text(nonce), aesgcm_tag())
}

/// What sealing `data` under the answered data key and `nonce` gives.
///
/// The checks stand in the order in which they are made: the key must be
/// there, it must have the cipher's key length, the payload must be within
/// the cipher's limit, and the wrapped key must be there to be stored.
pub open spec fn sealed(generated: DataKeyView, nonce: Seq<u8>, data: Seq<u8>) -> Result<
    EncryptObjectView,
    VaultError,
> {
    match generated.plaintext {
        None => Err(VaultError::KMSDataKeyPlainTextMissingError),
        Some(key) => if key.len() != KEY_LENGTH {
            Err(VaultError::InvalidNonceLengthError)
        } else if data.len() > PAYLOAD_MAX {
            Err(VaultError::CiphertextEncryptionError)
        } else {
            match generated.ciphertext_blob {
                None => Err(VaultError::CiphertextEncryptionError),
                Some(blob) => Ok(
                    EncryptObjectView {
                        data_key: blob,
                        aes_gcm_ciphertext: aes256_gcm_sealed(
                            key,
                            nonce,
                            encode_utf8(sealed_meta(nonce)),
                            data,
                        ),
                        meta: sealed_meta(nonce),
                    },
                ),
            }
        },
    }
}

/// What opening a fetched cipher text gives, with the fetched metadata
/// document as associated data and the key that the key-management service
/// unwrapped.
///
/// The metadata is read first and the nonce decoded; only then is the key
/// looked at. A cipher text whose tag does not verify opens to nothing: no
/// part of a payload is handed out unauthenticated.
pub open spec fn opened(key: Option<Seq<u8>>, cipher: Seq<u8>, meta: Seq<u8>) -> Result<
    Seq<u8>,
    VaultError,
> {
    match stored_nonce(meta) {
        Err(error) => Err(error),
        Ok(nonce) => match key {
            None => Err(VaultError::KMSDataKeyPlainTextMissingError),
            Some(key) => if key.len() != KEY_LENGTH {
                Err(VaultError::InvalidNonceLengthError)
            } else {
                match aes256_gcm_opened(key, nonce, meta, cipher) {
                    Some(payload) => Ok(payload),
                    None => Err(VaultError::NonceDecryptError),
                }
            },
        },
    }
}

/// Opening hands out a payload only where the cipher authenticated it. Where
/// the cipher refuses cipher text, metadata, nonce and key as they stand
/// together, opening fails: with the error of the metadata where that is
/// malformed, of the key where that is missing or of the wrong length, and
/// with the authentication error otherwise. No input opens to bytes that the
/// cipher did not authenticate.
pub proof fn lemma_unauthenticated_is_refused(key: Seq<u8>, cipher: Seq<u8>, meta: Seq<u8>)
    ensures
        opened(Some(key), cipher, meta) matches Ok(payload) ==> stored_nonce(meta) matches Ok(
            nonce,
        ) && aes256_gcm_opened(key, nonce, meta, cipher) == Some(payload),
        stored_nonce(meta) matches Ok(nonce) && key.len() == KEY_LENGTH && aes256_gcm_opened(
            key,
            nonce,
            meta,
            cipher,
        ) is None ==> opened(Some(key), cipher, meta) == Err::<Seq<u8>, VaultError>(
            VaultError::NonceDecryptError,
        ),
{
}

/// The metadata document of a sealed payload is plain ASCII of a fixed
/// length, so it is stored in as many bytes as it has characters.
pub proof fn lemma_sealed_meta_length(nonce_text: Seq<char>)
    requires
        nonce_text.len() == NONCE_TEXT_LENGTH,
        is_base64_alphabet(nonce_text),
    ensures
        encode_utf8(meta_document(nonce_text, aesgcm_tag())).len() == META_DOCUMENT_LENGTH,
{
    reveal_strlit("{\"");
    reveal_strlit("\":\"");
    reveal_strlit("\",\"");
    reveal_strlit("\"}");
    reveal_strlit("nonce");
    reveal_strlit("alg");
    reveal_strlit("aesgcm");
    let document = meta_document(nonce_text, aesgcm_tag());
    assert(document.len() == META_DOCUMENT_LENGTH);
    assert forall|i: int| 0 <= i < document.len() implies '\0' <= #[trigger] document[i]
        <= '\u{7f}' by {
        if 10 <= i < 26 {
            assert(document[i] == nonce_text[i - 10]);
            assert(crate::codec::is_base64_char(nonce_text[i - 10]));
        }
    }
    assert(is_ascii_chars(document));
    is_ascii_chars_encode_utf8(document);
}

/// Seals `data` under the answered data key and the given nonce.
///
/// The result is fixed by the arguments. The cipher text is one tag longer
/// than `data`. What was sealed opens again, under the same key, to exactly
/// `data`: of any bytes, empty or not, text or not.
pub fn encrypt_with_nonce(generated: &DataKey, nonce: &[u8; 12], data: &[u8]) -> (encrypted: Result<
    EncryptObject,
    VaultError,
>)
    ensures
        match encrypted {
            Ok(e) => sealed(generated@, nonce@, data@) == Ok::<EncryptObjectView, VaultError>(e@),
            Err(error) => sealed(generated@, nonce@, data@) == Err::<EncryptObjectView, VaultError>(
                error,
            ),
        },
        encrypted matches Ok(e) ==> opened(
            generated@.plaintext,
            e@.aes_gcm_ciphertext,
            encode_utf8(e@.meta),
        ) == Ok::<Seq<u8>, VaultError>(data@),
        encrypted matches Ok(e) ==> e@.aes_gcm_ciphertext.len() == data@.len() + TAG_LENGTH,
{
    let key = match &generated.plaintext {
        Some(key) => key,
        None => {
            return Err(VaultError::KMSDataKeyPlainTextMissingError);
        },
    };
    if key.len() != KEY_LENGTH {
        return Err(VaultError::InvalidNonceLengthError);
    }
    let meta = Meta::aesgcm(nonce);
    proof {
        lemma_member_names();
        lemma_base64_is_json_plain(meta@.nonce);
        lemma_sealed_meta_length(meta@.nonce);
    }
    let document = match meta.to_json() {
        Ok(document) => document,
        Err(error) => {
            return Err(error);
        },
    };
    let sealed_bytes = match aes256_gcm_seal(
        key.as_slice(),
        nonce.as_slice(),
        document.as_str().as_bytes(),
        data,
    ) {
        Ok(sealed_bytes) => sealed_bytes,
        Err(_) => {
            return Err(VaultError::CiphertextEncryptionError);
        },
    };
    let data_key = match &generated.ciphertext_blob {
        Some(blob) => blob.clone(),
        None => {
            return Err(VaultError::CiphertextEncryptionError);
        },
    };
    Ok(EncryptObject { data_key, aes_gcm_ciphertext: sealed_bytes, meta: document })
}

/// Seals `data` under the answered data key and a fresh random nonce.
///
/// Which nonce is drawn is not known beforehand; whichever it is, the result
/// is what [`encrypt_with_nonce`] gives for it, and it opens again to `data`.
/// Where no nonce can be drawn nothing is sealed.
pub fn encrypt(generated: &DataKey, data: &[u8]) -> (encrypted: Result<EncryptObject, VaultError>)
    ensures
        match encrypted {
            Ok(e) => {
                &&& exists|nonce: Seq<u8>|
                    nonce.len() == NONCE_LENGTH && #[trigger] sealed(generated@, nonce, data@)
                        == Ok::<EncryptObjectView, VaultError>(e@)
                &&& opened(generated@.plaintext, e@.aes_gcm_ciphertext, encode_utf8(e@.meta))
                    == Ok::<Seq<u8>, VaultError>(data@)
                &&& e@.aes_gcm_ciphertext.len() == data@.len() + TAG_LENGTH
            },
            Err(error) => error == seal_refusal(generated@, data@).unwrap_or(
                VaultError::CiphertextEncryptionError,
            ),
        },
        seal_refusal(generated@, data@) is Some ==> encrypted is Err,
{
    match create_random_nonce() {
        Some(nonce) => {
            let encrypted = encrypt_with_nonce(generated, &nonce, data);
            assert(nonce@.len() == NONCE_LENGTH);
            encrypted
        },
        None => match seal_refusal_of(generated, data) {
            Some(error) => Err(error),
            None => Err(VaultError::CiphertextEncryptionError),
        },
    }
}

/// Why a payload cannot be sealed under the answered data key, whatever the
/// nonce; nothing where it can.
pub open spec fn seal_refusal(generated: DataKeyView, data: Seq<u8>) -> Option<VaultError> {
    match generated.plaintext {
        None => Some(VaultError::KMSDataKeyPlainTextMissingError),
        Some(key) => if key.len() != KEY_LENGTH {
            Some(VaultError::InvalidNonceLengthError)
        } else if data.len() > PAYLOAD_MAX {
            Some(VaultError::CiphertextEncryptionError)
        } else if generated.ciphertext_blob is None {
            Some(VaultError::CiphertextEncryptionError)
        } else {
            None
        },
    }
}

/// Sealing is refused for the same reason under every nonce, and succeeds
/// under every nonce where it is not refused.
pub proof fn lemma_seal_refusal(generated: DataKeyView, nonce: Seq<u8>, data: Seq<u8>)
    ensures
        match seal_refusal(generated, data) {
            Some(error) => sealed(generated, nonce, data) == Err::<EncryptObjectView, VaultError>(
                error,
            ),
            None => sealed(generated, nonce, data) is Ok,
        },
{
}

/// Computes [`seal_refusal`].
fn seal_refusal_of(generated: &DataKey, data: &[u8]) -> (refusal: Option<VaultError>)
    ensures
        refusal == seal_refusal(generated@, data@),
{
    match &generated.plaintext {
        None => Some(VaultError::KMSDataKeyPlainTextMissingError),
        Some(key) => {
            if key.len() != KEY_LENGTH {
                Some(VaultError::InvalidNonceLengthError)
            } else if data.len() as u64 > PAYLOAD_MAX {
                Some(VaultError::CiphertextEncryptionError)
            } else if generated.ciphertext_blob.is_none() {
                Some(VaultError::CiphertextEncryptionError)
            } else {
                None
            }
        },
    }
}

/// Reads the nonce out of a fetched metadata document. This is the part of
/// opening that needs no key, and it comes first.
pub fn nonce_of(meta: &[u8]) -> (nonce: Result<[u8; 12], VaultError>)
    ensures
        match nonce {
            Ok(n) => stored_nonce(meta@) == Ok::<Seq<u8>, VaultError>(n@),
            Err(error) => stored_nonce(meta@) == Err::<Seq<u8>, VaultError>(error),
        },
{
    match Meta::from_json(meta) {
        Ok(parsed) => parsed.nonce_bytes(),
        Err(error) => Err(error),
    }
}

/// Opens a fetched cipher text with the fetched metadata document and the
/// key that the key-management service unwrapped, and classifies the payload.
///
/// The payload handed out is exactly what the cipher authenticated under this
/// key, the nonce named by the metadata, and the metadata bytes themselves.
pub fn decrypt(key: &Option<Vec<u8>>, cipher: &[u8], meta: &[u8]) -> (value: Result<
    Value,
    VaultError,
>)
    ensures
        match value {
            Ok(v) => opened(optional_bytes(*key), cipher@, meta@) == Ok::<Seq<u8>, VaultError>(
                v@.bytes(),
            ) && v@ == classified(v@.bytes()),
            Err(error) => opened(optional_bytes(*key), cipher@, meta@) == Err::<Seq<u8>, VaultError>(
                error,
            ),
        },
{
    let nonce = match nonce_of(meta) {
        Ok(nonce) => nonce,
        Err(error) => {
            return Err(error);
        },
    };
    let key = match key {
        Some(key) => key,
        None => {
            return Err(VaultError::KMSDataKeyPlainTextMissingError);
        },
    };
    if key.len() != KEY_LENGTH {
        return Err(VaultError::InvalidNonceLengthError);
    }
    match aes256_gcm_open(key.as_slice(), nonce.as_slice(), meta, cipher) {
        Ok(payload) => Ok(Value::new(payload)),
        Err(_) => Err(VaultError::NonceDecryptError),
    }
}

} // verus!
