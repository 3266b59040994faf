use nitor_vault::codec::Meta;
use nitor_vault::VaultError;

const NONCE: [u8; 12] = [0, 1, 2, 3, 4, 5, 6, 7, 8, 9, 10, 11];

#[test]
fn aesgcm_meta_holds_the_tag_and_the_base64_nonce() {
    let meta = Meta::aesgcm(&NONCE);
    assert_eq!(meta.alg, "aesgcm");
    assert_eq!(meta.nonce, "AAECAwQFBgcICQoL");
}

#[test]
fn nonce_of_zeros_is_sixteen_a() {
    assert_eq!(Meta::aesgcm(&[0; 12]).nonce, "AAAAAAAAAAAAAAAA");
}

#[test]
fn nonce_of_ones_uses_the_slash() {
    assert_eq!(Meta::aesgcm(&[0xff; 12]).nonce, "////////////////");
}

#[test]
fn new_keeps_the_algorithm() {
    let meta = Meta::new("other", &NONCE);
    assert_eq!(meta.alg, "other");
    assert_eq!(meta.nonce, "AAECAwQFBgcICQoL");
}

#[test]
fn to_json_writes_nonce_then_alg_without_spaces() {
    assert_eq!(
        Meta::aesgcm(&NONCE).to_json(),
        Ok("{\"nonce\":\"AAECAwQFBgcICQoL\",\"alg\":\"aesgcm\"}".to_string())
    );
}

#[test]
fn to_json_document_has_forty_three_bytes() {
    assert_eq!(Meta::aesgcm(&NONCE).to_json().unwrap().len(), 43);
}

#[test]
fn to_json_escapes_what_needs_escaping() {
    let meta = Meta { alg: "a\"b\\c\n".to_string(), nonce: "n".to_string() };
    assert_eq!(meta.to_json(), Ok("{\"nonce\":\"n\",\"alg\":\"a\\\"b\\\\c\\n\"}".to_string()));
}

#[test]
fn from_json_reads_back_what_to_json_wrote() {
    for meta in [
        Meta::aesgcm(&NONCE),
        Meta::new("", &[7; 12]),
        Meta { alg: "a\"b\\c\n\u{1}é".to_string(), nonce: "not base64 {}".to_string() },
    ] {
        let document = meta.to_json().unwrap();
        assert_eq!(Meta::from_json(document.as_bytes()), Ok(meta));
    }
}

#[test]
fn from_json_accepts_any_order_and_spacing() {
    let document = b" { \"alg\" : \"AESGCM\" ,\n \"extra\": [1, 2], \"nonce\" : \"AAECAwQFBgcICQoL\" } ";
    assert_eq!(
        Meta::from_json(document),
        Ok(Meta { alg: "AESGCM".to_string(), nonce: "AAECAwQFBgcICQoL".to_string() })
    );
}

#[test]
fn from_json_rejects_what_is_no_json() {
    assert_eq!(Meta::from_json(b""), Err(VaultError::EncryptObjectMetaToJsonError));
    assert_eq!(Meta::from_json(b"{\"nonce\":"), Err(VaultError::EncryptObjectMetaToJsonError));
    assert_eq!(Meta::from_json(&[0xff, 0xfe]), Err(VaultError::EncryptObjectMetaToJsonError));
}

#[test]
fn from_json_rejects_a_missing_member() {
    assert_eq!(
        Meta::from_json(b"{\"nonce\":\"AAECAwQFBgcICQoL\"}"),
        Err(VaultError::EncryptObjectMetaToJsonError)
    );
    assert_eq!(Meta::from_json(b"{\"alg\":\"aesgcm\"}"), Err(VaultError::EncryptObjectMetaToJsonError));
    assert_eq!(Meta::from_json(b"{}"), Err(VaultError::EncryptObjectMetaToJsonError));
}

#[test]
fn from_json_rejects_members_that_are_no_strings() {
    assert_eq!(
        Meta::from_json(b"{\"nonce\":12,\"alg\":\"aesgcm\"}"),
        Err(VaultError::EncryptObjectMetaToJsonError)
    );
    assert_eq!(
        Meta::from_json(b"{\"nonce\":\"AAECAwQFBgcICQoL\",\"alg\":null}"),
        Err(VaultError::EncryptObjectMetaToJsonError)
    );
}

#[test]
fn from_json_rejects_documents_that_are_no_objects() {
    assert_eq!(Meta::from_json(b"[\"aesgcm\",\"AAECAwQFBgcICQoL\"]"), Err(VaultError::EncryptObjectMetaToJsonError));
    assert_eq!(Meta::from_json(b"\"nonce\""), Err(VaultError::EncryptObjectMetaToJsonError));
}

#[test]
fn nonce_bytes_decode_the_base64_text() {
    assert_eq!(Meta::aesgcm(&NONCE).nonce_bytes(), Ok(NONCE));
    let meta = Meta { alg: "aesgcm".to_string(), nonce: "////////////////".to_string() };
    assert_eq!(meta.nonce_bytes(), Ok([0xff; 12]));
}

#[test]
fn nonce_bytes_reject_what_is_no_base64() {
    for text in ["not base64!!", "AAECAwQFBgcICQo", "AAECAwQFBgcICQoL=", "AAECAwQFBgcICQo*"] {
        let meta = Meta { alg: "aesgcm".to_string(), nonce: text.to_string() };
        assert_eq!(meta.nonce_bytes(), Err(VaultError::NonceParseError));
    }
}

#[test]
fn nonce_bytes_reject_other_lengths_than_twelve() {
    // base64 of eleven bytes, of thirteen bytes, and of none
    for text in ["AAECAwQFBgcICQo=", "AAECAwQFBgcICQoLDA==", ""] {
        let meta = Meta { alg: "aesgcm".to_string(), nonce: text.to_string() };
        assert_eq!(meta.nonce_bytes(), Err(VaultError::NonceParseError));
    }
}
