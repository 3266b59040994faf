//! Where the three artifacts of a secret live in the bucket, and how a
//! listing of the bucket is read back into secret names.

use vstd::prelude::*;

verus! {

/// Suffix of the artifact that holds the wrapped data key.
pub open spec fn key_suffix() -> Seq<char> {
    ".key"@
}

/// Suffix of the artifact that holds the cipher text.
pub open spec fn cipher_suffix() -> Seq<char> {
    ".aesgcm.encrypted"@
}

/// Suffix of the artifact that holds the encryption metadata.
pub open spec fn meta_suffix() -> Seq<char> {
    ".meta"@
}

/// The base identifier of a secret: the vault's prefix, then the name.
pub open spec fn base_name(prefix: Seq<char>, name: Seq<char>) -> Seq<char> {
    prefix + name
}

/// The secret that an object of the bucket is the cipher text of, if it is
/// the cipher text of one.
pub open spec fn secret_of(object: Seq<char>) -> Option<Seq<char>> {
    if cipher_suffix().is_suffix_of(object) {
        Some(object.subrange(0, object.len() - cipher_suffix().len()))
    } else {
        None
    }
}

/// The three object identifiers of one secret.
#[derive(Debug, Clone, PartialEq, Eq)]
pub struct S3DataKeys {
    /// Where the wrapped data key is kept.
    pub key: String,
    /// Where the cipher text is kept.
    pub cipher: String,
    /// Where the encryption metadata is kept.
    pub meta: String,
}

/// The mathematical content of [`S3DataKeys`].
pub struct S3DataKeysView {
    pub key: Seq<char>,
    pub cipher: Seq<char>,
    pub meta: Seq<char>,
}

impl View for S3DataKeys {
    type V = S3DataKeysView;

    open spec fn view(&self) -> S3DataKeysView {
        S3DataKeysView { key: self.key@, cipher: self.cipher@, meta: self.meta@ }
    }
}

/// The identifiers that the secret with base identifier `base` occupies.
pub open spec fn data_keys(base: Seq<char>) -> S3DataKeysView {
    S3DataKeysView {
        key: base + key_suffix(),
        cipher: base + cipher_suffix(),
        meta: base + meta_suffix(),
    }
}

impl S3DataKeysView {
    /// The identifiers in the order a batch request names them.
    pub open spec fn identifiers(self) -> Seq<Seq<char>> {
        seq![self.key, self.cipher, self.meta]
    }
}

/// `str::strip_suffix` of std, for a string suffix.
///
/// Trusted: the part before the suffix where the text ends with it, nothing
/// where it does not.
#[verifier::external_body]
fn strip_suffix(text: &str, suffix: &str) -> (head: Option<String>)
    ensures
        head is Some <==> suffix@.is_suffix_of(text@),
        head matches Some(h) ==> h@ + suffix@ == text@,
{
    text.strip_suffix(suffix).map(|head| head.to_owned())
}

impl S3DataKeys {
    /// The identifiers of the secret with base identifier `name`.
    pub fn new(name: &str) -> (keys: S3DataKeys)
        ensures
            keys@ == data_keys(name@),
    {
        S3DataKeys {
            key: String::from_str(name).concat(".key"),
            cipher: String::from_str(name).concat(".aesgcm.encrypted"),
            meta: String::from_str(name).concat(".meta"),
        }
    }

    /// The identifiers a batch deletion names: key, cipher text, metadata.
    pub fn to_object_identifiers(&self) -> (identifiers: Vec<String>)
        ensures
            identifiers.deep_view() == self@.identifiers(),
    {
        let mut identifiers: Vec<String> = Vec::new();
        identifiers.push(self.key.clone());
        identifiers.push(self.cipher.clone());
        identifiers.push(self.meta.clone());
        assert(identifiers.deep_view() =~= self@.identifiers());
        identifiers
    }
}

/// The base identifier of the secret `name` under `prefix`.
pub fn full_key_name(prefix: &str, name: &str) -> (base: String)
    ensures
        base@ == base_name(prefix@, name@),
{
    String::from_str(prefix).concat(name)
}

/// The secret named by a listed object: the object's identifier without the
/// cipher-text suffix, and nothing for an object that is no cipher text.
pub fn secret_name(object: &str) -> (name: Option<String>)
    ensures
        name.deep_view() == secret_of(object@),
{
    let name = strip_suffix(object, ".aesgcm.encrypted");
    assert(name matches Some(head) ==> head@ =~= object@.subrange(
        0,
        object@.len() - cipher_suffix().len(),
    ));
    name
}

/// The secret names that a listing of the bucket shows, in the order of the
/// listing: one for each listed object that is a cipher text.
pub open spec fn listed(objects: Seq<Option<Seq<char>>>) -> Seq<Seq<char>>
    decreases objects.len(),
{
    if objects.len() == 0 {
        Seq::empty()
    } else {
        let earlier = listed(objects.drop_last());
        match objects.last() {
            Some(object) => match secret_of(object) {
                Some(name) => earlier.push(name),
                None => earlier,
            },
            None => earlier,
        }
    }
}

/// Reads a listing of the bucket back into secret names.
///
/// `objects` holds the identifier of each listed object, or nothing for an
/// object that the service listed without one.
pub fn secret_names(objects: &Vec<Option<String>>) -> (names: Vec<String>)
    ensures
        names.deep_view() == listed(objects.deep_view()),
{
    let mut names: Vec<String> = Vec::new();
    let mut i: usize = 0;
    assert(objects.deep_view().take(0) =~= Seq::empty());
    while i < objects.len()
        invariant
            i <= objects.len(),
            names.deep_view() == listed(objects.deep_view().take(i as int)),
        decreases objects.len() - i,
    {
        let ghost before = names.deep_view();
        let ghost seen = objects.deep_view().take(i as int + 1);
        assert(seen.drop_last() =~= objects.deep_view().take(i as int));
        assert(seen.last() == objects[i as int].deep_view());
        match &objects[i] {
            Some(object) => {
                match secret_name(object.as_str()) {
                    Some(name) => {
                        names.push(name);
                        assert(names.deep_view() =~= before.push(name@));
                    },
                    None => {},
                }
            },
            None => {},
        }
        i += 1;
    }
    assert(objects.deep_view().take(i as int) =~= objects.deep_view());
    names
}

/// The three identifiers of one secret differ from each other.
pub proof fn lemma_identifiers_distinct(base: Seq<char>)
    ensures
        data_keys(base).key != data_keys(base).cipher,
        data_keys(base).key != data_keys(base).meta,
        data_keys(base).cipher != data_keys(base).meta,
{
    lemma_identifier_names_secret(base, base);
}

/// An object identifier names its secret and its role: two secrets share an
/// identifier only if they are the same secret, and then only in the same
/// role. This holds for every base identifier, also for one that itself ends
/// in one of the three suffixes, because the suffixes end in three different
/// characters.
pub proof fn lemma_identifier_names_secret(a: Seq<char>, b: Seq<char>)
    ensures
        data_keys(a).key == data_keys(b).key ==> a == b,
        data_keys(a).cipher == data_keys(b).cipher ==> a == b,
        data_keys(a).meta == data_keys(b).meta ==> a == b,
        data_keys(a).key != data_keys(b).cipher,
        data_keys(a).key != data_keys(b).meta,
        data_keys(a).cipher != data_keys(b).meta,
{
    reveal_strlit(".key");
    reveal_strlit(".aesgcm.encrypted");
    reveal_strlit(".meta");
    lemma_same_suffix_same_head(a, b, key_suffix());
    lemma_same_suffix_same_head(a, b, cipher_suffix());
    lemma_same_suffix_same_head(a, b, meta_suffix());
    assert((a + key_suffix()).last() == 'y');
    assert((b + cipher_suffix()).last() == 'd');
    assert((b + meta_suffix()).last() == 'a');
    assert((a + cipher_suffix()).last() == 'd');
}

/// Two texts with the same tail are equal only if their heads are.
proof fn lemma_same_suffix_same_head(a: Seq<char>, b: Seq<char>, tail: Seq<char>)
    ensures
        a + tail == b + tail ==> a == b,
{
    if a + tail == b + tail {
        assert((a + tail).len() == a.len() + tail.len());
        assert((b + tail).len() == b.len() + tail.len());
        assert forall|i: int| 0 <= i < a.len() implies a[i] == b[i] by {
            assert((a + tail)[i] == a[i]);
            assert((b + tail)[i] == b[i]);
        }
        assert(a =~= b);
    }
}

/// Suffix-stripping recovers a secret's base identifier exactly from its
/// cipher-text object, and finds no secret in its other two objects.
pub proof fn lemma_secret_of_identifiers(base: Seq<char>)
    ensures
        secret_of(data_keys(base).cipher) == Some(base),
        secret_of(data_keys(base).key) is None,
        secret_of(data_keys(base).meta) is None,
{
    reveal_strlit(".key");
    reveal_strlit(".aesgcm.encrypted");
    reveal_strlit(".meta");
    let cipher = base + cipher_suffix();
    assert(cipher.subrange(cipher.len() - cipher_suffix().len(), cipher.len() as int)
        =~= cipher_suffix());
    assert(cipher.subrange(0, cipher.len() - cipher_suffix().len()) =~= base);
    lemma_suffix_fixes_last(base + key_suffix(), cipher_suffix());
    lemma_suffix_fixes_last(base + meta_suffix(), cipher_suffix());
    assert((base + key_suffix()).last() == 'y');
    assert((base + meta_suffix()).last() == 'a');
}

/// A text that ends with a non-empty tail ends with the tail's last
/// character.
proof fn lemma_suffix_fixes_last(text: Seq<char>, tail: Seq<char>)
    requires
        tail.len() > 0,
    ensures
        tail.is_suffix_of(text) ==> text.len() > 0 && text.last() == tail.last(),
{
    if tail.is_suffix_of(text) {
        let from = text.len() - tail.len();
        assert(text.subrange(from, text.len() as int)[tail.len() - 1] == text[text.len() - 1]);
    }
}

/// An object stands for a secret exactly if it is that secret's cipher-text
/// object.
pub proof fn lemma_secret_of_inverts(object: Seq<char>, base: Seq<char>)
    ensures
        secret_of(object) == Some(base) <==> object == data_keys(base).cipher,
{
    lemma_secret_of_identifiers(base);
    if secret_of(object) == Some(base) {
        let cut = object.len() - cipher_suffix().len();
        assert(object =~= object.subrange(0, cut) + object.subrange(cut, object.len() as int));
    }
}

/// Listing correctness: a name is listed exactly if the listing holds the
/// cipher-text object of that name, whatever the order of the listing.
pub proof fn lemma_listed_names(objects: Seq<Option<Seq<char>>>, base: Seq<char>)
    ensures
        listed(objects).contains(base) <==> objects.contains(Some(data_keys(base).cipher)),
    decreases objects.len(),
{
    let wanted = Some(data_keys(base).cipher);
    if objects.len() == 0 {
    } else {
        let earlier = objects.drop_last();
        lemma_listed_names(earlier, base);
        match objects.last() {
            Some(object) => {
                lemma_secret_of_inverts(object, base);
            },
            None => {},
        }
        if listed(objects).contains(base) {
            let i = choose|i: int| 0 <= i < listed(objects).len() && listed(objects)[i] == base;
            if i < listed(earlier).len() {
                assert(listed(earlier)[i] == base);
                let j = choose|j: int| 0 <= j < earlier.len() && earlier[j] == wanted;
                assert(objects[j] == wanted);
            } else {
                assert(objects[objects.len() - 1] == wanted);
            }
        }
        if objects.contains(wanted) {
            let j = choose|j: int| 0 <= j < objects.len() && objects[j] == wanted;
            if j < earlier.len() {
                assert(earlier[j] == wanted);
                let i = choose|i: int| 0 <= i < listed(earlier).len() && listed(earlier)[i] == base;
                assert(listed(objects)[i] == base);
            } else {
                assert(listed(objects).last() == base);
            }
        }
    }
}

} // verus!
