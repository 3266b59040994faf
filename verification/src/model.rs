//! A model of the bucket, and what the vault's requests do to it.
//!
//! The bucket is a map from object identifiers to object bodies. A write
//! replaces what is there, a batch deletion removes what it names, a probe or
//! a fetch finds what is there. Over this model the laws of the vault are
//! stated: what was stored is what is looked up, and a name is listed exactly
//! while its secret is stored.

use vstd::prelude::*;
use vstd::utf8::encode_utf8;

use crate::cipher::{opened, EncryptObjectView};
use crate::errors::VaultError;
use crate::layout::{data_keys, lemma_identifier_names_secret, lemma_listed_names, listed};
use crate::vault::{
    joined, looked_up, lookup_gets, probed, store_puts, Probe, PutObjectView, StoredSecretView,
};

verus! {

/// The bucket after a sequence of writes, each replacing what is there.
pub open spec fn after_puts(bucket: Map<Seq<char>, Seq<u8>>, puts: Seq<PutObjectView>) -> Map<
    Seq<char>,
    Seq<u8>,
>
    decreases puts.len(),
{
    if puts.len() == 0 {
        bucket
    } else {
        after_puts(bucket.insert(puts[0].key, puts[0].body), puts.drop_first())
    }
}

/// The bucket after a batch deletion of the objects named.
pub open spec fn after_delete(bucket: Map<Seq<char>, Seq<u8>>, keys: Seq<Seq<char>>) -> Map<
    Seq<char>,
    Seq<u8>,
>
    decreases keys.len(),
{
    if keys.len() == 0 {
        bucket
    } else {
        after_delete(bucket.remove(keys[0]), keys.drop_first())
    }
}

/// How the bucket answers an existence probe.
pub open spec fn probe_of(bucket: Map<Seq<char>, Seq<u8>>, key: Seq<char>) -> Probe {
    if bucket.dom().contains(key) {
        Probe::Found
    } else {
        Probe::NotFound
    }
}

/// How the bucket answers a fetch.
pub open spec fn fetch_of(bucket: Map<Seq<char>, Seq<u8>>, key: Seq<char>) -> Result<
    Seq<u8>,
    VaultError,
> {
    if bucket.dom().contains(key) {
        Ok(bucket[key])
    } else {
        Err(VaultError::S3GetObjectError)
    }
}

/// The bucket after the three writes of a store.
pub open spec fn stored(bucket: Map<Seq<char>, Seq<u8>>, base: Seq<char>, sealed: EncryptObjectView)
    -> Map<Seq<char>, Seq<u8>> {
    after_puts(bucket, store_puts(Seq::empty(), base, sealed))
}

/// The bucket after the batch deletion of a delete.
pub open spec fn deleted(bucket: Map<Seq<char>, Seq<u8>>, base: Seq<char>) -> Map<
    Seq<char>,
    Seq<u8>,
> {
    after_delete(bucket, data_keys(base).identifiers())
}

/// Whether the vault finds a secret in the bucket.
pub open spec fn exists_in(bucket: Map<Seq<char>, Seq<u8>>, base: Seq<char>) -> bool {
    probed(probe_of(bucket, data_keys(base).key)) == Ok::<bool, VaultError>(true)
}

/// What the three fetches of a lookup bring from the bucket.
pub open spec fn fetched_from(bucket: Map<Seq<char>, Seq<u8>>, base: Seq<char>) -> Result<
    StoredSecretView,
    VaultError,
> {
    let gets = lookup_gets(Seq::empty(), base);
    joined(fetch_of(bucket, gets[0].key), fetch_of(bucket, gets[1].key), fetch_of(bucket, gets[2].key))
}

/// What a lookup in the bucket hands back where the key-management service
/// unwraps the stored data key to `key`.
pub open spec fn looked_up_in(bucket: Map<Seq<char>, Seq<u8>>, base: Seq<char>, key: Seq<u8>)
    -> Result<Seq<u8>, VaultError> {
    match fetched_from(bucket, base) {
        Err(error) => Err(error),
        Ok(secret) => looked_up(secret, Ok(Some(key))),
    }
}

/// The names that a full listing of the bucket shows.
pub open spec fn names_in(bucket: Map<Seq<char>, Seq<u8>>) -> Set<Seq<char>> {
    Set::new(|name: Seq<char>| bucket.dom().contains(data_keys(name).cipher))
}

/// The artifacts of a sealed payload as the bucket holds them.
pub open spec fn artifacts(sealed: EncryptObjectView) -> StoredSecretView {
    StoredSecretView {
        data_key: sealed.data_key,
        cipher: sealed.aes_gcm_ciphertext,
        meta: encode_utf8(sealed.meta),
    }
}

/// The three writes of a store put the three artifacts where the three
/// fetches of a lookup find them, and touch nothing else.
pub proof fn lemma_store_writes_artifacts(
    bucket: Map<Seq<char>, Seq<u8>>,
    base: Seq<char>,
    sealed: EncryptObjectView,
)
    ensures
        stored(bucket, base, sealed) == bucket.insert(
            data_keys(base).cipher,
            sealed.aes_gcm_ciphertext,
        ).insert(data_keys(base).key, sealed.data_key).insert(
            data_keys(base).meta,
            encode_utf8(sealed.meta),
        ),
        fetched_from(stored(bucket, base, sealed), base) == Ok::<StoredSecretView, VaultError>(
            artifacts(sealed),
        ),
{
    let puts = store_puts(Seq::empty(), base, sealed);
    let one = bucket.insert(puts[0].key, puts[0].body);
    let two = one.insert(puts[1].key, puts[1].body);
    let three = two.insert(puts[2].key, puts[2].body);
    let after_one = puts.drop_first();
    let after_two = after_one.drop_first();
    let after_three = after_two.drop_first();
    assert(after_one[0] == puts[1]);
    assert(after_two[0] == puts[2]);
    assert(after_three.len() == 0);
    assert(after_puts(three, after_three) == three);
    assert(after_puts(two, after_two) == three);
    assert(after_puts(one, after_one) == three);
    assert(after_puts(bucket, puts) == three);
    lemma_identifier_names_secret(base, base);
}

/// The batch deletion of a delete removes the three artifacts and touches
/// nothing else.
pub proof fn lemma_delete_removes_artifacts(bucket: Map<Seq<char>, Seq<u8>>, base: Seq<char>)
    ensures
        deleted(bucket, base) == bucket.remove(data_keys(base).key).remove(
            data_keys(base).cipher,
        ).remove(data_keys(base).meta),
{
    let keys = data_keys(base).identifiers();
    let one = bucket.remove(keys[0]);
    let two = one.remove(keys[1]);
    let three = two.remove(keys[2]);
    let after_one = keys.drop_first();
    let after_two = after_one.drop_first();
    let after_three = after_two.drop_first();
    assert(after_one[0] == keys[1]);
    assert(after_two[0] == keys[2]);
    assert(after_three.len() == 0);
    assert(after_delete(three, after_three) == three);
    assert(after_delete(two, after_two) == three);
    assert(after_delete(one, after_one) == three);
}

/// Round trip. Whatever the bucket held before: after the writes of a store,
/// a lookup of the same name under the same data key hands back exactly the
/// bytes that the stored artifacts open to, which for the artifacts that
/// [`crate::cipher::encrypt`] makes of a payload is that payload.
pub proof fn lemma_store_then_lookup(
    bucket: Map<Seq<char>, Seq<u8>>,
    base: Seq<char>,
    key: Seq<u8>,
    sealed: EncryptObjectView,
    data: Seq<u8>,
)
    requires
        opened(Some(key), sealed.aes_gcm_ciphertext, encode_utf8(sealed.meta)) == Ok::<
            Seq<u8>,
            VaultError,
        >(data),
    ensures
        looked_up_in(stored(bucket, base, sealed), base, key) == Ok::<Seq<u8>, VaultError>(data),
{
    lemma_store_writes_artifacts(bucket, base, sealed);
}

/// Idempotent overwrite. Storing under a name that is stored already leaves
/// the bucket as if only the second store had happened: a lookup finds the
/// second store's artifacts, and nothing of the first remains.
pub proof fn lemma_overwrite_leaves_no_residue(
    bucket: Map<Seq<char>, Seq<u8>>,
    base: Seq<char>,
    first: EncryptObjectView,
    second: EncryptObjectView,
)
    ensures
        stored(stored(bucket, base, first), base, second) == stored(bucket, base, second),
        fetched_from(stored(stored(bucket, base, first), base, second), base) == Ok::<
            StoredSecretView,
            VaultError,
        >(artifacts(second)),
{
    lemma_store_writes_artifacts(bucket, base, first);
    lemma_store_writes_artifacts(bucket, base, second);
    lemma_store_writes_artifacts(stored(bucket, base, first), base, second);
    lemma_identifier_names_secret(base, base);
    assert(stored(stored(bucket, base, first), base, second) =~= stored(bucket, base, second));
}

/// Existence. No secret exists in an empty bucket; a secret exists as soon
/// as it is stored; and it exists no longer once it is deleted.
pub proof fn lemma_existence(
    bucket: Map<Seq<char>, Seq<u8>>,
    base: Seq<char>,
    sealed: EncryptObjectView,
)
    ensures
        !exists_in(Map::empty(), base),
        exists_in(stored(bucket, base, sealed), base),
        !exists_in(deleted(bucket, base), base),
        !exists_in(deleted(stored(bucket, base, sealed), base), base),
{
    lemma_store_writes_artifacts(bucket, base, sealed);
    lemma_delete_removes_artifacts(bucket, base);
    lemma_delete_removes_artifacts(stored(bucket, base, sealed), base);
    lemma_identifier_names_secret(base, base);
}

/// Deletion completeness. After a delete none of the secret's three
/// artifacts can be fetched, a lookup fails for want of them, and the secret
/// does not exist.
pub proof fn lemma_delete_is_complete(bucket: Map<Seq<char>, Seq<u8>>, base: Seq<char>, key: Seq<u8>)
    ensures
        !deleted(bucket, base).dom().contains(data_keys(base).key),
        !deleted(bucket, base).dom().contains(data_keys(base).cipher),
        !deleted(bucket, base).dom().contains(data_keys(base).meta),
        looked_up_in(deleted(bucket, base), base, key) == Err::<Seq<u8>, VaultError>(
            VaultError::S3GetObjectError,
        ),
        !exists_in(deleted(bucket, base), base),
{
    lemma_delete_removes_artifacts(bucket, base);
    lemma_identifier_names_secret(base, base);
}

/// Storing or deleting one secret leaves every other secret as it was: its
/// artifacts, its existence, and what a lookup of it hands back.
pub proof fn lemma_other_secrets_untouched(
    bucket: Map<Seq<char>, Seq<u8>>,
    base: Seq<char>,
    other: Seq<char>,
    sealed: EncryptObjectView,
)
    requires
        other != base,
    ensures
        fetched_from(stored(bucket, base, sealed), other) == fetched_from(bucket, other),
        fetched_from(deleted(bucket, base), other) == fetched_from(bucket, other),
        exists_in(stored(bucket, base, sealed), other) == exists_in(bucket, other),
        exists_in(deleted(bucket, base), other) == exists_in(bucket, other),
{
    lemma_store_writes_artifacts(bucket, base, sealed);
    lemma_delete_removes_artifacts(bucket, base);
    lemma_identifier_names_secret(base, other);
    lemma_identifier_names_secret(other, base);
}

/// Stores of different secrets do not depend on their order: whichever comes
/// first, the bucket ends up the same.
pub proof fn lemma_stores_commute(
    bucket: Map<Seq<char>, Seq<u8>>,
    base: Seq<char>,
    sealed: EncryptObjectView,
    other: Seq<char>,
    other_sealed: EncryptObjectView,
)
    requires
        other != base,
    ensures
        stored(stored(bucket, base, sealed), other, other_sealed) == stored(
            stored(bucket, other, other_sealed),
            base,
            sealed,
        ),
{
    lemma_store_writes_artifacts(bucket, base, sealed);
    lemma_store_writes_artifacts(bucket, other, other_sealed);
    lemma_store_writes_artifacts(stored(bucket, base, sealed), other, other_sealed);
    lemma_store_writes_artifacts(stored(bucket, other, other_sealed), base, sealed);
    lemma_identifier_names_secret(base, other);
    lemma_identifier_names_secret(other, base);
    assert(stored(stored(bucket, base, sealed), other, other_sealed) =~= stored(
        stored(bucket, other, other_sealed),
        base,
        sealed,
    ));
}

/// Listing correctness, in the bucket. A store adds its name to the names
/// that the bucket shows and a delete takes its name away; no other name
/// comes or goes. So the bucket shows exactly the names stored and not
/// deleted since, in whatever order they were stored.
pub proof fn lemma_names_follow_store_and_delete(
    bucket: Map<Seq<char>, Seq<u8>>,
    base: Seq<char>,
    sealed: EncryptObjectView,
)
    ensures
        names_in(Map::empty()) == Set::<Seq<char>>::empty(),
        names_in(stored(bucket, base, sealed)) == names_in(bucket).insert(base),
        names_in(deleted(bucket, base)) == names_in(bucket).remove(base),
{
    lemma_store_writes_artifacts(bucket, base, sealed);
    lemma_delete_removes_artifacts(bucket, base);
    assert forall|name: Seq<char>|
        names_in(stored(bucket, base, sealed)).contains(name) == names_in(bucket).insert(
            base,
        ).contains(name) by {
        lemma_identifier_names_secret(name, base);
        lemma_identifier_names_secret(base, name);
    }
    assert forall|name: Seq<char>|
        names_in(deleted(bucket, base)).contains(name) == names_in(bucket).remove(base).contains(
            name,
        ) by {
        lemma_identifier_names_secret(name, base);
        lemma_identifier_names_secret(base, name);
    }
    assert(names_in(Map::empty()) =~= Set::<Seq<char>>::empty());
    assert(names_in(stored(bucket, base, sealed)) =~= names_in(bucket).insert(base));
    assert(names_in(deleted(bucket, base)) =~= names_in(bucket).remove(base));
}

/// Listing correctness, in the listing. Where a listing names exactly the
/// objects of the bucket, in any order, the names read out of it are exactly
/// the names that the bucket shows, each recovered whole.
pub proof fn lemma_listing_shows_names(
    bucket: Map<Seq<char>, Seq<u8>>,
    listing: Seq<Option<Seq<char>>>,
)
    requires
        forall|key: Seq<char>| #[trigger] listing.contains(Some(key)) <==> bucket.dom().contains(key),
    ensures
        listed(listing).to_set() == names_in(bucket),
{
    assert forall|name: Seq<char>|
        listed(listing).to_set().contains(name) == names_in(bucket).contains(name) by {
        lemma_listed_names(listing, name);
        assert(listing.contains(Some(data_keys(name).cipher)) <==> bucket.dom().contains(
            data_keys(name).cipher,
        ));
    }
    assert(listed(listing).to_set() =~= names_in(bucket));
}

} // verus!
