//! The closed set of failures the vault reports.

use vstd::prelude::*;

verus! {

/// Every way a vault operation can fail.
///
/// Remote-service failures name the operation they came from; configuration
/// and data failures name what was missing or malformed.
#[derive(Debug, Clone, Copy, PartialEq, Eq, Structural)]
pub enum VaultError {
    /// The stack description request failed.
    DescribeStackError,
    /// The service knows no stack of the requested name.
    StackNotFoundError,
    /// The stack description carries no list of outputs.
    StackOutputsMissingError,
    /// The stack outputs do not name a bucket.
    BucketNameMissingError,
    /// The stack description carries no status.
    MissingStackStatusError,
    /// The stack outputs carry no readable template version.
    StackVersionNotFoundError,
    /// The stack creation request failed.
    CreateStackError,
    /// The stack update request failed.
    UpdateStackError,
    /// A create or update request was answered without a stack identifier.
    MissingStackIdError,
    /// The identity service could not be asked for the caller's account.
    CallerIdentityError,
    /// The identity service answered without an account identifier.
    MissingAccountIdError,
    /// No region is configured.
    NoRegionError,
    /// No master key identifier is configured, so nothing can be encrypted.
    KeyARNMissingError,
    /// The key-management service failed to generate a data key.
    KMSGenerateDataKeyError,
    /// The key-management service failed to unwrap a data key.
    KMSDecryptError,
    /// The key-management service answered without the plaintext data key.
    KMSDataKeyPlainTextMissingError,
    /// The data key does not have the length the cipher needs.
    InvalidNonceLengthError,
    /// The payload failed authentication: cipher text, metadata, nonce and key
    /// do not belong together.
    NonceDecryptError,
    /// The payload could not be encrypted.
    CiphertextEncryptionError,
    /// The metadata document could not be written or read.
    EncryptObjectMetaToJsonError,
    /// The nonce in the metadata is not the base64 text of twelve bytes.
    NonceParseError,
    /// An artifact of the secret could not be fetched.
    S3GetObjectError,
    /// The body of a fetched artifact could not be read.
    S3GetObjectBodyError,
    /// The secret to delete does not exist.
    S3DeleteObjectKeyMissingError,
    /// The existence probe failed for a reason other than absence.
    S3HeadObjectError,
    /// An artifact of the secret could not be written.
    S3PutObjectError,
    /// The bucket could not be listed.
    S3ListObjectsError,
    /// The batch deletion failed.
    S3DeleteObjectsError,
}

} // verus!
