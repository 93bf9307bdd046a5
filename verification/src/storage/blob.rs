//! The blob store: uploads kept under their SHA-256 digest.
//!
//! A blob is written under a temporary name while its digest is computed,
//! and is given its place only when the digest is the declared one. What is
//! read and written on disk is the caller's part; the rules are here.

use crate::error::{bad_request, ProxyError, ProxyErrorV};
use crate::text::{
    all_in_class, all_in_class_exec, chars_eq_str, chars_of, chars_range, find, find_chars,
    lemma_find_from, one_char, push_str, str_eq, string_of, string_of_range, CharClass,
};
use sha2::Digest;
use vstd::prelude::*;

verus! {

/// A SHA-256 computation in progress: a `sha2::Sha256`.
#[verifier::external_body]
pub struct BlobHasher {
    inner: sha2::Sha256,
}

/// The bytes that a SHA-256 computation has taken in.
pub uninterp spec fn hashed_bytes(hasher: BlobHasher) -> Seq<u8>;

/// The SHA-256 digest of bytes, in lowercase hexadecimal.
pub uninterp spec fn sha256_hex(bytes: Seq<u8>) -> Seq<char>;

/// `Sha256::new`: a computation that has taken in nothing.
#[verifier::external_body]
fn hasher_new() -> (r: BlobHasher)
    ensures
        hashed_bytes(r) == Seq::<u8>::empty(),
{
    BlobHasher { inner: sha2::Sha256::new() }
}

/// `Digest::update`: the computation takes in `bytes` after what it has.
#[verifier::external_body]
fn hasher_update(hasher: &mut BlobHasher, bytes: &[u8])
    ensures
        hashed_bytes(*final(hasher)) == hashed_bytes(*old(hasher)) + bytes@,
{
    hasher.inner.update(bytes)
}

/// `Digest::finalize` and the `LowerHex` form of its output: the digest of
/// all that the computation has taken in, in lowercase hexadecimal; the
/// contract gives it a name.
#[verifier::external_body]
fn hasher_finalize(hasher: BlobHasher) -> (r: String)
    ensures
        r@ == sha256_hex(hashed_bytes(hasher)),
{
    format!("{:x}", hasher.inner.finalize())
}

/// The hexadecimal part of a digest that names a blob: the digest is
/// `sha256:` followed by exactly 64 hexadecimal digits.
pub open spec fn blob_hex(digest: Seq<char>) -> Result<Seq<char>, ProxyErrorV> {
    match find(digest, seq![':']) {
        None => Err(bad_request("invalid digest format. Expected algo:hex (e.g. sha256:abc)"@)),
        Some(colon) => {
            let algo = digest.subrange(0, colon);
            let hex = digest.subrange(colon + 1, digest.len() as int);
            if algo != "sha256"@ {
                Err(bad_request("only sha256 digests are supported"@))
            } else if hex.len() != 64 || !all_in_class(hex, CharClass::HexDigit) {
                Err(bad_request("invalid sha256 digest"@))
            } else {
                Ok(hex)
            }
        },
    }
}

/// The place of a blob under the directory of the store.
pub open spec fn blob_path(base_dir: Seq<char>, hex: Seq<char>) -> Seq<char> {
    base_dir + "/sha256/"@ + hex
}

/// The error for an upload whose bytes have another digest than declared.
pub open spec fn digest_mismatch(expected: Seq<char>, actual: Seq<char>) -> ProxyErrorV {
    bad_request("digest mismatch. Expected "@ + expected + ", computed "@ + actual)
}

/// The hexadecimal part of a digest that names a blob.
pub fn validated_blob_hex(digest: &str) -> (r: Result<String, ProxyError>)
    ensures
        match (r, blob_hex(digest@)) {
            (Ok(hex), Ok(expected)) => hex@ == expected,
            (Err(e), Err(expected)) => e@ == expected,
            _ => false,
        },
{
    let chars = chars_of(digest);
    let colon = match find_chars(&chars, &one_char(':')) {
        Some(at) => at,
        None => {
            return Err(
                ProxyError::bad_request(
                    "invalid digest format. Expected algo:hex (e.g. sha256:abc)",
                ),
            );
        },
    };
    proof {
        lemma_find_from(chars@, seq![':'], 0);
        assert(crate::text::occurs_at(chars@, seq![':'], colon as int));
    }
    let length = chars.len();
    assert(colon + 1 <= length);
    let algo = chars_range(&chars, 0, colon);
    if !chars_eq_str(&algo, "sha256") {
        return Err(ProxyError::bad_request("only sha256 digests are supported"));
    }
    if length - (colon + 1) != 64 || !all_in_class_exec(
        &chars,
        CharClass::HexDigit,
        colon + 1,
        length,
    ) {
        return Err(ProxyError::bad_request("invalid sha256 digest"));
    }
    Ok(string_of_range(&chars, colon + 1, length))
}

/// Holds the digest that was computed for an upload against the digest
/// that the upload declared: they have to be the same text.
pub fn check_digest(expected_hex: &str, actual_hex: &str) -> (r: Result<(), ProxyError>)
    ensures
        match r {
            Ok(_) => actual_hex@ == expected_hex@,
            Err(e) => actual_hex@ != expected_hex@ && e@ == digest_mismatch(
                expected_hex@,
                actual_hex@,
            ),
        },
{
    if str_eq(actual_hex, expected_hex) {
        Ok(())
    } else {
        let mut message = chars_of("digest mismatch. Expected ");
        push_str(&mut message, expected_hex);
        push_str(&mut message, ", computed ");
        push_str(&mut message, actual_hex);
        Err(ProxyError::bad_request(string_of(&message).as_str()))
    }
}

/// The blob store: the directory that holds the blobs.
#[derive(Debug)]
pub struct BlobStore {
    pub base_dir: String,
}

/// An upload in progress.
pub struct BlobUpload {
    /// The hexadecimal digest that the upload declares.
    pub hex: String,
    /// The place that the blob gets where its digest is the declared one.
    pub final_path: String,
    /// The digest of what has come so far.
    pub hasher: BlobHasher,
    /// The number of bytes that have come so far, held to 64 bits.
    pub total_bytes: u64,
}

/// How an upload ends.
#[derive(Debug)]
pub enum UploadOutcome {
    /// The bytes have the declared digest: the temporary file is given the
    /// place `final_path`.
    Commit { final_path: String, total_bytes: u64 },
}

impl BlobStore {
    /// The store over a directory.
    pub fn new(base_dir: String) -> (r: BlobStore)
        ensures
            r.base_dir@ == base_dir@,
    {
        BlobStore { base_dir }
    }

    /// The place of the blob that a digest names. A digest that is not
    /// `sha256:` and 64 hexadecimal digits is refused as a bad request,
    /// before anything is read or written.
    pub fn validated_blob_path(&self, digest: &str) -> (r: Result<String, ProxyError>)
        ensures
            match (r, blob_hex(digest@)) {
                (Ok(path), Ok(hex)) => path@ == blob_path(self.base_dir@, hex),
                (Err(e), Err(expected)) => e@ == expected,
                _ => false,
            },
    {
        match validated_blob_hex(digest) {
            Ok(hex) => {
                let mut path = chars_of(self.base_dir.as_str());
                push_str(&mut path, "/sha256/");
                push_str(&mut path, hex.as_str());
                Ok(string_of(&path))
            },
            Err(e) => Err(e),
        }
    }

    /// Begins an upload under a digest, which has to name a blob.
    pub fn begin_upload(&self, digest: &str) -> (r: Result<BlobUpload, ProxyError>)
        ensures
            match (r, blob_hex(digest@)) {
                (Ok(upload), Ok(hex)) => upload.hex@ == hex && upload.final_path@ == blob_path(
                    self.base_dir@,
                    hex,
                ) && hashed_bytes(upload.hasher) == Seq::<u8>::empty() && upload.total_bytes == 0,
                (Err(e), Err(expected)) => e@ == expected,
                _ => false,
            },
    {
        let hex = match validated_blob_hex(digest) {
            Ok(hex) => hex,
            Err(e) => {
                return Err(e);
            },
        };
        let mut path = chars_of(self.base_dir.as_str());
        push_str(&mut path, "/sha256/");
        push_str(&mut path, hex.as_str());
        Ok(
            BlobUpload {
                hex,
                final_path: string_of(&path),
                hasher: hasher_new(),
                total_bytes: 0,
            },
        )
    }
}

impl BlobUpload {
    /// Takes in the next bytes of the upload.
    pub fn update(&mut self, chunk: &[u8])
        ensures
            hashed_bytes(final(self).hasher) == hashed_bytes(old(self).hasher) + chunk@,
            final(self).hex@ == old(self).hex@,
            final(self).final_path@ == old(self).final_path@,
            final(self).total_bytes == if old(self).total_bytes + chunk@.len() > u64::MAX {
                u64::MAX
            } else {
                (old(self).total_bytes + chunk@.len()) as u64
            },
    {
        hasher_update(&mut self.hasher, chunk);
        let more = chunk.len() as u64;
        if self.total_bytes > u64::MAX - more {
            self.total_bytes = u64::MAX;
        } else {
            self.total_bytes = self.total_bytes + more;
        }
    }

    /// Ends the upload. It is committed only where the digest of all its
    /// bytes is the declared one; else it fails as a bad request, and its
    /// temporary file is to be deleted.
    pub fn finish(self) -> (r: Result<UploadOutcome, ProxyError>)
        ensures
            match r {
                Ok(UploadOutcome::Commit { final_path, total_bytes }) => sha256_hex(
                    hashed_bytes(self.hasher),
                ) == self.hex@ && final_path@ == self.final_path@ && total_bytes
                    == self.total_bytes,
                Err(e) => sha256_hex(hashed_bytes(self.hasher)) != self.hex@ && e@
                    == digest_mismatch(self.hex@, sha256_hex(hashed_bytes(self.hasher))),
            },
    {
        let actual = hasher_finalize(self.hasher);
        match check_digest(self.hex.as_str(), actual.as_str()) {
            Ok(_) => Ok(
                UploadOutcome::Commit {
                    final_path: self.final_path,
                    total_bytes: self.total_bytes,
                },
            ),
            Err(e) => Err(e),
        }
    }
}

} // verus!
