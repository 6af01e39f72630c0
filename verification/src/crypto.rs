//! Payload decryptor: authenticated encryption around the payload blob.
//!
//! A payload blob is a 12-byte nonce followed by an AEAD ciphertext with a
//! 16-byte authentication tag appended — the standard AES-256-GCM
//! construction. The cipher itself comes from the `aes_gcm` crate behind
//! two trusted wrappers; everything around the call is verified.

use vstd::prelude::*;
use vstd::slice::{slice_subrange, slice_to_vec};

use aes_gcm::aead::Aead;
use aes_gcm::{Aes256Gcm, KeyInit, Nonce};

use crate::trailer::KEY_LEN;
use crate::LoaderError;

verus! {

/// Nonce length at the head of a payload blob.
pub const NONCE_LEN: usize = 12;

/// Length of the authentication tag the cipher appends.
pub const TAG_LEN: usize = 16;

/// The AES-256-GCM ciphertext (tag appended) for a key, nonce and
/// plaintext. The cipher is deterministic in those three values; spelling
/// the algorithm out here would state nothing checkable, so the result
/// only carries a name.
pub uninterp spec fn aead_cipher_of(key: Seq<u8>, nonce: Seq<u8>, plain: Seq<u8>) -> Seq<u8>;

/// The plaintext that AES-256-GCM decryption yields for a key, nonce and
/// ciphertext, or `None` when the appended tag does not authenticate.
pub uninterp spec fn aead_plain_of(key: Seq<u8>, nonce: Seq<u8>, cipher: Seq<u8>) -> Option<
    Seq<u8>,
>;

/// Relies on `aes_gcm`'s `Aead::encrypt` for `Aes256Gcm`: deterministic in
/// key, nonce and plaintext, appends the 16-byte tag, and produces a
/// ciphertext that `Aead::decrypt` inverts under the same key and nonce.
/// It refuses only a plaintext beyond the AEAD length bound.
#[verifier::external_body]
fn aead_seal(key: &Vec<u8>, nonce: &Vec<u8>, plain: &Vec<u8>) -> (r: Option<Vec<u8>>)
    requires
        key@.len() == KEY_LEN,
        nonce@.len() == NONCE_LEN,
    ensures
        r is Some ==> r->0@ == aead_cipher_of(key@, nonce@, plain@),
        r is Some ==> r->0@.len() == plain@.len() + TAG_LEN,
        r is Some ==> aead_plain_of(key@, nonce@, r->0@) == Some(plain@),
{
    let cipher = match Aes256Gcm::new_from_slice(key.as_slice()) {
        Ok(c) => c,
        Err(_) => return None,
    };
    cipher.encrypt(Nonce::from_slice(nonce.as_slice()), plain.as_slice()).ok()
}

/// Relies on `aes_gcm`'s `Aead::decrypt` for `Aes256Gcm`: deterministic in
/// key, nonce and ciphertext, returns the plaintext exactly when the
/// appended tag authenticates, and fails closed otherwise.
#[verifier::external_body]
fn aead_open(key: &Vec<u8>, nonce: &Vec<u8>, cipher_bytes: &Vec<u8>) -> (r: Option<Vec<u8>>)
    requires
        key@.len() == KEY_LEN,
        nonce@.len() == NONCE_LEN,
    ensures
        r is Some <==> aead_plain_of(key@, nonce@, cipher_bytes@) is Some,
        r is Some ==> r->0@ == aead_plain_of(key@, nonce@, cipher_bytes@)->0,
{
    let cipher = match Aes256Gcm::new_from_slice(key.as_slice()) {
        Ok(c) => c,
        Err(_) => return None,
    };
    cipher.decrypt(Nonce::from_slice(nonce.as_slice()), cipher_bytes.as_slice()).ok()
}

/// What decrypting a payload blob under a key must return: the plaintext,
/// or the error that says why the blob was refused.
pub open spec fn spec_decrypt_payload(key: Seq<u8>, blob: Seq<u8>) -> Result<
    Seq<u8>,
    LoaderError,
> {
    if blob.len() < NONCE_LEN {
        Err(LoaderError::PayloadTooShort)
    } else {
        match aead_plain_of(
            key,
            blob.subrange(0, NONCE_LEN as int),
            blob.subrange(NONCE_LEN as int, blob.len() as int),
        ) {
            Some(plain) => Ok(plain),
            None => Err(LoaderError::DecryptionFailed),
        }
    }
}

/// Decrypt a payload blob with the trailer key: split the 12-byte nonce
/// off the head, authenticate and decrypt the rest. Fails with
/// `PayloadTooShort` when there is no room for a nonce and with
/// `DecryptionFailed` when the tag does not authenticate — tampered
/// ciphertext, wrong key, or corrupted nonce.
pub fn decrypt_payload(blob: &Vec<u8>, key: &Vec<u8>) -> (r: Result<Vec<u8>, LoaderError>)
    requires
        key@.len() == KEY_LEN,
    ensures
        r is Ok <==> spec_decrypt_payload(key@, blob@) is Ok,
        r is Ok ==> r->Ok_0@ == spec_decrypt_payload(key@, blob@)->Ok_0,
        r is Err ==> r->Err_0 == spec_decrypt_payload(key@, blob@)->Err_0,
{
    let n: usize = blob.len();
    if n < NONCE_LEN {
        return Err(LoaderError::PayloadTooShort);
    }
    let nonce: Vec<u8> = slice_to_vec(slice_subrange(blob.as_slice(), 0, NONCE_LEN));
    let cipher_bytes: Vec<u8> = slice_to_vec(slice_subrange(blob.as_slice(), NONCE_LEN, n));
    match aead_open(key, &nonce, &cipher_bytes) {
        Some(plain) => Ok(plain),
        None => Err(LoaderError::DecryptionFailed),
    }
}

/// Relies on `String::from_utf8`: it succeeds exactly on a valid UTF-8
/// encoding and returns the characters that encoding spells, which is
/// what `vstd::utf8` states mathematically.
#[verifier::external_body]
fn utf8_to_string(bytes: &Vec<u8>) -> (r: Option<String>)
    ensures
        r is Some <==> vstd::utf8::valid_utf8(bytes@),
        r is Some ==> r->0@ == vstd::utf8::decode_utf8(bytes@),
{
    String::from_utf8(bytes.clone()).ok()
}

/// The interpreter takes text: validate that decrypted payload bytes are
/// UTF-8 and hand back the decoded source, or fail with `EncodingError`.
pub fn decode_source(bytes: &Vec<u8>) -> (r: Result<String, LoaderError>)
    ensures
        r is Ok <==> vstd::utf8::valid_utf8(bytes@),
        r is Ok ==> r->Ok_0@ == vstd::utf8::decode_utf8(bytes@),
        r is Err ==> r->Err_0 == LoaderError::EncodingError,
{
    match utf8_to_string(bytes) {
        Some(text) => Ok(text),
        None => Err(LoaderError::EncodingError),
    }
}

/// Build a payload blob: the nonce followed by the AEAD ciphertext of the
/// plaintext under the key. The second clause is the round-trip law:
/// whatever this function seals, `decrypt_payload` opens back to the same
/// plaintext under the same key. `None` comes only when the cipher itself
/// refuses the plaintext (beyond the AEAD length bound).
pub fn encrypt_payload(key: &Vec<u8>, nonce: &Vec<u8>, plain: &Vec<u8>) -> (r: Option<Vec<u8>>)
    requires
        key@.len() == KEY_LEN,
        nonce@.len() == NONCE_LEN,
    ensures
        r is Some ==> r->0@ == nonce@ + aead_cipher_of(key@, nonce@, plain@),
        r is Some ==> spec_decrypt_payload(key@, r->0@) == Ok::<Seq<u8>, LoaderError>(plain@),
{
    match aead_seal(key, nonce, plain) {
        Some(cipher_bytes) => {
            let mut blob: Vec<u8> = slice_to_vec(nonce.as_slice());
            let mut tail: Vec<u8> = cipher_bytes;
            let ghost sealed: Seq<u8> = tail@;
            blob.append(&mut tail);
            proof {
                assert(blob@.subrange(0, NONCE_LEN as int) =~= nonce@);
                assert(blob@.subrange(NONCE_LEN as int, blob@.len() as int) =~= sealed);
            }
            Some(blob)
        },
        None => None,
    }
}

} // verus!
