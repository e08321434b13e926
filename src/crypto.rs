//! Sealing notes: a key derived from the password, a fresh nonce for each
//! sealing, and authenticated encryption. A blob is the nonce followed by the
//! ciphertext with its tag.
use vstd::prelude::*;
use vstd::utf8::{decode_utf8, encode_utf8, valid_utf8};
use aes_gcm::aead::generic_array::GenericArray;
use aes_gcm::aead::{Aead, KeyInit, OsRng};
use aes_gcm::{Aes256Gcm, Nonce};
use pbkdf2::pbkdf2_hmac;
use rand::RngCore;
use sha2::Sha256;

verus! {

broadcast use vstd::utf8::encode_utf8_valid_utf8, vstd::utf8::encode_utf8_decode_utf8;

/// Iterations of the key derivation: slow on purpose.
pub const KDF_ROUNDS: u32 = 100_000;

/// Bytes of nonce at the head of a blob.
pub const NONCE_LEN: usize = 12;

/// Bytes of authentication tag that the cipher appends.
pub const TAG_LEN: usize = 16;

/// The longest plaintext, in bytes, that the cipher accepts.
pub const MAX_PLAINTEXT_LEN: u64 = 68_719_476_736;

/// Why a blob could not be opened, or a note not sealed.
#[derive(Clone, Copy, Debug, PartialEq, Eq, Structural)]
pub enum CryptoError {
    /// The blob is too short to hold a nonce, or what it holds is not UTF-8.
    Format,
    /// The tag did not verify: a wrong password, or changed bytes.
    Integrity,
    /// The system's random source gave no nonce.
    Entropy,
}

/// The key that PBKDF2 with HMAC-SHA-256 derives from `password`, `salt` and
/// `rounds`.
pub uninterp spec fn pbkdf2_sha256(password: Seq<u8>, salt: Seq<u8>, rounds: u32) -> Seq<u8>;

/// The ciphertext and tag that AES-256-GCM makes of `plaintext`, with no
/// associated data.
pub uninterp spec fn aes256_gcm_seal(key: Seq<u8>, nonce: Seq<u8>, plaintext: Seq<u8>) -> Seq<u8>;

/// The plaintext that AES-256-GCM recovers from `ciphertext`, or `None` when
/// the tag does not verify.
pub uninterp spec fn aes256_gcm_open(key: Seq<u8>, nonce: Seq<u8>, ciphertext: Seq<u8>) -> Option<Seq<u8>>;

/// Relies on `pbkdf2::pbkdf2_hmac::<Sha256>`: fills 32 bytes of key, a
/// function of the password, the salt and the rounds alone.
#[verifier::external_body]
fn pbkdf2_key(password: &[u8], salt: &[u8], rounds: u32) -> (r: [u8; 32])
    ensures
        r@ == pbkdf2_sha256(password@, salt@, rounds),
{
    let mut key = [0u8; 32];
    pbkdf2_hmac::<Sha256>(password, salt, rounds, &mut key);
    key
}

/// Relies on `Aes256Gcm::encrypt` (through `aead::Aead`): it fails only on a
/// plaintext longer than its limit, and appends a tag of 16 bytes.
#[verifier::external_body]
fn gcm_seal(key: &[u8; 32], nonce: &[u8], plaintext: &[u8]) -> (r: Option<Vec<u8>>)
    requires
        nonce@.len() == NONCE_LEN,
    ensures
        r is Some <==> plaintext@.len() <= MAX_PLAINTEXT_LEN,
        r matches Some(c) ==> c@ == aes256_gcm_seal(key@, nonce@, plaintext@),
        r matches Some(c) ==> c@.len() == plaintext@.len() + TAG_LEN,
{
    let cipher = Aes256Gcm::new(GenericArray::from_slice(key));
    cipher.encrypt(Nonce::from_slice(nonce), plaintext).ok()
}

/// Relies on `Aes256Gcm::decrypt` (through `aead::Aead`): under the key and
/// nonce that sealed a plaintext, the sealed bytes open to that plaintext.
#[verifier::external_body]
fn gcm_open(key: &[u8; 32], nonce: &[u8], ciphertext: &[u8]) -> (r: Option<Vec<u8>>)
    requires
        nonce@.len() == NONCE_LEN,
    ensures
        r is Some <==> aes256_gcm_open(key@, nonce@, ciphertext@) is Some,
        r matches Some(p) ==> aes256_gcm_open(key@, nonce@, ciphertext@) == Some(p@),
        forall|p: Seq<u8>| #![trigger aes256_gcm_seal(key@, nonce@, p)] r is Some && r->Some_0@ == p
            <== p.len() <= MAX_PLAINTEXT_LEN && ciphertext@ == aes256_gcm_seal(key@, nonce@, p),
{
    let cipher = Aes256Gcm::new(GenericArray::from_slice(key));
    cipher.decrypt(Nonce::from_slice(nonce), ciphertext).ok()
}

/// Relies on `OsRng::try_fill_bytes`: twelve bytes from the system's random
/// source, or `None` when it fails. Nothing is known of the bytes.
#[verifier::external_body]
fn random_nonce() -> (r: Option<[u8; 12]>)
{
    let mut nonce = [0u8; 12];
    match OsRng.try_fill_bytes(&mut nonce) {
        Ok(()) => Some(nonce),
        Err(_) => None,
    }
}

/// Relies on `String::from_utf8`: it accepts exactly the valid UTF-8 byte
/// strings, and keeps the characters they encode.
#[verifier::external_body]
fn utf8_string(bytes: Vec<u8>) -> (r: Option<String>)
    ensures
        r is Some <==> valid_utf8(bytes@),
        r matches Some(s) ==> s@ == decode_utf8(bytes@),
{
    String::from_utf8(bytes).ok()
}

/// The salt of every key: the bytes of "geekpad-fixed-salt".
pub open spec fn note_salt() -> Seq<u8> {
    seq![103u8, 101, 101, 107, 112, 97, 100, 45, 102, 105, 120, 101, 100, 45, 115, 97, 108, 116]
}

/// The key of a password.
pub open spec fn note_key(password: Seq<char>) -> Seq<u8> {
    pbkdf2_sha256(encode_utf8(password), note_salt(), KDF_ROUNDS)
}

/// The blob that sealing `plaintext` under `password` with `nonce` gives.
pub open spec fn sealed_blob(plaintext: Seq<char>, password: Seq<char>, nonce: Seq<u8>) -> Seq<u8> {
    nonce + aes256_gcm_seal(note_key(password), nonce, encode_utf8(plaintext))
}

/// What opening `blob` under `password` gives: a format error for a blob
/// shorter than a nonce, an integrity error when the tag does not verify, a
/// format error when the plaintext is not UTF-8, else the text.
pub open spec fn opened_note(blob: Seq<u8>, password: Seq<char>) -> Result<Seq<char>, CryptoError> {
    if blob.len() < NONCE_LEN {
        Err(CryptoError::Format)
    } else {
        match aes256_gcm_open(note_key(password), blob.take(NONCE_LEN as int), blob.skip(NONCE_LEN as int)) {
            None => Err(CryptoError::Integrity),
            Some(bytes) => if valid_utf8(bytes) {
                Ok(decode_utf8(bytes))
            } else {
                Err(CryptoError::Format)
            },
        }
    }
}

/// A text result as mathematics.
pub open spec fn text_result(r: Result<String, CryptoError>) -> Result<Seq<char>, CryptoError> {
    match r {
        Ok(s) => Ok(s@),
        Err(e) => Err(e),
    }
}

/// The bytes of the salt.
fn salt_bytes() -> (r: Vec<u8>)
    ensures
        r@ == note_salt(),
{
    let r: Vec<u8> = vec![103u8, 101, 101, 107, 112, 97, 100, 45, 102, 105, 120, 101, 100, 45, 115, 97, 108, 116];
    assert(r@ =~= note_salt());
    r
}

/// The 32-byte key of `password`; the same password always gives the same key.
pub fn derive_key(password: &str) -> (r: [u8; 32])
    ensures
        r@ == note_key(password@),
{
    let salt = salt_bytes();
    pbkdf2_key(password.as_bytes(), salt.as_slice(), KDF_ROUNDS)
}

/// Seals `plaintext` under `password` with the given nonce.
pub fn seal_note(plaintext: &str, password: &str, nonce: &[u8; 12]) -> (r: Vec<u8>)
    requires
        encode_utf8(plaintext@).len() <= MAX_PLAINTEXT_LEN,
    ensures
        r@ == sealed_blob(plaintext@, password@, nonce@),
        r@.len() == NONCE_LEN + encode_utf8(plaintext@).len() + TAG_LEN,
{
    let key = derive_key(password);
    let mut out: Vec<u8> = Vec::new();
    out.extend_from_slice(nonce.as_slice());
    match gcm_seal(&key, nonce.as_slice(), plaintext.as_bytes()) {
        Some(mut c) => {
            out.append(&mut c);
        },
        None => {},
    }
    assert(out@ =~= sealed_blob(plaintext@, password@, nonce@));
    out
}

/// Seals `plaintext` under `password` with a fresh random nonce, which the
/// blob carries at its head. Fails only when the random source does.
pub fn encrypt_note(plaintext: &str, password: &str) -> (r: Result<Vec<u8>, CryptoError>)
    requires
        encode_utf8(plaintext@).len() <= MAX_PLAINTEXT_LEN,
    ensures
        r matches Ok(b) ==> b@.len() == NONCE_LEN + encode_utf8(plaintext@).len() + TAG_LEN
            && b@ == sealed_blob(plaintext@, password@, b@.take(NONCE_LEN as int)),
        r matches Err(e) ==> e == CryptoError::Entropy,
{
    match random_nonce() {
        Some(nonce) => {
            let b = seal_note(plaintext, password, &nonce);
            assert(b@.take(NONCE_LEN as int) =~= nonce@);
            Ok(b)
        },
        None => Err(CryptoError::Entropy),
    }
}

/// Opens `blob` under `password`, as [`opened_note`] says. A blob that
/// sealing some text under this password gave opens to that text.
pub fn decrypt_note(blob: &[u8], password: &str) -> (r: Result<String, CryptoError>)
    ensures
        text_result(r) == opened_note(blob@, password@),
        forall|p: Seq<char>|
            encode_utf8(p).len() <= MAX_PLAINTEXT_LEN && blob@.len() >= NONCE_LEN
                && blob@ == #[trigger] sealed_blob(p, password@, blob@.take(NONCE_LEN as int))
                ==> r is Ok && r->Ok_0@ == p,
{
    if blob.len() < NONCE_LEN {
        return Err(CryptoError::Format);
    }
    let (nonce, ciphertext) = blob.split_at(NONCE_LEN);
    let key = derive_key(password);
    assert(nonce@ =~= blob@.take(NONCE_LEN as int));
    assert(ciphertext@ =~= blob@.skip(NONCE_LEN as int));
    let opened = gcm_open(&key, nonce, ciphertext);
    assert forall|p: Seq<char>|
        encode_utf8(p).len() <= MAX_PLAINTEXT_LEN
            && blob@ == #[trigger] sealed_blob(p, password@, blob@.take(NONCE_LEN as int))
        implies opened is Some && opened->Some_0@ == encode_utf8(p) by {
        let sealed = aes256_gcm_seal(key@, nonce@, encode_utf8(p));
        assert(blob@ == nonce@ + sealed);
        assert(ciphertext@ =~= (nonce@ + sealed).skip(NONCE_LEN as int));
        assert(ciphertext@ == sealed);
    }
    match opened {
        None => Err(CryptoError::Integrity),
        Some(bytes) => match utf8_string(bytes) {
            Some(s) => Ok(s),
            None => Err(CryptoError::Format),
        },
    }
}

} // verus!
