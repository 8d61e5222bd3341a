//! Password hashing, the symmetric cipher, URL-safe base64 and random text.
//!
//! The work is done by `bcrypt`, `magic_crypt`, `base64` and `rand`. What
//! this module assumes of them is stated on the private functions that call
//! them; everything public is proved from those statements.

use vstd::prelude::*;
use vstd::array::ArrayAdditionalExecFns;
use vstd::string::StringExecFns;
use vstd::utf8::encode_utf8;
use crate::auth::error::AuthError;
use magic_crypt::MagicCryptTrait;
use rand::distributions::DistString;

verus! {

pub type AuthResult<T> = Result<T, AuthError>;

/// Work factor of the password hash.
pub const HASH_COST: u32 = 12;

/// Number of characters of a salt.
pub const SALT_LENGTH: usize = 30;

/// Number of bytes of the salt that the hash function itself takes.
pub const SALT_BLOCK_LENGTH: usize = 16;

#[verifier::external_type_specification]
#[verifier::external_body]
pub struct ExBcryptError(bcrypt::BcryptError);

#[verifier::external_type_specification]
#[verifier::external_body]
pub struct ExMagicCryptError(magic_crypt::MagicCryptError);

#[verifier::external_type_specification]
#[verifier::external_body]
pub struct ExDecodeError(base64::DecodeError);

/// The hash text (version `2b`) that `bcrypt::hash_with_salt` gives for a
/// password, a cost and a salt of sixteen bytes.
pub uninterp spec fn bcrypt_hashed(password: Seq<char>, cost: u32, salt: Seq<u8>) -> Seq<char>;

/// What `bcrypt::verify` answers for a password and a stored hash: `None`
/// where it reports an error (a malformed hash).
pub uninterp spec fn bcrypt_verified(password: Seq<char>, hash: Seq<char>) -> Option<bool>;

/// What `MagicCrypt256`, keyed by `key` and without an initialisation
/// vector, encrypts `plain` to.
pub uninterp spec fn cipher_text(key: Seq<char>, plain: Seq<u8>) -> Seq<u8>;

/// What `MagicCrypt256`, keyed by `key` and without an initialisation
/// vector, decrypts `cipher` to: `None` where it reports an error.
pub uninterp spec fn plain_text(key: Seq<char>, cipher: Seq<u8>) -> Option<Seq<u8>>;

/// The padded URL-safe base64 text that `base64::encode_config` writes.
pub uninterp spec fn base64_text(bytes: Seq<u8>) -> Seq<char>;

/// The bytes that `base64::decode_config` reads from padded URL-safe base64
/// text: `None` where it reports an error.
pub uninterp spec fn base64_bytes(text: Seq<char>) -> Option<Seq<u8>>;

/// An ASCII letter or digit.
pub open spec fn is_alphanumeric(c: char) -> bool {
    ('0' <= c && c <= '9') || ('a' <= c && c <= 'z') || ('A' <= c && c <= 'Z')
}

/// Every character is an ASCII letter or digit.
pub open spec fn all_alphanumeric(text: Seq<char>) -> bool {
    forall|i: int| 0 <= i < text.len() ==> is_alphanumeric(#[trigger] text[i])
}

/// Calls `bcrypt::hash_with_salt` and writes the parts as hash text of
/// version `2b`. Assumed: it fails only for a cost outside 4 to 31; the
/// text depends on password, cost and salt alone; and `bcrypt::verify`
/// accepts it for the same password.
#[verifier::external_body]
fn bcrypt_hash_with_salt(password: &String, cost: u32, salt: [u8; 16]) -> (hashed: Result<
    String,
    bcrypt::BcryptError,
>)
    ensures
        4 <= cost <= 31 ==> hashed is Ok,
        hashed matches Ok(h) ==> h@ == bcrypt_hashed(password@, cost, salt@) && bcrypt_verified(
            password@,
            h@,
        ) == Some(true),
{
    Ok(bcrypt::hash_with_salt(password, cost, salt)?.format_for_version(bcrypt::Version::TwoB))
}

/// Calls `bcrypt::verify`. Assumed: its answer depends on the password and
/// the hash alone.
#[verifier::external_body]
fn bcrypt_verify(password: &String, hash: &String) -> (verdict: Result<bool, bcrypt::BcryptError>)
    ensures
        match verdict {
            Ok(b) => bcrypt_verified(password@, hash@) == Some(b),
            Err(_) => bcrypt_verified(password@, hash@) is None,
        },
{
    bcrypt::verify(password, hash)
}

/// Calls `MagicCrypt256::encrypt_bytes_to_bytes` (AES-256 in CBC mode with
/// PKCS#7 padding, the key being the SHA-256 digest of `key`). Assumed: the
/// result depends on key and plaintext alone, and decrypts to the plaintext
/// under the same key.
#[verifier::external_body]
fn aes_encrypt(key: &String, plain: &Vec<u8>) -> (cipher: Vec<u8>)
    ensures
        cipher@ == cipher_text(key@, plain@),
        plain_text(key@, cipher@) == Some(plain@),
{
    magic_crypt::MagicCrypt256::new(key, None::<String>).encrypt_bytes_to_bytes(plain)
}

/// Calls `MagicCrypt256::decrypt_bytes_to_bytes`, which returns an error for
/// input whose length is no multiple of the block size or whose padding is
/// malformed. Assumed: the result depends on key and ciphertext alone.
#[verifier::external_body]
fn aes_decrypt(key: &String, cipher: &Vec<u8>) -> (plain: Result<
    Vec<u8>,
    magic_crypt::MagicCryptError,
>)
    ensures
        match plain {
            Ok(p) => plain_text(key@, cipher@) == Some(p@),
            Err(_) => plain_text(key@, cipher@) is None,
        },
{
    magic_crypt::MagicCrypt256::new(key, None::<String>).decrypt_bytes_to_bytes(cipher)
}

/// Calls `base64::encode_config` with `URL_SAFE`. Assumed: the text depends
/// on the bytes alone and decodes to them.
#[verifier::external_body]
fn base64_encode(bytes: &Vec<u8>) -> (text: String)
    ensures
        text@ == base64_text(bytes@),
        base64_bytes(text@) == Some(bytes@),
{
    base64::encode_config(bytes, base64::URL_SAFE)
}

/// Calls `base64::decode_config` with `URL_SAFE`. Assumed: the result
/// depends on the text alone.
#[verifier::external_body]
fn base64_decode(text: &String) -> (bytes: Result<Vec<u8>, base64::DecodeError>)
    ensures
        match bytes {
            Ok(b) => base64_bytes(text@) == Some(b@),
            Err(_) => base64_bytes(text@) is None,
        },
{
    base64::decode_config(text, base64::URL_SAFE)
}

/// Calls `Alphanumeric.sample_string` on the thread's generator. Assumed of
/// every outcome: it has `length` characters, each an ASCII letter or digit.
#[verifier::external_body]
fn random_alphanumeric(length: usize) -> (text: String)
    ensures
        text@.len() == length,
        all_alphanumeric(text@),
{
    rand::distributions::Alphanumeric.sample_string(&mut rand::thread_rng(), length)
}

/// Whether `hash` is a hash of `password` salted with `salt`; `None` where
/// the hash is malformed.
pub open spec fn password_verdict(hash: Seq<char>, password: Seq<char>, salt: Seq<char>) -> Option<
    bool,
> {
    bcrypt_verified(password + salt, hash)
}

/// What [`verify_password`] returns.
pub open spec fn verify_password_spec(
    hash: Seq<char>,
    password: Seq<char>,
    salt: Seq<char>,
) -> AuthResult<bool> {
    match password_verdict(hash, password, salt) {
        Some(b) => Ok(b),
        None => Err(AuthError::CryptoError),
    }
}

/// Random text of `length` letters and digits.
pub fn random_text(length: usize) -> (text: String)
    ensures
        text@.len() == length,
        all_alphanumeric(text@),
{
    random_alphanumeric(length)
}

/// A fresh salt: thirty random letters and digits.
pub fn generate_salt() -> (salt: String)
    ensures
        salt@.len() == SALT_LENGTH,
        all_alphanumeric(salt@),
{
    random_alphanumeric(SALT_LENGTH)
}

/// The sixteen bytes of salt that the hash function itself takes: the
/// first sixteen bytes of the salt's UTF-8 text, filled up with zeros where
/// the text is shorter.
pub open spec fn salt_block_spec(salt: Seq<char>) -> Seq<u8> {
    Seq::new(
        SALT_BLOCK_LENGTH as nat,
        |i: int|
            if i < encode_utf8(salt).len() {
                encode_utf8(salt)[i]
            } else {
                0u8
            },
    )
}

pub fn salt_block(salt: &String) -> (block: [u8; 16])
    ensures
        block@ == salt_block_spec(salt@),
{
    let bytes = salt.as_str().as_bytes();
    let mut block: [u8; 16] = [0u8; 16];
    let mut i: usize = 0;
    while i < SALT_BLOCK_LENGTH
        invariant
            i <= SALT_BLOCK_LENGTH,
            bytes@ == encode_utf8(salt@),
            block@.len() == SALT_BLOCK_LENGTH,
            forall|j: int| 0 <= j < i ==> block@[j] == salt_block_spec(salt@)[j],
        decreases SALT_BLOCK_LENGTH - i,
    {
        let byte: u8 = if i < bytes.len() {
            bytes[i]
        } else {
            0
        };
        block.set(i, byte);
        i += 1;
    }
    assert(block@ =~= salt_block_spec(salt@));
    block
}

/// The hash of `password` under `salt`: the password followed by the salt,
/// hashed at the fixed cost with the salt's block.
pub open spec fn hash_password_spec(password: Seq<char>, salt: Seq<char>) -> Seq<char> {
    bcrypt_hashed(password + salt, HASH_COST, salt_block_spec(salt))
}

/// Hashes `password` under `salt`. The hash is a function of the two: the
/// same password and salt give the same hash on every call. It always
/// succeeds, and [`verify_password`] accepts the hash for the same password
/// and salt.
pub fn hash_password(password: &String, salt: &String) -> (hashed: AuthResult<String>)
    ensures
        hashed matches Ok(h) && h@ == hash_password_spec(password@, salt@),
        verify_password_spec(hash_password_spec(password@, salt@), password@, salt@) == Ok::<
            bool,
            AuthError,
        >(true),
{
    let salted = password.clone().concat(salt.as_str());
    let block = salt_block(salt);
    match bcrypt_hash_with_salt(&salted, HASH_COST, block) {
        Ok(h) => Ok(h),
        Err(_) => Err(AuthError::CryptoError),
    }
}

/// Recomputes the hash of `password` followed by `salt` and compares it with
/// `hash`. A mismatch is `Ok(false)`; only a malformed hash is an error.
pub fn verify_password(hash: &String, password: &String, salt: &String) -> (verdict: AuthResult<
    bool,
>)
    ensures
        verdict == verify_password_spec(hash@, password@, salt@),
{
    let salted = password.clone().concat(salt.as_str());
    match bcrypt_verify(&salted, hash) {
        Ok(b) => Ok(b),
        Err(_) => Err(AuthError::CryptoError),
    }
}

/// The artifact that carries `plain` under `key`: encrypted, then written as
/// URL-safe base64.
pub open spec fn sealed(key: Seq<char>, plain: Seq<u8>) -> Seq<char> {
    base64_text(cipher_text(key, plain))
}

/// The bytes that an artifact carries under `key`; `None` where it is no
/// base64 text or does not decrypt.
pub open spec fn opened(key: Seq<char>, artifact: Seq<char>) -> Option<Seq<u8>> {
    match base64_bytes(artifact) {
        Some(cipher) => plain_text(key, cipher),
        None => None,
    }
}

/// Encrypts `plain` under `key` and encodes the result for transport. What
/// comes out opens to `plain` under the same key.
pub fn seal(key: &String, plain: &Vec<u8>) -> (artifact: String)
    ensures
        artifact@ == sealed(key@, plain@),
        opened(key@, artifact@) == Some(plain@),
{
    let cipher = aes_encrypt(key, plain);
    base64_encode(&cipher)
}

/// Decodes and decrypts an artifact. Text that is no base64, or that the
/// cipher refuses, is an `InvalidToken`; there is no other failure.
pub fn open(key: &String, artifact: &String) -> (plain: AuthResult<Vec<u8>>)
    ensures
        match opened(key@, artifact@) {
            Some(bytes) => plain matches Ok(p) && p@ == bytes,
            None => plain == Err::<Vec<u8>, AuthError>(AuthError::InvalidToken),
        },
{
    match base64_decode(artifact) {
        Err(_) => Err(AuthError::InvalidToken),
        Ok(cipher) => match aes_decrypt(key, &cipher) {
            Ok(p) => Ok(p),
            Err(_) => Err(AuthError::InvalidToken),
        },
    }
}

} // verus!
