//! The cryptographic primitives the service relies on, each a thin call into
//! the crate that implements it. Deterministic results are named by
//! uninterpreted spec functions; results that depend on chance carry only
//! what holds of every outcome.
use aes_gcm::aead::rand_core::RngCore;
use aes_gcm::aead::{Aead, KeyInit};
use base64::Engine;
use ed25519_dalek::pkcs8::EncodePublicKey;
use ed25519_dalek::Signer;
use rand::RngExt;
use sha2::Digest;
use vstd::prelude::*;
use vstd::string::StringSliceAdditionalSpecFns;
use zeroize::Zeroize;

verus! {

/// Largest plaintext AES-256-GCM accepts, in bytes (`aes_gcm::P_MAX`).
pub const AES_GCM_MAX_PLAINTEXT: u64 = 68719476736;

/// AES-256-GCM encryption of `pt` under `key` and `nonce`: ciphertext followed by the tag.
pub uninterp spec fn spec_aes256gcm_seal(key: Seq<u8>, nonce: Seq<u8>, pt: Seq<u8>) -> Seq<u8>;

/// AES-256-GCM decryption of `ct` under `key` and `nonce`; `None` when the tag does not verify.
pub uninterp spec fn spec_aes256gcm_open(key: Seq<u8>, nonce: Seq<u8>, ct: Seq<u8>) -> Option<Seq<u8>>;

/// The 32-byte Argon2id (version 0x13) output for `pwd` and `salt` with memory
/// cost `m`, time cost `t` and parallelism `p`.
pub uninterp spec fn spec_argon2id(pwd: Seq<u8>, salt: Seq<u8>, m: u32, t: u32, p: u32) -> Seq<u8>;

/// The SHA-256 digest of `data`.
pub uninterp spec fn spec_sha256(data: Seq<u8>) -> Seq<u8>;

/// Standard padded Base64 decoding of the bytes `input`: the bytes, or the
/// decoder's error message.
pub uninterp spec fn spec_base64_decode(input: Seq<u8>) -> Result<Seq<u8>, Seq<char>>;

/// Standard padded Base64 encoding of `data`.
pub uninterp spec fn spec_base64_encode(data: Seq<u8>) -> Seq<char>;

/// The SubjectPublicKeyInfo PEM (LF line endings) of the Ed25519 public key of
/// the 32-byte secret `secret`, or the encoder's error message.
pub uninterp spec fn spec_ed25519_public_pem(secret: Seq<u8>) -> Result<Seq<char>, Seq<char>>;

/// The 64-byte Ed25519 signature of `msg` under the 32-byte secret `secret`.
pub uninterp spec fn spec_ed25519_sign(secret: Seq<u8>, msg: Seq<u8>) -> Seq<u8>;

/// The X25519 public key of the 32-byte secret `secret`.
pub uninterp spec fn spec_x25519_public(secret: Seq<u8>) -> Seq<u8>;

/// The PEM encoding of `contents` under the label `tag`.
pub uninterp spec fn spec_pem_encode(tag: Seq<char>, contents: Seq<u8>) -> Seq<char>;

/// The message `hex::decode` reports for the bytes `input` when they are not valid hex.
pub uninterp spec fn spec_hex_error_text(input: Seq<u8>) -> Seq<char>;

/// Shamir secret-sharing recovery from the encoded `shares`: the secret, or
/// `None` when the shares cannot be joined (none decodes, or the decoded
/// shares are empty or differ in length).
pub uninterp spec fn spec_ssss_unlock(shares: Seq<Seq<char>>) -> Option<Seq<u8>>;

/// The value of a hexadecimal digit byte (`0-9`, `a-f`, `A-F`).
pub open spec fn spec_hex_value(b: u8) -> Option<u8> {
    if 48 <= b <= 57 {
        Some((b - 48) as u8)
    } else if 65 <= b <= 70 {
        Some((b - 55) as u8)
    } else if 97 <= b <= 102 {
        Some((b - 87) as u8)
    } else {
        None
    }
}

/// Hexadecimal decoding of the bytes `input`, two digits per byte, either case.
pub open spec fn spec_hex_decode(input: Seq<u8>) -> Option<Seq<u8>>
    decreases input.len(),
{
    if input.len() % 2 != 0 {
        None
    } else if input.len() == 0 {
        Some(Seq::empty())
    } else {
        let n = input.len() as int;
        match (
            spec_hex_decode(input.subrange(0, n - 2)),
            spec_hex_value(input[n - 2]),
            spec_hex_value(input[n - 1]),
        ) {
            (Some(prefix), Some(hi), Some(lo)) => Some(prefix.push((hi * 16 + lo) as u8)),
            _ => None,
        }
    }
}

/// What went wrong in an Argon2id derivation, with the crate's message.
#[derive(Debug)]
pub enum Argon2Failure {
    /// The cost parameters were rejected.
    Params(String),
    /// The hashing itself was refused (salt or password out of range).
    Hash(String),
}

/// Whether `argon2::Params::new` accepts these costs.
pub open spec fn spec_argon2_params_valid(m: u32, t: u32, p: u32) -> bool {
    m >= 8 && m >= 8 * p && t >= 1 && p >= 1 && p <= 0xFFFFFF
}

/// Whether `Argon2::hash_password_into` accepts this password and salt.
pub open spec fn spec_argon2_inputs_valid(pwd: Seq<u8>, salt: Seq<u8>) -> bool {
    pwd.len() <= 0xFFFFFFFF && 8 <= salt.len() <= 0xFFFFFFFF
}

/// `aes_gcm::Aes256Gcm::encrypt` with no associated data. Succeeds exactly when
/// the plaintext is at most `P_MAX` bytes; the result is named by
/// `spec_aes256gcm_seal`, and decrypting it under the same key and nonce gives
/// the plaintext back (AEAD correctness). The error text is the crate's
/// `aead::Error` message.
#[verifier::external_body]
pub(crate) fn aes256gcm_seal(key: &[u8], nonce: &[u8], plaintext: &[u8]) -> (r: Result<Vec<u8>, String>)
    requires
        key@.len() == 32,
        nonce@.len() == 12,
    ensures
        r is Ok <==> plaintext@.len() <= AES_GCM_MAX_PLAINTEXT,
        r matches Ok(c) ==> c@ == spec_aes256gcm_seal(key@, nonce@, plaintext@)
            && spec_aes256gcm_open(key@, nonce@, c@) == Some(plaintext@),
        r matches Err(m) ==> m@ == "aead::Error"@,
{
    let cipher = aes_gcm::Aes256Gcm::new_from_slice(key).map_err(|e| e.to_string())?;
    cipher.encrypt(aes_gcm::Nonce::from_slice(nonce), plaintext).map_err(|e| e.to_string())
}

/// `aes_gcm::Aes256Gcm::decrypt` with no associated data: the plaintext when the
/// tag verifies, named by `spec_aes256gcm_open`.
#[verifier::external_body]
pub(crate) fn aes256gcm_open(key: &[u8], nonce: &[u8], ciphertext: &[u8]) -> (r: Option<Vec<u8>>)
    requires
        key@.len() == 32,
        nonce@.len() == 12,
    ensures
        match r {
            Some(p) => spec_aes256gcm_open(key@, nonce@, ciphertext@) == Some(p@),
            None => spec_aes256gcm_open(key@, nonce@, ciphertext@) is None,
        },
{
    let cipher = aes_gcm::Aes256Gcm::new_from_slice(key).ok()?;
    cipher.decrypt(aes_gcm::Nonce::from_slice(nonce), ciphertext).ok()
}

/// `argon2::Params::new(m, t, p, None)`, `Argon2::new(Argon2id, V0x13, ..)` and
/// `hash_password_into` with a 32-byte output. The parameters are refused
/// exactly when `Params::new` refuses them; the hashing is refused exactly when
/// the password or salt is out of range; otherwise the key is named by
/// `spec_argon2id`. The messages are the crate's error texts, not stated.
/// Parallelism of 2^29 or more is excluded: `Params::new` computes `p * 8` in
/// `u32` before it checks the upper bound of 2^24 - 1 lanes.
#[verifier::external_body]
pub(crate) fn argon2id_derive_32(pwd: &[u8], salt: &[u8], m: u32, t: u32, p: u32) -> (r: Result<Vec<u8>, Argon2Failure>)
    requires
        p <= 0x1FFFFFFF,
    ensures
        match r {
            Ok(k) => spec_argon2_params_valid(m, t, p) && spec_argon2_inputs_valid(pwd@, salt@)
                && k@ == spec_argon2id(pwd@, salt@, m, t, p) && k@.len() == 32,
            Err(Argon2Failure::Params(_)) => !spec_argon2_params_valid(m, t, p),
            Err(Argon2Failure::Hash(_)) => spec_argon2_params_valid(m, t, p)
                && !spec_argon2_inputs_valid(pwd@, salt@),
        },
{
    let params = argon2::Params::new(m, t, p, None).map_err(|e| Argon2Failure::Params(e.to_string()))?;
    let argon = argon2::Argon2::new(argon2::Algorithm::Argon2id, argon2::Version::V0x13, params);
    let mut out = [0u8; 32];
    argon.hash_password_into(pwd, salt, &mut out).map_err(|e| Argon2Failure::Hash(e.to_string()))?;
    Ok(out.to_vec())
}

/// `sha2::Sha256::digest`: the 32-byte digest, named by `spec_sha256`.
#[verifier::external_body]
pub(crate) fn sha256(data: &[u8]) -> (r: Vec<u8>)
    ensures
        r@ == spec_sha256(data@),
        r@.len() == 32,
{
    sha2::Sha256::digest(data).to_vec()
}

/// `base64::engine::general_purpose::STANDARD.decode` of the bytes of `input`:
/// the outcome, error message included, is named by `spec_base64_decode`.
#[verifier::external_body]
pub(crate) fn base64_decode(input: &str) -> (r: Result<Vec<u8>, String>)
    ensures
        match r {
            Ok(v) => spec_base64_decode(input.spec_bytes()) == Ok::<Seq<u8>, Seq<char>>(v@),
            Err(m) => spec_base64_decode(input.spec_bytes()) == Err::<Seq<u8>, Seq<char>>(m@),
        },
{
    base64::engine::general_purpose::STANDARD.decode(input).map_err(|e| e.to_string())
}

/// `base64::engine::general_purpose::STANDARD.encode`, named by `spec_base64_encode`.
#[verifier::external_body]
pub(crate) fn base64_encode(data: &[u8]) -> (r: String)
    ensures
        r@ == spec_base64_encode(data@),
{
    base64::engine::general_purpose::STANDARD.encode(data)
}

/// `ed25519_dalek::SigningKey::generate` with the operating system's RNG: the
/// new 32-byte secret. Which secret comes out is left open.
#[verifier::external_body]
pub(crate) fn ed25519_generate_secret() -> (r: Vec<u8>)
    ensures
        r@.len() == 32,
{
    let mut rng = aes_gcm::aead::OsRng;
    ed25519_dalek::SigningKey::generate(&mut rng).to_bytes().to_vec()
}

/// `VerifyingKey::to_public_key_pem(LineEnding::LF)` for the signing key with
/// the 32-byte secret `secret`: named by `spec_ed25519_public_pem`.
#[verifier::external_body]
pub(crate) fn ed25519_public_key_pem(secret: &[u8]) -> (r: Result<String, String>)
    requires
        secret@.len() == 32,
    ensures
        match r {
            Ok(p) => spec_ed25519_public_pem(secret@) == Ok::<Seq<char>, Seq<char>>(p@),
            Err(m) => spec_ed25519_public_pem(secret@) == Err::<Seq<char>, Seq<char>>(m@),
        },
{
    let mut bytes = [0u8; 32];
    bytes.copy_from_slice(secret);
    let signing = ed25519_dalek::SigningKey::from_bytes(&bytes);
    signing.verifying_key().to_public_key_pem(pkcs8::LineEnding::LF).map_err(|e| e.to_string())
}

/// `SigningKey::sign` for the 32-byte secret `secret`: the 64-byte signature,
/// named by `spec_ed25519_sign` (Ed25519 signing is deterministic).
#[verifier::external_body]
pub(crate) fn ed25519_sign(secret: &[u8], msg: &[u8]) -> (r: Vec<u8>)
    requires
        secret@.len() == 32,
    ensures
        r@ == spec_ed25519_sign(secret@, msg@),
        r@.len() == 64,
{
    let mut bytes = [0u8; 32];
    bytes.copy_from_slice(secret);
    ed25519_dalek::SigningKey::from_bytes(&bytes).sign(msg).to_bytes().to_vec()
}

/// `x25519_dalek::StaticSecret::random_from_rng` with the operating system's
/// RNG: the new 32-byte secret. Which secret comes out is left open.
#[verifier::external_body]
pub(crate) fn x25519_generate_secret() -> (r: Vec<u8>)
    ensures
        r@.len() == 32,
{
    x25519_dalek::StaticSecret::random_from_rng(aes_gcm::aead::OsRng).to_bytes().to_vec()
}

/// `x25519_dalek::PublicKey::from(&StaticSecret::from(secret))`: the 32-byte
/// public key, named by `spec_x25519_public`.
#[verifier::external_body]
pub(crate) fn x25519_public_key(secret: &[u8]) -> (r: Vec<u8>)
    requires
        secret@.len() == 32,
    ensures
        r@ == spec_x25519_public(secret@),
        r@.len() == 32,
{
    let mut bytes = [0u8; 32];
    bytes.copy_from_slice(secret);
    let secret = x25519_dalek::StaticSecret::from(bytes);
    x25519_dalek::PublicKey::from(&secret).as_bytes().to_vec()
}

/// `pem::encode(&pem::Pem::new(tag, contents))`, named by `spec_pem_encode`.
#[verifier::external_body]
pub(crate) fn pem_encode(tag: &str, contents: &[u8]) -> (r: String)
    ensures
        r@ == spec_pem_encode(tag@, contents@),
{
    pem::encode(&pem::Pem::new(tag, contents.to_vec()))
}

/// `OsRng::try_fill_bytes` on a buffer of `len` bytes: the random bytes, or the
/// RNG's error message. Which bytes, and whether it fails, is left open.
#[verifier::external_body]
pub(crate) fn os_random_bytes(len: usize) -> (r: Result<Vec<u8>, String>)
    ensures
        r matches Ok(v) ==> v@.len() == len,
{
    let mut buf = vec![0u8; len];
    aes_gcm::aead::OsRng.try_fill_bytes(&mut buf).map_err(|e| e.to_string())?;
    Ok(buf)
}

/// `hex::decode` of the bytes of `input`: succeeds exactly when they are an even
/// number of hex digits (either case), with the decoded bytes; otherwise the
/// crate's message, named by `spec_hex_error_text`.
#[verifier::external_body]
pub(crate) fn hex_decode(input: &str) -> (r: Result<Vec<u8>, String>)
    ensures
        match r {
            Ok(v) => spec_hex_decode(input.spec_bytes()) == Some(v@),
            Err(m) => spec_hex_decode(input.spec_bytes()) is None && m@ == spec_hex_error_text(
                input.spec_bytes(),
            ),
        },
{
    hex::decode(input).map_err(|e| e.to_string())
}

/// The characters of each share, in order.
pub open spec fn share_texts(shares: Seq<String>) -> Seq<Seq<char>> {
    shares.map_values(|s: String| s@)
}

/// `ssss::unlock`: the secret recovered from the encoded shares, named by
/// `spec_ssss_unlock`; it is not empty. Whether the call fails is fixed by the
/// shares, but its error text is not stated: the crate walks the decoded
/// shares in a `HashMap`'s order, which decides between its "empty share" and
/// "length mismatch" errors (and on a mismatch it also writes the shares to
/// standard error).
#[verifier::external_body]
pub(crate) fn ssss_unlock(shares: &[String]) -> (r: Result<Vec<u8>, String>)
    ensures
        match r {
            Ok(v) => spec_ssss_unlock(share_texts(shares@)) == Some(v@) && v@.len() > 0,
            Err(_) => spec_ssss_unlock(share_texts(shares@)) is None,
        },
{
    ssss::unlock(shares).map_err(|e| e.to_string())
}

/// Whether `c` is an ASCII letter or digit.
pub open spec fn spec_is_ascii_alphanumeric(c: char) -> bool {
    ||| '0' <= c <= '9'
    ||| 'A' <= c <= 'Z'
    ||| 'a' <= c <= 'z'
}

/// One character drawn from `rand::distr::Alphanumeric` with the thread-local
/// RNG (`rand::rng()`): an ASCII letter or digit. Which one is left open.
#[verifier::external_body]
pub(crate) fn random_alphanumeric() -> (c: char)
    ensures
        spec_is_ascii_alphanumeric(c),
{
    char::from(rand::rng().sample(rand::distr::Alphanumeric))
}

/// `zeroize::Zeroize::zeroize` on a byte vector: the contents are overwritten
/// with zeros and the vector is left empty.
#[verifier::external_body]
pub(crate) fn wipe(buf: &mut Vec<u8>)
    ensures
        final(buf)@.len() == 0,
{
    buf.zeroize();
}

/// `zeroize::Zeroize::zeroize` on a 32-byte array: every byte is overwritten
/// with zero.
#[verifier::external_body]
pub(crate) fn wipe_array(buf: &mut [u8; 32])
    ensures
        final(buf)@ == Seq::new(32, |i: int| 0u8),
{
    buf.zeroize();
}

} // verus!
