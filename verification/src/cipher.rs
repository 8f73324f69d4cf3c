//! Envelope encryption and decryption: base64, AES-256 in CBC mode with
//! PKCS#7 padding, and the UTF-8 reading of the plaintext.

use vstd::prelude::*;
use vstd::pervasive::unreached;
use vstd::utf8::{decode_utf8, encode_utf8, valid_utf8};
use block_modes::BlockMode;
use crate::envelope::{
    ciphertext_of, get_salt_and_data, lemma_sealed_opens, salt_of, seal, sealed, well_formed,
    SALT_LEN,
};
use crate::error::DecodeError;
use crate::kdf::{derive_key_material, DerivedKeyMaterial, IV_LEN, KEY_LEN, KEY_MATERIAL_LEN};

verus! {

/// The error of `block-modes` for a ciphertext that cannot be decrypted.
#[verifier::external_type_specification]
#[verifier::external_body]
pub struct ExBlockModeError(block_modes::BlockModeError);

/// The error of `block-modes` for a key or an initialization vector of the
/// wrong length.
#[verifier::external_type_specification]
#[verifier::external_body]
pub struct ExInvalidKeyIvLength(block_modes::InvalidKeyIvLength);

/// The error of `String::from_utf8`.
#[verifier::external_type_specification]
#[verifier::external_body]
pub struct ExFromUtf8Error(std::string::FromUtf8Error);

/// What `base64::decode` makes of a text: the bytes, or `None` where it
/// reports an error.
pub uninterp spec fn base64_decoded(text: Seq<char>) -> Option<Seq<u8>>;

/// The text that `base64::encode` makes of bytes.
pub uninterp spec fn base64_encoded(bytes: Seq<u8>) -> Seq<char>;

/// What AES-256 decryption in CBC mode with PKCS#7 unpadding, as the
/// `block-modes` and `aes` crates compute it, makes of a ciphertext under a
/// 32-byte key and a 16-byte initialization vector: the plaintext, or `None`
/// where it reports an error.
pub uninterp spec fn cbc_decrypted(key: Seq<u8>, iv: Seq<u8>, ciphertext: Seq<u8>) -> Option<
    Seq<u8>,
>;

/// The ciphertext that AES-256 encryption in CBC mode with PKCS#7 padding, as
/// the `block-modes` and `aes` crates compute it, makes of a plaintext under
/// a 32-byte key and a 16-byte initialization vector.
pub uninterp spec fn cbc_encrypted(key: Seq<u8>, iv: Seq<u8>, plaintext: Seq<u8>) -> Seq<u8>;

/// Calls `base64::decode` (standard alphabet, padded) and drops the detail
/// of its error.
///
/// Trusted: the outcome is a function of the text alone. (The call panics
/// only where the length of the text plus three overflows `usize`, which no
/// string in memory reaches.)
#[verifier::external_body]
fn base64_decode(text: &str) -> (r: Option<Vec<u8>>)
    ensures
        match r {
            Some(bytes) => base64_decoded(text@) == Some(bytes@),
            None => base64_decoded(text@) is None,
        },
{
    base64::decode(text).ok()
}

/// Calls `base64::encode` (standard alphabet, padded).
///
/// Trusted: the text is a function of the bytes alone, and decoding it gives
/// the bytes back. (The call panics only where four thirds of the length
/// overflow `usize`, which no vector in memory reaches.)
#[verifier::external_body]
fn base64_encode(bytes: &Vec<u8>) -> (text: String)
    ensures
        text@ == base64_encoded(bytes@),
        base64_decoded(text@) == Some(bytes@),
{
    base64::encode(bytes)
}

/// Calls `Cbc::<Aes256, Pkcs7>::new_var` and, on the cipher it returns,
/// `decrypt_vec`.
///
/// Trusted: the constructor accepts exactly a 32-byte key with a 16-byte
/// initialization vector; the outcome of the decryption is a function of
/// key, initialization vector and ciphertext alone; and a ciphertext that is
/// no whole number of 16-byte blocks is reported as an error.
#[verifier::external_body]
fn cbc_decrypt(key: &Vec<u8>, iv: &Vec<u8>, ciphertext: &Vec<u8>) -> (r: Result<
    Result<Vec<u8>, block_modes::BlockModeError>,
    block_modes::InvalidKeyIvLength,
>)
    ensures
        match r {
            Ok(Ok(plain)) => cbc_decrypted(key@, iv@, ciphertext@) == Some(plain@),
            Ok(Err(_)) => cbc_decrypted(key@, iv@, ciphertext@) is None,
            Err(_) => key@.len() != KEY_LEN || iv@.len() != IV_LEN,
        },
        r is Ok ==> key@.len() == KEY_LEN && iv@.len() == IV_LEN,
        ciphertext@.len() % 16 != 0 ==> !(r matches Ok(Ok(_))),
{
    match block_modes::Cbc::<aes::Aes256, block_modes::block_padding::Pkcs7>::new_var(key, iv) {
        Ok(cipher) => Ok(cipher.decrypt_vec(ciphertext)),
        Err(e) => Err(e),
    }
}

/// Calls `Cbc::<Aes256, Pkcs7>::new_var` and, on the cipher it returns,
/// `encrypt_vec`.
///
/// Trusted: the constructor accepts exactly a 32-byte key with a 16-byte
/// initialization vector; the ciphertext is a function of key,
/// initialization vector and plaintext alone, and decrypts to the plaintext
/// under the same key and initialization vector.
#[verifier::external_body]
fn cbc_encrypt(key: &Vec<u8>, iv: &Vec<u8>, plaintext: &Vec<u8>) -> (r: Result<
    Vec<u8>,
    block_modes::InvalidKeyIvLength,
>)
    ensures
        match r {
            Ok(ciphertext) => {
                &&& ciphertext@ == cbc_encrypted(key@, iv@, plaintext@)
                &&& cbc_decrypted(key@, iv@, ciphertext@) == Some(plaintext@)
            },
            Err(_) => key@.len() != KEY_LEN || iv@.len() != IV_LEN,
        },
        r is Ok ==> key@.len() == KEY_LEN && iv@.len() == IV_LEN,
{
    match block_modes::Cbc::<aes::Aes256, block_modes::block_padding::Pkcs7>::new_var(key, iv) {
        Ok(cipher) => Ok(cipher.encrypt_vec(plaintext)),
        Err(e) => Err(e),
    }
}

/// Calls `String::from_utf8`.
///
/// Trusted: it succeeds exactly on valid UTF-8 and then returns the text
/// that the bytes encode.
#[verifier::external_body]
fn string_from_utf8(bytes: Vec<u8>) -> (r: Result<String, std::string::FromUtf8Error>)
    ensures
        r is Ok <==> valid_utf8(bytes@),
        r matches Ok(text) ==> text@ == decode_utf8(bytes@),
{
    String::from_utf8(bytes)
}

/// The path that a decrypted plaintext holds.
pub open spec fn plaintext_path(plain: Seq<u8>) -> Result<Seq<char>, DecodeError> {
    if valid_utf8(plain) {
        Ok(decode_utf8(plain))
    } else {
        Err(DecodeError::EncodingError)
    }
}

/// The path that the outcome of the cipher holds.
pub open spec fn opened(outcome: Option<Seq<u8>>) -> Result<Seq<char>, DecodeError> {
    match outcome {
        Some(plain) => plaintext_path(plain),
        None => Err(DecodeError::DecryptionFailure),
    }
}

/// The key that a secret and a salt give.
pub open spec fn key_of(secret: Seq<u8>, salt: Seq<u8>) -> Seq<u8> {
    derive_key_material(secret, salt).subrange(0, KEY_LEN as int)
}

/// The initialization vector that a secret and a salt give.
pub open spec fn iv_of(secret: Seq<u8>, salt: Seq<u8>) -> Seq<u8> {
    derive_key_material(secret, salt).subrange(KEY_LEN as int, KEY_MATERIAL_LEN as int)
}

/// The path that a decoded envelope holds under a secret. A malformed
/// envelope is rejected whatever the cipher would make of it.
pub open spec fn envelope_path(data: Seq<u8>, secret: Seq<u8>) -> Result<Seq<char>, DecodeError> {
    if !well_formed(data) {
        Err(DecodeError::MalformedEnvelope)
    } else {
        opened(
            cbc_decrypted(
                key_of(secret, salt_of(data)),
                iv_of(secret, salt_of(data)),
                ciphertext_of(data),
            ),
        )
    }
}

/// The path that a base64 envelope holds under a secret.
pub open spec fn decrypted_path(envelope: Seq<char>, secret: Seq<u8>) -> Result<
    Seq<char>,
    DecodeError,
> {
    match base64_decoded(envelope) {
        Some(data) => envelope_path(data, secret),
        None => Err(DecodeError::MalformedEnvelope),
    }
}

/// The base64 envelope that holds a path under a secret and a salt.
pub open spec fn encrypted_envelope(path: Seq<char>, secret: Seq<u8>, salt: Seq<u8>) -> Seq<
    char,
> {
    base64_encoded(
        sealed(salt, cbc_encrypted(key_of(secret, salt), iv_of(secret, salt), encode_utf8(path))),
    )
}

/// Whether an executable outcome is the one that the model gives.
pub open spec fn agrees(r: Result<String, DecodeError>, model: Result<Seq<char>, DecodeError>) -> bool {
    match r {
        Ok(text) => model == Ok::<Seq<char>, DecodeError>(text@),
        Err(e) => model == Err::<Seq<char>, DecodeError>(e),
    }
}

/// An envelope that is shorter than its header, or opens with another
/// marker, is malformed under every secret: neither key derivation nor the
/// cipher has a say in it.
pub proof fn lemma_malformed_is_rejected(data: Seq<u8>, secret: Seq<u8>)
    requires
        data.len() < 16 || data.subrange(0, 8) != crate::envelope::magic(),
    ensures
        envelope_path(data, secret) == Err::<Seq<char>, DecodeError>(
            DecodeError::MalformedEnvelope,
        ),
{
}

/// Reads a decrypted plaintext as UTF-8 text.
pub fn read_plaintext(plain: Vec<u8>) -> (r: Result<String, DecodeError>)
    ensures
        agrees(r, plaintext_path(plain@)),
{
    match string_from_utf8(plain) {
        Ok(text) => Ok(text),
        Err(_) => Err(DecodeError::EncodingError),
    }
}

/// Turns the outcome of the cipher into a path.
pub fn read_decrypted(outcome: Option<Vec<u8>>) -> (r: Result<String, DecodeError>)
    ensures
        agrees(
            r,
            opened(
                match outcome {
                    Some(plain) => Some(plain@),
                    None => None,
                },
            ),
        ),
{
    match outcome {
        Some(plain) => read_plaintext(plain),
        None => Err(DecodeError::DecryptionFailure),
    }
}

/// Decrypts a decoded envelope under a secret.
///
/// An envelope shorter than its header, or with another marker, is reported
/// as malformed before any key is derived or any block decrypted; a
/// ciphertext that is no whole number of blocks is a decryption failure.
pub fn decrypt_envelope(data: Vec<u8>, secret: Vec<u8>) -> (r: Result<String, DecodeError>)
    ensures
        agrees(r, envelope_path(data@, secret@)),
        !well_formed(data@) ==> r == Err::<String, DecodeError>(DecodeError::MalformedEnvelope),
        well_formed(data@) && ciphertext_of(data@).len() % 16 != 0 ==> r == Err::<
            String,
            DecodeError,
        >(DecodeError::DecryptionFailure),
{
    match get_salt_and_data(data) {
        None => Err(DecodeError::MalformedEnvelope),
        Some((salt, text)) => {
            let material = DerivedKeyMaterial::derive(secret, salt);
            let outcome = match cbc_decrypt(material.key(), material.iv(), &text) {
                Ok(Ok(plain)) => Some(plain),
                _ => None,
            };
            read_decrypted(outcome)
        },
    }
}

/// Decrypts a base64 envelope under a secret and returns the path it holds.
///
/// Text that is no base64 is a malformed envelope.
pub fn decrypt(envelope: &str, secret: Vec<u8>) -> (r: Result<String, DecodeError>)
    ensures
        agrees(r, decrypted_path(envelope@, secret@)),
{
    match base64_decode(envelope) {
        Some(data) => decrypt_envelope(data, secret),
        None => Err(DecodeError::MalformedEnvelope),
    }
}

/// Encrypts a path under a secret and an 8-byte salt, into the base64
/// envelope that `decrypt` reads.
///
/// Round trip: the envelope decrypts to the path under the same secret.
pub fn encrypt(path: &str, secret: Vec<u8>, salt: [u8; 8]) -> (envelope: String)
    ensures
        envelope@ == encrypted_envelope(path@, secret@, salt@),
        decrypted_path(envelope@, secret@) == Ok::<Seq<char>, DecodeError>(path@),
{
    broadcast use {vstd::utf8::encode_utf8_valid_utf8, vstd::utf8::encode_utf8_decode_utf8};

    let mut salt_bytes: Vec<u8> = Vec::new();
    let mut i: usize = 0;
    while i < SALT_LEN
        invariant
            i <= SALT_LEN,
            salt_bytes@ == salt@.take(i as int),
        decreases SALT_LEN - i,
    {
        salt_bytes.push(salt[i]);
        i += 1;
    }
    assert(salt@.take(SALT_LEN as int) == salt@);
    let material = DerivedKeyMaterial::derive(secret, salt_bytes.clone());
    let plain = path.as_bytes_vec();
    let ciphertext = match cbc_encrypt(material.key(), material.iv(), &plain) {
        Ok(ciphertext) => ciphertext,
        Err(_) => unreached(),
    };
    let data = seal(&salt_bytes, &ciphertext);
    proof {
        lemma_sealed_opens(salt@, ciphertext@);
        assert(valid_utf8(plain@));
        assert(decode_utf8(plain@) == path@);
    }
    base64_encode(&data)
}

/// The secret under which the catalog encrypts its paths.
pub open spec fn catalog_secret() -> Seq<u8> {
    seq![
        0x4cu8, 0x58u8, 0x67u8, 0x49u8, 0x56u8, 0x50u8, 0x26u8, 0x50u8, 0x6fu8, 0x72u8, 0x4fu8,
        0x36u8, 0x38u8, 0x52u8, 0x71u8, 0x37u8, 0x64u8, 0x54u8, 0x78u8, 0x38u8, 0x4eu8, 0x5eu8,
        0x6cu8, 0x50u8, 0x21u8, 0x46u8, 0x61u8, 0x35u8, 0x73u8, 0x47u8, 0x4au8, 0x5eu8, 0x2au8,
        0x58u8, 0x4bu8,
    ]
}

/// The secret under which the catalog encrypts its paths.
pub fn secret() -> (key: Vec<u8>)
    ensures
        key@ == catalog_secret(),
{
    let bytes: [u8; 35] = [
        0x4c, 0x58, 0x67, 0x49, 0x56, 0x50, 0x26, 0x50, 0x6f, 0x72, 0x4f, 0x36, 0x38, 0x52, 0x71,
        0x37, 0x64, 0x54, 0x78, 0x38, 0x4e, 0x5e, 0x6c, 0x50, 0x21, 0x46, 0x61, 0x35, 0x73, 0x47,
        0x4a, 0x5e, 0x2a, 0x58, 0x4b,
    ];
    let mut key: Vec<u8> = Vec::new();
    let mut i: usize = 0;
    while i < 35
        invariant
            i <= 35,
            bytes@ == catalog_secret(),
            key@ == bytes@.take(i as int),
        decreases 35 - i,
    {
        key.push(bytes[i]);
        i += 1;
    }
    assert(bytes@.take(35) == bytes@);
    key
}

/// Decrypts a base64 envelope of the catalog and returns the path it holds.
pub fn decrypt_data(encrypted_data: &str) -> (r: Result<String, DecodeError>)
    ensures
        agrees(r, decrypted_path(encrypted_data@, catalog_secret())),
{
    decrypt(encrypted_data, secret())
}

} // verus!
