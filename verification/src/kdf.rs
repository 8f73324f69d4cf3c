//! Key derivation: the legacy password-based scheme that chains a 128-bit
//! digest over the secret and the salt until 48 bytes of key material exist.

use vstd::prelude::*;
use md5::Digest;
use crate::buffer::{append_bytes, copy_range};

verus! {

/// Length of one digest.
pub const DIGEST_LEN: usize = 16;

/// Length of the cipher key.
pub const KEY_LEN: usize = 32;

/// Length of the initialization vector.
pub const IV_LEN: usize = 16;

/// Length of the derived key material: key and initialization vector.
pub const KEY_MATERIAL_LEN: usize = 48;

/// The MD5 digest of `data`, as the `md-5` crate computes it.
pub uninterp spec fn md5_digest(data: Seq<u8>) -> Seq<u8>;

/// Calls `md5::Md5::digest`.
///
/// Trusted: the result is the MD5 digest of `data`, a function of the bytes
/// alone, and is 16 bytes long (the crate's output size).
#[verifier::external_body]
fn md5(data: &Vec<u8>) -> (out: Vec<u8>)
    ensures
        out@ == md5_digest(data@),
        out@.len() == DIGEST_LEN,
{
    md5::Md5::digest(data.as_slice()).to_vec()
}

/// The first digest of the chain: the hash of secret and salt.
pub open spec fn first_block(secret: Seq<u8>, salt: Seq<u8>) -> Seq<u8> {
    md5_digest(secret + salt)
}

/// A later digest of the chain: the hash of the previous digest, the secret
/// and the salt.
pub open spec fn next_block(previous: Seq<u8>, secret: Seq<u8>, salt: Seq<u8>) -> Seq<u8> {
    md5_digest(previous + (secret + salt))
}

/// The derived key material: the first 48 bytes of the digest chain. Three
/// digests fill them.
pub open spec fn derive_key_material(secret: Seq<u8>, salt: Seq<u8>) -> Seq<u8> {
    let d1 = first_block(secret, salt);
    let d2 = next_block(d1, secret, salt);
    let d3 = next_block(d2, secret, salt);
    (d1 + d2 + d3).subrange(0, KEY_MATERIAL_LEN as int)
}

/// The digest with index `n` of the chain.
spec fn chain_block(secret: Seq<u8>, salt: Seq<u8>, n: nat) -> Seq<u8>
    decreases n,
{
    if n == 0 {
        first_block(secret, salt)
    } else {
        next_block(chain_block(secret, salt, (n - 1) as nat), secret, salt)
    }
}

/// The first `n + 1` digests of the chain, concatenated.
spec fn digest_chain(secret: Seq<u8>, salt: Seq<u8>, n: nat) -> Seq<u8>
    decreases n,
{
    if n == 0 {
        first_block(secret, salt)
    } else {
        digest_chain(secret, salt, (n - 1) as nat) + chain_block(secret, salt, n)
    }
}

/// Three digests of the chain are the three that the key material is cut from.
proof fn lemma_three_blocks(secret: Seq<u8>, salt: Seq<u8>)
    ensures
        digest_chain(secret, salt, 2).subrange(0, KEY_MATERIAL_LEN as int) == derive_key_material(
            secret,
            salt,
        ),
{
    reveal_with_fuel(chain_block, 3);
    reveal_with_fuel(digest_chain, 3);
}

/// Derives 48 bytes of key material from a secret and a salt.
///
/// The result depends on the two arguments alone and is always 48 bytes
/// long, whatever their lengths.
pub fn bytes_to_key(data: Vec<u8>, salt: Vec<u8>) -> (key: Vec<u8>)
    ensures
        key@ == derive_key_material(data@, salt@),
        key@.len() == KEY_MATERIAL_LEN,
{
    let mut data_and_salt: Vec<u8> = Vec::new();
    append_bytes(&mut data_and_salt, &data);
    append_bytes(&mut data_and_salt, &salt);
    assert(data_and_salt@ == data@ + salt@);

    let mut block = md5(&data_and_salt);
    let mut final_key: Vec<u8> = Vec::new();
    append_bytes(&mut final_key, &block);
    let ghost mut n: nat = 0;

    while final_key.len() < KEY_MATERIAL_LEN
        invariant
            data_and_salt@ == data@ + salt@,
            block@ == chain_block(data@, salt@, n),
            block@.len() == DIGEST_LEN,
            final_key@ == digest_chain(data@, salt@, n),
            final_key@.len() == (n + 1) * DIGEST_LEN,
            n <= 2,
        decreases KEY_MATERIAL_LEN - final_key.len(),
    {
        let mut input: Vec<u8> = Vec::new();
        append_bytes(&mut input, &block);
        append_bytes(&mut input, &data_and_salt);
        block = md5(&input);
        append_bytes(&mut final_key, &block);
        proof {
            n = n + 1;
        }
    }
    proof {
        lemma_three_blocks(data@, salt@);
    }
    copy_range(&final_key, 0, KEY_MATERIAL_LEN)
}

/// Key and initialization vector for the cipher.
pub struct DerivedKeyMaterial {
    key: Vec<u8>,
    iv: Vec<u8>,
}

impl DerivedKeyMaterial {
    #[verifier::type_invariant]
    spec fn lengths(self) -> bool {
        self.key@.len() == KEY_LEN && self.iv@.len() == IV_LEN
    }

    /// The bytes of the key.
    pub closed spec fn key_bytes(self) -> Seq<u8> {
        self.key@
    }

    /// The bytes of the initialization vector.
    pub closed spec fn iv_bytes(self) -> Seq<u8> {
        self.iv@
    }

    /// Derives the key material and splits it: the first 32 bytes are the
    /// key, the 16 that follow the initialization vector.
    pub fn derive(secret: Vec<u8>, salt: Vec<u8>) -> (material: DerivedKeyMaterial)
        ensures
            material.key_bytes() == derive_key_material(secret@, salt@).subrange(
                0,
                KEY_LEN as int,
            ),
            material.iv_bytes() == derive_key_material(secret@, salt@).subrange(
                KEY_LEN as int,
                KEY_MATERIAL_LEN as int,
            ),
            material.key_bytes().len() == KEY_LEN,
            material.iv_bytes().len() == IV_LEN,
    {
        let bytes = bytes_to_key(secret, salt);
        let key = copy_range(&bytes, 0, KEY_LEN);
        let iv = copy_range(&bytes, KEY_LEN, KEY_MATERIAL_LEN);
        DerivedKeyMaterial { key, iv }
    }

    /// The 32-byte key.
    pub fn key(&self) -> (key: &Vec<u8>)
        ensures
            key@ == self.key_bytes(),
            key@.len() == KEY_LEN,
    {
        proof {
            use_type_invariant(self);
        }
        &self.key
    }

    /// The 16-byte initialization vector.
    pub fn iv(&self) -> (iv: &Vec<u8>)
        ensures
            iv@ == self.iv_bytes(),
            iv@.len() == IV_LEN,
    {
        proof {
            use_type_invariant(self);
        }
        &self.iv
    }
}

} // verus!
