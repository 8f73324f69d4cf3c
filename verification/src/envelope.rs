//! The byte layout of an encrypted envelope: an 8-byte marker, an 8-byte salt
//! and the ciphertext.

use vstd::prelude::*;
use crate::buffer::{append_bytes, copy_range};

verus! {

/// Length of the marker that opens every envelope.
pub const MAGIC_LEN: usize = 8;

/// Length of the salt that follows the marker.
pub const SALT_LEN: usize = 8;

/// Length of the envelope header: marker and salt.
pub const HEADER_LEN: usize = 16;

/// The marker `Salted__` as bytes.
pub open spec fn magic() -> Seq<u8> {
    seq![0x53u8, 0x61u8, 0x6cu8, 0x74u8, 0x65u8, 0x64u8, 0x5fu8, 0x5fu8]
}

/// An envelope is well formed when it holds the header and opens with the marker.
pub open spec fn well_formed(data: Seq<u8>) -> bool {
    data.len() >= HEADER_LEN && data.subrange(0, MAGIC_LEN as int) == magic()
}

/// The salt of a well-formed envelope.
pub open spec fn salt_of(data: Seq<u8>) -> Seq<u8> {
    data.subrange(MAGIC_LEN as int, HEADER_LEN as int)
}

/// The ciphertext of a well-formed envelope.
pub open spec fn ciphertext_of(data: Seq<u8>) -> Seq<u8> {
    data.subrange(HEADER_LEN as int, data.len() as int)
}

/// Splits a decoded envelope into its salt and its ciphertext.
///
/// Returns `None` exactly when the envelope is shorter than its header or
/// does not open with the marker.
pub fn get_salt_and_data(data: Vec<u8>) -> (r: Option<(Vec<u8>, Vec<u8>)>)
    ensures
        r is Some <==> well_formed(data@),
        r matches Some((salt, text)) ==> salt@ == salt_of(data@) && text@ == ciphertext_of(data@),
{
    if data.len() < HEADER_LEN {
        return None;
    }
    let marker: [u8; 8] = [0x53, 0x61, 0x6c, 0x74, 0x65, 0x64, 0x5f, 0x5f];
    let mut i: usize = 0;
    while i < MAGIC_LEN
        invariant
            i <= MAGIC_LEN,
            data.len() >= HEADER_LEN,
            marker@ == magic(),
            forall|j: int| 0 <= j < i ==> data@[j] == magic()[j],
        decreases MAGIC_LEN - i,
    {
        if data[i] != marker[i] {
            assert(data@.subrange(0, MAGIC_LEN as int)[i as int] == data@[i as int]);
            return None;
        }
        i += 1;
    }
    assert(data@.subrange(0, MAGIC_LEN as int) =~= magic());
    let salt = copy_range(&data, MAGIC_LEN, HEADER_LEN);
    let text = copy_range(&data, HEADER_LEN, data.len());
    Some((salt, text))
}

/// The envelope that holds a salt and a ciphertext.
pub open spec fn sealed(salt: Seq<u8>, ciphertext: Seq<u8>) -> Seq<u8> {
    magic() + salt + ciphertext
}

/// An envelope that was sealed with a salt of the right length is well
/// formed, and gives back its salt and its ciphertext.
pub proof fn lemma_sealed_opens(salt: Seq<u8>, ciphertext: Seq<u8>)
    requires
        salt.len() == SALT_LEN,
    ensures
        well_formed(sealed(salt, ciphertext)),
        salt_of(sealed(salt, ciphertext)) == salt,
        ciphertext_of(sealed(salt, ciphertext)) == ciphertext,
{
    let data = sealed(salt, ciphertext);
    assert(data.subrange(0, MAGIC_LEN as int) =~= magic());
    assert(salt_of(data) =~= salt);
    assert(ciphertext_of(data) =~= ciphertext);
}

/// Builds the envelope that holds a salt and a ciphertext.
pub fn seal(salt: &Vec<u8>, ciphertext: &Vec<u8>) -> (data: Vec<u8>)
    ensures
        data@ == sealed(salt@, ciphertext@),
{
    let mut data: Vec<u8> = Vec::new();
    data.push(0x53);
    data.push(0x61);
    data.push(0x6c);
    data.push(0x74);
    data.push(0x65);
    data.push(0x64);
    data.push(0x5f);
    data.push(0x5f);
    assert(data@ =~= magic());
    append_bytes(&mut data, salt);
    append_bytes(&mut data, ciphertext);
    data
}

} // verus!
