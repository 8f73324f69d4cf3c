use twist_dl::cipher::{
    decrypt, decrypt_data, decrypt_envelope, encrypt, read_decrypted, read_plaintext, secret,
};
use twist_dl::envelope::{get_salt_and_data, seal};
use twist_dl::error::DecodeError;
use twist_dl::kdf::{bytes_to_key, DerivedKeyMaterial};

fn hex(bytes: &[u8]) -> String {
    let mut out = String::new();
    for b in bytes {
        out.push_str(&format!("{:02x}", b));
    }
    out
}

const VIDEO_ENVELOPE: &str = "U2FsdGVkX18AAAAAAAAAAEbfGTw0urehrrm2ovzK46U=";

#[test]
fn splits_salt_and_ciphertext() {
    let mut data = b"Salted__".to_vec();
    data.extend_from_slice(&[1, 2, 3, 4, 5, 6, 7, 8]);
    data.extend_from_slice(&[9, 10, 11]);
    let (salt, text) = get_salt_and_data(data).unwrap();
    assert_eq!(salt, vec![1, 2, 3, 4, 5, 6, 7, 8]);
    assert_eq!(text, vec![9, 10, 11]);
}

#[test]
fn header_alone_has_empty_ciphertext() {
    let mut data = b"Salted__".to_vec();
    data.extend_from_slice(&[0; 8]);
    let (salt, text) = get_salt_and_data(data).unwrap();
    assert_eq!(salt, vec![0; 8]);
    assert!(text.is_empty());
}

#[test]
fn short_envelope_does_not_split() {
    assert_eq!(get_salt_and_data(Vec::new()), None);
    assert_eq!(get_salt_and_data(b"Salted__1234567".to_vec()), None);
}

#[test]
fn wrong_marker_does_not_split() {
    assert_eq!(get_salt_and_data(b"salted__12345678rest".to_vec()), None);
    assert_eq!(get_salt_and_data(b"Salted_-12345678rest".to_vec()), None);
}

#[test]
fn seal_prepends_marker_and_salt() {
    let data = seal(&vec![1, 2, 3, 4, 5, 6, 7, 8], &vec![0xaa, 0xbb]);
    assert_eq!(data, b"Salted__\x01\x02\x03\x04\x05\x06\x07\x08\xaa\xbb".to_vec());
    let (salt, text) = get_salt_and_data(data).unwrap();
    assert_eq!(salt, vec![1, 2, 3, 4, 5, 6, 7, 8]);
    assert_eq!(text, vec![0xaa, 0xbb]);
}

#[test]
fn key_material_of_the_catalog_secret() {
    let key = bytes_to_key(secret(), vec![0; 8]);
    assert_eq!(
        hex(&key),
        "708002bdbdff97743a704487118ed7fca5dce824d6f842200ccff5e12711096375438443e14eac6a0c0cbf59de726de5"
    );
}

#[test]
fn key_material_of_other_inputs() {
    assert_eq!(
        hex(&bytes_to_key(b"abc".to_vec(), b"12345678".to_vec())),
        "9a361ed860ec2617da5af72079594a216ac29f00e2153986d875a0eba28623dd5a6e36624fb20d43bd2d2589c8d52209"
    );
    assert_eq!(
        hex(&bytes_to_key(Vec::new(), Vec::new())),
        "d41d8cd98f00b204e9800998ecf8427e59adb24ef3cdbe0297f05b395827453f8b8154f03b75f58a6c702235bf643629"
    );
}

#[test]
fn key_material_is_48_bytes_and_repeatable() {
    let secrets: [&[u8]; 4] = [b"a", b"secret", b"a much longer secret than one digest block holds, to be sure", &[0xff; 200]];
    for s in secrets.iter() {
        for salt in [[0u8; 8], [7u8; 8], [1, 2, 3, 4, 5, 6, 7, 8]].iter() {
            let first = bytes_to_key(s.to_vec(), salt.to_vec());
            let second = bytes_to_key(s.to_vec(), salt.to_vec());
            assert_eq!(first.len(), 48);
            assert_eq!(first, second);
        }
    }
}

#[test]
fn key_material_depends_on_the_salt() {
    assert_ne!(bytes_to_key(secret(), vec![0; 8]), bytes_to_key(secret(), vec![1; 8]));
}

#[test]
fn material_splits_into_key_and_iv() {
    let all = bytes_to_key(secret(), vec![0; 8]);
    let material = DerivedKeyMaterial::derive(secret(), vec![0; 8]);
    assert_eq!(material.key().len(), 32);
    assert_eq!(material.iv().len(), 16);
    assert_eq!(material.key()[..], all[..32]);
    assert_eq!(material.iv()[..], all[32..]);
}

#[test]
fn the_catalog_secret_has_35_bytes() {
    assert_eq!(secret(), b"LXgIVP&PorO68Rq7dTx8N^lP!Fa5sGJ^*XK".to_vec());
    assert_eq!(secret().len(), 35);
}

#[test]
fn decrypts_a_reference_envelope() {
    assert_eq!(decrypt(VIDEO_ENVELOPE, secret()), Ok("/path/to/video".to_string()));
    assert_eq!(decrypt_data(VIDEO_ENVELOPE), Ok("/path/to/video".to_string()));
}

#[test]
fn encrypts_to_the_reference_envelope() {
    assert_eq!(encrypt("/path/to/video", secret(), [0; 8]), VIDEO_ENVELOPE);
}

#[test]
fn scenario_fixed_secret_zero_salt_round_trip() {
    let envelope = encrypt("/path/to/video", secret(), [0; 8]);
    assert_eq!(decrypt(&envelope, secret()), Ok("/path/to/video".to_string()));
}

#[test]
fn round_trip_over_secrets_salts_and_paths() {
    let secrets: [&[u8]; 3] = [b"k", b"LXgIVP&PorO68Rq7dTx8N^lP!Fa5sGJ^*XK", &[0u8; 64]];
    let salts = [[0u8; 8], [0xde, 0xad, 0xbe, 0xef, 1, 2, 3, 4], [0xff; 8]];
    let paths = [
        "",
        "/",
        "/path/to/video",
        "0123456789abcdef",
        "/anime/\u{65e5}\u{672c}\u{8a9e}/01.mp4",
        "a path that is longer than two cipher blocks, with spaces",
    ];
    for s in secrets.iter() {
        for salt in salts.iter() {
            for path in paths.iter() {
                let envelope = encrypt(path, s.to_vec(), *salt);
                assert_eq!(decrypt(&envelope, s.to_vec()), Ok(path.to_string()));
            }
        }
    }
}

#[test]
fn decrypts_multibyte_text() {
    assert_eq!(
        decrypt_data("U2FsdGVkX1/erb7vAQIDBJV1I/912zTk88RjmXL6Dn8Hpny0XgQGdUX9HabWL4dO"),
        Ok("/anime/\u{65e5}\u{672c}\u{8a9e}/01.mp4".to_string())
    );
}

#[test]
fn decrypts_a_plaintext_of_one_whole_block() {
    assert_eq!(
        decrypt_data("U2FsdGVkX18AAAAAAAAAAHoMCpGvI8poQAO1fTyh3NQS5qz0+Rx3RQpSUtFOkeuV"),
        Ok("0123456789abcdef".to_string())
    );
}

#[test]
fn decrypts_the_empty_path() {
    assert_eq!(decrypt_data("U2FsdGVkX18AAAAAAAAAAGk2siRf7/cTZZr9ePRAZqY="), Ok(String::new()));
}

#[test]
fn text_that_is_no_base64_is_malformed() {
    assert_eq!(decrypt_data("not base64 at all!"), Err(DecodeError::MalformedEnvelope));
    assert_eq!(decrypt_data("U2FsdGVkX18"), Err(DecodeError::MalformedEnvelope));
}

#[test]
fn short_envelope_is_malformed() {
    assert_eq!(decrypt_data(""), Err(DecodeError::MalformedEnvelope));
    // "Salted_" and 8 bytes: 15 bytes in all
    assert_eq!(decrypt_data("U2FsdGVkXwAAAAAAAAAA"), Err(DecodeError::MalformedEnvelope));
    assert_eq!(decrypt_envelope(b"Salted__1234567".to_vec(), secret()), Err(DecodeError::MalformedEnvelope));
}

#[test]
fn wrong_marker_is_malformed() {
    // "Sugared_", a salt and one block
    assert_eq!(
        decrypt_data("U3VnYXJlZF8AAAAAAAAAAAAAAAAAAAAAAAAAAAAAAAA="),
        Err(DecodeError::MalformedEnvelope)
    );
    // the reference envelope with a lowercase marker
    assert_eq!(
        decrypt_data("c2FsdGVkX18AAAAAAAAAAEbfGTw0urehrrm2ovzK46U="),
        Err(DecodeError::MalformedEnvelope)
    );
}

#[test]
fn malformed_wins_over_a_bad_ciphertext() {
    // wrong marker and a ciphertext of 3 bytes: the marker decides
    assert_eq!(
        decrypt_envelope(b"salted__12345678abc".to_vec(), secret()),
        Err(DecodeError::MalformedEnvelope)
    );
}

#[test]
fn partial_block_is_a_decryption_failure() {
    // marker, salt and 15 bytes
    assert_eq!(
        decrypt_data("U2FsdGVkX18AAAAAAAAAAAABAgMEBQYHCAkKCwwNDg=="),
        Err(DecodeError::DecryptionFailure)
    );
}

#[test]
fn empty_ciphertext_is_a_decryption_failure() {
    assert_eq!(decrypt_data("U2FsdGVkX18AAAAAAAAAAA=="), Err(DecodeError::DecryptionFailure));
}

#[test]
fn wrong_secret_is_a_decryption_failure() {
    assert_eq!(
        decrypt(VIDEO_ENVELOPE, b"wrong secret".to_vec()),
        Err(DecodeError::DecryptionFailure)
    );
    assert_eq!(decrypt(VIDEO_ENVELOPE, b"another".to_vec()), Err(DecodeError::DecryptionFailure));
}

#[test]
fn plaintext_that_is_no_utf8_is_an_encoding_error() {
    assert_eq!(
        decrypt_data("U2FsdGVkX18AAAAAAAAAAGB5r6+Tlg+YGDI0qsoWL10="),
        Err(DecodeError::EncodingError)
    );
}

#[test]
fn reads_plaintext_bytes() {
    assert_eq!(read_plaintext(b"/a/b".to_vec()), Ok("/a/b".to_string()));
    assert_eq!(read_plaintext(vec![0xe6, 0x97, 0xa5]), Ok("\u{65e5}".to_string()));
    assert_eq!(read_plaintext(vec![0xff, 0xfe]), Err(DecodeError::EncodingError));
    assert_eq!(read_plaintext(vec![0xe6, 0x97]), Err(DecodeError::EncodingError));
}

#[test]
fn reads_the_outcome_of_the_cipher() {
    assert_eq!(read_decrypted(None), Err(DecodeError::DecryptionFailure));
    assert_eq!(read_decrypted(Some(b"/x".to_vec())), Ok("/x".to_string()));
    assert_eq!(read_decrypted(Some(vec![0x80])), Err(DecodeError::EncodingError));
}
