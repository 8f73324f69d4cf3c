//! The failures of the pipeline.

use vstd::prelude::*;

verus! {

/// Why an envelope could not be turned into a path.
#[derive(Debug, Clone, Copy, PartialEq, Eq, Structural)]
pub enum DecodeError {
    /// The envelope is no base64 text, is shorter than its header, or does
    /// not open with the marker.
    MalformedEnvelope,
    /// The ciphertext is no whole number of blocks, or its padding is invalid.
    DecryptionFailure,
    /// The plaintext is no UTF-8 text.
    EncodingError,
}

/// Why a transfer did not complete.
#[derive(Debug, Clone, Copy, PartialEq, Eq, Structural)]
pub enum TransferError {
    /// See [`DecodeError::MalformedEnvelope`].
    MalformedEnvelope,
    /// See [`DecodeError::DecryptionFailure`].
    DecryptionFailure,
    /// See [`DecodeError::EncodingError`].
    EncodingError,
    /// Origin and path together are no well-formed address.
    InvalidLocator,
    /// The connection failed, the server refused, or its response made no sense.
    NetworkError,
    /// The target file could not be opened or written.
    FileIOError,
}

impl DecodeError {
    /// The transfer failure that this decoding failure causes.
    pub open spec fn lifted(self) -> TransferError {
        match self {
            DecodeError::MalformedEnvelope => TransferError::MalformedEnvelope,
            DecodeError::DecryptionFailure => TransferError::DecryptionFailure,
            DecodeError::EncodingError => TransferError::EncodingError,
        }
    }

    /// The transfer failure that this decoding failure causes.
    pub fn into_transfer_error(self) -> (e: TransferError)
        ensures
            e == self.lifted(),
    {
        match self {
            DecodeError::MalformedEnvelope => TransferError::MalformedEnvelope,
            DecodeError::DecryptionFailure => TransferError::DecryptionFailure,
            DecodeError::EncodingError => TransferError::EncodingError,
        }
    }

    /// A short name of the failure, for display.
    pub fn describe(&self) -> (text: &'static str)
        ensures
            text@ == match *self {
                DecodeError::MalformedEnvelope => "malformed envelope"@,
                DecodeError::DecryptionFailure => "decryption failure"@,
                DecodeError::EncodingError => "encoding error"@,
            },
    {
        match self {
            DecodeError::MalformedEnvelope => "malformed envelope",
            DecodeError::DecryptionFailure => "decryption failure",
            DecodeError::EncodingError => "encoding error",
        }
    }
}

impl TransferError {
    /// A short name of the failure, for display.
    pub fn describe(&self) -> (text: &'static str)
        ensures
            text@ == match *self {
                TransferError::MalformedEnvelope => "malformed envelope"@,
                TransferError::DecryptionFailure => "decryption failure"@,
                TransferError::EncodingError => "encoding error"@,
                TransferError::InvalidLocator => "invalid locator"@,
                TransferError::NetworkError => "network error"@,
                TransferError::FileIOError => "file i/o error"@,
            },
    {
        match self {
            TransferError::MalformedEnvelope => "malformed envelope",
            TransferError::DecryptionFailure => "decryption failure",
            TransferError::EncodingError => "encoding error",
            TransferError::InvalidLocator => "invalid locator",
            TransferError::NetworkError => "network error",
            TransferError::FileIOError => "file i/o error",
        }
    }
}

} // verus!
