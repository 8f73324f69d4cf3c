//! Secure resolution and resumable transfer pipeline for a remote video
//! catalog: key derivation, envelope decryption, locator resolution, transfer
//! bookkeeping and the sequential download queue.

pub mod buffer;
pub mod cache;
pub mod cipher;
pub mod decimal;
pub mod envelope;
pub mod error;
pub mod kdf;
pub mod locator;
pub mod message;
pub mod notification;
pub mod queue;
pub mod request;
pub mod search;
pub mod state;
pub mod text;
pub mod title;
pub mod transfer;
pub mod types;
