//! AES-256-CBC file sealing and opening.
//!
//! A sealed container is a 16-byte random IV followed by the PKCS#7-padded
//! ciphertext of the plaintext. The format carries no authenticity tag: a
//! wrong key almost always surfaces as a padding failure, but that is not an
//! authentication mechanism.

pub mod cbc;
pub mod error;
pub mod transform;
