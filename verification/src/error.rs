use vstd::prelude::*;

verus! {

/// Every failure the transform can report, one tag per failure mode.
///
/// `IoFailure` is never produced by the transform itself: it lets the
/// surrounding application propagate file errors through the same channel.
#[derive(Debug, Clone, PartialEq, Eq)]
pub enum CipherError {
    /// The key is not exactly 32 bytes long.
    InvalidKeyLength,
    /// The input to `open` is shorter than the 16 bytes of the IV.
    MalformedContainer,
    /// The underlying cipher rejected the key material during setup.
    CipherInitFailed,
    /// Padding validation failed during `open`: wrong key, corrupted or
    /// truncated ciphertext.
    DecryptionFailed,
    /// A file error propagated from the surrounding application.
    IoFailure(String),
}

impl CipherError {
    /// A human-readable description of the failure.
    pub fn message(&self) -> (s: String)
        ensures
            match self {
                CipherError::InvalidKeyLength => s@ == "key must be exactly 32 bytes"@,
                CipherError::MalformedContainer => s@
                    == "container holds fewer than the 16 bytes of the IV"@,
                CipherError::CipherInitFailed => s@ == "cipher setup rejected the key material"@,
                CipherError::DecryptionFailed => s@
                    == "decryption failed: wrong key or corrupted container"@,
                CipherError::IoFailure(m) => s@ == m@,
            },
    {
        match self {
            CipherError::InvalidKeyLength => "key must be exactly 32 bytes".to_owned(),
            CipherError::MalformedContainer => {
                "container holds fewer than the 16 bytes of the IV".to_owned()
            },
            CipherError::CipherInitFailed => "cipher setup rejected the key material".to_owned(),
            CipherError::DecryptionFailed => {
                "decryption failed: wrong key or corrupted container".to_owned()
            },
            CipherError::IoFailure(m) => m.clone(),
        }
    }
}

} // verus!
