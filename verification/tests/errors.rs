use file_cipher::error::CipherError;

#[test]
fn error_messages_name_each_failure() {
    assert_eq!(CipherError::InvalidKeyLength.message(), "key must be exactly 32 bytes");
    assert_eq!(
        CipherError::MalformedContainer.message(),
        "container holds fewer than the 16 bytes of the IV"
    );
    assert_eq!(CipherError::CipherInitFailed.message(), "cipher setup rejected the key material");
    assert_eq!(
        CipherError::DecryptionFailed.message(),
        "decryption failed: wrong key or corrupted container"
    );
}

#[test]
fn io_failure_carries_its_cause() {
    let e = CipherError::IoFailure("disk full".to_string());
    assert_eq!(e.message(), "disk full");
    assert_ne!(e, CipherError::IoFailure("file not found".to_string()));
    assert_eq!(e.clone(), e);
}
