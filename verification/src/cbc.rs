//! The trusted boundary around the outside cipher and random crates.

use aes::Aes256;
use block_modes::block_padding::Pkcs7;
use block_modes::{BlockMode, Cbc};
use rand::RngCore;
use vstd::prelude::*;

verus! {

/// The ciphertext that AES-256 in CBC mode with PKCS#7 padding produces from
/// `key`, `iv` and `plain`: a function of its arguments alone.
pub uninterp spec fn cbc_encrypt_of(key: Seq<u8>, iv: Seq<u8>, plain: Seq<u8>) -> Seq<u8>;

/// What AES-256-CBC decryption with PKCS#7 unpadding recovers from `cipher`
/// under `key` and `iv`: the plaintext, or `None` when the input length is
/// not a positive multiple of 16 or the padding does not verify. A function
/// of its arguments alone.
pub uninterp spec fn cbc_decrypt_of(key: Seq<u8>, iv: Seq<u8>, cipher: Seq<u8>) -> Option<
    Seq<u8>,
>;

/// Relies on rand's `OsRng::fill_bytes`: fills the buffer with bytes from
/// the operating system's secure random source. Nothing can be promised of
/// the bytes themselves, only of the length.
#[verifier::external_body]
pub(crate) fn random_iv() -> (iv: Vec<u8>)
    ensures
        iv@.len() == 16,
{
    let mut iv = vec![0u8; 16];
    rand::rngs::OsRng.fill_bytes(&mut iv);
    iv
}

/// Relies on block_modes' `Cbc::<Aes256, Pkcs7>`: `new_from_slices` succeeds
/// exactly when the key is 32 bytes and the IV 16; `encrypt_vec` pads the
/// plaintext to the next multiple of 16 (always adding 1 to 16 bytes) and
/// encrypts it; decrypting the result with the same key and IV recovers the
/// plaintext.
#[verifier::external_body]
pub(crate) fn aes256_cbc_encrypt(key: &[u8], iv: &[u8], plain: &[u8]) -> (r: Option<Vec<u8>>)
    ensures
        key@.len() == 32 && iv@.len() == 16 ==> r is Some,
        key@.len() != 32 || iv@.len() != 16 ==> r is None,
        r matches Some(c) ==> c@ == cbc_encrypt_of(key@, iv@, plain@),
        r matches Some(c) ==> c@.len() == ((plain@.len() / 16) + 1) * 16,
        r matches Some(c) ==> cbc_decrypt_of(key@, iv@, c@) == Some(plain@),
{
    match Cbc::<Aes256, Pkcs7>::new_from_slices(key, iv) {
        Ok(mode) => Some(mode.encrypt_vec(plain)),
        Err(_) => None,
    }
}

/// Relies on block_modes' `Cbc::<Aes256, Pkcs7>`: `decrypt_vec` errs exactly
/// when the input length is not a multiple of 16 or the PKCS#7 padding of
/// the decrypted bytes does not verify (an empty input has no padding block
/// and errs too), and otherwise returns the plaintext with the padding
/// stripped.
#[verifier::external_body]
pub(crate) fn aes256_cbc_decrypt(key: &[u8], iv: &[u8], cipher: &[u8]) -> (r: Option<Vec<u8>>)
    requires
        key@.len() == 32,
        iv@.len() == 16,
    ensures
        r matches Some(p) ==> cbc_decrypt_of(key@, iv@, cipher@) == Some(p@),
        cbc_decrypt_of(key@, iv@, cipher@) is Some ==> r is Some,
        cipher@.len() % 16 != 0 ==> r is None,
        cipher@.len() == 0 ==> r is None,
{
    let mode = match Cbc::<Aes256, Pkcs7>::new_from_slices(key, iv) {
        Ok(m) => m,
        Err(_) => return None,
    };
    match mode.decrypt_vec(cipher) {
        Ok(p) => Some(p),
        Err(_) => None,
    }
}

} // verus!
