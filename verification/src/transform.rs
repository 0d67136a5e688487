//! The file cipher transform: `seal` encrypts a plaintext into a container,
//! `open` recovers the plaintext from a container.

use crate::cbc::{aes256_cbc_decrypt, aes256_cbc_encrypt, cbc_decrypt_of, cbc_encrypt_of, random_iv};
use crate::error::CipherError;
use vstd::prelude::*;
use vstd::slice::{slice_subrange, slice_to_vec};

verus! {

/// The length of the container that seals a plaintext of `plain_len` bytes:
/// 16 bytes of IV, then the ciphertext of the padded plaintext.
pub open spec fn sealed_len(plain_len: nat) -> nat {
    16 + ((plain_len / 16) + 1) * 16
}

/// The container that sealing `plain` under `key` with the vector `iv`
/// produces: the IV verbatim, then the ciphertext.
pub open spec fn container_of(key: Seq<u8>, iv: Seq<u8>, plain: Seq<u8>) -> Seq<u8> {
    iv + cbc_encrypt_of(key, iv, plain)
}

/// The IV part of a container: its first 16 bytes.
pub open spec fn container_iv(c: Seq<u8>) -> Seq<u8>
    recommends
        c.len() >= 16,
{
    c.subrange(0, 16)
}

/// The ciphertext part of a container: everything after the IV.
pub open spec fn container_body(c: Seq<u8>) -> Seq<u8>
    recommends
        c.len() >= 16,
{
    c.subrange(16, c.len() as int)
}

/// What opening the container `c` under `key` recovers: the decryption of
/// the ciphertext part under the IV part, or `None` when padding validation
/// fails there.
pub open spec fn opened_of(key: Seq<u8>, c: Seq<u8>) -> Option<Seq<u8>>
    recommends
        c.len() >= 16,
{
    cbc_decrypt_of(key, container_iv(c), container_body(c))
}

/// Round trip: a container assembled from a 16-byte IV and the ciphertext of
/// `plain` under `key` opens back to exactly `plain`. The hypothesis that
/// the cipher inverts its own encryption is the fact stated at the trusted
/// encrypt wrapper; this lemma shows that the container framing (IV
/// concatenated with the ciphertext, then split again) preserves it.
pub proof fn lemma_round_trip(key: Seq<u8>, iv: Seq<u8>, plain: Seq<u8>)
    requires
        iv.len() == 16,
        cbc_decrypt_of(key, iv, cbc_encrypt_of(key, iv, plain)) == Some(plain),
    ensures
        opened_of(key, container_of(key, iv, plain)) == Some(plain),
{
    let c = container_of(key, iv, plain);
    assert(container_iv(c) =~= iv);
    assert(container_body(c) =~= cbc_encrypt_of(key, iv, plain));
}

/// The sealed length restated: the ciphertext part is the plaintext length
/// rounded up to the next multiple of 16 counting one mandatory padding
/// byte, so it always exceeds the plaintext by 1 to 16 bytes and is a
/// positive multiple of 16.
pub proof fn lemma_sealed_len_ceil(plain_len: nat)
    ensures
        sealed_len(plain_len) == 16 + (((plain_len + 1) + 15) / 16) * 16,
        plain_len < sealed_len(plain_len) - 16 <= plain_len + 16,
        (sealed_len(plain_len) - 16) % 16 == 0,
{
    assert((plain_len + 16) / 16 == plain_len / 16 + 1) by (nonlinear_arith);
    assert(plain_len / 16 * 16 <= plain_len < plain_len / 16 * 16 + 16) by (nonlinear_arith);
    assert(((plain_len / 16 + 1) * 16) % 16 == 0) by (nonlinear_arith);
}

/// Seal `plaintext` under `key` with the given 16-byte `iv`: the
/// deterministic core of `seal`. Returns the container `iv || ciphertext`
/// and a trail of three progress messages, or `InvalidKeyLength` exactly
/// when the key is not 32 bytes.
pub fn seal_with_iv(plaintext: &[u8], key: &[u8], iv: &[u8]) -> (r: Result<
    (Vec<u8>, Vec<String>),
    CipherError,
>)
    requires
        iv@.len() == 16,
    ensures
        r is Ok <==> key@.len() == 32,
        match r {
            Ok(out) => {
                &&& out.0@ == container_of(key@, iv@, plaintext@)
                &&& out.0@.len() == sealed_len(plaintext@.len())
                &&& opened_of(key@, out.0@) == Some(plaintext@)
                &&& out.1@.len() == 3
                &&& out.1@[0]@ == "plaintext read into memory"@
                &&& out.1@[1]@ == "container assembled: IV followed by ciphertext"@
                &&& out.1@[2]@ == "encryption finished successfully"@
            },
            Err(e) => e == CipherError::InvalidKeyLength && key@.len() != 32,
        },
{
    if key.len() != 32 {
        return Err(CipherError::InvalidKeyLength);
    }
    match aes256_cbc_encrypt(key, iv, plaintext) {
        Some(ciphertext) => {
            let mut ciphertext = ciphertext;
            let mut container = slice_to_vec(iv);
            container.append(&mut ciphertext);
            proof {
                lemma_round_trip(key@, iv@, plaintext@);
            }
            let mut trail: Vec<String> = Vec::new();
            trail.push("plaintext read into memory".to_owned());
            trail.push("container assembled: IV followed by ciphertext".to_owned());
            trail.push("encryption finished successfully".to_owned());
            Ok((container, trail))
        },
        None => Err(CipherError::CipherInitFailed),
    }
}

/// Seal `plaintext` under `key` with a fresh random 16-byte IV. Succeeds
/// exactly when the key is 32 bytes; the container then opens back to the
/// plaintext under the same key, and its length is the plaintext length
/// padded up to the next multiple of 16, plus the 16 IV bytes.
pub fn seal(plaintext: &[u8], key: &[u8]) -> (r: Result<(Vec<u8>, Vec<String>), CipherError>)
    ensures
        r is Ok <==> key@.len() == 32,
        match r {
            Ok(out) => {
                &&& out.0@.len() == sealed_len(plaintext@.len())
                &&& (exists|iv: Seq<u8>|
                    #[trigger] container_of(key@, iv, plaintext@) == out.0@ && iv.len() == 16)
                &&& opened_of(key@, out.0@) == Some(plaintext@)
                &&& out.1@.len() == 3
                &&& out.1@[0]@ == "plaintext read into memory"@
                &&& out.1@[1]@ == "container assembled: IV followed by ciphertext"@
                &&& out.1@[2]@ == "encryption finished successfully"@
            },
            Err(e) => e == CipherError::InvalidKeyLength && key@.len() != 32,
        },
{
    if key.len() != 32 {
        return Err(CipherError::InvalidKeyLength);
    }
    let iv = random_iv();
    let r = seal_with_iv(plaintext, key, iv.as_slice());
    proof {
        if r is Ok {
            assert(container_of(key@, iv@, plaintext@) == r->Ok_0.0@ && iv@.len() == 16);
        }
    }
    r
}

/// Open the container `container` under `key`: split off the 16-byte IV,
/// decrypt the rest and strip the padding. Fails with `InvalidKeyLength`
/// exactly when the key is not 32 bytes, with `MalformedContainer` exactly
/// when the container is shorter than 16 bytes, and with `DecryptionFailed`
/// exactly when padding validation rejects the ciphertext (wrong key,
/// corruption, or a length that is not a positive multiple of 16).
pub fn open(container: &[u8], key: &[u8]) -> (r: Result<(Vec<u8>, Vec<String>), CipherError>)
    ensures
        r is Ok <==> key@.len() == 32 && container@.len() >= 16 && opened_of(key@, container@)
            is Some,
        key@.len() != 32 ==> r == Err::<(Vec<u8>, Vec<String>), CipherError>(
            CipherError::InvalidKeyLength,
        ),
        key@.len() == 32 && container@.len() < 16 ==> r == Err::<(Vec<u8>, Vec<String>), CipherError>(
            CipherError::MalformedContainer,
        ),
        key@.len() == 32 && container@.len() >= 16 ==> match r {
            Ok(out) => {
                &&& opened_of(key@, container@) == Some(out.0@)
                &&& out.1@.len() == 3
                &&& out.1@[0]@ == "container read into memory"@
                &&& out.1@[1]@ == "plaintext recovered from container"@
                &&& out.1@[2]@ == "decryption finished successfully"@
            },
            Err(e) => e == CipherError::DecryptionFailed && opened_of(key@, container@) is None,
        },
        key@.len() == 32 && container@.len() >= 16 && (container@.len() - 16) % 16 != 0 ==> r
            == Err::<(Vec<u8>, Vec<String>), CipherError>(CipherError::DecryptionFailed),
{
    if key.len() != 32 {
        return Err(CipherError::InvalidKeyLength);
    }
    if container.len() < 16 {
        return Err(CipherError::MalformedContainer);
    }
    let iv = slice_subrange(container, 0, 16);
    let ciphertext = slice_subrange(container, 16, container.len());
    match aes256_cbc_decrypt(key, iv, ciphertext) {
        Some(plaintext) => {
            let mut trail: Vec<String> = Vec::new();
            trail.push("container read into memory".to_owned());
            trail.push("plaintext recovered from container".to_owned());
            trail.push("decryption finished successfully".to_owned());
            Ok((plaintext, trail))
        },
        None => Err(CipherError::DecryptionFailed),
    }
}

} // verus!
