//! AES-GCM and ChaCha20-Poly1305 by *ring*.

use crate::crypto::SpdmAead;
use crate::error::{SpdmError, SpdmResult};
use crate::protocol::SpdmAeadAlgo;
use vstd::prelude::*;

verus! {

/// Cipher text and tag that `ring::aead::LessSafeKey::seal_in_place_separate_tag`
/// gives for the cipher whose bit in an algorithm mask is `algo_bit`; nothing
/// where *ring* refuses the key, the nonce or the plain text.
pub uninterp spec fn ring_seal_value(
    algo_bit: int,
    key: Seq<u8>,
    nonce: Seq<u8>,
    aad: Seq<u8>,
    plain_text: Seq<u8>,
) -> Option<(Seq<u8>, Seq<u8>)>;

/// The plain text that `ring::aead::LessSafeKey::open_in_place_separate_tag`
/// gives; nothing where *ring* refuses the key, the nonce or the tag, or
/// where the tag does not match.
pub uninterp spec fn ring_open_value(
    algo_bit: int,
    key: Seq<u8>,
    nonce: Seq<u8>,
    aad: Seq<u8>,
    cipher_text: Seq<u8>,
    tag: Seq<u8>,
) -> Option<Seq<u8>>;

/// `ring::aead::UnboundKey::new`, `LessSafeKey::new`,
/// `Nonce::try_assume_unique_for_key` and
/// `LessSafeKey::seal_in_place_separate_tag`. Assumed: the result is the pair
/// named above; the cipher text is as long as the plain text and the tag has
/// 16 bytes; and opening undoes sealing, that is, opening what this call
/// returns, under the same key, nonce and associated data, gives `plain_text`.
#[verifier::external_body]
fn ring_seal(aead_algo: SpdmAeadAlgo, key: &[u8], iv: &[u8], aad: &[u8], plain_text: &[u8]) -> (r:
    Option<(Vec<u8>, Vec<u8>)>)
    ensures
        r.is_some() == ring_seal_value(aead_algo.spec_bit() as int, key@, iv@, aad@, plain_text@)
            .is_some(),
        r matches Some((cipher_text, tag)) ==> Some((cipher_text@, tag@)) == ring_seal_value(
            aead_algo.spec_bit() as int,
            key@,
            iv@,
            aad@,
            plain_text@,
        ) && cipher_text@.len() == plain_text@.len() && tag@.len() == 16,
        r matches Some((cipher_text, tag)) ==> ring_open_value(
            aead_algo.spec_bit() as int,
            key@,
            iv@,
            aad@,
            cipher_text@,
            tag@,
        ) == Some(plain_text@),
{
    let algorithm = match aead_algo {
        SpdmAeadAlgo::AES_128_GCM => &ring::aead::AES_128_GCM,
        SpdmAeadAlgo::AES_256_GCM => &ring::aead::AES_256_GCM,
        SpdmAeadAlgo::CHACHA20_POLY1305 => &ring::aead::CHACHA20_POLY1305,
    };
    let key = ring::aead::LessSafeKey::new(ring::aead::UnboundKey::new(algorithm, key).ok()?);
    let nonce = ring::aead::Nonce::try_assume_unique_for_key(iv).ok()?;
    let mut in_out = plain_text.to_vec();
    let tag = key.seal_in_place_separate_tag(nonce, ring::aead::Aad::from(aad), &mut in_out).ok()?;
    Some((in_out, tag.as_ref().to_vec()))
}

/// `ring::aead::UnboundKey::new`, `LessSafeKey::new`,
/// `Nonce::try_assume_unique_for_key`, `Tag::try_from` and
/// `LessSafeKey::open_in_place_separate_tag`. Assumed: the result is the
/// plain text named above and is as long as the cipher text.
#[verifier::external_body]
fn ring_open(
    aead_algo: SpdmAeadAlgo,
    key: &[u8],
    iv: &[u8],
    aad: &[u8],
    cipher_text: &[u8],
    tag: &[u8],
) -> (r: Option<Vec<u8>>)
    ensures
        r.is_some() == ring_open_value(
            aead_algo.spec_bit() as int,
            key@,
            iv@,
            aad@,
            cipher_text@,
            tag@,
        ).is_some(),
        r matches Some(plain_text) ==> Some(plain_text@) == ring_open_value(
            aead_algo.spec_bit() as int,
            key@,
            iv@,
            aad@,
            cipher_text@,
            tag@,
        ) && plain_text@.len() == cipher_text@.len(),
{
    let algorithm = match aead_algo {
        SpdmAeadAlgo::AES_128_GCM => &ring::aead::AES_128_GCM,
        SpdmAeadAlgo::AES_256_GCM => &ring::aead::AES_256_GCM,
        SpdmAeadAlgo::CHACHA20_POLY1305 => &ring::aead::CHACHA20_POLY1305,
    };
    let key = ring::aead::LessSafeKey::new(ring::aead::UnboundKey::new(algorithm, key).ok()?);
    let nonce = ring::aead::Nonce::try_assume_unique_for_key(iv).ok()?;
    let tag = ring::aead::Tag::try_from(tag).ok()?;
    let mut in_out = cipher_text.to_vec();
    let aad = ring::aead::Aad::from(aad);
    key.open_in_place_separate_tag(nonce, aad, tag, &mut in_out, 0..).ok()?;
    Some(in_out)
}

/// The AEAD provider built on *ring*.
///
/// It refuses a key or a nonce that has not the length of the cipher, and a
/// tag that has not 16 bytes, with `InvalidMsgField`, and a record that does
/// not open with `DecryptFail`.
#[derive(Clone, Copy, Debug)]
pub struct SpdmRingAead;

/// The AEAD provider built on *ring*.
pub const DEFAULT: SpdmRingAead = SpdmRingAead;

impl SpdmAead for SpdmRingAead {
    open spec fn encrypt_value(
        &self,
        aead_algo: SpdmAeadAlgo,
        key: Seq<u8>,
        iv: Seq<u8>,
        aad: Seq<u8>,
        plain_text: Seq<u8>,
    ) -> SpdmResult<(Seq<u8>, Seq<u8>)> {
        if key.len() == aead_algo.spec_key_size() && iv.len() == aead_algo.spec_iv_size() {
            match ring_seal_value(aead_algo.spec_bit() as int, key, iv, aad, plain_text) {
                Some(sealed) => Ok(sealed),
                None => Err(SpdmError::InvalidMsgField),
            }
        } else {
            Err(SpdmError::InvalidMsgField)
        }
    }

    open spec fn decrypt_value(
        &self,
        aead_algo: SpdmAeadAlgo,
        key: Seq<u8>,
        iv: Seq<u8>,
        aad: Seq<u8>,
        cipher_text: Seq<u8>,
        tag: Seq<u8>,
    ) -> SpdmResult<Seq<u8>> {
        if key.len() == aead_algo.spec_key_size() && iv.len() == aead_algo.spec_iv_size()
            && tag.len() == aead_algo.spec_tag_size() {
            match ring_open_value(aead_algo.spec_bit() as int, key, iv, aad, cipher_text, tag) {
                Some(opened) => Ok(opened),
                None => Err(SpdmError::DecryptFail),
            }
        } else {
            Err(SpdmError::InvalidMsgField)
        }
    }

    fn encrypt(
        &self,
        aead_algo: SpdmAeadAlgo,
        key: &[u8],
        iv: &[u8],
        aad: &[u8],
        plain_text: &[u8],
    ) -> (r: SpdmResult<(Vec<u8>, Vec<u8>)>) {
        if key.len() != aead_algo.get_key_size() as usize || iv.len() != aead_algo.get_iv_size() as usize {
            return Err(SpdmError::InvalidMsgField);
        }
        match ring_seal(aead_algo, key, iv, aad, plain_text) {
            Some(sealed) => Ok(sealed),
            None => Err(SpdmError::InvalidMsgField),
        }
    }

    fn decrypt(
        &self,
        aead_algo: SpdmAeadAlgo,
        key: &[u8],
        iv: &[u8],
        aad: &[u8],
        cipher_text: &[u8],
        tag: &[u8],
    ) -> (r: SpdmResult<Vec<u8>>) {
        if key.len() != aead_algo.get_key_size() as usize || iv.len() != aead_algo.get_iv_size() as usize
            || tag.len() != aead_algo.get_tag_size() as usize {
            return Err(SpdmError::InvalidMsgField);
        }
        match ring_open(aead_algo, key, iv, aad, cipher_text, tag) {
            Some(opened) => Ok(opened),
            None => Err(SpdmError::DecryptFail),
        }
    }
}

} // verus!
