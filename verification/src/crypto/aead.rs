//! Authenticated encryption through the registered provider.

use crate::bytes::copy_into;
use crate::crypto::{ProviderSlot, SpdmAead};
use crate::error::{SpdmError, SpdmResult};
use crate::protocol::SpdmAeadAlgo;
use vstd::prelude::*;

verus! {

/// What `encrypt` writes: the provider's cipher text and tag where the cipher
/// text is as long as the plain text, as it is for every cipher of the
/// protocol, and both fit the buffers; `Fault` where they do not or where no
/// provider is registered.
pub open spec fn spec_encrypt<P: SpdmAead>(
    provider: Option<P>,
    aead_algo: SpdmAeadAlgo,
    key: Seq<u8>,
    iv: Seq<u8>,
    aad: Seq<u8>,
    plain_text: Seq<u8>,
    tag_capacity: nat,
    cipher_capacity: nat,
) -> SpdmResult<(Seq<u8>, Seq<u8>)> {
    match provider {
        Some(p) => match p.encrypt_value(aead_algo, key, iv, aad, plain_text) {
            Ok((cipher_text, tag)) => if cipher_text.len() == plain_text.len()
                && cipher_text.len() <= cipher_capacity && tag.len() <= tag_capacity {
                Ok((cipher_text, tag))
            } else {
                Err(SpdmError::Fault)
            },
            Err(e) => Err(e),
        },
        None => Err(SpdmError::Fault),
    }
}

/// What `decrypt` writes: the provider's plain text where it fits the buffer;
/// `Fault` where it does not or where no provider is registered.
pub open spec fn spec_decrypt<P: SpdmAead>(
    provider: Option<P>,
    aead_algo: SpdmAeadAlgo,
    key: Seq<u8>,
    iv: Seq<u8>,
    aad: Seq<u8>,
    cipher_text: Seq<u8>,
    tag: Seq<u8>,
    plain_capacity: nat,
) -> SpdmResult<Seq<u8>> {
    match provider {
        Some(p) => match p.decrypt_value(aead_algo, key, iv, aad, cipher_text, tag) {
            Ok(plain_text) => if plain_text.len() <= plain_capacity {
                Ok(plain_text)
            } else {
                Err(SpdmError::Fault)
            },
            Err(e) => Err(e),
        },
        None => Err(SpdmError::Fault),
    }
}

/// `buffer` holds `value` at its start and is otherwise as `before`.
pub open spec fn filled_with(buffer: Seq<u8>, before: Seq<u8>, value: Seq<u8>) -> bool {
    &&& buffer.len() == before.len()
    &&& value.len() <= buffer.len()
    &&& buffer.subrange(0, value.len() as int) == value
    &&& buffer.subrange(value.len() as int, buffer.len() as int) == before.subrange(
        value.len() as int,
        before.len() as int,
    )
}

/// Opening undoes sealing, in every buffer that holds the cipher text: where
/// sealing `plain_text` gives `cipher_text` and `tag`, and these open to
/// `plain_text` in a buffer as long as the plain text, as `encrypt` ensures
/// of what it writes, they open to `plain_text` in every buffer that is as
/// long as the cipher text or longer.
pub proof fn lemma_decrypt_undoes_encrypt<P: SpdmAead>(
    provider: Option<P>,
    aead_algo: SpdmAeadAlgo,
    key: Seq<u8>,
    iv: Seq<u8>,
    aad: Seq<u8>,
    plain_text: Seq<u8>,
    cipher_text: Seq<u8>,
    tag: Seq<u8>,
    tag_capacity: nat,
    cipher_capacity: nat,
    plain_capacity: nat,
)
    requires
        spec_encrypt(
            provider,
            aead_algo,
            key,
            iv,
            aad,
            plain_text,
            tag_capacity,
            cipher_capacity,
        ) == Ok::<(Seq<u8>, Seq<u8>), SpdmError>((cipher_text, tag)),
        spec_decrypt(provider, aead_algo, key, iv, aad, cipher_text, tag, plain_text.len())
            == Ok::<Seq<u8>, SpdmError>(plain_text),
        plain_capacity >= cipher_text.len(),
    ensures
        cipher_text.len() == plain_text.len(),
        spec_decrypt(provider, aead_algo, key, iv, aad, cipher_text, tag, plain_capacity)
            == Ok::<Seq<u8>, SpdmError>(plain_text),
{
}

/// Registers the AEAD provider. Returns `true` for the first one and `false`,
/// with the slot unchanged, for every later one.
pub fn register<P: SpdmAead>(slot: &mut ProviderSlot<P>, context: P) -> (ok: bool)
    ensures
        ok == old(slot).provider().is_none(),
        ok ==> final(slot).provider() == Some(context),
        !ok ==> final(slot).provider() == old(slot).provider(),
{
    slot.register(context)
}

/// Seals `plain_text` into the start of `cipher_text` and of `tag`; reports
/// how many bytes of each it filled. On failure both buffers stay as they
/// are. What it writes, `decrypt` opens again to `plain_text`.
pub fn encrypt<P: SpdmAead>(
    slot: &ProviderSlot<P>,
    aead_algo: SpdmAeadAlgo,
    key: &[u8],
    iv: &[u8],
    aad: &[u8],
    plain_text: &[u8],
    tag: &mut [u8],
    cipher_text: &mut [u8],
) -> (r: SpdmResult<(usize, usize)>)
    ensures
        final(tag)@.len() == old(tag)@.len(),
        final(cipher_text)@.len() == old(cipher_text)@.len(),
        match spec_encrypt(
            slot.provider(),
            aead_algo,
            key@,
            iv@,
            aad@,
            plain_text@,
            old(tag)@.len(),
            old(cipher_text)@.len(),
        ) {
            Ok((sealed, sealed_tag)) => r == Ok::<(usize, usize), SpdmError>(
                (sealed.len() as usize, sealed_tag.len() as usize),
            ) && filled_with(final(cipher_text)@, old(cipher_text)@, sealed) && filled_with(
                final(tag)@,
                old(tag)@,
                sealed_tag,
            ) && spec_decrypt(
                slot.provider(),
                aead_algo,
                key@,
                iv@,
                aad@,
                sealed,
                sealed_tag,
                plain_text@.len(),
            ) == Ok::<Seq<u8>, SpdmError>(plain_text@),
            Err(e) => r == Err::<(usize, usize), SpdmError>(e) && final(tag)@ == old(tag)@
                && final(cipher_text)@ == old(cipher_text)@,
        },
{
    match slot.get() {
        Some(p) => match p.encrypt(aead_algo, key, iv, aad, plain_text) {
            Ok((sealed, sealed_tag)) => {
                if sealed.len() == plain_text.len() && sealed.len() <= cipher_text.len()
                    && sealed_tag.len() <= tag.len() {
                    copy_into(cipher_text, sealed.as_slice());
                    copy_into(tag, sealed_tag.as_slice());
                    Ok((sealed.len(), sealed_tag.len()))
                } else {
                    Err(SpdmError::Fault)
                }
            },
            Err(e) => Err(e),
        },
        None => Err(SpdmError::Fault),
    }
}

/// Opens `cipher_text` with `tag` into the start of `plain_text`; reports how
/// many bytes it filled. On failure the buffer stays as it is.
pub fn decrypt<P: SpdmAead>(
    slot: &ProviderSlot<P>,
    aead_algo: SpdmAeadAlgo,
    key: &[u8],
    iv: &[u8],
    aad: &[u8],
    cipher_text: &[u8],
    tag: &[u8],
    plain_text: &mut [u8],
) -> (r: SpdmResult<usize>)
    ensures
        final(plain_text)@.len() == old(plain_text)@.len(),
        match spec_decrypt(
            slot.provider(),
            aead_algo,
            key@,
            iv@,
            aad@,
            cipher_text@,
            tag@,
            old(plain_text)@.len(),
        ) {
            Ok(opened) => r == Ok::<usize, SpdmError>(opened.len() as usize) && filled_with(
                final(plain_text)@,
                old(plain_text)@,
                opened,
            ),
            Err(e) => r == Err::<usize, SpdmError>(e) && final(plain_text)@ == old(plain_text)@,
        },
{
    match slot.get() {
        Some(p) => match p.decrypt(aead_algo, key, iv, aad, cipher_text, tag) {
            Ok(opened) => {
                if opened.len() <= plain_text.len() {
                    copy_into(plain_text, opened.as_slice());
                    Ok(opened.len())
                } else {
                    Err(SpdmError::Fault)
                }
            },
            Err(e) => Err(e),
        },
        None => Err(SpdmError::Fault),
    }
}

} // verus!
