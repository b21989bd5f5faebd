use spdmlib::crypto;
use spdmlib::crypto::spdm_ring;
use spdmlib::crypto::{
    ProviderSlot, SpdmAead, SpdmAsymSign, SpdmAsymVerify, SpdmCertOperation, SpdmDhe, SpdmDheKeyExchange,
};
use spdmlib::error::{SpdmError, SpdmResult};
use spdmlib::protocol::{
    SpdmAeadAlgo, SpdmBaseAsymAlgo, SpdmBaseHashAlgo, SpdmDheAlgo, SpdmDheExchangeStruct, SpdmDheFinalKeyStruct, SpdmSignatureStruct,
};

/// A provider that finds the first certificate of a chain of one.
#[derive(Clone)]
struct WholeChain;

impl SpdmCertOperation for WholeChain {
    fn get_cert_from_cert_chain(&self, chain: &[u8], index: isize) -> SpdmResult<(usize, usize)> {
        if index == 0 || index == -1 {
            Ok((0, chain.len()))
        } else {
            Err(SpdmError::InvalidCertChain)
        }
    }

    fn verify_cert_chain(&self, chain: &[u8]) -> SpdmResult {
        if chain.is_empty() {
            Err(SpdmError::InvalidCertChain)
        } else {
            Ok(())
        }
    }
}

/// A provider that accepts the signature made of the first bytes of the data.
#[derive(Clone)]
struct EchoVerify;

impl SpdmAsymVerify for EchoVerify {
    fn verify(
        &self,
        _base_hash_algo: SpdmBaseHashAlgo,
        _base_asym_algo: SpdmBaseAsymAlgo,
        _public_cert_der: &[u8],
        data: &[u8],
        signature: &SpdmSignatureStruct,
    ) -> SpdmResult {
        if data.starts_with(signature.as_ref()) {
            Ok(())
        } else {
            Err(SpdmError::InvalidSignature)
        }
    }
}

/// A provider that signs with the first bytes of the data.
#[derive(Clone)]
struct EchoSign;

impl SpdmAsymSign for EchoSign {
    fn sign(
        &self,
        _base_hash_algo: SpdmBaseHashAlgo,
        base_asym_algo: SpdmBaseAsymAlgo,
        data: &[u8],
    ) -> Option<SpdmSignatureStruct> {
        let mut padded = data.to_vec();
        padded.resize(base_asym_algo.get_size() as usize, 0);
        SpdmSignatureStruct::from_bytes(&padded)
    }
}

/// A key agreement whose shared secret is the peer's public key.
struct FixedKeyExchange;

impl SpdmDheKeyExchange for FixedKeyExchange {
    fn compute_final_key(self, peer_pub_key: &SpdmDheExchangeStruct) -> Option<SpdmDheFinalKeyStruct> {
        SpdmDheFinalKeyStruct::from_bytes(peer_pub_key.as_ref())
    }
}

#[derive(Clone)]
struct FixedDhe {
    public_key_size: usize,
}

impl SpdmDhe for FixedDhe {
    type KeyExchange = FixedKeyExchange;

    fn generate_key_pair(
        &self,
        _dhe_algo: SpdmDheAlgo,
    ) -> Option<(SpdmDheExchangeStruct, FixedKeyExchange)> {
        let public = SpdmDheExchangeStruct::from_bytes(&vec![5u8; self.public_key_size])?;
        Some((public, FixedKeyExchange))
    }
}

#[test]
fn test_case0_cert_operation_register() {
    let mut slot = ProviderSlot::empty();
    let state = crypto::cert_operation::register(&mut slot, WholeChain.clone());
    assert_eq!(state, true);
}

#[test]
fn test_case0_hmac_register() {
    let mut slot = ProviderSlot::empty();
    let state = crypto::hmac::register(&mut slot, spdm_ring::hmac_impl::DEFAULT.clone());
    assert_eq!(state, true);
}

#[test]
fn test_case0_hash_register() {
    let mut slot = ProviderSlot::empty();
    let state = crypto::hash::register(&mut slot, spdm_ring::hash_impl::DEFAULT.clone());
    assert_eq!(state, true);
}

#[test]
fn test_case0_asym_verify_register() {
    let mut slot = ProviderSlot::empty();
    let state = crypto::asym_verify::register(&mut slot, EchoVerify.clone());
    assert_eq!(state, true);
}

#[test]
fn test_case0_dhe_register() {
    let mut slot = ProviderSlot::empty();
    let state = crypto::dhe::register(&mut slot, FixedDhe { public_key_size: 96 }.clone());
    assert_eq!(state, true);
}

#[test]
fn test_case0_hkdf_register() {
    let mut slot = ProviderSlot::empty();
    let state = crypto::hkdf::register(&mut slot, spdm_ring::hkdf_impl::DEFAULT.clone());
    assert_eq!(state, true);
}

#[test]
fn test_case0_aead_register() {
    let mut slot = ProviderSlot::empty();
    let state = crypto::aead::register(&mut slot, spdm_ring::aead_impl::DEFAULT.clone());
    match state {
        false => match slot.get() {
            Some(_) => assert!(true),
            None => assert!(false),
        },
        true => assert!(true),
    }
}

#[test]
fn test_case0_rand_register() {
    let mut slot = ProviderSlot::empty();
    let state = crypto::rand::register(&mut slot, spdm_ring::rand_impl::DEFAULT.clone());
    assert_eq!(state, true);
}

#[test]
fn register_is_write_once() {
    let mut slot = ProviderSlot::empty();
    assert!(!slot.is_registered());
    assert_eq!(crypto::dhe::register(&mut slot, FixedDhe { public_key_size: 96 }), true);
    assert_eq!(crypto::dhe::register(&mut slot, FixedDhe { public_key_size: 64 }), false);
    assert!(slot.is_registered());
    // the first provider is the one that stays
    assert_eq!(slot.get().unwrap().public_key_size, 96);
}

#[test]
fn asym_verify_register_keeps_the_first_and_reports_success() {
    let mut slot = ProviderSlot::empty();
    assert_eq!(crypto::asym_verify::register(&mut slot, EchoVerify), true);
    assert_eq!(crypto::asym_verify::register(&mut slot, EchoVerify), true);
    assert!(slot.is_registered());
}

#[test]
fn dispatch_without_a_provider_fails() {
    let hash: ProviderSlot<spdm_ring::hash_impl::SpdmRingHash> = ProviderSlot::empty();
    assert!(crypto::hash::hash_all(&hash, SpdmBaseHashAlgo::TPM_ALG_SHA_256, b"abc").is_none());
    let hmac: ProviderSlot<spdm_ring::hmac_impl::SpdmRingHmac> = ProviderSlot::empty();
    assert!(crypto::hmac::hmac(&hmac, SpdmBaseHashAlgo::TPM_ALG_SHA_256, b"k", b"d").is_none());
    let digest = spdmlib::protocol::SpdmDigestStruct::default();
    assert_eq!(
        crypto::hmac::hmac_verify(&hmac, SpdmBaseHashAlgo::TPM_ALG_SHA_256, b"k", b"d", &digest),
        Err(SpdmError::Fault)
    );
    let verify: ProviderSlot<EchoVerify> = ProviderSlot::empty();
    let signature = SpdmSignatureStruct::default();
    assert_eq!(
        crypto::asym_verify::verify(
            &verify,
            SpdmBaseHashAlgo::TPM_ALG_SHA_256,
            SpdmBaseAsymAlgo::TPM_ALG_ECDSA_ECC_NIST_P256,
            b"cert",
            b"data",
            &signature
        ),
        Err(SpdmError::Fault)
    );
    let certs: ProviderSlot<WholeChain> = ProviderSlot::empty();
    assert_eq!(
        crypto::cert_operation::get_cert_from_cert_chain(&certs, b"chain", 0),
        Err(SpdmError::Fault)
    );
    assert_eq!(crypto::cert_operation::verify_cert_chain(&certs, b"chain"), Err(SpdmError::Fault));
    let rand: ProviderSlot<spdm_ring::rand_impl::SpdmRingRandom> = ProviderSlot::empty();
    let mut buffer = [7u8; 8];
    assert_eq!(crypto::rand::get_random(&rand, &mut buffer), Err(SpdmError::Fault));
    assert_eq!(buffer, [7u8; 8]);
}

#[test]
fn dispatch_checks_what_providers_return() {
    // a public key of the wrong length is not handed on
    let mut dhe = ProviderSlot::empty();
    crypto::dhe::register(&mut dhe, FixedDhe { public_key_size: 64 });
    assert!(crypto::dhe::generate_key_pair(&dhe, SpdmDheAlgo::SECP_384_R1).is_none());
    let (public, private) = crypto::dhe::generate_key_pair(&dhe, SpdmDheAlgo::SECP_256_R1).unwrap();
    assert_eq!(public.as_ref(), &[5u8; 64][..]);
    let secret = private.compute_final_key(&public).unwrap();
    assert_eq!(secret.as_ref(), &[5u8; 64][..]);

    // a signature of the right length is
    let mut sign = ProviderSlot::empty();
    crypto::asym_sign::register(&mut sign, EchoSign);
    let signature = crypto::asym_sign::sign(
        &sign,
        SpdmBaseHashAlgo::TPM_ALG_SHA_384,
        SpdmBaseAsymAlgo::TPM_ALG_ECDSA_ECC_NIST_P384,
        b"message",
    )
    .unwrap();
    assert_eq!(signature.data_size, 96);
    let mut verify = ProviderSlot::empty();
    crypto::asym_verify::register(&mut verify, EchoVerify);
    assert_eq!(
        crypto::asym_verify::verify(
            &verify,
            SpdmBaseHashAlgo::TPM_ALG_SHA_384,
            SpdmBaseAsymAlgo::TPM_ALG_ECDSA_ECC_NIST_P384,
            b"cert",
            b"message",
            &signature
        ),
        Err(SpdmError::InvalidSignature)
    );

    // offsets beyond the chain are refused
    let mut certs = ProviderSlot::empty();
    crypto::cert_operation::register(&mut certs, WholeChain);
    assert_eq!(crypto::cert_operation::get_cert_from_cert_chain(&certs, b"chain", -1), Ok((0, 5)));
    assert_eq!(
        crypto::cert_operation::get_cert_from_cert_chain(&certs, b"chain", 3),
        Err(SpdmError::InvalidCertChain)
    );
    assert_eq!(
        crypto::cert_operation::check_cert_range(5, Ok((2, 9))),
        Err(SpdmError::InvalidCertChain)
    );
    assert_eq!(crypto::cert_operation::check_cert_range(5, Ok((2, 5))), Ok((2, 5)));
    assert_eq!(crypto::rand::check_random_count(4, Ok(5)), Err(SpdmError::Fault));
    assert_eq!(crypto::rand::check_random_count(4, Ok(4)), Ok(4));
}

/// A cipher that puts one byte in front of the plain text.
struct PaddingCipher;

impl SpdmAead for PaddingCipher {
    fn encrypt(
        &self,
        _aead_algo: SpdmAeadAlgo,
        _key: &[u8],
        _iv: &[u8],
        _aad: &[u8],
        plain_text: &[u8],
    ) -> SpdmResult<(Vec<u8>, Vec<u8>)> {
        let mut cipher_text = vec![0u8];
        cipher_text.extend_from_slice(plain_text);
        Ok((cipher_text, vec![0u8; 16]))
    }

    fn decrypt(
        &self,
        _aead_algo: SpdmAeadAlgo,
        _key: &[u8],
        _iv: &[u8],
        _aad: &[u8],
        cipher_text: &[u8],
        _tag: &[u8],
    ) -> SpdmResult<Vec<u8>> {
        Ok(cipher_text[1..].to_vec())
    }
}

#[test]
fn a_cipher_text_of_another_length_than_the_plain_text_is_not_handed_on() {
    let mut slot = ProviderSlot::empty();
    assert!(crypto::aead::register(&mut slot, PaddingCipher));
    let mut tag = [0xeeu8; 16];
    let mut cipher_text = [0xeeu8; 32];
    assert_eq!(
        crypto::aead::encrypt(&slot, SpdmAeadAlgo::AES_128_GCM, &[0; 16], &[0; 12], &[], b"plain", &mut tag, &mut cipher_text),
        Err(SpdmError::Fault)
    );
    assert_eq!(tag, [0xee; 16]);
    assert_eq!(cipher_text, [0xee; 32]);

    // with a cipher of the protocol, a buffer as long as the cipher text holds what it opens to
    let mut slot = ProviderSlot::empty();
    assert!(crypto::aead::register(&mut slot, spdm_ring::aead_impl::DEFAULT));
    let (cipher_length, tag_length) = crypto::aead::encrypt(
        &slot,
        SpdmAeadAlgo::AES_128_GCM,
        &[7; 16],
        &[9; 12],
        b"aad",
        b"plain",
        &mut tag,
        &mut cipher_text,
    )
    .unwrap();
    assert_eq!((cipher_length, tag_length), (5, 16));
    let mut plain_text = [0u8; 5];
    assert_eq!(
        crypto::aead::decrypt(
            &slot,
            SpdmAeadAlgo::AES_128_GCM,
            &[7; 16],
            &[9; 12],
            b"aad",
            &cipher_text[..cipher_length],
            &tag[..tag_length],
            &mut plain_text
        ),
        Ok(5)
    );
    assert_eq!(&plain_text, b"plain");
}
