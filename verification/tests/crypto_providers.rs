use spdmlib::crypto;
use spdmlib::crypto::spdm_ring;
use spdmlib::crypto::ProviderSlot;
use spdmlib::error::SpdmError;
use spdmlib::protocol::{SpdmAeadAlgo, SpdmBaseHashAlgo, SpdmDigestStruct};

fn hex(text: &str) -> Vec<u8> {
    let digits: Vec<u8> = text
        .bytes()
        .filter(|b| !b.is_ascii_whitespace())
        .map(|b| match b {
            b'0'..=b'9' => b - b'0',
            b'a'..=b'f' => b - b'a' + 10,
            _ => panic!("not a hex digit"),
        })
        .collect();
    digits.chunks(2).map(|pair| pair[0] * 16 + pair[1]).collect()
}

fn hash_slot() -> ProviderSlot<spdm_ring::hash_impl::SpdmRingHash> {
    let mut slot = ProviderSlot::empty();
    assert!(crypto::hash::register(&mut slot, spdm_ring::hash_impl::DEFAULT));
    slot
}

fn hmac_slot() -> ProviderSlot<spdm_ring::hmac_impl::SpdmRingHmac> {
    let mut slot = ProviderSlot::empty();
    assert!(crypto::hmac::register(&mut slot, spdm_ring::hmac_impl::DEFAULT));
    slot
}

fn hkdf_slot() -> ProviderSlot<spdm_ring::hkdf_impl::SpdmRingHkdf> {
    let mut slot = ProviderSlot::empty();
    assert!(crypto::hkdf::register(&mut slot, spdm_ring::hkdf_impl::DEFAULT));
    slot
}

fn aead_slot() -> ProviderSlot<spdm_ring::aead_impl::SpdmRingAead> {
    let mut slot = ProviderSlot::empty();
    assert!(crypto::aead::register(&mut slot, spdm_ring::aead_impl::DEFAULT));
    slot
}

#[test]
fn sha2_of_abc() {
    let slot = hash_slot();
    let d256 = crypto::hash::hash_all(&slot, SpdmBaseHashAlgo::TPM_ALG_SHA_256, b"abc").unwrap();
    assert_eq!(
        d256.as_ref(),
        &hex("ba7816bf8f01cfea414140de5dae2223b00361a396177a9cb410ff61f20015ad")[..]
    );
    let d384 = crypto::hash::hash_all(&slot, SpdmBaseHashAlgo::TPM_ALG_SHA_384, b"abc").unwrap();
    assert_eq!(
        d384.as_ref(),
        &hex(
            "cb00753f45a35e8bb5a03d699ac65007272c32ab0eded1631a8b605a43ff5bed
             8086072ba1e7cc2358baeca134c825a7"
        )[..]
    );
    let d512 = crypto::hash::hash_all(&slot, SpdmBaseHashAlgo::TPM_ALG_SHA_512, b"abc").unwrap();
    assert_eq!(
        d512.as_ref(),
        &hex(
            "ddaf35a193617abacc417349ae20413112e6fa4e89a97ea20a9eeee64b55d39a
             2192992a274fc1a836ba3c23a3feebbd454d4423643ce80e2a9ac94fa54ca49f"
        )[..]
    );
    // the bytes behind a digest are zero
    assert_eq!(d256.data_size, 32);
    assert!(d256.data[32..].iter().all(|b| *b == 0));
}

#[test]
fn running_hash_agrees_with_hash_all() {
    let slot = hash_slot();
    let algo = SpdmBaseHashAlgo::TPM_ALG_SHA_384;
    let mut ctx = crypto::hash::hash_ctx_init(&slot, algo).unwrap();
    assert!(crypto::hash::hash_ctx_update(&slot, &mut ctx, b"hello "));
    let fork = crypto::hash::hash_ctx_fork(&slot, &ctx).unwrap();
    assert!(crypto::hash::hash_ctx_update(&slot, &mut ctx, b"world"));
    let whole = crypto::hash::hash_ctx_finalize(&slot, ctx).unwrap();
    let part = crypto::hash::hash_ctx_finalize(&slot, fork).unwrap();
    assert_eq!(
        whole.as_ref(),
        crypto::hash::hash_all(&slot, algo, b"hello world").unwrap().as_ref()
    );
    assert_eq!(part.as_ref(), crypto::hash::hash_all(&slot, algo, b"hello ").unwrap().as_ref());
    assert_ne!(whole.as_ref(), part.as_ref());
}

#[test]
fn hmac_sha256_rfc4231_first_vector() {
    let slot = hmac_slot();
    let key = [0x0bu8; 20];
    let mac = crypto::hmac::hmac(&slot, SpdmBaseHashAlgo::TPM_ALG_SHA_256, &key, b"Hi There").unwrap();
    assert_eq!(
        mac.as_ref(),
        &hex("b0344c61d8db38535ca8afceaf0bf12b881dc200c9833da726e9376c2e32cff7")[..]
    );
    assert_eq!(
        crypto::hmac::hmac_verify(&slot, SpdmBaseHashAlgo::TPM_ALG_SHA_256, &key, b"Hi There", &mac),
        Ok(())
    );
    let mut flipped = mac;
    flipped.data[31] ^= 0x01;
    assert_eq!(
        crypto::hmac::hmac_verify(
            &slot,
            SpdmBaseHashAlgo::TPM_ALG_SHA_256,
            &key,
            b"Hi There",
            &flipped
        ),
        Err(SpdmError::InvalidMac)
    );
    let short = SpdmDigestStruct::from_bytes(&mac.as_ref()[..16]).unwrap();
    assert_eq!(
        crypto::hmac::hmac_verify(&slot, SpdmBaseHashAlgo::TPM_ALG_SHA_256, &key, b"Hi There", &short),
        Err(SpdmError::InvalidMac)
    );
}

#[test]
fn hkdf_expand_sha256_rfc5869_first_vector() {
    let slot = hkdf_slot();
    let prk = hex("077709362c2e32df0ddc3f0dc47bba6390b6c73bb50f9c3122ec844ad7c2b3e5");
    let info = hex("f0f1f2f3f4f5f6f7f8f9");
    let okm = hex("3cb25f25faacd57a90434f64d0362f2a2d2d0a90cf1a5a4c5db02d56ecc4c5bf");
    let full =
        crypto::hkdf::hkdf_expand(&slot, SpdmBaseHashAlgo::TPM_ALG_SHA_256, &prk, &info, 32).unwrap();
    assert_eq!(full.as_ref(), &okm[..]);
    // a shorter output is the start of a longer one
    let short =
        crypto::hkdf::hkdf_expand(&slot, SpdmBaseHashAlgo::TPM_ALG_SHA_256, &prk, &info, 12).unwrap();
    assert_eq!(short.as_ref(), &okm[..12]);
    assert_eq!(short.data_size, 12);
    // the provider serves nothing longer than a digest, and asks for a key as long as one
    assert!(
        crypto::hkdf::hkdf_expand(&slot, SpdmBaseHashAlgo::TPM_ALG_SHA_256, &prk, &info, 33).is_none()
    );
    assert!(crypto::hkdf::hkdf_expand(&slot, SpdmBaseHashAlgo::TPM_ALG_SHA_256, &prk[..31], &info, 32)
        .is_none());
    assert!(
        crypto::hkdf::hkdf_expand(&slot, SpdmBaseHashAlgo::TPM_ALG_SHA_384, &prk, &info, 32).is_none()
    );
}

#[test]
fn aes_gcm_known_answers() {
    let slot = aead_slot();
    // the first two NIST GCM vectors for AES-128
    let key = [0u8; 16];
    let iv = [0u8; 12];
    let mut tag = [0u8; 16];
    let mut none = [0u8; 0];
    assert_eq!(
        crypto::aead::encrypt(&slot, SpdmAeadAlgo::AES_128_GCM, &key, &iv, &[], &[], &mut tag, &mut none),
        Ok((0, 16))
    );
    assert_eq!(&tag[..], &hex("58e2fccefa7e3061367f1d57a4e7455a")[..]);

    let mut cipher = [0u8; 16];
    assert_eq!(
        crypto::aead::encrypt(
            &slot,
            SpdmAeadAlgo::AES_128_GCM,
            &key,
            &iv,
            &[],
            &[0u8; 16],
            &mut tag,
            &mut cipher
        ),
        Ok((16, 16))
    );
    assert_eq!(&cipher[..], &hex("0388dace60b6a392f328c2b971b2fe78")[..]);
    assert_eq!(&tag[..], &hex("ab6e47d42cec13bdf53a67b21257bddf")[..]);

    let mut plain = [0xffu8; 16];
    assert_eq!(
        crypto::aead::decrypt(&slot, SpdmAeadAlgo::AES_128_GCM, &key, &iv, &[], &cipher, &tag, &mut plain),
        Ok(16)
    );
    assert_eq!(plain, [0u8; 16]);
}

#[test]
fn aead_round_trip_and_refusals() {
    let slot = aead_slot();
    for algo in [SpdmAeadAlgo::AES_128_GCM, SpdmAeadAlgo::AES_256_GCM, SpdmAeadAlgo::CHACHA20_POLY1305] {
        let key = vec![0x42u8; algo.get_key_size() as usize];
        let iv = [7u8; 12];
        let aad = b"header";
        let message = b"the quick brown fox";
        let mut tag = [0u8; 16];
        let mut cipher = [0u8; 32];
        let (cipher_len, tag_len) =
            crypto::aead::encrypt(&slot, algo, &key, &iv, aad, message, &mut tag, &mut cipher).unwrap();
        assert_eq!((cipher_len, tag_len), (message.len(), 16));
        assert_ne!(&cipher[..cipher_len], &message[..]);
        // what lies behind the cipher text stays as it was
        assert!(cipher[cipher_len..].iter().all(|b| *b == 0));

        let mut plain = [0u8; 32];
        let plain_len =
            crypto::aead::decrypt(&slot, algo, &key, &iv, aad, &cipher[..cipher_len], &tag, &mut plain)
                .unwrap();
        assert_eq!(&plain[..plain_len], &message[..]);

        // another associated data, or a flipped bit, does not open
        let mut untouched = [9u8; 32];
        assert_eq!(
            crypto::aead::decrypt(
                &slot,
                algo,
                &key,
                &iv,
                b"other",
                &cipher[..cipher_len],
                &tag,
                &mut untouched
            ),
            Err(SpdmError::DecryptFail)
        );
        assert_eq!(untouched, [9u8; 32]);
        let mut bad_tag = tag;
        bad_tag[0] ^= 0x80;
        assert_eq!(
            crypto::aead::decrypt(
                &slot,
                algo,
                &key,
                &iv,
                aad,
                &cipher[..cipher_len],
                &bad_tag,
                &mut untouched
            ),
            Err(SpdmError::DecryptFail)
        );

        // keys, nonces and tags of the wrong length are refused
        assert_eq!(
            crypto::aead::encrypt(&slot, algo, &key[1..], &iv, aad, message, &mut tag, &mut cipher),
            Err(SpdmError::InvalidMsgField)
        );
        assert_eq!(
            crypto::aead::encrypt(&slot, algo, &key, &iv[1..], aad, message, &mut tag, &mut cipher),
            Err(SpdmError::InvalidMsgField)
        );
        assert_eq!(
            crypto::aead::decrypt(
                &slot,
                algo,
                &key,
                &iv,
                aad,
                &cipher[..cipher_len],
                &tag[..15],
                &mut untouched
            ),
            Err(SpdmError::InvalidMsgField)
        );
        // a buffer too small for the result is a fault
        let mut small = [0u8; 4];
        assert_eq!(
            crypto::aead::encrypt(&slot, algo, &key, &iv, aad, message, &mut tag, &mut small),
            Err(SpdmError::Fault)
        );
        assert_eq!(small, [0u8; 4]);
    }
}

#[test]
fn random_bytes_fill_the_buffer() {
    let mut slot = ProviderSlot::empty();
    assert!(crypto::rand::register(&mut slot, spdm_ring::rand_impl::DEFAULT));
    let mut first = [0u8; 32];
    let mut second = [0u8; 32];
    assert_eq!(crypto::rand::get_random(&slot, &mut first), Ok(32));
    assert_eq!(crypto::rand::get_random(&slot, &mut second), Ok(32));
    assert_ne!(first, second);
}
