use spdmlib::common::{SpdmContext, SpdmNegotiateInfo};
use spdmlib::crypto;
use spdmlib::crypto::spdm_ring;
use spdmlib::crypto::{ProviderSlot, SpdmHash};
use spdmlib::protocol::{
    SpdmAeadAlgo, SpdmBaseAsymAlgo, SpdmBaseHashAlgo, SpdmDheAlgo, SpdmKeyScheduleAlgo,
    SpdmMeasurementHashAlgo, SpdmMeasurementSpecification, SpdmMeasurementSummaryHashType,
    SpdmReqAsymAlgo, SpdmVersion,
};
use spdmlib::secret;
use spdmlib::secret::secret_impl_sample::SpdmSecretImplSample;
use spdmlib::secret::SpdmSecret;

type Hash = spdm_ring::hash_impl::SpdmRingHash;

fn sample() -> SpdmSecretImplSample<Hash> {
    let mut hash = ProviderSlot::empty();
    assert!(crypto::hash::register(&mut hash, spdm_ring::hash_impl::DEFAULT));
    SpdmSecretImplSample { hash }
}

#[test]
fn the_sample_device_has_an_empty_summary_hash() {
    let device = sample();
    let direct = device
        .spdm_generate_measurement_summary_hash(
            SpdmVersion::SpdmVersion12,
            SpdmBaseHashAlgo::TPM_ALG_SHA_384,
            SpdmMeasurementSpecification::DMTF,
            SpdmBaseHashAlgo::TPM_ALG_SHA_384,
            SpdmMeasurementSummaryHashType::SpdmMeasurementSummaryHashTypeAll,
        )
        .unwrap();
    assert_eq!(direct.data_size, 0);
    assert_eq!(direct.data, [0u8; 64]);

    let mut slot = ProviderSlot::empty();
    assert!(secret::register(&mut slot, device));
    let summary = secret::spdm_generate_measurement_summary_hash(
        &slot,
        SpdmVersion::SpdmVersion11,
        SpdmBaseHashAlgo::TPM_ALG_SHA_256,
        SpdmMeasurementSpecification::DMTF,
        SpdmBaseHashAlgo::TPM_ALG_SHA_256,
        SpdmMeasurementSummaryHashType::SpdmMeasurementSummaryHashTypeTcb,
    )
    .unwrap();
    assert_eq!(summary.data_size, 0);
    assert_eq!(summary.data, [0u8; 64]);

    let none: ProviderSlot<SpdmSecretImplSample<Hash>> = ProviderSlot::empty();
    assert!(secret::spdm_generate_measurement_summary_hash(
        &none,
        SpdmVersion::SpdmVersion11,
        SpdmBaseHashAlgo::TPM_ALG_SHA_256,
        SpdmMeasurementSpecification::DMTF,
        SpdmBaseHashAlgo::TPM_ALG_SHA_256,
        SpdmMeasurementSummaryHashType::SpdmMeasurementSummaryHashTypeTcb,
    )
    .is_none());
}

#[test]
fn the_sample_device_signs_with_an_empty_signature() {
    let device = sample();
    let asym = SpdmReqAsymAlgo::TPM_ALG_ECDSA_ECC_NIST_P384;
    let hash = SpdmBaseHashAlgo::TPM_ALG_SHA_384;
    let requester = device
        .spdm_requester_data_sign(SpdmVersion::SpdmVersion12, 0xe5, asym, hash, false, b"message", 7)
        .unwrap();
    assert_eq!(requester.data_size, 0);
    assert_eq!(requester.data, [0u8; 512]);
    let responder = device
        .spdm_responder_data_sign(SpdmVersion::SpdmVersion12, 0x64, asym, hash, true, &[0x5a; 48], 48)
        .unwrap();
    assert_eq!(responder.data_size, 0);
    assert_eq!(responder.data, [0u8; 512]);

    // an empty signature has not the length that the algorithm calls for, and is not handed on
    let mut slot = ProviderSlot::empty();
    assert!(secret::register(&mut slot, device));
    assert!(secret::spdm_requester_data_sign(&slot, SpdmVersion::SpdmVersion12, 0xe5, asym, hash, false, b"message", 7)
        .is_none());
    assert!(secret::spdm_responder_data_sign(&slot, SpdmVersion::SpdmVersion12, 0x64, asym, hash, false, b"message", 7)
        .is_none());
}

#[test]
fn a_new_context_holds_the_defaults() {
    let context = SpdmContext::new();
    assert_eq!(
        context.negotiate_info,
        SpdmNegotiateInfo {
            spdm_version_sel: SpdmVersion::SpdmVersion10,
            req_ct_exponent_sel: 0,
            req_capabilities_sel: 0,
            rsp_ct_exponent_sel: 0,
            rsp_capabilities_sel: 0,
            measurement_specification_sel: SpdmMeasurementSpecification::DMTF,
            measurement_hash_sel: SpdmMeasurementHashAlgo::TPM_ALG_SHA_256,
            base_hash_sel: SpdmBaseHashAlgo::TPM_ALG_SHA_256,
            base_asym_sel: SpdmBaseAsymAlgo::TPM_ALG_ECDSA_ECC_NIST_P256,
            dhe_sel: SpdmDheAlgo::SECP_256_R1,
            aead_sel: SpdmAeadAlgo::AES_128_GCM,
            req_asym_sel: SpdmReqAsymAlgo::TPM_ALG_ECDSA_ECC_NIST_P256,
            key_schedule_sel: SpdmKeyScheduleAlgo::SPDM_KEY_SCHEDULE,
        }
    );
    assert_eq!(context.negotiate_info, SpdmNegotiateInfo::default());
    assert!(!context.runtime_info.need_measurement_summary_hash);
    assert!(!context.runtime_info.need_measurement_signature);
    assert!(!context.handshake_in_the_clear());
}

#[test]
fn a_running_hash_is_started_for_every_algorithm_and_takes_what_it_is_fed() {
    let provider = spdm_ring::hash_impl::DEFAULT;
    let mut slot = ProviderSlot::empty();
    assert!(crypto::hash::register(&mut slot, provider));
    for (algo, size) in [
        (SpdmBaseHashAlgo::TPM_ALG_SHA_256, 32),
        (SpdmBaseHashAlgo::TPM_ALG_SHA_384, 48),
        (SpdmBaseHashAlgo::TPM_ALG_SHA_512, 64),
    ] {
        let mut ctx = provider.hash_ctx_init(algo).unwrap();
        assert!(provider.hash_ctx_update(&mut ctx, b""));
        assert!(provider.hash_ctx_update(&mut ctx, &[0x61; 1000]));
        let digest = provider.hash_ctx_finalize(ctx).unwrap();
        assert_eq!(digest.data_size, size);
        assert_eq!(digest.data, provider.hash_all(algo, &[0x61; 1000]).unwrap().data);

        let mut ctx = crypto::hash::hash_ctx_init(&slot, algo).unwrap();
        assert!(crypto::hash::hash_ctx_update(&slot, &mut ctx, &[0x61; 400]));
        assert!(crypto::hash::hash_ctx_update(&slot, &mut ctx, &[0x61; 600]));
        assert_eq!(crypto::hash::hash_ctx_finalize(&slot, ctx).unwrap().data, digest.data);
    }
    // without a provider there is no running hash, and none is fed
    let none: ProviderSlot<Hash> = ProviderSlot::empty();
    assert!(crypto::hash::hash_ctx_init(&none, SpdmBaseHashAlgo::TPM_ALG_SHA_256).is_none());
    let mut ctx = provider.hash_ctx_init(SpdmBaseHashAlgo::TPM_ALG_SHA_256).unwrap();
    assert!(!crypto::hash::hash_ctx_update(&none, &mut ctx, b"abc"));
    assert_eq!(
        provider.hash_ctx_finalize(ctx).unwrap().data,
        provider.hash_all(SpdmBaseHashAlgo::TPM_ALG_SHA_256, b"").unwrap().data
    );
}
