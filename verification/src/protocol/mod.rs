//! Protocol-level values: versions, algorithms and bounded buffers.

pub mod algo;
pub mod capability;
pub mod data;
pub mod measurement;
pub mod version;

pub use algo::{
    SpdmAeadAlgo, SpdmBaseAsymAlgo, SpdmBaseHashAlgo, SpdmDheAlgo, SpdmKeyScheduleAlgo,
    SpdmMeasurementHashAlgo, SpdmMeasurementSpecification, SpdmMeasurementSummaryHashType,
    SpdmReqAsymAlgo, SHA256_DIGEST_SIZE, SHA384_DIGEST_SIZE, SHA512_DIGEST_SIZE,
    SPDM_MAX_AEAD_IV_SIZE, SPDM_MAX_AEAD_KEY_SIZE, SPDM_MAX_AEAD_TAG_SIZE, SPDM_MAX_ASYM_KEY_SIZE,
    SPDM_MAX_DHE_KEY_SIZE, SPDM_MAX_HASH_SIZE, SPDM_MAX_HKDF_OKM_SIZE, SPDM_NONCE_SIZE,
    SPDM_RANDOM_SIZE,
};
pub use data::{
    SpdmAeadIvStruct, SpdmAeadKeyStruct, SpdmCertChainData, SpdmCertChainPortion,
    SpdmDheExchangeStruct,
    SpdmDheFinalKeyStruct, SpdmDigestStruct, SpdmHKDFKeyStruct, SpdmOpaqueStruct,
    SpdmPskContextStruct, SpdmPskHintStruct, SpdmSignatureStruct,
};
pub use measurement::{
    SpdmDmtfMeasurementRepresentation, SpdmDmtfMeasurementStructure, SpdmDmtfMeasurementType,
    SpdmMeasurementBlockStructure, SpdmMeasurementOperation, SpdmMeasurementRecordStructure,
};
pub use version::SpdmVersion;
