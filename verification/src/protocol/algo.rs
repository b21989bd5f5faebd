//! Negotiated algorithms and their sizes.

use vstd::prelude::*;

verus! {

pub const SHA256_DIGEST_SIZE: usize = 32;

pub const SHA384_DIGEST_SIZE: usize = 48;

pub const SHA512_DIGEST_SIZE: usize = 64;

pub const SPDM_MAX_HASH_SIZE: usize = 64;

pub const SPDM_MAX_AEAD_KEY_SIZE: usize = 32;

pub const SPDM_MAX_AEAD_IV_SIZE: usize = 12;

pub const SPDM_MAX_AEAD_TAG_SIZE: usize = 16;

pub const SPDM_MAX_ASYM_KEY_SIZE: usize = 512;

pub const SPDM_MAX_DHE_KEY_SIZE: usize = 512;

pub const SPDM_MAX_HKDF_OKM_SIZE: usize = 64;

pub const SPDM_NONCE_SIZE: usize = 32;

pub const SPDM_RANDOM_SIZE: usize = 32;

/// Hash used for transcripts, HMAC and HKDF.
#[allow(non_camel_case_types)]
#[derive(Clone, Copy, Debug, PartialEq, Eq, Structural)]
pub enum SpdmBaseHashAlgo {
    TPM_ALG_SHA_256,
    TPM_ALG_SHA_384,
    TPM_ALG_SHA_512,
}

impl SpdmBaseHashAlgo {
    /// Length of a digest in bytes.
    pub open spec fn spec_size(&self) -> u16 {
        match self {
            SpdmBaseHashAlgo::TPM_ALG_SHA_256 => 32,
            SpdmBaseHashAlgo::TPM_ALG_SHA_384 => 48,
            SpdmBaseHashAlgo::TPM_ALG_SHA_512 => 64,
        }
    }

    /// The bit that stands for this hash in an algorithm bit mask.
    pub open spec fn spec_bit(&self) -> u32 {
        match self {
            SpdmBaseHashAlgo::TPM_ALG_SHA_256 => 0x1,
            SpdmBaseHashAlgo::TPM_ALG_SHA_384 => 0x2,
            SpdmBaseHashAlgo::TPM_ALG_SHA_512 => 0x4,
        }
    }

    #[verifier::when_used_as_spec(spec_size)]
    pub fn get_size(&self) -> (r: u16)
        ensures
            r == self.spec_size(),
            0 < r <= SPDM_MAX_HASH_SIZE,
    {
        match self {
            SpdmBaseHashAlgo::TPM_ALG_SHA_256 => 32,
            SpdmBaseHashAlgo::TPM_ALG_SHA_384 => 48,
            SpdmBaseHashAlgo::TPM_ALG_SHA_512 => 64,
        }
    }

    #[verifier::when_used_as_spec(spec_bit)]
    pub fn get_bit(&self) -> (r: u32)
        ensures
            r == self.spec_bit(),
    {
        match self {
            SpdmBaseHashAlgo::TPM_ALG_SHA_256 => 0x1,
            SpdmBaseHashAlgo::TPM_ALG_SHA_384 => 0x2,
            SpdmBaseHashAlgo::TPM_ALG_SHA_512 => 0x4,
        }
    }

    /// The algorithm that the mask `bit` selects: the one whose bit is the one
    /// bit of the mask.
    pub open spec fn spec_from_bit(bit: u32) -> Option<SpdmBaseHashAlgo> {
        if bit == 0x1 {
            Some(SpdmBaseHashAlgo::TPM_ALG_SHA_256)
        } else if bit == 0x2 {
            Some(SpdmBaseHashAlgo::TPM_ALG_SHA_384)
        } else if bit == 0x4 {
            Some(SpdmBaseHashAlgo::TPM_ALG_SHA_512)
        } else {
            None
        }
    }

    pub fn from_bit(bit: u32) -> (r: Option<SpdmBaseHashAlgo>)
        ensures
            r == Self::spec_from_bit(bit),
            r matches Some(algo) ==> algo.spec_bit() == bit,
    {
        if bit == 0x1 {
            Some(SpdmBaseHashAlgo::TPM_ALG_SHA_256)
        } else if bit == 0x2 {
            Some(SpdmBaseHashAlgo::TPM_ALG_SHA_384)
        } else if bit == 0x4 {
            Some(SpdmBaseHashAlgo::TPM_ALG_SHA_512)
        } else {
            None
        }
    }
}

/// Hash used for measurements.
#[allow(non_camel_case_types)]
#[derive(Clone, Copy, Debug, PartialEq, Eq, Structural)]
pub enum SpdmMeasurementHashAlgo {
    RAW_BIT_STREAM,
    TPM_ALG_SHA_256,
    TPM_ALG_SHA_384,
    TPM_ALG_SHA_512,
}

impl SpdmMeasurementHashAlgo {
    /// Length of a measurement digest in bytes; 0 for a raw bit stream.
    pub open spec fn spec_size(&self) -> u16 {
        match self {
            SpdmMeasurementHashAlgo::RAW_BIT_STREAM => 0,
            SpdmMeasurementHashAlgo::TPM_ALG_SHA_256 => 32,
            SpdmMeasurementHashAlgo::TPM_ALG_SHA_384 => 48,
            SpdmMeasurementHashAlgo::TPM_ALG_SHA_512 => 64,
        }
    }

    #[verifier::when_used_as_spec(spec_size)]
    pub fn get_size(&self) -> (r: u16)
        ensures
            r == self.spec_size(),
    {
        match self {
            SpdmMeasurementHashAlgo::RAW_BIT_STREAM => 0,
            SpdmMeasurementHashAlgo::TPM_ALG_SHA_256 => 32,
            SpdmMeasurementHashAlgo::TPM_ALG_SHA_384 => 48,
            SpdmMeasurementHashAlgo::TPM_ALG_SHA_512 => 64,
        }
    }

    /// The bit that stands for this hash in an algorithm bit mask.
    pub open spec fn spec_bit(&self) -> u32 {
        match self {
            SpdmMeasurementHashAlgo::RAW_BIT_STREAM => 0x1,
            SpdmMeasurementHashAlgo::TPM_ALG_SHA_256 => 0x2,
            SpdmMeasurementHashAlgo::TPM_ALG_SHA_384 => 0x4,
            SpdmMeasurementHashAlgo::TPM_ALG_SHA_512 => 0x8,
        }
    }

    #[verifier::when_used_as_spec(spec_bit)]
    pub fn get_bit(&self) -> (r: u32)
        ensures
            r == self.spec_bit(),
    {
        match self {
            SpdmMeasurementHashAlgo::RAW_BIT_STREAM => 0x1,
            SpdmMeasurementHashAlgo::TPM_ALG_SHA_256 => 0x2,
            SpdmMeasurementHashAlgo::TPM_ALG_SHA_384 => 0x4,
            SpdmMeasurementHashAlgo::TPM_ALG_SHA_512 => 0x8,
        }
    }

    /// The algorithm that the mask `bit` selects: the one whose bit is the one
    /// bit of the mask.
    pub open spec fn spec_from_bit(bit: u32) -> Option<SpdmMeasurementHashAlgo> {
        if bit == 0x1 {
            Some(SpdmMeasurementHashAlgo::RAW_BIT_STREAM)
        } else if bit == 0x2 {
            Some(SpdmMeasurementHashAlgo::TPM_ALG_SHA_256)
        } else if bit == 0x4 {
            Some(SpdmMeasurementHashAlgo::TPM_ALG_SHA_384)
        } else if bit == 0x8 {
            Some(SpdmMeasurementHashAlgo::TPM_ALG_SHA_512)
        } else {
            None
        }
    }

    pub fn from_bit(bit: u32) -> (r: Option<SpdmMeasurementHashAlgo>)
        ensures
            r == Self::spec_from_bit(bit),
            r matches Some(algo) ==> algo.spec_bit() == bit,
    {
        if bit == 0x1 {
            Some(SpdmMeasurementHashAlgo::RAW_BIT_STREAM)
        } else if bit == 0x2 {
            Some(SpdmMeasurementHashAlgo::TPM_ALG_SHA_256)
        } else if bit == 0x4 {
            Some(SpdmMeasurementHashAlgo::TPM_ALG_SHA_384)
        } else if bit == 0x8 {
            Some(SpdmMeasurementHashAlgo::TPM_ALG_SHA_512)
        } else {
            None
        }
    }
}

/// Signature algorithm of the responder.
#[allow(non_camel_case_types)]
#[derive(Clone, Copy, Debug, PartialEq, Eq, Structural)]
pub enum SpdmBaseAsymAlgo {
    TPM_ALG_RSASSA_2048,
    TPM_ALG_RSAPSS_2048,
    TPM_ALG_RSASSA_3072,
    TPM_ALG_RSAPSS_3072,
    TPM_ALG_ECDSA_ECC_NIST_P256,
    TPM_ALG_RSASSA_4096,
    TPM_ALG_RSAPSS_4096,
    TPM_ALG_ECDSA_ECC_NIST_P384,
}

impl SpdmBaseAsymAlgo {
    /// Length of a signature in bytes.
    pub open spec fn spec_size(&self) -> u16 {
        match self {
            SpdmBaseAsymAlgo::TPM_ALG_RSASSA_2048 => 256,
            SpdmBaseAsymAlgo::TPM_ALG_RSAPSS_2048 => 256,
            SpdmBaseAsymAlgo::TPM_ALG_RSASSA_3072 => 384,
            SpdmBaseAsymAlgo::TPM_ALG_RSAPSS_3072 => 384,
            SpdmBaseAsymAlgo::TPM_ALG_ECDSA_ECC_NIST_P256 => 64,
            SpdmBaseAsymAlgo::TPM_ALG_RSASSA_4096 => 512,
            SpdmBaseAsymAlgo::TPM_ALG_RSAPSS_4096 => 512,
            SpdmBaseAsymAlgo::TPM_ALG_ECDSA_ECC_NIST_P384 => 96,
        }
    }

    /// The bit that stands for this algorithm in an algorithm bit mask.
    pub open spec fn spec_bit(&self) -> u32 {
        match self {
            SpdmBaseAsymAlgo::TPM_ALG_RSASSA_2048 => 0x1,
            SpdmBaseAsymAlgo::TPM_ALG_RSAPSS_2048 => 0x2,
            SpdmBaseAsymAlgo::TPM_ALG_RSASSA_3072 => 0x4,
            SpdmBaseAsymAlgo::TPM_ALG_RSAPSS_3072 => 0x8,
            SpdmBaseAsymAlgo::TPM_ALG_ECDSA_ECC_NIST_P256 => 0x10,
            SpdmBaseAsymAlgo::TPM_ALG_RSASSA_4096 => 0x20,
            SpdmBaseAsymAlgo::TPM_ALG_RSAPSS_4096 => 0x40,
            SpdmBaseAsymAlgo::TPM_ALG_ECDSA_ECC_NIST_P384 => 0x80,
        }
    }

    #[verifier::when_used_as_spec(spec_size)]
    pub fn get_size(&self) -> (r: u16)
        ensures
            r == self.spec_size(),
            0 < r <= SPDM_MAX_ASYM_KEY_SIZE,
    {
        match self {
            SpdmBaseAsymAlgo::TPM_ALG_RSASSA_2048 => 256,
            SpdmBaseAsymAlgo::TPM_ALG_RSAPSS_2048 => 256,
            SpdmBaseAsymAlgo::TPM_ALG_RSASSA_3072 => 384,
            SpdmBaseAsymAlgo::TPM_ALG_RSAPSS_3072 => 384,
            SpdmBaseAsymAlgo::TPM_ALG_ECDSA_ECC_NIST_P256 => 64,
            SpdmBaseAsymAlgo::TPM_ALG_RSASSA_4096 => 512,
            SpdmBaseAsymAlgo::TPM_ALG_RSAPSS_4096 => 512,
            SpdmBaseAsymAlgo::TPM_ALG_ECDSA_ECC_NIST_P384 => 96,
        }
    }

    #[verifier::when_used_as_spec(spec_bit)]
    pub fn get_bit(&self) -> (r: u32)
        ensures
            r == self.spec_bit(),
    {
        match self {
            SpdmBaseAsymAlgo::TPM_ALG_RSASSA_2048 => 0x1,
            SpdmBaseAsymAlgo::TPM_ALG_RSAPSS_2048 => 0x2,
            SpdmBaseAsymAlgo::TPM_ALG_RSASSA_3072 => 0x4,
            SpdmBaseAsymAlgo::TPM_ALG_RSAPSS_3072 => 0x8,
            SpdmBaseAsymAlgo::TPM_ALG_ECDSA_ECC_NIST_P256 => 0x10,
            SpdmBaseAsymAlgo::TPM_ALG_RSASSA_4096 => 0x20,
            SpdmBaseAsymAlgo::TPM_ALG_RSAPSS_4096 => 0x40,
            SpdmBaseAsymAlgo::TPM_ALG_ECDSA_ECC_NIST_P384 => 0x80,
        }
    }

    /// The algorithm that the mask `bit` selects: the one whose bit is the one
    /// bit of the mask.
    pub open spec fn spec_from_bit(bit: u32) -> Option<SpdmBaseAsymAlgo> {
        if bit == 0x1 {
            Some(SpdmBaseAsymAlgo::TPM_ALG_RSASSA_2048)
        } else if bit == 0x2 {
            Some(SpdmBaseAsymAlgo::TPM_ALG_RSAPSS_2048)
        } else if bit == 0x4 {
            Some(SpdmBaseAsymAlgo::TPM_ALG_RSASSA_3072)
        } else if bit == 0x8 {
            Some(SpdmBaseAsymAlgo::TPM_ALG_RSAPSS_3072)
        } else if bit == 0x10 {
            Some(SpdmBaseAsymAlgo::TPM_ALG_ECDSA_ECC_NIST_P256)
        } else if bit == 0x20 {
            Some(SpdmBaseAsymAlgo::TPM_ALG_RSASSA_4096)
        } else if bit == 0x40 {
            Some(SpdmBaseAsymAlgo::TPM_ALG_RSAPSS_4096)
        } else if bit == 0x80 {
            Some(SpdmBaseAsymAlgo::TPM_ALG_ECDSA_ECC_NIST_P384)
        } else {
            None
        }
    }

    pub fn from_bit(bit: u32) -> (r: Option<SpdmBaseAsymAlgo>)
        ensures
            r == Self::spec_from_bit(bit),
            r matches Some(algo) ==> algo.spec_bit() == bit,
    {
        if bit == 0x1 {
            Some(SpdmBaseAsymAlgo::TPM_ALG_RSASSA_2048)
        } else if bit == 0x2 {
            Some(SpdmBaseAsymAlgo::TPM_ALG_RSAPSS_2048)
        } else if bit == 0x4 {
            Some(SpdmBaseAsymAlgo::TPM_ALG_RSASSA_3072)
        } else if bit == 0x8 {
            Some(SpdmBaseAsymAlgo::TPM_ALG_RSAPSS_3072)
        } else if bit == 0x10 {
            Some(SpdmBaseAsymAlgo::TPM_ALG_ECDSA_ECC_NIST_P256)
        } else if bit == 0x20 {
            Some(SpdmBaseAsymAlgo::TPM_ALG_RSASSA_4096)
        } else if bit == 0x40 {
            Some(SpdmBaseAsymAlgo::TPM_ALG_RSAPSS_4096)
        } else if bit == 0x80 {
            Some(SpdmBaseAsymAlgo::TPM_ALG_ECDSA_ECC_NIST_P384)
        } else {
            None
        }
    }
}

/// Signature algorithm of the requester, used with mutual authentication.
#[allow(non_camel_case_types)]
#[derive(Clone, Copy, Debug, PartialEq, Eq, Structural)]
pub enum SpdmReqAsymAlgo {
    TPM_ALG_RSASSA_2048,
    TPM_ALG_RSAPSS_2048,
    TPM_ALG_RSASSA_3072,
    TPM_ALG_RSAPSS_3072,
    TPM_ALG_ECDSA_ECC_NIST_P256,
    TPM_ALG_RSASSA_4096,
    TPM_ALG_RSAPSS_4096,
    TPM_ALG_ECDSA_ECC_NIST_P384,
}

impl SpdmReqAsymAlgo {
    /// Length of a signature in bytes.
    pub open spec fn spec_size(&self) -> u16 {
        match self {
            SpdmReqAsymAlgo::TPM_ALG_RSASSA_2048 => 256,
            SpdmReqAsymAlgo::TPM_ALG_RSAPSS_2048 => 256,
            SpdmReqAsymAlgo::TPM_ALG_RSASSA_3072 => 384,
            SpdmReqAsymAlgo::TPM_ALG_RSAPSS_3072 => 384,
            SpdmReqAsymAlgo::TPM_ALG_ECDSA_ECC_NIST_P256 => 64,
            SpdmReqAsymAlgo::TPM_ALG_RSASSA_4096 => 512,
            SpdmReqAsymAlgo::TPM_ALG_RSAPSS_4096 => 512,
            SpdmReqAsymAlgo::TPM_ALG_ECDSA_ECC_NIST_P384 => 96,
        }
    }

    #[verifier::when_used_as_spec(spec_size)]
    pub fn get_size(&self) -> (r: u16)
        ensures
            r == self.spec_size(),
            0 < r <= SPDM_MAX_ASYM_KEY_SIZE,
    {
        match self {
            SpdmReqAsymAlgo::TPM_ALG_RSASSA_2048 => 256,
            SpdmReqAsymAlgo::TPM_ALG_RSAPSS_2048 => 256,
            SpdmReqAsymAlgo::TPM_ALG_RSASSA_3072 => 384,
            SpdmReqAsymAlgo::TPM_ALG_RSAPSS_3072 => 384,
            SpdmReqAsymAlgo::TPM_ALG_ECDSA_ECC_NIST_P256 => 64,
            SpdmReqAsymAlgo::TPM_ALG_RSASSA_4096 => 512,
            SpdmReqAsymAlgo::TPM_ALG_RSAPSS_4096 => 512,
            SpdmReqAsymAlgo::TPM_ALG_ECDSA_ECC_NIST_P384 => 96,
        }
    }

    /// The bit that stands for this algorithm in an algorithm bit mask.
    pub open spec fn spec_bit(&self) -> u16 {
        match self {
            SpdmReqAsymAlgo::TPM_ALG_RSASSA_2048 => 0x1,
            SpdmReqAsymAlgo::TPM_ALG_RSAPSS_2048 => 0x2,
            SpdmReqAsymAlgo::TPM_ALG_RSASSA_3072 => 0x4,
            SpdmReqAsymAlgo::TPM_ALG_RSAPSS_3072 => 0x8,
            SpdmReqAsymAlgo::TPM_ALG_ECDSA_ECC_NIST_P256 => 0x10,
            SpdmReqAsymAlgo::TPM_ALG_RSASSA_4096 => 0x20,
            SpdmReqAsymAlgo::TPM_ALG_RSAPSS_4096 => 0x40,
            SpdmReqAsymAlgo::TPM_ALG_ECDSA_ECC_NIST_P384 => 0x80,
        }
    }

    #[verifier::when_used_as_spec(spec_bit)]
    pub fn get_bit(&self) -> (r: u16)
        ensures
            r == self.spec_bit(),
    {
        match self {
            SpdmReqAsymAlgo::TPM_ALG_RSASSA_2048 => 0x1,
            SpdmReqAsymAlgo::TPM_ALG_RSAPSS_2048 => 0x2,
            SpdmReqAsymAlgo::TPM_ALG_RSASSA_3072 => 0x4,
            SpdmReqAsymAlgo::TPM_ALG_RSAPSS_3072 => 0x8,
            SpdmReqAsymAlgo::TPM_ALG_ECDSA_ECC_NIST_P256 => 0x10,
            SpdmReqAsymAlgo::TPM_ALG_RSASSA_4096 => 0x20,
            SpdmReqAsymAlgo::TPM_ALG_RSAPSS_4096 => 0x40,
            SpdmReqAsymAlgo::TPM_ALG_ECDSA_ECC_NIST_P384 => 0x80,
        }
    }

    /// The algorithm that the mask `bit` selects: the one whose bit is the one
    /// bit of the mask.
    pub open spec fn spec_from_bit(bit: u16) -> Option<SpdmReqAsymAlgo> {
        if bit == 0x1 {
            Some(SpdmReqAsymAlgo::TPM_ALG_RSASSA_2048)
        } else if bit == 0x2 {
            Some(SpdmReqAsymAlgo::TPM_ALG_RSAPSS_2048)
        } else if bit == 0x4 {
            Some(SpdmReqAsymAlgo::TPM_ALG_RSASSA_3072)
        } else if bit == 0x8 {
            Some(SpdmReqAsymAlgo::TPM_ALG_RSAPSS_3072)
        } else if bit == 0x10 {
            Some(SpdmReqAsymAlgo::TPM_ALG_ECDSA_ECC_NIST_P256)
        } else if bit == 0x20 {
            Some(SpdmReqAsymAlgo::TPM_ALG_RSASSA_4096)
        } else if bit == 0x40 {
            Some(SpdmReqAsymAlgo::TPM_ALG_RSAPSS_4096)
        } else if bit == 0x80 {
            Some(SpdmReqAsymAlgo::TPM_ALG_ECDSA_ECC_NIST_P384)
        } else {
            None
        }
    }

    pub fn from_bit(bit: u16) -> (r: Option<SpdmReqAsymAlgo>)
        ensures
            r == Self::spec_from_bit(bit),
            r matches Some(algo) ==> algo.spec_bit() == bit,
    {
        if bit == 0x1 {
            Some(SpdmReqAsymAlgo::TPM_ALG_RSASSA_2048)
        } else if bit == 0x2 {
            Some(SpdmReqAsymAlgo::TPM_ALG_RSAPSS_2048)
        } else if bit == 0x4 {
            Some(SpdmReqAsymAlgo::TPM_ALG_RSASSA_3072)
        } else if bit == 0x8 {
            Some(SpdmReqAsymAlgo::TPM_ALG_RSAPSS_3072)
        } else if bit == 0x10 {
            Some(SpdmReqAsymAlgo::TPM_ALG_ECDSA_ECC_NIST_P256)
        } else if bit == 0x20 {
            Some(SpdmReqAsymAlgo::TPM_ALG_RSASSA_4096)
        } else if bit == 0x40 {
            Some(SpdmReqAsymAlgo::TPM_ALG_RSAPSS_4096)
        } else if bit == 0x80 {
            Some(SpdmReqAsymAlgo::TPM_ALG_ECDSA_ECC_NIST_P384)
        } else {
            None
        }
    }
}

/// Key-agreement group.
#[allow(non_camel_case_types)]
#[derive(Clone, Copy, Debug, PartialEq, Eq, Structural)]
pub enum SpdmDheAlgo {
    FFDHE_2048,
    FFDHE_3072,
    FFDHE_4096,
    SECP_256_R1,
    SECP_384_R1,
    SECP_521_R1,
}

impl SpdmDheAlgo {
    /// Length of an exchanged public key in bytes.
    pub open spec fn spec_size(&self) -> u16 {
        match self {
            SpdmDheAlgo::FFDHE_2048 => 256,
            SpdmDheAlgo::FFDHE_3072 => 384,
            SpdmDheAlgo::FFDHE_4096 => 512,
            SpdmDheAlgo::SECP_256_R1 => 64,
            SpdmDheAlgo::SECP_384_R1 => 96,
            SpdmDheAlgo::SECP_521_R1 => 132,
        }
    }

    /// The bit that stands for this group in an algorithm bit mask.
    pub open spec fn spec_bit(&self) -> u16 {
        match self {
            SpdmDheAlgo::FFDHE_2048 => 0x1,
            SpdmDheAlgo::FFDHE_3072 => 0x2,
            SpdmDheAlgo::FFDHE_4096 => 0x4,
            SpdmDheAlgo::SECP_256_R1 => 0x8,
            SpdmDheAlgo::SECP_384_R1 => 0x10,
            SpdmDheAlgo::SECP_521_R1 => 0x20,
        }
    }

    #[verifier::when_used_as_spec(spec_size)]
    pub fn get_size(&self) -> (r: u16)
        ensures
            r == self.spec_size(),
            0 < r <= SPDM_MAX_DHE_KEY_SIZE,
    {
        match self {
            SpdmDheAlgo::FFDHE_2048 => 256,
            SpdmDheAlgo::FFDHE_3072 => 384,
            SpdmDheAlgo::FFDHE_4096 => 512,
            SpdmDheAlgo::SECP_256_R1 => 64,
            SpdmDheAlgo::SECP_384_R1 => 96,
            SpdmDheAlgo::SECP_521_R1 => 132,
        }
    }

    #[verifier::when_used_as_spec(spec_bit)]
    pub fn get_bit(&self) -> (r: u16)
        ensures
            r == self.spec_bit(),
    {
        match self {
            SpdmDheAlgo::FFDHE_2048 => 0x1,
            SpdmDheAlgo::FFDHE_3072 => 0x2,
            SpdmDheAlgo::FFDHE_4096 => 0x4,
            SpdmDheAlgo::SECP_256_R1 => 0x8,
            SpdmDheAlgo::SECP_384_R1 => 0x10,
            SpdmDheAlgo::SECP_521_R1 => 0x20,
        }
    }

    /// The algorithm that the mask `bit` selects: the one whose bit is the one
    /// bit of the mask.
    pub open spec fn spec_from_bit(bit: u16) -> Option<SpdmDheAlgo> {
        if bit == 0x1 {
            Some(SpdmDheAlgo::FFDHE_2048)
        } else if bit == 0x2 {
            Some(SpdmDheAlgo::FFDHE_3072)
        } else if bit == 0x4 {
            Some(SpdmDheAlgo::FFDHE_4096)
        } else if bit == 0x8 {
            Some(SpdmDheAlgo::SECP_256_R1)
        } else if bit == 0x10 {
            Some(SpdmDheAlgo::SECP_384_R1)
        } else if bit == 0x20 {
            Some(SpdmDheAlgo::SECP_521_R1)
        } else {
            None
        }
    }

    pub fn from_bit(bit: u16) -> (r: Option<SpdmDheAlgo>)
        ensures
            r == Self::spec_from_bit(bit),
            r matches Some(algo) ==> algo.spec_bit() == bit,
    {
        if bit == 0x1 {
            Some(SpdmDheAlgo::FFDHE_2048)
        } else if bit == 0x2 {
            Some(SpdmDheAlgo::FFDHE_3072)
        } else if bit == 0x4 {
            Some(SpdmDheAlgo::FFDHE_4096)
        } else if bit == 0x8 {
            Some(SpdmDheAlgo::SECP_256_R1)
        } else if bit == 0x10 {
            Some(SpdmDheAlgo::SECP_384_R1)
        } else if bit == 0x20 {
            Some(SpdmDheAlgo::SECP_521_R1)
        } else {
            None
        }
    }
}

/// Record cipher.
#[allow(non_camel_case_types)]
#[derive(Clone, Copy, Debug, PartialEq, Eq, Structural)]
pub enum SpdmAeadAlgo {
    AES_128_GCM,
    AES_256_GCM,
    CHACHA20_POLY1305,
}

impl SpdmAeadAlgo {
    /// Length of an encryption key in bytes.
    pub open spec fn spec_key_size(&self) -> u16 {
        match self {
            SpdmAeadAlgo::AES_128_GCM => 16,
            SpdmAeadAlgo::AES_256_GCM => 32,
            SpdmAeadAlgo::CHACHA20_POLY1305 => 32,
        }
    }

    /// Length of an initialisation vector in bytes.
    pub open spec fn spec_iv_size(&self) -> u16 {
        12
    }

    /// Length of an authentication tag in bytes.
    pub open spec fn spec_tag_size(&self) -> u16 {
        16
    }

    /// The bit that stands for this cipher in an algorithm bit mask.
    pub open spec fn spec_bit(&self) -> u16 {
        match self {
            SpdmAeadAlgo::AES_128_GCM => 0x1,
            SpdmAeadAlgo::AES_256_GCM => 0x2,
            SpdmAeadAlgo::CHACHA20_POLY1305 => 0x4,
        }
    }

    #[verifier::when_used_as_spec(spec_key_size)]
    pub fn get_key_size(&self) -> (r: u16)
        ensures
            r == self.spec_key_size(),
            0 < r <= SPDM_MAX_AEAD_KEY_SIZE,
    {
        match self {
            SpdmAeadAlgo::AES_128_GCM => 16,
            SpdmAeadAlgo::AES_256_GCM => 32,
            SpdmAeadAlgo::CHACHA20_POLY1305 => 32,
        }
    }

    #[verifier::when_used_as_spec(spec_iv_size)]
    pub fn get_iv_size(&self) -> (r: u16)
        ensures
            r == self.spec_iv_size(),
            0 < r <= SPDM_MAX_AEAD_IV_SIZE,
    {
        12
    }

    #[verifier::when_used_as_spec(spec_tag_size)]
    pub fn get_tag_size(&self) -> (r: u16)
        ensures
            r == self.spec_tag_size(),
            0 < r <= SPDM_MAX_AEAD_TAG_SIZE,
    {
        16
    }

    #[verifier::when_used_as_spec(spec_bit)]
    pub fn get_bit(&self) -> (r: u16)
        ensures
            r == self.spec_bit(),
    {
        match self {
            SpdmAeadAlgo::AES_128_GCM => 0x1,
            SpdmAeadAlgo::AES_256_GCM => 0x2,
            SpdmAeadAlgo::CHACHA20_POLY1305 => 0x4,
        }
    }

    /// The algorithm that the mask `bit` selects: the one whose bit is the one
    /// bit of the mask.
    pub open spec fn spec_from_bit(bit: u16) -> Option<SpdmAeadAlgo> {
        if bit == 0x1 {
            Some(SpdmAeadAlgo::AES_128_GCM)
        } else if bit == 0x2 {
            Some(SpdmAeadAlgo::AES_256_GCM)
        } else if bit == 0x4 {
            Some(SpdmAeadAlgo::CHACHA20_POLY1305)
        } else {
            None
        }
    }

    pub fn from_bit(bit: u16) -> (r: Option<SpdmAeadAlgo>)
        ensures
            r == Self::spec_from_bit(bit),
            r matches Some(algo) ==> algo.spec_bit() == bit,
    {
        if bit == 0x1 {
            Some(SpdmAeadAlgo::AES_128_GCM)
        } else if bit == 0x2 {
            Some(SpdmAeadAlgo::AES_256_GCM)
        } else if bit == 0x4 {
            Some(SpdmAeadAlgo::CHACHA20_POLY1305)
        } else {
            None
        }
    }
}

/// Key schedule; the protocol defines a single one.
#[allow(non_camel_case_types)]
#[derive(Clone, Copy, Debug, PartialEq, Eq, Structural)]
pub enum SpdmKeyScheduleAlgo {
    SPDM_KEY_SCHEDULE,
}

impl SpdmKeyScheduleAlgo {
    /// The bit that stands for this key schedule in an algorithm bit mask.
    pub open spec fn spec_bit(&self) -> u16 {
        match self {
            SpdmKeyScheduleAlgo::SPDM_KEY_SCHEDULE => 0x1,
        }
    }

    #[verifier::when_used_as_spec(spec_bit)]
    pub fn get_bit(&self) -> (r: u16)
        ensures
            r == self.spec_bit(),
    {
        match self {
            SpdmKeyScheduleAlgo::SPDM_KEY_SCHEDULE => 0x1,
        }
    }

    /// The algorithm that the mask `bit` selects: the one whose bit is the one
    /// bit of the mask.
    pub open spec fn spec_from_bit(bit: u16) -> Option<SpdmKeyScheduleAlgo> {
        if bit == 0x1 {
            Some(SpdmKeyScheduleAlgo::SPDM_KEY_SCHEDULE)
        } else {
            None
        }
    }

    pub fn from_bit(bit: u16) -> (r: Option<SpdmKeyScheduleAlgo>)
        ensures
            r == Self::spec_from_bit(bit),
            r matches Some(algo) ==> algo.spec_bit() == bit,
    {
        if bit == 0x1 {
            Some(SpdmKeyScheduleAlgo::SPDM_KEY_SCHEDULE)
        } else {
            None
        }
    }
}

/// Layout of a measurement block: none selected, or the one that DMTF
/// defines.
#[allow(non_camel_case_types)]
#[derive(Clone, Copy, Debug, PartialEq, Eq, Structural)]
pub enum SpdmMeasurementSpecification {
    NONE,
    DMTF,
}

impl SpdmMeasurementSpecification {
    /// The wire byte of this specification.
    pub open spec fn spec_u8(&self) -> u8 {
        match self {
            SpdmMeasurementSpecification::NONE => 0x0,
            SpdmMeasurementSpecification::DMTF => 0x1,
        }
    }

    /// The specification that a wire byte stands for, if any.
    pub open spec fn spec_from_u8(value: u8) -> Option<SpdmMeasurementSpecification> {
        if value == 0x0 {
            Some(SpdmMeasurementSpecification::NONE)
        } else if value == 0x1 {
            Some(SpdmMeasurementSpecification::DMTF)
        } else {
            None
        }
    }

    #[verifier::when_used_as_spec(spec_u8)]
    pub fn get_u8(&self) -> (r: u8)
        ensures
            r == self.spec_u8(),
    {
        match self {
            SpdmMeasurementSpecification::NONE => 0x0,
            SpdmMeasurementSpecification::DMTF => 0x1,
        }
    }

    pub fn from_u8(value: u8) -> (r: Option<SpdmMeasurementSpecification>)
        ensures
            r == Self::spec_from_u8(value),
    {
        if value == 0x0 {
            Some(SpdmMeasurementSpecification::NONE)
        } else if value == 0x1 {
            Some(SpdmMeasurementSpecification::DMTF)
        } else {
            None
        }
    }
}

/// Which measurements a summary hash covers.
#[derive(Clone, Copy, Debug, PartialEq, Eq, Structural)]
pub enum SpdmMeasurementSummaryHashType {
    SpdmMeasurementSummaryHashTypeNone,
    SpdmMeasurementSummaryHashTypeTcb,
    SpdmMeasurementSummaryHashTypeAll,
}

impl SpdmMeasurementSummaryHashType {
    /// The type that a wire byte stands for, if any.
    pub open spec fn spec_from_u8(value: u8) -> Option<SpdmMeasurementSummaryHashType> {
        if value == 0x0 {
            Some(SpdmMeasurementSummaryHashType::SpdmMeasurementSummaryHashTypeNone)
        } else if value == 0x1 {
            Some(SpdmMeasurementSummaryHashType::SpdmMeasurementSummaryHashTypeTcb)
        } else if value == 0xff {
            Some(SpdmMeasurementSummaryHashType::SpdmMeasurementSummaryHashTypeAll)
        } else {
            None
        }
    }

    pub fn from_u8(value: u8) -> (r: Option<SpdmMeasurementSummaryHashType>)
        ensures
            r == Self::spec_from_u8(value),
            r matches Some(t) ==> t.spec_u8() == value,
    {
        if value == 0x0 {
            Some(SpdmMeasurementSummaryHashType::SpdmMeasurementSummaryHashTypeNone)
        } else if value == 0x1 {
            Some(SpdmMeasurementSummaryHashType::SpdmMeasurementSummaryHashTypeTcb)
        } else if value == 0xff {
            Some(SpdmMeasurementSummaryHashType::SpdmMeasurementSummaryHashTypeAll)
        } else {
            None
        }
    }

    /// The wire byte of this type.
    pub open spec fn spec_u8(&self) -> u8 {
        match self {
            SpdmMeasurementSummaryHashType::SpdmMeasurementSummaryHashTypeNone => 0x0,
            SpdmMeasurementSummaryHashType::SpdmMeasurementSummaryHashTypeTcb => 0x1,
            SpdmMeasurementSummaryHashType::SpdmMeasurementSummaryHashTypeAll => 0xff,
        }
    }

    #[verifier::when_used_as_spec(spec_u8)]
    pub fn get_u8(&self) -> (r: u8)
        ensures
            r == self.spec_u8(),
    {
        match self {
            SpdmMeasurementSummaryHashType::SpdmMeasurementSummaryHashTypeNone => 0x0,
            SpdmMeasurementSummaryHashType::SpdmMeasurementSummaryHashTypeTcb => 0x1,
            SpdmMeasurementSummaryHashType::SpdmMeasurementSummaryHashTypeAll => 0xff,
        }
    }
}

} // verus!
