//! Protocol versions.

use vstd::prelude::*;

verus! {

/// A version of the protocol, carried on the wire as `major << 4 | minor`.
#[derive(Clone, Copy, Debug, PartialEq, Eq, Structural)]
pub enum SpdmVersion {
    SpdmVersion10,
    SpdmVersion11,
    SpdmVersion12,
}

impl SpdmVersion {
    /// The wire byte of this version.
    pub open spec fn spec_u8(&self) -> u8 {
        match self {
            SpdmVersion::SpdmVersion10 => 0x10,
            SpdmVersion::SpdmVersion11 => 0x11,
            SpdmVersion::SpdmVersion12 => 0x12,
        }
    }

    /// The major number, 1 for every version defined so far.
    pub open spec fn spec_major(&self) -> u8 {
        1
    }

    /// The minor number.
    pub open spec fn spec_minor(&self) -> u8 {
        match self {
            SpdmVersion::SpdmVersion10 => 0,
            SpdmVersion::SpdmVersion11 => 1,
            SpdmVersion::SpdmVersion12 => 2,
        }
    }

    /// The version that a wire byte stands for, if any.
    pub open spec fn spec_from_u8(value: u8) -> Option<SpdmVersion> {
        if value == 0x10 {
            Some(SpdmVersion::SpdmVersion10)
        } else if value == 0x11 {
            Some(SpdmVersion::SpdmVersion11)
        } else if value == 0x12 {
            Some(SpdmVersion::SpdmVersion12)
        } else {
            None
        }
    }

    #[verifier::when_used_as_spec(spec_u8)]
    pub fn get_u8(&self) -> (r: u8)
        ensures
            r == self.spec_u8(),
            r == self.spec_major() * 16 + self.spec_minor(),
    {
        match self {
            SpdmVersion::SpdmVersion10 => 0x10,
            SpdmVersion::SpdmVersion11 => 0x11,
            SpdmVersion::SpdmVersion12 => 0x12,
        }
    }

    pub fn from_u8(value: u8) -> (r: Option<SpdmVersion>)
        ensures
            r == Self::spec_from_u8(value),
            r matches Some(v) ==> v.spec_u8() == value,
            r.is_none() <==> (value != 0x10 && value != 0x11 && value != 0x12),
    {
        if value == 0x10 {
            Some(SpdmVersion::SpdmVersion10)
        } else if value == 0x11 {
            Some(SpdmVersion::SpdmVersion11)
        } else if value == 0x12 {
            Some(SpdmVersion::SpdmVersion12)
        } else {
            None
        }
    }
}

/// Decoding the wire byte of a version gives the version back.
pub proof fn lemma_version_byte_round_trip(version: SpdmVersion)
    ensures
        SpdmVersion::spec_from_u8(version.spec_u8()) == Some(version),
{
}

} // verus!
