//! CHALLENGE and CHALLENGE_AUTH: the exchange that authenticates the
//! responder.
//!
//! Behind the header the request is `slot (1) | summary hash type (1) | nonce
//! (32)`. The slot is one of the eight slots, or 0xff for a public key that
//! was provisioned.
//!
//! The response is `attributes (1) | slot mask (1) | digest of the
//! certificate chain | nonce (32) | measurement summary hash | opaque length
//! (2) | opaque data | signature`. The attributes hold the slot in their low
//! four bits, 0xf for a provisioned key, and in their highest bit the wish of
//! the responder to authenticate the requester in turn. The summary hash is
//! there only where the request asked for one. The digests have the length
//! of a digest of the negotiated hash, the signature that of the negotiated
//! signature algorithm.

use crate::bytes::{array32, lemma_array32, lemma_part, spec_array32};
use crate::codec::{le_bytes_u16, le_value_u16, read_u16, Reader, Writer};
use crate::common::spdm_codec::SpdmCodec;
use crate::common::SpdmContext;
use crate::message::key_exchange::{optional_digest_bytes, optional_digest_valid};
use crate::protocol::{
    SpdmDigestStruct, SpdmMeasurementSummaryHashType, SpdmOpaqueStruct, SpdmSignatureStruct,
};
use vstd::prelude::*;
use vstd::slice::slice_subrange;

verus! {

/// The slot byte that stands for a public key that was provisioned.
pub const SPDM_PROVISIONED_KEY_SLOT: u8 = 0xff;

/// The payload of CHALLENGE.
#[derive(Clone, Copy, Debug)]
pub struct SpdmChallengeRequestPayload {
    pub slot_id: u8,
    pub measurement_summary_hash_type: SpdmMeasurementSummaryHashType,
    pub nonce: [u8; 32],
}

impl SpdmCodec for SpdmChallengeRequestPayload {
    /// The slot is one of the eight, or stands for a provisioned key.
    open spec fn spdm_spec_valid(&self, context: &SpdmContext) -> bool {
        self.slot_id < 8 || self.slot_id == SPDM_PROVISIONED_KEY_SLOT
    }

    open spec fn spdm_spec_encode(&self, context: &SpdmContext) -> Seq<u8> {
        seq![self.slot_id, self.measurement_summary_hash_type.spec_u8()] + self.nonce@
    }

    /// A request needs a slot and a summary hash type that are defined.
    open spec fn spdm_spec_read(context: &SpdmContext, bytes: Seq<u8>) -> Option<
        (SpdmChallengeRequestPayload, nat),
    > {
        if bytes.len() < 34 || !(bytes[0] < 8 || bytes[0] == SPDM_PROVISIONED_KEY_SLOT) {
            None
        } else {
            match SpdmMeasurementSummaryHashType::spec_from_u8(bytes[1]) {
                Some(measurement_summary_hash_type) => Some(
                    (
                        SpdmChallengeRequestPayload {
                            slot_id: bytes[0],
                            measurement_summary_hash_type,
                            nonce: spec_array32(bytes.subrange(2, 34)),
                        },
                        34nat,
                    ),
                ),
                None => None,
            }
        }
    }

    fn spdm_size(&self, context: &SpdmContext) -> (r: usize) {
        assert(self.spdm_spec_encode(context).len() == 34);
        34
    }

    fn spdm_encode(&self, context: &mut SpdmContext, bytes: &mut Writer) {
        assert(self.spdm_spec_encode(old(context)).len() == 34);
        if bytes.left() < 34 {
            assert(old(bytes)@.is_prefix_of(bytes@));
            return;
        }
        let ghost start = bytes@;
        let ghost mut sofar = Seq::<u8>::empty();
        assert(start + sofar =~= start);
        bytes.put_u8(self.slot_id, Ghost(start), Ghost(sofar));
        proof {
            sofar = sofar + seq![self.slot_id];
        }
        bytes.put_u8(self.measurement_summary_hash_type.get_u8(), Ghost(start), Ghost(sofar));
        proof {
            sofar = sofar + seq![self.measurement_summary_hash_type.spec_u8()];
            assert(sofar =~= seq![self.slot_id, self.measurement_summary_hash_type.spec_u8()]);
            sofar = seq![self.slot_id, self.measurement_summary_hash_type.spec_u8()];
        }
        bytes.put(self.nonce.as_slice(), Ghost(start), Ghost(sofar));
        assert(old(bytes)@.is_prefix_of(bytes@));
    }

    fn spdm_read(context: &mut SpdmContext, r: &mut Reader) -> (v: Option<
        SpdmChallengeRequestPayload,
    >) {
        let bytes = r.peek();
        if bytes.len() < 34 || !(bytes[0] < 8 || bytes[0] == SPDM_PROVISIONED_KEY_SLOT) {
            return None;
        }
        let measurement_summary_hash_type = SpdmMeasurementSummaryHashType::from_u8(bytes[1])?;
        let nonce = array32(slice_subrange(bytes, 2, 34));
        let _ = r.take(34)?;
        Some(SpdmChallengeRequestPayload { slot_id: bytes[0], measurement_summary_hash_type, nonce })
    }

    proof fn lemma_spdm_round_trip(&self, context: &SpdmContext, rest: Seq<u8>) {
        let wire = self.spdm_spec_encode(context) + rest;
        let fixed = seq![self.slot_id, self.measurement_summary_hash_type.spec_u8()];
        lemma_part(wire, fixed, self.nonce@, rest);
        assert(wire.subrange(0, 2) =~= fixed);
        assert(wire[0] == fixed[0] && wire[1] == fixed[1]);
        lemma_array32(self.nonce);
    }
}

/// The attributes byte of a response for the slot `slot_id`.
pub open spec fn spec_challenge_auth_attributes(slot_id: u8, basic_mut_auth_req: bool) -> u8 {
    let slot: int = if slot_id == SPDM_PROVISIONED_KEY_SLOT {
        0xf
    } else {
        slot_id as int
    };
    if basic_mut_auth_req {
        (0x80 + slot) as u8
    } else {
        slot as u8
    }
}

/// The slot and the wish for mutual authentication that an attributes byte
/// stands for; nothing where it names no slot or has a reserved bit set.
pub open spec fn spec_challenge_auth_slot(attributes: u8) -> Option<(u8, bool)> {
    let slot: int = if attributes >= 0x80 {
        attributes - 0x80
    } else {
        attributes as int
    };
    if slot < 8 {
        Some((slot as u8, attributes >= 0x80))
    } else if slot == 0xf {
        Some((SPDM_PROVISIONED_KEY_SLOT, attributes >= 0x80))
    } else {
        None
    }
}

/// The attributes byte of a response for the slot `slot_id`.
pub fn challenge_auth_attributes(slot_id: u8, basic_mut_auth_req: bool) -> (r: u8)
    requires
        slot_id < 8 || slot_id == SPDM_PROVISIONED_KEY_SLOT,
    ensures
        r == spec_challenge_auth_attributes(slot_id, basic_mut_auth_req),
        spec_challenge_auth_slot(r) == Some((slot_id, basic_mut_auth_req)),
{
    let slot: u8 = if slot_id == SPDM_PROVISIONED_KEY_SLOT {
        0xf
    } else {
        slot_id
    };
    if basic_mut_auth_req {
        0x80 + slot
    } else {
        slot
    }
}

/// The slot and the wish for mutual authentication that an attributes byte
/// stands for.
pub fn challenge_auth_slot(attributes: u8) -> (r: Option<(u8, bool)>)
    ensures
        r == spec_challenge_auth_slot(attributes),
        r matches Some((slot_id, basic_mut_auth_req)) ==> (slot_id < 8 || slot_id
            == SPDM_PROVISIONED_KEY_SLOT) && spec_challenge_auth_attributes(
            slot_id,
            basic_mut_auth_req,
        ) == attributes,
{
    let basic_mut_auth_req = attributes >= 0x80;
    let slot: u8 = if basic_mut_auth_req {
        attributes - 0x80
    } else {
        attributes
    };
    if slot < 8 {
        Some((slot, basic_mut_auth_req))
    } else if slot == 0xf {
        Some((SPDM_PROVISIONED_KEY_SLOT, basic_mut_auth_req))
    } else {
        None
    }
}

/// The payload of CHALLENGE_AUTH.
#[derive(Clone, Copy, Debug)]
pub struct SpdmChallengeAuthResponsePayload {
    pub slot_id: u8,
    /// The responder asks to authenticate the requester in turn.
    pub basic_mut_auth_req: bool,
    pub slot_mask: u8,
    pub cert_chain_hash: SpdmDigestStruct,
    pub nonce: [u8; 32],
    /// The measurement summary hash, where the request asked for one.
    pub measurement_summary_hash: Option<SpdmDigestStruct>,
    pub opaque: SpdmOpaqueStruct,
    pub signature: SpdmSignatureStruct,
}

impl SpdmChallengeAuthResponsePayload {
    /// The bytes of the response up to the signature: what goes into the
    /// transcript before the signature is made or checked.
    pub open spec fn signed_part(&self) -> Seq<u8> {
        seq![spec_challenge_auth_attributes(self.slot_id, self.basic_mut_auth_req), self.slot_mask]
            + self.cert_chain_hash@ + self.nonce@ + optional_digest_bytes(
            self.measurement_summary_hash,
        ) + le_bytes_u16(self.opaque.data_size) + self.opaque@
    }
}

impl SpdmCodec for SpdmChallengeAuthResponsePayload {
    /// The slot is one of the eight, or stands for a provisioned key; the
    /// digests and the signature have the lengths that the negotiated
    /// algorithms call for, and zeros behind them, as has the opaque data;
    /// the summary hash is there exactly where the request asked for one.
    open spec fn spdm_spec_valid(&self, context: &SpdmContext) -> bool {
        &&& self.slot_id < 8 || self.slot_id == SPDM_PROVISIONED_KEY_SLOT
        &&& self.cert_chain_hash.data_size == context.negotiate_info.base_hash_sel.spec_size()
        &&& self.cert_chain_hash.holds(self.cert_chain_hash@)
        &&& optional_digest_valid(
            self.measurement_summary_hash,
            context.runtime_info.need_measurement_summary_hash,
            context.negotiate_info.base_hash_sel.spec_size(),
        )
        &&& self.opaque.data_size <= 1024
        &&& self.opaque.holds(self.opaque@)
        &&& self.signature.data_size == context.negotiate_info.base_asym_sel.spec_size()
        &&& self.signature.holds(self.signature@)
    }

    open spec fn spdm_spec_encode(&self, context: &SpdmContext) -> Seq<u8> {
        self.signed_part() + self.signature@
    }

    /// A response needs attributes that name a slot and have no reserved
    /// bit set, as many bytes of opaque data, 1024 at most, as the opaque
    /// length says, and a signature behind them.
    open spec fn spdm_spec_read(context: &SpdmContext, bytes: Seq<u8>) -> Option<
        (SpdmChallengeAuthResponsePayload, nat),
    > {
        let hash_size = context.negotiate_info.base_hash_sel.spec_size() as int;
        let signature_size = context.negotiate_info.base_asym_sel.spec_size() as int;
        let with_summary = context.runtime_info.need_measurement_summary_hash;
        let opaque_at = 2 + hash_size + 32 + if with_summary {
            hash_size
        } else {
            0
        };
        if bytes.len() < opaque_at + 2 {
            None
        } else {
            let opaque_size = le_value_u16(bytes.subrange(opaque_at, opaque_at + 2)) as int;
            let signature_at = opaque_at + 2 + opaque_size;
            match spec_challenge_auth_slot(bytes[0]) {
                Some((slot_id, basic_mut_auth_req)) => if opaque_size <= 1024 && bytes.len()
                    >= signature_at + signature_size {
                    Some(
                        (
                            SpdmChallengeAuthResponsePayload {
                                slot_id,
                                basic_mut_auth_req,
                                slot_mask: bytes[1],
                                cert_chain_hash: SpdmDigestStruct::spec_from_bytes(
                                    bytes.subrange(2, 2 + hash_size),
                                ),
                                nonce: spec_array32(
                                    bytes.subrange(2 + hash_size, 2 + hash_size + 32),
                                ),
                                measurement_summary_hash: if with_summary {
                                    Some(
                                        SpdmDigestStruct::spec_from_bytes(
                                            bytes.subrange(2 + hash_size + 32, opaque_at),
                                        ),
                                    )
                                } else {
                                    None
                                },
                                opaque: SpdmOpaqueStruct::spec_from_bytes(
                                    bytes.subrange(opaque_at + 2, signature_at),
                                ),
                                signature: SpdmSignatureStruct::spec_from_bytes(
                                    bytes.subrange(signature_at, signature_at + signature_size),
                                ),
                            },
                            (signature_at + signature_size) as nat,
                        ),
                    )
                } else {
                    None
                },
                None => None,
            }
        }
    }

    fn spdm_size(&self, context: &SpdmContext) -> (r: usize) {
        let summary_size: usize = match &self.measurement_summary_hash {
            Some(digest) => digest.data_size as usize,
            None => 0,
        };
        let total: usize = 36 + self.cert_chain_hash.data_size as usize + summary_size
            + self.opaque.data_size as usize + self.signature.data_size as usize;
        assert(self.spdm_spec_encode(context).len() == total);
        total
    }

    fn spdm_encode(&self, context: &mut SpdmContext, bytes: &mut Writer) {
        let summary_size: usize = match &self.measurement_summary_hash {
            Some(digest) => digest.data_size as usize,
            None => 0,
        };
        let total: usize = 36 + self.cert_chain_hash.data_size as usize + summary_size
            + self.opaque.data_size as usize + self.signature.data_size as usize;
        assert(self.spdm_spec_encode(old(context)).len() == total);
        if bytes.left() < total {
            assert(old(bytes)@.is_prefix_of(bytes@));
            return;
        }
        let attributes = challenge_auth_attributes(self.slot_id, self.basic_mut_auth_req);
        let ghost start = bytes@;
        let ghost mut sofar = Seq::<u8>::empty();
        assert(start + sofar =~= start);
        bytes.put_u8(attributes, Ghost(start), Ghost(sofar));
        proof {
            sofar = sofar + seq![attributes];
        }
        bytes.put_u8(self.slot_mask, Ghost(start), Ghost(sofar));
        proof {
            sofar = sofar + seq![self.slot_mask];
            assert(sofar =~= seq![attributes, self.slot_mask]);
            sofar = seq![attributes, self.slot_mask];
        }
        bytes.put(self.cert_chain_hash.as_ref(), Ghost(start), Ghost(sofar));
        proof {
            sofar = sofar + self.cert_chain_hash@;
        }
        bytes.put(self.nonce.as_slice(), Ghost(start), Ghost(sofar));
        proof {
            sofar = sofar + self.nonce@;
        }
        match &self.measurement_summary_hash {
            Some(digest) => {
                bytes.put(digest.as_ref(), Ghost(start), Ghost(sofar));
            },
            None => {
                assert(sofar + Seq::<u8>::empty() =~= sofar);
            },
        }
        proof {
            sofar = sofar + optional_digest_bytes(self.measurement_summary_hash);
        }
        bytes.put_u16(self.opaque.data_size, Ghost(start), Ghost(sofar));
        proof {
            sofar = sofar + le_bytes_u16(self.opaque.data_size);
        }
        bytes.put(self.opaque.as_ref(), Ghost(start), Ghost(sofar));
        proof {
            sofar = sofar + self.opaque@;
        }
        bytes.put(self.signature.as_ref(), Ghost(start), Ghost(sofar));
        assert(old(bytes)@.is_prefix_of(bytes@));
    }

    fn spdm_read(context: &mut SpdmContext, r: &mut Reader) -> (v: Option<
        SpdmChallengeAuthResponsePayload,
    >) {
        let bytes = r.peek();
        let hash_size: usize = context.negotiate_info.base_hash_sel.get_size() as usize;
        let signature_size: usize = context.negotiate_info.base_asym_sel.get_size() as usize;
        let with_summary = context.runtime_info.need_measurement_summary_hash;
        let opaque_at: usize = 2 + hash_size + 32 + if with_summary {
            hash_size
        } else {
            0
        };
        if bytes.len() < opaque_at + 2 {
            return None;
        }
        let opaque_size: u16 = read_u16(slice_subrange(bytes, opaque_at, opaque_at + 2));
        let signature_at: usize = opaque_at + 2 + opaque_size as usize;
        let (slot_id, basic_mut_auth_req) = challenge_auth_slot(bytes[0])?;
        if opaque_size > 1024 || bytes.len() < signature_at + signature_size {
            return None;
        }
        let cert_chain_hash = SpdmDigestStruct::from_bytes(slice_subrange(bytes, 2, 2 + hash_size))?;
        let nonce = array32(slice_subrange(bytes, 2 + hash_size, 2 + hash_size + 32));
        let measurement_summary_hash = if with_summary {
            Some(SpdmDigestStruct::from_bytes(slice_subrange(bytes, 2 + hash_size + 32, opaque_at))?)
        } else {
            None
        };
        let opaque = SpdmOpaqueStruct::from_bytes(
            slice_subrange(bytes, opaque_at + 2, signature_at),
        )?;
        let signature = SpdmSignatureStruct::from_bytes(
            slice_subrange(bytes, signature_at, signature_at + signature_size),
        )?;
        let _ = r.take(signature_at + signature_size)?;
        Some(
            SpdmChallengeAuthResponsePayload {
                slot_id,
                basic_mut_auth_req,
                slot_mask: bytes[1],
                cert_chain_hash,
                nonce,
                measurement_summary_hash,
                opaque,
                signature,
            },
        )
    }

    proof fn lemma_spdm_round_trip(&self, context: &SpdmContext, rest: Seq<u8>) {
        let wire = self.spdm_spec_encode(context) + rest;
        let fixed = seq![
            spec_challenge_auth_attributes(self.slot_id, self.basic_mut_auth_req),
            self.slot_mask,
        ];
        let summary = optional_digest_bytes(self.measurement_summary_hash);
        let size = le_bytes_u16(self.opaque.data_size);
        let to_hash = fixed + self.cert_chain_hash@;
        let to_nonce = to_hash + self.nonce@;
        let to_summary = to_nonce + summary;
        let to_size = to_summary + size;
        let to_opaque = to_size + self.opaque@;
        lemma_part(wire, to_opaque, self.signature@, rest);
        lemma_part(wire, to_size, self.opaque@, self.signature@ + rest);
        lemma_part(wire, to_summary, size, self.opaque@ + (self.signature@ + rest));
        lemma_part(wire, to_nonce, summary, size + (self.opaque@ + (self.signature@ + rest)));
        lemma_part(
            wire,
            to_hash,
            self.nonce@,
            summary + (size + (self.opaque@ + (self.signature@ + rest))),
        );
        lemma_part(
            wire,
            fixed,
            self.cert_chain_hash@,
            self.nonce@ + (summary + (size + (self.opaque@ + (self.signature@ + rest)))),
        );
        assert(wire.subrange(0, 2) =~= fixed);
        assert(wire[0] == fixed[0] && wire[1] == fixed[1]);
        lemma_array32(self.nonce);
        SpdmDigestStruct::lemma_holds_unique(
            self.cert_chain_hash,
            SpdmDigestStruct::spec_from_bytes(self.cert_chain_hash@),
            self.cert_chain_hash@,
        );
        SpdmOpaqueStruct::lemma_holds_unique(
            self.opaque,
            SpdmOpaqueStruct::spec_from_bytes(self.opaque@),
            self.opaque@,
        );
        SpdmSignatureStruct::lemma_holds_unique(
            self.signature,
            SpdmSignatureStruct::spec_from_bytes(self.signature@),
            self.signature@,
        );
        match self.measurement_summary_hash {
            Some(digest) => {
                SpdmDigestStruct::lemma_holds_unique(
                    digest,
                    SpdmDigestStruct::spec_from_bytes(digest@),
                    digest@,
                );
            },
            None => {},
        }
    }
}

} // verus!
