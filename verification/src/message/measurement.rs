//! GET_MEASUREMENTS and MEASUREMENTS: the exchange that reports what the
//! responder has measured.
//!
//! Behind the header the request is `attributes (1) | operation (1) | nonce
//! (32) | slot (1)`. The first bit of the attributes asks for a signature,
//! the second for values that are not hashed. Nonce and slot are there only
//! where a signature is asked for, the slot from version 1.1 on. The
//! operation is 0 to ask how many measurements there are, 0xff to ask for
//! all of them, and the index of a measurement otherwise.
//!
//! The response is `number of measurements (1) | slot and change (1) | number
//! of blocks (1) | length of the blocks (3) | blocks | nonce (32) | opaque
//! length (2) | opaque data | signature`, numbers low byte first. The second
//! byte holds the slot in its low four bits and, above them, whether the
//! measurements have changed since they were last reported. The signature is
//! there only where the request asked for one.

use crate::bytes::{array32, lemma_array32, lemma_part, spec_array32, zeros};
use crate::codec::{
    le_bytes_u16, le_bytes_u24, le_value_u16, le_value_u24, lemma_le_u16, lemma_le_u24, read_u16,
    read_u24, Reader, Writer,
};
use crate::common::spdm_codec::SpdmCodec;
use crate::common::SpdmContext;
use crate::protocol::{
    SpdmMeasurementOperation, SpdmMeasurementRecordStructure, SpdmOpaqueStruct,
    SpdmSignatureStruct, SpdmVersion,
};
use vstd::prelude::*;
use vstd::slice::slice_subrange;

verus! {

/// The slot nibble that stands for a public key that was provisioned.
pub const SPDM_PROVISIONED_KEY_NIBBLE: u8 = 0xf;

/// A slot: one of the eight, or the nibble of a provisioned key.
pub open spec fn spec_names_slot(slot_id: u8) -> bool {
    slot_id < 8 || slot_id == SPDM_PROVISIONED_KEY_NIBBLE
}

/// The operation that a wire byte stands for.
pub open spec fn spec_measurement_operation(value: u8) -> SpdmMeasurementOperation {
    if value == 0 {
        SpdmMeasurementOperation::SpdmMeasurementQueryTotalNumber
    } else if value == 0xff {
        SpdmMeasurementOperation::SpdmMeasurementRequestAll
    } else {
        SpdmMeasurementOperation::Unknown(value)
    }
}

/// The operation that a wire byte stands for.
pub fn measurement_operation(value: u8) -> (r: SpdmMeasurementOperation)
    ensures
        r == spec_measurement_operation(value),
        r.spec_u8() == value,
{
    if value == 0 {
        SpdmMeasurementOperation::SpdmMeasurementQueryTotalNumber
    } else if value == 0xff {
        SpdmMeasurementOperation::SpdmMeasurementRequestAll
    } else {
        SpdmMeasurementOperation::Unknown(value)
    }
}

/// The attributes byte of a request.
pub open spec fn spec_measurement_attributes(
    signature_requested: bool,
    raw_bit_stream_requested: bool,
) -> u8 {
    if signature_requested {
        if raw_bit_stream_requested {
            3
        } else {
            1
        }
    } else {
        if raw_bit_stream_requested {
            2
        } else {
            0
        }
    }
}

/// The payload of GET_MEASUREMENTS.
#[derive(Clone, Copy, Debug)]
pub struct SpdmGetMeasurementsRequestPayload {
    pub signature_requested: bool,
    pub raw_bit_stream_requested: bool,
    pub measurement_operation: SpdmMeasurementOperation,
    pub nonce: [u8; 32],
    pub slot_id: u8,
}

/// A request of this version names the slot of the signing key.
pub open spec fn spec_request_has_slot(version: SpdmVersion) -> bool {
    version != SpdmVersion::SpdmVersion10
}

/// Tells whether a request of this version names the slot of the signing
/// key.
#[verifier::when_used_as_spec(spec_request_has_slot)]
pub fn request_has_slot(version: SpdmVersion) -> (r: bool)
    ensures
        r == spec_request_has_slot(version),
{
    match version {
        SpdmVersion::SpdmVersion10 => false,
        _ => true,
    }
}

impl SpdmGetMeasurementsRequestPayload {
    /// The two bytes in front of the nonce.
    pub open spec fn fixed_part(&self) -> Seq<u8> {
        seq![
            spec_measurement_attributes(self.signature_requested, self.raw_bit_stream_requested),
            self.measurement_operation.spec_u8(),
        ]
    }
}

impl SpdmCodec for SpdmGetMeasurementsRequestPayload {
    /// The operation is written in its own form; what is not on the wire is
    /// zero; the slot, where it is on the wire, is a slot.
    open spec fn spdm_spec_valid(&self, context: &SpdmContext) -> bool {
        &&& self.measurement_operation == spec_measurement_operation(
            self.measurement_operation.spec_u8(),
        )
        &&& !self.signature_requested ==> self.nonce@ == zeros(32)
        &&& if self.signature_requested && spec_request_has_slot(
            context.negotiate_info.spdm_version_sel,
        ) {
            spec_names_slot(self.slot_id)
        } else {
            self.slot_id == 0
        }
    }

    open spec fn spdm_spec_encode(&self, context: &SpdmContext) -> Seq<u8> {
        if !self.signature_requested {
            self.fixed_part()
        } else if !spec_request_has_slot(context.negotiate_info.spdm_version_sel) {
            self.fixed_part() + self.nonce@
        } else {
            self.fixed_part() + self.nonce@ + seq![self.slot_id]
        }
    }

    /// A request needs attributes without a reserved bit and, where it
    /// names a slot, a slot that is one.
    open spec fn spdm_spec_read(context: &SpdmContext, bytes: Seq<u8>) -> Option<
        (SpdmGetMeasurementsRequestPayload, nat),
    > {
        if bytes.len() < 2 || bytes[0] > 3 {
            None
        } else if bytes[0] % 2 == 0 {
            Some(
                (
                    SpdmGetMeasurementsRequestPayload {
                        signature_requested: false,
                        raw_bit_stream_requested: bytes[0] >= 2,
                        measurement_operation: spec_measurement_operation(bytes[1]),
                        nonce: spec_array32(zeros(32)),
                        slot_id: 0,
                    },
                    2nat,
                ),
            )
        } else if !spec_request_has_slot(context.negotiate_info.spdm_version_sel) {
            if bytes.len() >= 34 {
                Some(
                    (
                        SpdmGetMeasurementsRequestPayload {
                            signature_requested: true,
                            raw_bit_stream_requested: bytes[0] >= 2,
                            measurement_operation: spec_measurement_operation(bytes[1]),
                            nonce: spec_array32(bytes.subrange(2, 34)),
                            slot_id: 0,
                        },
                        34nat,
                    ),
                )
            } else {
                None
            }
        } else {
            if bytes.len() >= 35 && spec_names_slot(bytes[34]) {
                Some(
                    (
                        SpdmGetMeasurementsRequestPayload {
                            signature_requested: true,
                            raw_bit_stream_requested: bytes[0] >= 2,
                            measurement_operation: spec_measurement_operation(bytes[1]),
                            nonce: spec_array32(bytes.subrange(2, 34)),
                            slot_id: bytes[34],
                        },
                        35nat,
                    ),
                )
            } else {
                None
            }
        }
    }

    fn spdm_size(&self, context: &SpdmContext) -> (r: usize) {
        let with_slot = request_has_slot(context.negotiate_info.spdm_version_sel);
        let total: usize = if !self.signature_requested {
            2
        } else if !with_slot {
            34
        } else {
            35
        };
        assert(self.spdm_spec_encode(context).len() == total);
        total
    }

    fn spdm_encode(&self, context: &mut SpdmContext, bytes: &mut Writer) {
        let with_slot = request_has_slot(context.negotiate_info.spdm_version_sel);
        let total: usize = if !self.signature_requested {
            2
        } else if !with_slot {
            34
        } else {
            35
        };
        assert(self.spdm_spec_encode(old(context)).len() == total);
        if bytes.left() < total {
            assert(old(bytes)@.is_prefix_of(bytes@));
            return;
        }
        let attributes: u8 = if self.signature_requested {
            if self.raw_bit_stream_requested {
                3
            } else {
                1
            }
        } else {
            if self.raw_bit_stream_requested {
                2
            } else {
                0
            }
        };
        let ghost start = bytes@;
        let ghost mut sofar = Seq::<u8>::empty();
        assert(start + sofar =~= start);
        bytes.put_u8(attributes, Ghost(start), Ghost(sofar));
        proof {
            sofar = sofar + seq![attributes];
        }
        bytes.put_u8(self.measurement_operation.get_u8(), Ghost(start), Ghost(sofar));
        proof {
            sofar = sofar + seq![self.measurement_operation.spec_u8()];
            assert(sofar =~= self.fixed_part());
            sofar = self.fixed_part();
        }
        if self.signature_requested {
            bytes.put(self.nonce.as_slice(), Ghost(start), Ghost(sofar));
            proof {
                sofar = sofar + self.nonce@;
            }
            if with_slot {
                bytes.put_u8(self.slot_id, Ghost(start), Ghost(sofar));
            }
        }
        assert(old(bytes)@.is_prefix_of(bytes@));
    }

    fn spdm_read(context: &mut SpdmContext, r: &mut Reader) -> (v: Option<
        SpdmGetMeasurementsRequestPayload,
    >) {
        let bytes = r.peek();
        let with_slot = request_has_slot(context.negotiate_info.spdm_version_sel);
        if bytes.len() < 2 || bytes[0] > 3 {
            return None;
        }
        let raw_bit_stream_requested = bytes[0] >= 2;
        let measurement_operation = measurement_operation(bytes[1]);
        if bytes[0] % 2 == 0 {
            let nonce = [0u8; 32];
            proof {
                assert(nonce@ =~= zeros(32));
                lemma_array32(nonce);
            }
            let _ = r.take(2)?;
            return Some(
                SpdmGetMeasurementsRequestPayload {
                    signature_requested: false,
                    raw_bit_stream_requested,
                    measurement_operation,
                    nonce,
                    slot_id: 0,
                },
            );
        }
        if bytes.len() < 34 {
            return None;
        }
        let nonce = array32(slice_subrange(bytes, 2, 34));
        if !with_slot {
            let _ = r.take(34)?;
            return Some(
                SpdmGetMeasurementsRequestPayload {
                    signature_requested: true,
                    raw_bit_stream_requested,
                    measurement_operation,
                    nonce,
                    slot_id: 0,
                },
            );
        }
        if bytes.len() < 35 || !(bytes[34] < 8 || bytes[34] == SPDM_PROVISIONED_KEY_NIBBLE) {
            return None;
        }
        let _ = r.take(35)?;
        Some(
            SpdmGetMeasurementsRequestPayload {
                signature_requested: true,
                raw_bit_stream_requested,
                measurement_operation,
                nonce,
                slot_id: bytes[34],
            },
        )
    }

    proof fn lemma_spdm_round_trip(&self, context: &SpdmContext, rest: Seq<u8>) {
        let wire = self.spdm_spec_encode(context) + rest;
        let fixed = self.fixed_part();
        lemma_array32(self.nonce);
        if !self.signature_requested {
            assert(wire[0] == fixed[0] && wire[1] == fixed[1]);
        } else if !spec_request_has_slot(context.negotiate_info.spdm_version_sel) {
            lemma_part(wire, fixed, self.nonce@, rest);
            assert(wire[0] == fixed[0] && wire[1] == fixed[1]);
        } else {
            lemma_part(wire, fixed + self.nonce@, seq![self.slot_id], rest);
            lemma_part(wire, fixed, self.nonce@, seq![self.slot_id] + rest);
            assert(wire[0] == fixed[0] && wire[1] == fixed[1]);
            assert(wire[34] == wire.subrange(34, 35)[0]);
        }
    }
}

/// Whether the measurements have changed since they were last reported.
#[derive(Clone, Copy, Debug, PartialEq, Eq, Structural)]
pub enum SpdmMeasurementContentChanged {
    /// The responder does not tell.
    NotSupported,
    /// Some measurement has changed.
    DetectedChange,
    /// No measurement has changed.
    NoChange,
}

impl SpdmMeasurementContentChanged {
    /// The two bits of the answer.
    pub open spec fn spec_u8(&self) -> u8 {
        match self {
            SpdmMeasurementContentChanged::NotSupported => 0,
            SpdmMeasurementContentChanged::DetectedChange => 1,
            SpdmMeasurementContentChanged::NoChange => 2,
        }
    }

    /// The answer that two bits stand for, if any.
    pub open spec fn spec_from_u8(value: u8) -> Option<SpdmMeasurementContentChanged> {
        if value == 0 {
            Some(SpdmMeasurementContentChanged::NotSupported)
        } else if value == 1 {
            Some(SpdmMeasurementContentChanged::DetectedChange)
        } else if value == 2 {
            Some(SpdmMeasurementContentChanged::NoChange)
        } else {
            None
        }
    }

    #[verifier::when_used_as_spec(spec_u8)]
    pub fn get_u8(&self) -> (r: u8)
        ensures
            r == self.spec_u8(),
    {
        match self {
            SpdmMeasurementContentChanged::NotSupported => 0,
            SpdmMeasurementContentChanged::DetectedChange => 1,
            SpdmMeasurementContentChanged::NoChange => 2,
        }
    }

    pub fn from_u8(value: u8) -> (r: Option<SpdmMeasurementContentChanged>)
        ensures
            r == Self::spec_from_u8(value),
            r matches Some(changed) ==> changed.spec_u8() == value,
    {
        if value == 0 {
            Some(SpdmMeasurementContentChanged::NotSupported)
        } else if value == 1 {
            Some(SpdmMeasurementContentChanged::DetectedChange)
        } else if value == 2 {
            Some(SpdmMeasurementContentChanged::NoChange)
        } else {
            None
        }
    }
}

/// The bytes of an optional signature, none where there is no signature.
pub open spec fn optional_signature_bytes(signature: Option<SpdmSignatureStruct>) -> Seq<u8> {
    match signature {
        Some(signature) => signature@,
        None => Seq::<u8>::empty(),
    }
}

/// The payload of MEASUREMENTS.
#[derive(Clone, Copy, Debug)]
pub struct SpdmMeasurementsResponsePayload {
    /// How many measurements the responder has, in the answer to the
    /// question for their number.
    pub number_of_measurement: u8,
    pub slot_id: u8,
    pub content_changed: SpdmMeasurementContentChanged,
    pub measurement_record: SpdmMeasurementRecordStructure,
    pub nonce: [u8; 32],
    pub opaque: SpdmOpaqueStruct,
    /// The signature, where the request asked for one.
    pub signature: Option<SpdmSignatureStruct>,
}

impl SpdmMeasurementsResponsePayload {
    /// The six bytes in front of the blocks.
    pub open spec fn fixed_part(&self) -> Seq<u8> {
        seq![
            self.number_of_measurement,
            (self.slot_id + 16 * self.content_changed.spec_u8()) as u8,
            self.measurement_record.number_of_blocks,
        ] + le_bytes_u24(self.measurement_record.measurement_record_length.0)
    }

    /// The bytes of the response up to the signature: what goes into the
    /// transcript before the signature is made or checked.
    pub open spec fn signed_part(&self) -> Seq<u8> {
        self.fixed_part() + self.measurement_record@ + self.nonce@ + le_bytes_u16(
            self.opaque.data_size,
        ) + self.opaque@
    }
}

impl SpdmCodec for SpdmMeasurementsResponsePayload {
    /// The slot is a slot; blocks and opaque data fit their buffers and have
    /// zeros behind them; the signature is there exactly where the request
    /// asked for one, and has the length that the negotiated algorithm calls
    /// for.
    open spec fn spdm_spec_valid(&self, context: &SpdmContext) -> bool {
        &&& spec_names_slot(self.slot_id)
        &&& self.measurement_record.holds(
            self.measurement_record.number_of_blocks,
            self.measurement_record@,
        )
        &&& self.opaque.data_size <= 1024
        &&& self.opaque.holds(self.opaque@)
        &&& self.signature.is_some() == context.runtime_info.need_measurement_signature
        &&& self.signature matches Some(signature) ==> signature.data_size
            == context.negotiate_info.base_asym_sel.spec_size() && signature.holds(signature@)
    }

    open spec fn spdm_spec_encode(&self, context: &SpdmContext) -> Seq<u8> {
        self.signed_part() + optional_signature_bytes(self.signature)
    }

    /// A response needs a slot that is one, an answer about change that is
    /// defined, as many bytes of blocks and of opaque data, 1024 of each at
    /// most, as the two lengths say, and behind them the signature.
    open spec fn spdm_spec_read(context: &SpdmContext, bytes: Seq<u8>) -> Option<
        (SpdmMeasurementsResponsePayload, nat),
    > {
        let signature_size: int = if context.runtime_info.need_measurement_signature {
            context.negotiate_info.base_asym_sel.spec_size() as int
        } else {
            0
        };
        if bytes.len() < 6 {
            None
        } else {
            let record_size = le_value_u24(bytes.subrange(3, 6)) as int;
            let opaque_at = 6 + record_size + 32;
            if record_size > 1024 || bytes.len() < opaque_at + 2 {
                None
            } else {
                let opaque_size = le_value_u16(bytes.subrange(opaque_at, opaque_at + 2)) as int;
                let signature_at = opaque_at + 2 + opaque_size;
                match SpdmMeasurementContentChanged::spec_from_u8(bytes[1] / 16) {
                    Some(content_changed) => if spec_names_slot(bytes[1] % 16) && opaque_size
                        <= 1024 && bytes.len() >= signature_at + signature_size {
                        Some(
                            (
                                SpdmMeasurementsResponsePayload {
                                    number_of_measurement: bytes[0],
                                    slot_id: bytes[1] % 16,
                                    content_changed,
                                    measurement_record: SpdmMeasurementRecordStructure::spec_new(
                                        bytes[2],
                                        bytes.subrange(6, 6 + record_size),
                                    ),
                                    nonce: spec_array32(
                                        bytes.subrange(6 + record_size, opaque_at),
                                    ),
                                    opaque: SpdmOpaqueStruct::spec_from_bytes(
                                        bytes.subrange(opaque_at + 2, signature_at),
                                    ),
                                    signature: if context.runtime_info.need_measurement_signature {
                                        Some(
                                            SpdmSignatureStruct::spec_from_bytes(
                                                bytes.subrange(
                                                    signature_at,
                                                    signature_at + signature_size,
                                                ),
                                            ),
                                        )
                                    } else {
                                        None
                                    },
                                },
                                (signature_at + signature_size) as nat,
                            ),
                        )
                    } else {
                        None
                    },
                    None => None,
                }
            }
        }
    }

    fn spdm_size(&self, context: &SpdmContext) -> (r: usize) {
        let signature_size: usize = match &self.signature {
            Some(signature) => signature.data_size as usize,
            None => 0,
        };
        let record_size: u32 = self.measurement_record.measurement_record_length.get();
        let total: usize = 40 + record_size as usize + self.opaque.data_size as usize
            + signature_size;
        assert(self.spdm_spec_encode(context).len() == total);
        total
    }

    fn spdm_encode(&self, context: &mut SpdmContext, bytes: &mut Writer) {
        let signature_size: usize = match &self.signature {
            Some(signature) => signature.data_size as usize,
            None => 0,
        };
        let record_size: u32 = self.measurement_record.measurement_record_length.get();
        let total: usize = 40 + record_size as usize + self.opaque.data_size as usize
            + signature_size;
        assert(self.spdm_spec_encode(old(context)).len() == total);
        if bytes.left() < total {
            assert(old(bytes)@.is_prefix_of(bytes@));
            return;
        }
        let head: [u8; 3] = [
            self.number_of_measurement,
            self.slot_id + 16 * self.content_changed.get_u8(),
            self.measurement_record.number_of_blocks,
        ];
        assert(head@ =~= seq![
            self.number_of_measurement,
            (self.slot_id + 16 * self.content_changed.spec_u8()) as u8,
            self.measurement_record.number_of_blocks,
        ]);
        let ghost start = bytes@;
        let ghost mut sofar = Seq::<u8>::empty();
        assert(start + sofar =~= start);
        bytes.put(head.as_slice(), Ghost(start), Ghost(sofar));
        proof {
            sofar = sofar + head@;
            assert(sofar =~= head@);
            sofar = head@;
        }
        bytes.put_u24(record_size, Ghost(start), Ghost(sofar));
        proof {
            sofar = sofar + le_bytes_u24(record_size);
        }
        bytes.put(self.measurement_record.as_ref(), Ghost(start), Ghost(sofar));
        proof {
            sofar = sofar + self.measurement_record@;
        }
        bytes.put(self.nonce.as_slice(), Ghost(start), Ghost(sofar));
        proof {
            sofar = sofar + self.nonce@;
        }
        bytes.put_u16(self.opaque.data_size, Ghost(start), Ghost(sofar));
        proof {
            sofar = sofar + le_bytes_u16(self.opaque.data_size);
        }
        bytes.put(self.opaque.as_ref(), Ghost(start), Ghost(sofar));
        proof {
            sofar = sofar + self.opaque@;
        }
        match &self.signature {
            Some(signature) => {
                bytes.put(signature.as_ref(), Ghost(start), Ghost(sofar));
            },
            None => {
                assert(sofar + Seq::<u8>::empty() =~= sofar);
            },
        }
        assert(old(bytes)@.is_prefix_of(bytes@));
    }

    fn spdm_read(context: &mut SpdmContext, r: &mut Reader) -> (v: Option<
        SpdmMeasurementsResponsePayload,
    >) {
        let bytes = r.peek();
        let with_signature = context.runtime_info.need_measurement_signature;
        let signature_size: usize = if with_signature {
            context.negotiate_info.base_asym_sel.get_size() as usize
        } else {
            0
        };
        if bytes.len() < 6 {
            return None;
        }
        let record_size: usize = read_u24(slice_subrange(bytes, 3, 6)) as usize;
        let opaque_at: usize = 6 + record_size + 32;
        if record_size > 1024 || bytes.len() < opaque_at + 2 {
            return None;
        }
        let opaque_size: u16 = read_u16(slice_subrange(bytes, opaque_at, opaque_at + 2));
        let signature_at: usize = opaque_at + 2 + opaque_size as usize;
        let content_changed = SpdmMeasurementContentChanged::from_u8(bytes[1] / 16)?;
        let slot_id: u8 = bytes[1] % 16;
        if !(slot_id < 8 || slot_id == SPDM_PROVISIONED_KEY_NIBBLE) || opaque_size > 1024
            || bytes.len() < signature_at + signature_size {
            return None;
        }
        let measurement_record = SpdmMeasurementRecordStructure::new(
            bytes[2],
            slice_subrange(bytes, 6, 6 + record_size),
        )?;
        let nonce = array32(slice_subrange(bytes, 6 + record_size, opaque_at));
        let opaque = SpdmOpaqueStruct::from_bytes(
            slice_subrange(bytes, opaque_at + 2, signature_at),
        )?;
        let signature = if with_signature {
            Some(
                SpdmSignatureStruct::from_bytes(
                    slice_subrange(bytes, signature_at, signature_at + signature_size),
                )?,
            )
        } else {
            None
        };
        let _ = r.take(signature_at + signature_size)?;
        Some(
            SpdmMeasurementsResponsePayload {
                number_of_measurement: bytes[0],
                slot_id,
                content_changed,
                measurement_record,
                nonce,
                opaque,
                signature,
            },
        )
    }

    proof fn lemma_spdm_round_trip(&self, context: &SpdmContext, rest: Seq<u8>) {
        let wire = self.spdm_spec_encode(context) + rest;
        let fixed = self.fixed_part();
        let record = self.measurement_record@;
        let size = le_bytes_u16(self.opaque.data_size);
        let signature = optional_signature_bytes(self.signature);
        let to_record = fixed + record;
        let to_nonce = to_record + self.nonce@;
        let to_size = to_nonce + size;
        let to_opaque = to_size + self.opaque@;
        lemma_part(wire, to_opaque, signature, rest);
        lemma_part(wire, to_size, self.opaque@, signature + rest);
        lemma_part(wire, to_nonce, size, self.opaque@ + (signature + rest));
        lemma_part(wire, to_record, self.nonce@, size + (self.opaque@ + (signature + rest)));
        lemma_part(
            wire,
            fixed,
            record,
            self.nonce@ + (size + (self.opaque@ + (signature + rest))),
        );
        lemma_le_u24(self.measurement_record.measurement_record_length.0);
        lemma_le_u16(self.opaque.data_size);
        assert(wire.subrange(0, 6) =~= fixed);
        assert(wire[0] == fixed[0] && wire[1] == fixed[1] && wire[2] == fixed[2]);
        assert(wire.subrange(3, 6) =~= fixed.subrange(3, 6));
        assert(fixed.subrange(3, 6) =~= le_bytes_u24(
            self.measurement_record.measurement_record_length.0,
        ));
        lemma_array32(self.nonce);
        SpdmMeasurementRecordStructure::lemma_holds_unique(
            self.measurement_record,
            SpdmMeasurementRecordStructure::spec_new(
                self.measurement_record.number_of_blocks,
                record,
            ),
            self.measurement_record.number_of_blocks,
            record,
        );
        SpdmOpaqueStruct::lemma_holds_unique(
            self.opaque,
            SpdmOpaqueStruct::spec_from_bytes(self.opaque@),
            self.opaque@,
        );
        match self.signature {
            Some(signature) => {
                SpdmSignatureStruct::lemma_holds_unique(
                    signature,
                    SpdmSignatureStruct::spec_from_bytes(signature@),
                    signature@,
                );
            },
            None => {},
        }
    }
}

} // verus!
