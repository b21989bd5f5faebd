//! Measurement blocks and records.
//!
//! A block is `index(1) | specification(1) | size(2) | type(1) | value
//! size(2) | value`, with the sizes low byte first and the top bit of the
//! type byte telling a raw value from a digest.

use crate::bytes::{copy_into, zeros};
use crate::codec::{le_bytes_u16, le_value_u16, u24, Codec, Reader, Writer};
use crate::protocol::algo::SpdmMeasurementSpecification;
use vstd::prelude::*;
use vstd::slice::slice_subrange;

verus! {

/// What was measured.
#[derive(Clone, Copy, Debug, PartialEq, Eq, Structural)]
pub enum SpdmDmtfMeasurementType {
    SpdmDmtfMeasurementRom,
    SpdmDmtfMeasurementFirmware,
    SpdmDmtfMeasurementHardwareConfig,
    SpdmDmtfMeasurementFirmwareConfig,
    SpdmDmtfMeasurementManifest,
}

impl SpdmDmtfMeasurementType {
    /// The low seven bits of the type byte.
    pub open spec fn spec_u8(&self) -> u8 {
        match self {
            SpdmDmtfMeasurementType::SpdmDmtfMeasurementRom => 0,
            SpdmDmtfMeasurementType::SpdmDmtfMeasurementFirmware => 1,
            SpdmDmtfMeasurementType::SpdmDmtfMeasurementHardwareConfig => 2,
            SpdmDmtfMeasurementType::SpdmDmtfMeasurementFirmwareConfig => 3,
            SpdmDmtfMeasurementType::SpdmDmtfMeasurementManifest => 4,
        }
    }

    /// The type that the low seven bits of a type byte stand for, if any.
    pub open spec fn spec_from_u8(value: u8) -> Option<SpdmDmtfMeasurementType> {
        if value == 0 {
            Some(SpdmDmtfMeasurementType::SpdmDmtfMeasurementRom)
        } else if value == 1 {
            Some(SpdmDmtfMeasurementType::SpdmDmtfMeasurementFirmware)
        } else if value == 2 {
            Some(SpdmDmtfMeasurementType::SpdmDmtfMeasurementHardwareConfig)
        } else if value == 3 {
            Some(SpdmDmtfMeasurementType::SpdmDmtfMeasurementFirmwareConfig)
        } else if value == 4 {
            Some(SpdmDmtfMeasurementType::SpdmDmtfMeasurementManifest)
        } else {
            None
        }
    }

    #[verifier::when_used_as_spec(spec_u8)]
    pub fn get_u8(&self) -> (r: u8)
        ensures
            r == self.spec_u8(),
            r <= 4,
    {
        match self {
            SpdmDmtfMeasurementType::SpdmDmtfMeasurementRom => 0,
            SpdmDmtfMeasurementType::SpdmDmtfMeasurementFirmware => 1,
            SpdmDmtfMeasurementType::SpdmDmtfMeasurementHardwareConfig => 2,
            SpdmDmtfMeasurementType::SpdmDmtfMeasurementFirmwareConfig => 3,
            SpdmDmtfMeasurementType::SpdmDmtfMeasurementManifest => 4,
        }
    }

    pub fn from_u8(value: u8) -> (r: Option<SpdmDmtfMeasurementType>)
        ensures
            r == Self::spec_from_u8(value),
    {
        if value == 0 {
            Some(SpdmDmtfMeasurementType::SpdmDmtfMeasurementRom)
        } else if value == 1 {
            Some(SpdmDmtfMeasurementType::SpdmDmtfMeasurementFirmware)
        } else if value == 2 {
            Some(SpdmDmtfMeasurementType::SpdmDmtfMeasurementHardwareConfig)
        } else if value == 3 {
            Some(SpdmDmtfMeasurementType::SpdmDmtfMeasurementFirmwareConfig)
        } else if value == 4 {
            Some(SpdmDmtfMeasurementType::SpdmDmtfMeasurementManifest)
        } else {
            None
        }
    }
}

/// Whether a measurement is a digest or the raw bits.
#[derive(Clone, Copy, Debug, PartialEq, Eq, Structural)]
pub enum SpdmDmtfMeasurementRepresentation {
    SpdmDmtfMeasurementDigest,
    SpdmDmtfMeasurementRawBit,
}

impl SpdmDmtfMeasurementRepresentation {
    /// The top bit of the type byte.
    pub open spec fn spec_u8(&self) -> u8 {
        match self {
            SpdmDmtfMeasurementRepresentation::SpdmDmtfMeasurementDigest => 0,
            SpdmDmtfMeasurementRepresentation::SpdmDmtfMeasurementRawBit => 0x80,
        }
    }

    #[verifier::when_used_as_spec(spec_u8)]
    pub fn get_u8(&self) -> (r: u8)
        ensures
            r == self.spec_u8(),
    {
        match self {
            SpdmDmtfMeasurementRepresentation::SpdmDmtfMeasurementDigest => 0,
            SpdmDmtfMeasurementRepresentation::SpdmDmtfMeasurementRawBit => 0x80,
        }
    }
}

/// Which measurements a request asks for.
#[derive(Clone, Copy, Debug, PartialEq, Eq, Structural)]
pub enum SpdmMeasurementOperation {
    SpdmMeasurementQueryTotalNumber,
    SpdmMeasurementRequestAll,
    Unknown(u8),
}

impl SpdmMeasurementOperation {
    /// The wire byte of this operation.
    pub open spec fn spec_u8(&self) -> u8 {
        match self {
            SpdmMeasurementOperation::SpdmMeasurementQueryTotalNumber => 0x0,
            SpdmMeasurementOperation::SpdmMeasurementRequestAll => 0xff,
            SpdmMeasurementOperation::Unknown(index) => *index,
        }
    }

    #[verifier::when_used_as_spec(spec_u8)]
    pub fn get_u8(&self) -> (r: u8)
        ensures
            r == self.spec_u8(),
    {
        match self {
            SpdmMeasurementOperation::SpdmMeasurementQueryTotalNumber => 0x0,
            SpdmMeasurementOperation::SpdmMeasurementRequestAll => 0xff,
            SpdmMeasurementOperation::Unknown(index) => *index,
        }
    }
}

/// `bytes` followed by zeros up to 1024 bytes.
pub open spec fn padded_value(bytes: Seq<u8>) -> Seq<u8> {
    bytes + zeros((1024 - bytes.len()) as nat)
}

/// A padded value holds its bytes in front and zeros behind them.
pub proof fn lemma_padded_value(bytes: Seq<u8>)
    requires
        bytes.len() <= 1024,
    ensures
        padded_value(bytes).len() == 1024,
        padded_value(bytes).subrange(0, bytes.len() as int) == bytes,
        forall|i: int| 0 <= i < bytes.len() ==> padded_value(bytes)[i] == bytes[i],
        forall|i: int| bytes.len() <= i < 1024 ==> padded_value(bytes)[i] == 0,
{
    assert(padded_value(bytes).subrange(0, bytes.len() as int) =~= bytes);
}

/// The buffer of a value or of a record, with `bytes` in front and zeros
/// behind; nothing for more than 1024 bytes.
pub fn padded_buffer(bytes: &[u8]) -> (r: Option<[u8; 1024]>)
    ensures
        r.is_some() <==> bytes@.len() <= 1024,
        r matches Some(filled) ==> filled@ == padded_value(bytes@),
{
    if bytes.len() > 1024 {
        return None;
    }
    let mut buffer = [0u8; 1024];
    let ghost blank = buffer@;
    assert(buffer == vstd::array::spec_array_fill_for_copy_type::<u8, 1024>(0u8));
    assert(forall|i: int| 0 <= i < 1024 ==> blank[i] == 0);
    copy_into(&mut buffer, bytes);
    proof {
        lemma_padded_value(bytes@);
        assert forall|i: int| 0 <= i < 1024 implies buffer@[i] == padded_value(bytes@)[i] by {
            if i < bytes@.len() {
                assert(buffer@[i] == buffer@.subrange(0, bytes@.len() as int)[i]);
            } else {
                assert(buffer@[i] == buffer@.subrange(bytes@.len() as int, 1024)[i
                    - bytes@.len()]);
                assert(blank.subrange(bytes@.len() as int, 1024)[i - bytes@.len()] == blank[i]);
            }
        }
        assert(buffer@ =~= padded_value(bytes@));
    }
    Some(buffer)
}

/// One measurement in the layout that DMTF defines. The value is the first
/// `value_size` bytes of `value`.
#[derive(Clone, Copy, Debug)]
pub struct SpdmDmtfMeasurementStructure {
    pub measurement_type: SpdmDmtfMeasurementType,
    pub representation: SpdmDmtfMeasurementRepresentation,
    pub value_size: u16,
    pub value: [u8; 1024],
}

impl SpdmDmtfMeasurementStructure {
    /// The bytes of the value that count.
    pub open spec fn spec_value(&self) -> Seq<u8> {
        self.value@.subrange(0, self.value_size as int)
    }

    /// The measurement has the given parts, and zeros behind its value.
    pub open spec fn holds(
        &self,
        measurement_type: SpdmDmtfMeasurementType,
        representation: SpdmDmtfMeasurementRepresentation,
        value: Seq<u8>,
    ) -> bool {
        &&& self.measurement_type == measurement_type
        &&& self.representation == representation
        &&& self.value_size == value.len()
        &&& value.len() <= 1024
        &&& self.value@ == padded_value(value)
    }

    /// The measurement with the given parts, and zeros behind its value.
    pub open spec fn spec_new(
        measurement_type: SpdmDmtfMeasurementType,
        representation: SpdmDmtfMeasurementRepresentation,
        value: Seq<u8>,
    ) -> SpdmDmtfMeasurementStructure {
        choose|m: SpdmDmtfMeasurementStructure| m.holds(measurement_type, representation, value)
    }

    /// There is one measurement only with the given parts.
    pub proof fn lemma_holds_unique(
        a: SpdmDmtfMeasurementStructure,
        b: SpdmDmtfMeasurementStructure,
        measurement_type: SpdmDmtfMeasurementType,
        representation: SpdmDmtfMeasurementRepresentation,
        value: Seq<u8>,
    )
        requires
            a.holds(measurement_type, representation, value),
            b.holds(measurement_type, representation, value),
        ensures
            a == b,
            a == Self::spec_new(measurement_type, representation, value),
    {
        assert forall|i: int| 0 <= i < 1024 implies a.value[i] == b.value[i] by {
            assert(a.value@[i] == padded_value(value)[i]);
            assert(b.value@[i] == padded_value(value)[i]);
        }
        assert(a.value =~= b.value);
        let c = Self::spec_new(measurement_type, representation, value);
        assert forall|i: int| 0 <= i < 1024 implies a.value[i] == c.value[i] by {
            assert(a.value@[i] == padded_value(value)[i]);
            assert(c.value@[i] == padded_value(value)[i]);
        }
        assert(a.value =~= c.value);
    }

    /// The measurement of the given parts; nothing for a value of more than
    /// 1024 bytes.
    pub fn new(
        measurement_type: SpdmDmtfMeasurementType,
        representation: SpdmDmtfMeasurementRepresentation,
        value: &[u8],
    ) -> (r: Option<SpdmDmtfMeasurementStructure>)
        ensures
            r.is_some() <==> value@.len() <= 1024,
            r matches Some(m) ==> m.holds(measurement_type, representation, value@) && m == Self::spec_new(
                measurement_type,
                representation,
                value@,
            ) && m.spec_valid() && m.spec_value() == value@,
    {
        let data = padded_buffer(value)?;
        let m = SpdmDmtfMeasurementStructure {
            measurement_type,
            representation,
            value_size: value.len() as u16,
            value: data,
        };
        proof {
            lemma_padded_value(value@);
        }
        assert(m.spec_value() =~= value@);
        assert(m.holds(measurement_type, representation, value@));
        proof {
            Self::lemma_holds_unique(
                m,
                Self::spec_new(measurement_type, representation, value@),
                measurement_type,
                representation,
                value@,
            );
        }
        Some(m)
    }
}

impl Codec for SpdmDmtfMeasurementStructure {
    /// The value fits its buffer and has zeros behind it.
    open spec fn spec_valid(&self) -> bool {
        &&& self.value_size <= 1024
        &&& self.value@ == padded_value(self.spec_value())
    }

    open spec fn spec_encode(&self) -> Seq<u8> {
        seq![(self.measurement_type.spec_u8() + self.representation.spec_u8()) as u8] + le_bytes_u16(
            self.value_size,
        ) + self.spec_value()
    }

    open spec fn spec_read(bytes: Seq<u8>) -> Option<(SpdmDmtfMeasurementStructure, nat)> {
        if bytes.len() < 3 {
            None
        } else {
            let value_size = le_value_u16(bytes.subrange(1, 3));
            match SpdmDmtfMeasurementType::spec_from_u8(bytes[0] % 128) {
                Some(measurement_type) => if value_size <= 1024 && bytes.len() >= 3 + value_size {
                    Some(
                        (
                            SpdmDmtfMeasurementStructure::spec_new(
                                measurement_type,
                                if bytes[0] >= 128 {
                                    SpdmDmtfMeasurementRepresentation::SpdmDmtfMeasurementRawBit
                                } else {
                                    SpdmDmtfMeasurementRepresentation::SpdmDmtfMeasurementDigest
                                },
                                bytes.subrange(3, 3 + value_size),
                            ),
                            (3 + value_size) as nat,
                        ),
                    )
                } else {
                    None
                },
                None => None,
            }
        }
    }

    fn encode(&self, bytes: &mut Writer) {
        let type_value: u8 = self.measurement_type.get_u8();
        let representation_value: u8 = self.representation.get_u8();
        let final_value: u8 = type_value + representation_value;
        final_value.encode(bytes);
        self.value_size.encode(bytes);
        let value = slice_subrange(self.value.as_slice(), 0, self.value_size as usize);
        let _ = bytes.extend_from_slice(value);
        proof {
            if old(bytes).spec_left() >= self.spec_encode().len() {
                assert(bytes@ =~= old(bytes)@ + self.spec_encode());
            }
        }
    }

    fn read(r: &mut Reader) -> (v: Option<SpdmDmtfMeasurementStructure>) {
        let ghost bytes = r.remaining();
        let final_value: u8 = u8::read(r)?;
        let type_value: u8 = final_value % 128;
        let representation = if final_value >= 128 {
            SpdmDmtfMeasurementRepresentation::SpdmDmtfMeasurementRawBit
        } else {
            SpdmDmtfMeasurementRepresentation::SpdmDmtfMeasurementDigest
        };
        let ghost after_type = r.remaining();
        let value_size: u16 = match u16::read(r) {
            Some(n) => n,
            None => {
                return None;
            },
        };
        assert(after_type.subrange(0, 2) =~= bytes.subrange(1, 3));
        assert(le_value_u16(after_type) == le_value_u16(bytes.subrange(1, 3)));
        let measurement_type = SpdmDmtfMeasurementType::from_u8(type_value)?;
        if value_size > 1024 {
            return None;
        }
        let value = r.take(value_size as usize)?;
        assert(value@ =~= bytes.subrange(3, 3 + value_size));
        assert(r.remaining() =~= bytes.subrange(3 + value_size, bytes.len() as int));
        SpdmDmtfMeasurementStructure::new(measurement_type, representation, value)
    }

    proof fn lemma_round_trip(&self, rest: Seq<u8>) {
        let wire = self.spec_encode() + rest;
        let first = (self.measurement_type.spec_u8() + self.representation.spec_u8()) as u8;
        assert(wire[0] == first);
        assert(wire.subrange(1, 3) =~= le_bytes_u16(self.value_size));
        assert(wire.subrange(3, 3 + self.value_size) =~= self.spec_value());
        assert(SpdmDmtfMeasurementType::spec_from_u8(first % 128) == Some(self.measurement_type));
        Self::lemma_holds_unique(
            *self,
            *self,
            self.measurement_type,
            self.representation,
            self.spec_value(),
        );
    }
}

/// One block of a measurement record.
#[derive(Clone, Copy, Debug)]
pub struct SpdmMeasurementBlockStructure {
    pub index: u8,
    pub measurement_specification: SpdmMeasurementSpecification,
    pub measurement_size: u16,
    pub measurement: SpdmDmtfMeasurementStructure,
}

impl Codec for SpdmMeasurementBlockStructure {
    /// The block is in the DMTF layout, its size field counts the three
    /// bytes in front of the value and the value, and its measurement is
    /// valid.
    open spec fn spec_valid(&self) -> bool {
        &&& self.measurement_specification == SpdmMeasurementSpecification::DMTF
        &&& self.measurement.spec_valid()
        &&& self.measurement_size == self.measurement.value_size + 3
    }

    open spec fn spec_encode(&self) -> Seq<u8> {
        seq![self.index, self.measurement_specification.spec_u8()] + le_bytes_u16(
            self.measurement_size,
        ) + self.measurement.spec_encode()
    }

    open spec fn spec_read(bytes: Seq<u8>) -> Option<(SpdmMeasurementBlockStructure, nat)> {
        if bytes.len() < 4 || bytes[1] != 0x1 {
            None
        } else {
            match SpdmDmtfMeasurementStructure::spec_read(bytes.subrange(4, bytes.len() as int)) {
                Some((measurement, n)) => if le_value_u16(bytes.subrange(2, 4))
                    == measurement.value_size + 3 {
                    Some(
                        (
                            SpdmMeasurementBlockStructure {
                                index: bytes[0],
                                measurement_specification: SpdmMeasurementSpecification::DMTF,
                                measurement_size: le_value_u16(bytes.subrange(2, 4)),
                                measurement,
                            },
                            4 + n,
                        ),
                    )
                } else {
                    None
                },
                None => None,
            }
        }
    }

    fn encode(&self, bytes: &mut Writer) {
        self.index.encode(bytes);
        self.measurement_specification.get_u8().encode(bytes);
        self.measurement_size.encode(bytes);
        self.measurement.encode(bytes);
        proof {
            if old(bytes).spec_left() >= self.spec_encode().len() {
                assert(bytes@ =~= old(bytes)@ + self.spec_encode());
            }
        }
    }

    fn read(r: &mut Reader) -> (v: Option<SpdmMeasurementBlockStructure>) {
        let ghost bytes = r.remaining();
        let index: u8 = u8::read(r)?;
        let specification: u8 = u8::read(r)?;
        let ghost after_two = r.remaining();
        assert(after_two =~= bytes.subrange(2, bytes.len() as int));
        let measurement_size: u16 = match u16::read(r) {
            Some(n) => n,
            None => {
                return None;
            },
        };
        assert(after_two.subrange(0, 2) =~= bytes.subrange(2, 4));
        assert(le_value_u16(after_two) == le_value_u16(bytes.subrange(2, 4)));
        assert(r.remaining() =~= bytes.subrange(4, bytes.len() as int));
        if specification != 0x1 {
            return None;
        }
        let measurement = SpdmDmtfMeasurementStructure::read(r)?;
        if measurement_size != measurement.value_size + 3 {
            return None;
        }
        Some(
            SpdmMeasurementBlockStructure {
                index,
                measurement_specification: SpdmMeasurementSpecification::DMTF,
                measurement_size,
                measurement,
            },
        )
    }

    proof fn lemma_round_trip(&self, rest: Seq<u8>) {
        let wire = self.spec_encode() + rest;
        assert(wire[0] == self.index);
        assert(wire[1] == 0x1);
        assert(wire.subrange(2, 4) =~= le_bytes_u16(self.measurement_size));
        assert(wire.subrange(4, wire.len() as int) =~= self.measurement.spec_encode() + rest);
        self.measurement.lemma_round_trip(rest);
    }
}

/// The measurement blocks of a response, one behind the other.
#[derive(Clone, Copy, Debug)]
pub struct SpdmMeasurementRecordStructure {
    pub number_of_blocks: u8,
    pub measurement_record_length: u24,
    pub measurement_record_data: [u8; 1024],
}

impl View for SpdmMeasurementRecordStructure {
    type V = Seq<u8>;

    /// The bytes of the blocks.
    open spec fn view(&self) -> Seq<u8> {
        self.measurement_record_data@.subrange(0, self.measurement_record_length.0 as int)
    }
}

impl SpdmMeasurementRecordStructure {
    /// The blocks fit their buffer.
    pub open spec fn wf(&self) -> bool {
        self.measurement_record_length.0 <= 1024
    }

    /// The record holds `number_of_blocks` blocks whose bytes are `blocks`,
    /// with zeros behind them.
    pub open spec fn holds(&self, number_of_blocks: u8, blocks: Seq<u8>) -> bool {
        &&& self.number_of_blocks == number_of_blocks
        &&& self.measurement_record_length.0 == blocks.len()
        &&& blocks.len() <= 1024
        &&& self.measurement_record_data@ == padded_value(blocks)
    }

    /// The record that holds `number_of_blocks` blocks whose bytes are
    /// `blocks`, with zeros behind them.
    pub open spec fn spec_new(number_of_blocks: u8, blocks: Seq<u8>)
        -> SpdmMeasurementRecordStructure {
        choose|r: SpdmMeasurementRecordStructure| r.holds(number_of_blocks, blocks)
    }

    /// There is one record only with the given blocks.
    pub proof fn lemma_holds_unique(
        a: SpdmMeasurementRecordStructure,
        b: SpdmMeasurementRecordStructure,
        number_of_blocks: u8,
        blocks: Seq<u8>,
    )
        requires
            a.holds(number_of_blocks, blocks),
            b.holds(number_of_blocks, blocks),
        ensures
            a == b,
    {
        assert forall|i: int| 0 <= i < 1024 implies a.measurement_record_data[i]
            == b.measurement_record_data[i] by {
            assert(a.measurement_record_data@[i] == padded_value(blocks)[i]);
            assert(b.measurement_record_data@[i] == padded_value(blocks)[i]);
        }
        assert(a.measurement_record_data =~= b.measurement_record_data);
    }

    /// The record of the given blocks; nothing for more than 1024 bytes.
    pub fn new(number_of_blocks: u8, blocks: &[u8]) -> (r: Option<SpdmMeasurementRecordStructure>)
        ensures
            r.is_some() <==> blocks@.len() <= 1024,
            r matches Some(record) ==> record.wf() && record.holds(number_of_blocks, blocks@)
                && record == Self::spec_new(number_of_blocks, blocks@) && record@ == blocks@,
    {
        let data = padded_buffer(blocks)?;
        let record = SpdmMeasurementRecordStructure {
            number_of_blocks,
            measurement_record_length: u24::new(blocks.len() as u32),
            measurement_record_data: data,
        };
        proof {
            lemma_padded_value(blocks@);
        }
        assert(record@ =~= blocks@);
        assert(record.holds(number_of_blocks, blocks@));
        proof {
            Self::lemma_holds_unique(
                record,
                Self::spec_new(number_of_blocks, blocks@),
                number_of_blocks,
                blocks@,
            );
        }
        Some(record)
    }
}

impl SpdmMeasurementRecordStructure {
    /// The bytes of the blocks.
    pub fn as_ref(&self) -> (r: &[u8])
        requires
            self.wf(),
        ensures
            r@ == self@,
    {
        slice_subrange(
            self.measurement_record_data.as_slice(),
            0,
            self.measurement_record_length.get() as usize,
        )
    }
}

impl Default for SpdmMeasurementRecordStructure {
    fn default() -> (r: SpdmMeasurementRecordStructure)
        ensures
            r.wf(),
            r.holds(0, Seq::<u8>::empty()),
            r == SpdmMeasurementRecordStructure::spec_new(0, Seq::<u8>::empty()),
    {
        let r = SpdmMeasurementRecordStructure {
            number_of_blocks: 0,
            measurement_record_length: u24::new(0),
            measurement_record_data: [0u8; 1024],
        };
        assert(r.measurement_record_data@ =~= padded_value(Seq::<u8>::empty()));
        assert(r.holds(0, Seq::<u8>::empty()));
        proof {
            SpdmMeasurementRecordStructure::lemma_holds_unique(
                r,
                SpdmMeasurementRecordStructure::spec_new(0, Seq::<u8>::empty()),
                0,
                Seq::<u8>::empty(),
            );
        }
        r
    }
}

} // verus!
