//! KEY_UPDATE and KEY_UPDATE_ACK: the rotation of the data keys of an
//! established session. Both carry the operation in the first parameter
//! byte and a tag, which the acknowledgement echoes, in the second.

use crate::codec::{Codec, Reader, Writer};
use crate::common::spdm_codec::SpdmCodec;
use crate::common::SpdmContext;
use vstd::prelude::*;

verus! {

/// What a key update asks for.
#[derive(Clone, Copy, Debug, PartialEq, Eq, Structural)]
pub enum SpdmKeyUpdateOperation {
    /// Replace the keys of the requester's direction.
    SpdmUpdateSingleKey,
    /// Replace the keys of both directions.
    SpdmUpdateAllKeys,
    /// Confirm that the new keys work.
    SpdmVerifyNewKey,
}

impl SpdmKeyUpdateOperation {
    /// The wire byte of the operation.
    pub open spec fn spec_u8(&self) -> u8 {
        match self {
            SpdmKeyUpdateOperation::SpdmUpdateSingleKey => 1,
            SpdmKeyUpdateOperation::SpdmUpdateAllKeys => 2,
            SpdmKeyUpdateOperation::SpdmVerifyNewKey => 3,
        }
    }

    /// The operation that a wire byte stands for, if any.
    pub open spec fn spec_from_u8(value: u8) -> Option<SpdmKeyUpdateOperation> {
        if value == 1 {
            Some(SpdmKeyUpdateOperation::SpdmUpdateSingleKey)
        } else if value == 2 {
            Some(SpdmKeyUpdateOperation::SpdmUpdateAllKeys)
        } else if value == 3 {
            Some(SpdmKeyUpdateOperation::SpdmVerifyNewKey)
        } else {
            None
        }
    }

    #[verifier::when_used_as_spec(spec_u8)]
    pub fn get_u8(&self) -> (r: u8)
        ensures
            r == self.spec_u8(),
    {
        match self {
            SpdmKeyUpdateOperation::SpdmUpdateSingleKey => 1,
            SpdmKeyUpdateOperation::SpdmUpdateAllKeys => 2,
            SpdmKeyUpdateOperation::SpdmVerifyNewKey => 3,
        }
    }

    pub fn from_u8(value: u8) -> (r: Option<SpdmKeyUpdateOperation>)
        ensures
            r == Self::spec_from_u8(value),
            r matches Some(operation) ==> operation.spec_u8() == value,
    {
        if value == 1 {
            Some(SpdmKeyUpdateOperation::SpdmUpdateSingleKey)
        } else if value == 2 {
            Some(SpdmKeyUpdateOperation::SpdmUpdateAllKeys)
        } else if value == 3 {
            Some(SpdmKeyUpdateOperation::SpdmVerifyNewKey)
        } else {
            None
        }
    }
}

/// The two parameter bytes of a key update.
pub open spec fn key_update_wire(operation: SpdmKeyUpdateOperation, tag: u8) -> Seq<u8> {
    seq![operation.spec_u8(), tag]
}

/// The operation and the tag at the front of `bytes`; nothing where there are
/// no two bytes or the first stands for no operation.
pub open spec fn key_update_read(bytes: Seq<u8>) -> Option<(SpdmKeyUpdateOperation, u8)> {
    if bytes.len() >= 2 {
        match SpdmKeyUpdateOperation::spec_from_u8(bytes[0]) {
            Some(operation) => Some((operation, bytes[1])),
            None => None,
        }
    } else {
        None
    }
}

/// The payload of KEY_UPDATE.
#[derive(Clone, Copy, Debug, PartialEq, Eq, Structural)]
pub struct SpdmKeyUpdateRequestPayload {
    pub key_update_operation: SpdmKeyUpdateOperation,
    pub tag: u8,
}

impl SpdmCodec for SpdmKeyUpdateRequestPayload {
    open spec fn spdm_spec_valid(&self, context: &SpdmContext) -> bool {
        true
    }

    open spec fn spdm_spec_encode(&self, context: &SpdmContext) -> Seq<u8> {
        key_update_wire(self.key_update_operation, self.tag)
    }

    open spec fn spdm_spec_read(context: &SpdmContext, bytes: Seq<u8>) -> Option<
        (SpdmKeyUpdateRequestPayload, nat),
    > {
        match key_update_read(bytes) {
            Some((key_update_operation, tag)) => Some(
                (SpdmKeyUpdateRequestPayload { key_update_operation, tag }, 2),
            ),
            None => None,
        }
    }

    fn spdm_size(&self, context: &SpdmContext) -> (r: usize) {
        2
    }

    fn spdm_encode(&self, _context: &mut SpdmContext, bytes: &mut Writer) {
        self.key_update_operation.get_u8().encode(bytes);  // param1
        self.tag.encode(bytes);  // param2
        assert(old(bytes).spec_left() >= 2 ==> bytes@ =~= old(bytes)@ + key_update_wire(
            self.key_update_operation,
            self.tag,
        ));
    }

    fn spdm_read(_context: &mut SpdmContext, r: &mut Reader) -> (v: Option<
        SpdmKeyUpdateRequestPayload,
    >) {
        let operation: u8 = u8::read(r)?;  // param1
        let tag: u8 = u8::read(r)?;  // param2
        assert(r.remaining() =~= old(r).remaining().subrange(2, old(r).remaining().len() as int));
        let key_update_operation = SpdmKeyUpdateOperation::from_u8(operation)?;
        Some(SpdmKeyUpdateRequestPayload { key_update_operation, tag })
    }

    proof fn lemma_spdm_round_trip(&self, context: &SpdmContext, rest: Seq<u8>) {
        let wire = self.spdm_spec_encode(context) + rest;
        assert(wire[0] == self.key_update_operation.spec_u8());
        assert(wire[1] == self.tag);
    }
}

/// The payload of KEY_UPDATE_ACK.
#[derive(Clone, Copy, Debug, PartialEq, Eq, Structural)]
pub struct SpdmKeyUpdateResponsePayload {
    pub key_update_operation: SpdmKeyUpdateOperation,
    pub tag: u8,
}

impl SpdmCodec for SpdmKeyUpdateResponsePayload {
    open spec fn spdm_spec_valid(&self, context: &SpdmContext) -> bool {
        true
    }

    open spec fn spdm_spec_encode(&self, context: &SpdmContext) -> Seq<u8> {
        key_update_wire(self.key_update_operation, self.tag)
    }

    open spec fn spdm_spec_read(context: &SpdmContext, bytes: Seq<u8>) -> Option<
        (SpdmKeyUpdateResponsePayload, nat),
    > {
        match key_update_read(bytes) {
            Some((key_update_operation, tag)) => Some(
                (SpdmKeyUpdateResponsePayload { key_update_operation, tag }, 2),
            ),
            None => None,
        }
    }

    fn spdm_size(&self, context: &SpdmContext) -> (r: usize) {
        2
    }

    fn spdm_encode(&self, _context: &mut SpdmContext, bytes: &mut Writer) {
        self.key_update_operation.get_u8().encode(bytes);  // param1
        self.tag.encode(bytes);  // param2
        assert(old(bytes).spec_left() >= 2 ==> bytes@ =~= old(bytes)@ + key_update_wire(
            self.key_update_operation,
            self.tag,
        ));
    }

    fn spdm_read(_context: &mut SpdmContext, r: &mut Reader) -> (v: Option<
        SpdmKeyUpdateResponsePayload,
    >) {
        let operation: u8 = u8::read(r)?;  // param1
        let tag: u8 = u8::read(r)?;  // param2
        assert(r.remaining() =~= old(r).remaining().subrange(2, old(r).remaining().len() as int));
        let key_update_operation = SpdmKeyUpdateOperation::from_u8(operation)?;
        Some(SpdmKeyUpdateResponsePayload { key_update_operation, tag })
    }

    proof fn lemma_spdm_round_trip(&self, context: &SpdmContext, rest: Seq<u8>) {
        let wire = self.spdm_spec_encode(context) + rest;
        assert(wire[0] == self.key_update_operation.spec_u8());
        assert(wire[1] == self.tag);
    }
}

} // verus!
