//! FINISH and FINISH_RSP: the exchange that ends the handshake of a session.
//!
//! Behind the header the request is `attributes (1) | slot id (1) |
//! signature | verify-data`. The signature is there only where the first bit
//! of the attributes says so, and has the length that the negotiated
//! signature algorithm of the requester calls for; the verify-data has the
//! length of a digest of the negotiated hash.
//!
//! The response is `reserved (2) | verify-data`, with the verify-data there
//! only where both sides run the handshake in the clear.

use crate::codec::{Codec, Reader, Writer};
use crate::common::spdm_codec::SpdmCodec;
use crate::common::SpdmContext;
use crate::error::{SpdmError, SpdmResult};
use crate::protocol::{SpdmDigestStruct, SpdmSignatureStruct};
use vstd::prelude::*;

verus! {

/// The payload of FINISH.
#[derive(Clone, Copy, Debug)]
pub struct SpdmFinishRequestPayload {
    /// The signature of the requester, where the responder asked the
    /// requester to authenticate.
    pub signature: Option<SpdmSignatureStruct>,
    pub req_slot_id: u8,
    pub verify_data: SpdmDigestStruct,
}

impl SpdmFinishRequestPayload {
    /// The bytes of the signature, none where there is no signature.
    pub open spec fn signature_bytes(&self) -> Seq<u8> {
        match self.signature {
            Some(signature) => signature@,
            None => Seq::<u8>::empty(),
        }
    }
}

impl SpdmCodec for SpdmFinishRequestPayload {
    /// Signature and verify-data have the lengths that the negotiated
    /// algorithms call for, and zeros behind them.
    open spec fn spdm_spec_valid(&self, context: &SpdmContext) -> bool {
        &&& self.verify_data.data_size == context.negotiate_info.base_hash_sel.spec_size()
        &&& self.verify_data.holds(self.verify_data@)
        &&& self.signature matches Some(signature) ==> signature.data_size
            == context.negotiate_info.req_asym_sel.spec_size() && signature.holds(signature@)
    }

    open spec fn spdm_spec_encode(&self, context: &SpdmContext) -> Seq<u8> {
        seq![
            if self.signature.is_some() {
                1u8
            } else {
                0u8
            },
            self.req_slot_id,
        ] + self.signature_bytes() + self.verify_data@
    }

    /// The attributes hold one bit; the others are reserved and must be
    /// zero.
    open spec fn spdm_spec_read(context: &SpdmContext, bytes: Seq<u8>) -> Option<
        (SpdmFinishRequestPayload, nat),
    > {
        let hash_size = context.negotiate_info.base_hash_sel.spec_size() as int;
        let signature_size = context.negotiate_info.req_asym_sel.spec_size() as int;
        if bytes.len() < 2 || bytes[0] > 1 {
            None
        } else if bytes[0] == 1 {
            if bytes.len() >= 2 + signature_size + hash_size {
                Some(
                    (
                        SpdmFinishRequestPayload {
                            signature: Some(
                                SpdmSignatureStruct::spec_from_bytes(
                                    bytes.subrange(2, 2 + signature_size),
                                ),
                            ),
                            req_slot_id: bytes[1],
                            verify_data: SpdmDigestStruct::spec_from_bytes(
                                bytes.subrange(2 + signature_size, 2 + signature_size + hash_size),
                            ),
                        },
                        (2 + signature_size + hash_size) as nat,
                    ),
                )
            } else {
                None
            }
        } else {
            if bytes.len() >= 2 + hash_size {
                Some(
                    (
                        SpdmFinishRequestPayload {
                            signature: None,
                            req_slot_id: bytes[1],
                            verify_data: SpdmDigestStruct::spec_from_bytes(
                                bytes.subrange(2, 2 + hash_size),
                            ),
                        },
                        (2 + hash_size) as nat,
                    ),
                )
            } else {
                None
            }
        }
    }

    fn spdm_size(&self, context: &SpdmContext) -> (r: usize) {
        let signature_size: usize = match &self.signature {
            Some(signature) => signature.data_size as usize,
            None => 0,
        };
        let total: usize = 2 + signature_size + self.verify_data.data_size as usize;
        assert(self.spdm_spec_encode(context).len() == total);
        total
    }

    fn spdm_encode(&self, context: &mut SpdmContext, bytes: &mut Writer) {
        let signature_size: usize = match &self.signature {
            Some(signature) => signature.data_size as usize,
            None => 0,
        };
        let total: usize = 2 + signature_size + self.verify_data.data_size as usize;
        assert(self.spdm_spec_encode(old(context)).len() == total);
        if bytes.left() < total {
            assert(old(bytes)@.is_prefix_of(bytes@));
            return;
        }
        let attributes: u8 = if self.signature.is_some() {
            1
        } else {
            0
        };
        attributes.encode(bytes);  // param1
        self.req_slot_id.encode(bytes);  // param2
        assert(bytes@ =~= old(bytes)@ + seq![attributes, self.req_slot_id]);
        match &self.signature {
            Some(signature) => {
                let _ = bytes.extend_from_slice(signature.as_ref());
            },
            None => {},
        }
        assert(bytes@ =~= old(bytes)@ + (seq![attributes, self.req_slot_id]
            + self.signature_bytes()));
        let _ = bytes.extend_from_slice(self.verify_data.as_ref());
        assert(bytes@ =~= old(bytes)@ + self.spdm_spec_encode(old(context)));
        assert(old(bytes)@.is_prefix_of(bytes@));
    }

    fn spdm_read(context: &mut SpdmContext, r: &mut Reader) -> (v: Option<
        SpdmFinishRequestPayload,
    >) {
        let ghost bytes = r.remaining();
        let hash_size: usize = context.negotiate_info.base_hash_sel.get_size() as usize;
        let signature_size: usize = context.negotiate_info.req_asym_sel.get_size() as usize;
        let fixed = r.take(2)?;
        assert(fixed@ =~= bytes.subrange(0, 2));
        let attributes: u8 = fixed[0];
        let req_slot_id: u8 = fixed[1];
        if attributes > 1 {
            return None;
        }
        let signature = if attributes == 1 {
            if r.left() < signature_size + hash_size {
                return None;
            }
            let signature_bytes = r.take(signature_size)?;
            assert(signature_bytes@ =~= bytes.subrange(2, 2 + signature_size));
            Some(SpdmSignatureStruct::from_bytes(signature_bytes)?)
        } else {
            None
        };
        let ghost skipped: int = if attributes == 1 {
            2 + signature_size
        } else {
            2
        };
        assert(r.remaining() =~= bytes.subrange(skipped, bytes.len() as int));
        let verify_bytes = r.take(hash_size)?;
        assert(verify_bytes@ =~= bytes.subrange(skipped, skipped + hash_size));
        assert(r.remaining() =~= bytes.subrange(skipped + hash_size, bytes.len() as int));
        let verify_data = SpdmDigestStruct::from_bytes(verify_bytes)?;
        Some(SpdmFinishRequestPayload { signature, req_slot_id, verify_data })
    }

    proof fn lemma_spdm_round_trip(&self, context: &SpdmContext, rest: Seq<u8>) {
        let wire = self.spdm_spec_encode(context) + rest;
        let hash_size = context.negotiate_info.base_hash_sel.spec_size() as int;
        let signature_size = context.negotiate_info.req_asym_sel.spec_size() as int;
        assert(wire[1] == self.req_slot_id);
        SpdmDigestStruct::lemma_holds_unique(
            self.verify_data,
            SpdmDigestStruct::spec_from_bytes(self.verify_data@),
            self.verify_data@,
        );
        match self.signature {
            Some(signature) => {
                assert(wire[0] == 1u8);
                assert(wire.subrange(2, 2 + signature_size) =~= signature@);
                assert(wire.subrange(2 + signature_size, 2 + signature_size + hash_size)
                    =~= self.verify_data@);
                SpdmSignatureStruct::lemma_holds_unique(
                    signature,
                    SpdmSignatureStruct::spec_from_bytes(signature@),
                    signature@,
                );
            },
            None => {
                assert(wire[0] == 0u8);
                assert(wire.subrange(2, 2 + hash_size) =~= self.verify_data@);
            },
        }
    }
}

/// The FINISH request in `payload`, which must be one and nothing more. A
/// payload that is no request on this connection, or that holds anything
/// behind the request, is refused with `InvalidMsgField`.
pub fn decode_finish_request(context: &mut SpdmContext, payload: &[u8]) -> (r: SpdmResult<
    SpdmFinishRequestPayload,
>)
    ensures
        *final(context) == *old(context),
        r.is_ok() <==> (SpdmFinishRequestPayload::spdm_spec_read(old(context), payload@)
            matches Some((request, used)) && used == payload@.len()),
        r matches Ok(request) ==> SpdmFinishRequestPayload::spdm_spec_read(old(context), payload@)
            == Some((request, payload@.len())) && request.spdm_spec_valid(old(context)),
        r matches Err(e) ==> e == SpdmError::InvalidMsgField,
{
    let mut reader = Reader::init(payload);
    match SpdmFinishRequestPayload::spdm_read(context, &mut reader) {
        Some(request) => if reader.left() == 0 {
            Ok(request)
        } else {
            Err(SpdmError::InvalidMsgField)
        },
        None => Err(SpdmError::InvalidMsgField),
    }
}

/// The payload of FINISH_RSP.
#[derive(Clone, Copy, Debug)]
pub struct SpdmFinishResponsePayload {
    /// The verify-data of the responder, where the handshake runs in the
    /// clear.
    pub verify_data: Option<SpdmDigestStruct>,
}

impl SpdmFinishResponsePayload {
    /// The bytes of the verify-data, none where there is no verify-data.
    pub open spec fn verify_data_bytes(&self) -> Seq<u8> {
        match self.verify_data {
            Some(verify_data) => verify_data@,
            None => Seq::<u8>::empty(),
        }
    }
}

impl SpdmCodec for SpdmFinishResponsePayload {
    /// There is verify-data exactly where the handshake runs in the clear,
    /// and it has the length of a digest, and zeros behind it.
    open spec fn spdm_spec_valid(&self, context: &SpdmContext) -> bool {
        &&& self.verify_data.is_some() == context.spec_handshake_in_the_clear()
        &&& self.verify_data matches Some(verify_data) ==> verify_data.data_size
            == context.negotiate_info.base_hash_sel.spec_size() && verify_data.holds(verify_data@)
    }

    open spec fn spdm_spec_encode(&self, context: &SpdmContext) -> Seq<u8> {
        seq![0u8, 0u8] + self.verify_data_bytes()
    }

    open spec fn spdm_spec_read(context: &SpdmContext, bytes: Seq<u8>) -> Option<
        (SpdmFinishResponsePayload, nat),
    > {
        let hash_size = context.negotiate_info.base_hash_sel.spec_size() as int;
        if bytes.len() < 2 {
            None
        } else if context.spec_handshake_in_the_clear() {
            if bytes.len() >= 2 + hash_size {
                Some(
                    (
                        SpdmFinishResponsePayload {
                            verify_data: Some(
                                SpdmDigestStruct::spec_from_bytes(bytes.subrange(2, 2 + hash_size)),
                            ),
                        },
                        (2 + hash_size) as nat,
                    ),
                )
            } else {
                None
            }
        } else {
            Some((SpdmFinishResponsePayload { verify_data: None }, 2nat))
        }
    }

    fn spdm_size(&self, context: &SpdmContext) -> (r: usize) {
        let verify_size: usize = match &self.verify_data {
            Some(verify_data) => verify_data.data_size as usize,
            None => 0,
        };
        let total: usize = 2 + verify_size;
        assert(self.spdm_spec_encode(context).len() == total);
        total
    }

    fn spdm_encode(&self, context: &mut SpdmContext, bytes: &mut Writer) {
        let verify_size: usize = match &self.verify_data {
            Some(verify_data) => verify_data.data_size as usize,
            None => 0,
        };
        let total: usize = 2 + verify_size;
        assert(self.spdm_spec_encode(old(context)).len() == total);
        if bytes.left() < total {
            assert(old(bytes)@.is_prefix_of(bytes@));
            return;
        }
        0u8.encode(bytes);  // param1
        0u8.encode(bytes);  // param2
        assert(bytes@ =~= old(bytes)@ + seq![0u8, 0u8]);
        match &self.verify_data {
            Some(verify_data) => {
                let _ = bytes.extend_from_slice(verify_data.as_ref());
            },
            None => {},
        }
        assert(bytes@ =~= old(bytes)@ + self.spdm_spec_encode(old(context)));
        assert(old(bytes)@.is_prefix_of(bytes@));
    }

    fn spdm_read(context: &mut SpdmContext, r: &mut Reader) -> (v: Option<
        SpdmFinishResponsePayload,
    >) {
        let ghost bytes = r.remaining();
        let hash_size: usize = context.negotiate_info.base_hash_sel.get_size() as usize;
        let in_the_clear = context.handshake_in_the_clear();
        if r.left() < 2 || (in_the_clear && r.left() < 2 + hash_size) {
            return None;
        }
        let _ = r.take(2)?;
        assert(r.remaining() =~= bytes.subrange(2, bytes.len() as int));
        if in_the_clear {
            let verify_bytes = r.take(hash_size)?;
            assert(verify_bytes@ =~= bytes.subrange(2, 2 + hash_size));
            assert(r.remaining() =~= bytes.subrange(2 + hash_size, bytes.len() as int));
            let verify_data = SpdmDigestStruct::from_bytes(verify_bytes)?;
            Some(SpdmFinishResponsePayload { verify_data: Some(verify_data) })
        } else {
            Some(SpdmFinishResponsePayload { verify_data: None })
        }
    }

    proof fn lemma_spdm_round_trip(&self, context: &SpdmContext, rest: Seq<u8>) {
        let wire = self.spdm_spec_encode(context) + rest;
        let hash_size = context.negotiate_info.base_hash_sel.spec_size() as int;
        match self.verify_data {
            Some(verify_data) => {
                assert(wire.subrange(2, 2 + hash_size) =~= verify_data@);
                SpdmDigestStruct::lemma_holds_unique(
                    verify_data,
                    SpdmDigestStruct::spec_from_bytes(verify_data@),
                    verify_data@,
                );
            },
            None => {},
        }
    }
}

} // verus!
