//! GET_CAPABILITIES and CAPABILITIES: the exchange in which each side says
//! what it can do.
//!
//! Behind the header both are `reserved (2) | reserved (1) | timeout
//! exponent (1) | reserved (2) | flags (4) | largest transfer (4) | largest
//! message (4)`, numbers low byte first. The two sizes are there from
//! version 1.2 on. A request of version 1.0 ends behind its first two bytes.

use crate::bytes::lemma_part;
use crate::codec::{
    kept_behind, le_bytes_u32, le_value_u32, lemma_le_u32, read_u32, Reader, Writer,
};
use crate::common::spdm_codec::SpdmCodec;
use crate::common::SpdmContext;
use crate::protocol::capability::{REQUESTER_CAPABILITY_MASK, RESPONDER_CAPABILITY_MASK};
use crate::protocol::SpdmVersion;
use vstd::prelude::*;
use vstd::slice::slice_subrange;

verus! {

/// The smallest that the largest transfer of a side may be.
pub const MIN_DATA_TRANSFER_SIZE: u32 = 42;

/// What a side says it can do.
#[derive(Clone, Copy, Debug, PartialEq, Eq, Structural)]
pub struct SpdmCapabilities {
    /// The base-2 exponent of the time, in microseconds, that the side
    /// takes for its cryptographic work.
    pub ct_exponent: u8,
    pub flags: u32,
    /// The largest message that the side takes in one transfer.
    pub data_transfer_size: u32,
    /// The largest message that the side takes in parts.
    pub max_spdm_msg_size: u32,
}

/// The timeout exponent and the flags on the wire.
pub open spec fn capabilities_body(capabilities: SpdmCapabilities) -> Seq<u8> {
    seq![0u8, capabilities.ct_exponent, 0u8, 0u8] + le_bytes_u32(capabilities.flags)
}

/// The two sizes on the wire.
pub open spec fn capabilities_sizes(capabilities: SpdmCapabilities) -> Seq<u8> {
    le_bytes_u32(capabilities.data_transfer_size) + le_bytes_u32(capabilities.max_spdm_msg_size)
}

/// The wire form of capabilities, with exponent and flags and with the sizes
/// where `with_body` and `with_sizes` say so.
pub open spec fn capabilities_wire(
    capabilities: SpdmCapabilities,
    with_body: bool,
    with_sizes: bool,
) -> Seq<u8> {
    if !with_body {
        seq![0u8, 0u8]
    } else if !with_sizes {
        seq![0u8, 0u8] + capabilities_body(capabilities)
    } else {
        seq![0u8, 0u8] + capabilities_body(capabilities) + capabilities_sizes(capabilities)
    }
}

/// Capabilities can be put on the wire: the flags hold no bit outside
/// `mask`, what is not on the wire is zero, and the largest transfer, where
/// it is on the wire, is 42 bytes at least and not larger than the largest
/// message.
pub open spec fn capabilities_valid(
    capabilities: SpdmCapabilities,
    mask: u32,
    with_body: bool,
    with_sizes: bool,
) -> bool {
    &&& capabilities.flags & !mask == 0
    &&& !with_body ==> capabilities.ct_exponent == 0 && capabilities.flags == 0
    &&& if with_body && with_sizes {
        MIN_DATA_TRANSFER_SIZE <= capabilities.data_transfer_size <= capabilities.max_spdm_msg_size
    } else {
        capabilities.data_transfer_size == 0 && capabilities.max_spdm_msg_size == 0
    }
}

/// Capabilities as a message of the given version states them: without the
/// two sizes before version 1.2.
pub open spec fn spec_capabilities_stated(capabilities: SpdmCapabilities, version: SpdmVersion)
    -> SpdmCapabilities {
    if spec_has_sizes(version) {
        capabilities
    } else {
        SpdmCapabilities { data_transfer_size: 0, max_spdm_msg_size: 0, ..capabilities }
    }
}

/// Capabilities as a message of the given version states them.
pub fn capabilities_stated(capabilities: &SpdmCapabilities, version: SpdmVersion) -> (r:
    SpdmCapabilities)
    ensures
        r == spec_capabilities_stated(*capabilities, version),
{
    if has_sizes(version) {
        *capabilities
    } else {
        SpdmCapabilities {
            ct_exponent: capabilities.ct_exponent,
            flags: capabilities.flags,
            data_transfer_size: 0,
            max_spdm_msg_size: 0,
        }
    }
}

/// Tells whether capabilities can be put on the wire. See
/// [`capabilities_valid`].
pub fn check_capabilities(
    capabilities: &SpdmCapabilities,
    mask: u32,
    with_body: bool,
    with_sizes: bool,
) -> (r: bool)
    ensures
        r == capabilities_valid(*capabilities, mask, with_body, with_sizes),
{
    if capabilities.flags & !mask != 0 {
        return false;
    }
    if !with_body && (capabilities.ct_exponent != 0 || capabilities.flags != 0) {
        return false;
    }
    if with_body && with_sizes {
        MIN_DATA_TRANSFER_SIZE <= capabilities.data_transfer_size && capabilities.data_transfer_size
            <= capabilities.max_spdm_msg_size
    } else {
        capabilities.data_transfer_size == 0 && capabilities.max_spdm_msg_size == 0
    }
}

/// The capabilities at the front of `bytes`, and the number of bytes they
/// take; nothing where bytes are missing, where the flags hold a bit outside
/// `mask`, or where the sizes are not as they must be.
pub open spec fn capabilities_read(bytes: Seq<u8>, mask: u32, with_body: bool, with_sizes: bool)
    -> Option<(SpdmCapabilities, nat)> {
    if !with_body {
        if bytes.len() >= 2 {
            Some(
                (
                    SpdmCapabilities {
                        ct_exponent: 0,
                        flags: 0,
                        data_transfer_size: 0,
                        max_spdm_msg_size: 0,
                    },
                    2nat,
                ),
            )
        } else {
            None
        }
    } else if !with_sizes {
        if bytes.len() >= 10 && le_value_u32(bytes.subrange(6, 10)) & !mask == 0 {
            Some(
                (
                    SpdmCapabilities {
                        ct_exponent: bytes[3],
                        flags: le_value_u32(bytes.subrange(6, 10)),
                        data_transfer_size: 0,
                        max_spdm_msg_size: 0,
                    },
                    10nat,
                ),
            )
        } else {
            None
        }
    } else {
        if bytes.len() >= 18 && le_value_u32(bytes.subrange(6, 10)) & !mask == 0
            && MIN_DATA_TRANSFER_SIZE <= le_value_u32(bytes.subrange(10, 14)) <= le_value_u32(
            bytes.subrange(14, 18),
        ) {
            Some(
                (
                    SpdmCapabilities {
                        ct_exponent: bytes[3],
                        flags: le_value_u32(bytes.subrange(6, 10)),
                        data_transfer_size: le_value_u32(bytes.subrange(10, 14)),
                        max_spdm_msg_size: le_value_u32(bytes.subrange(14, 18)),
                    },
                    18nat,
                ),
            )
        } else {
            None
        }
    }
}

/// The length of the wire form of capabilities.
fn capabilities_size(with_body: bool, with_sizes: bool) -> (r: usize)
    ensures
        forall|capabilities: SpdmCapabilities|
            r == (#[trigger] capabilities_wire(capabilities, with_body, with_sizes)).len(),
{
    assert forall|capabilities: SpdmCapabilities|
        (#[trigger] capabilities_wire(capabilities, with_body, with_sizes)).len() == (if !with_body {
            2int
        } else if !with_sizes {
            10int
        } else {
            18int
        }) by {}
    if !with_body {
        2
    } else if !with_sizes {
        10
    } else {
        18
    }
}

/// Appends the wire form of capabilities where it fits.
fn encode_capabilities(
    capabilities: &SpdmCapabilities,
    with_body: bool,
    with_sizes: bool,
    bytes: &mut Writer,
)
    requires
        old(bytes).wf(),
    ensures
        final(bytes).wf(),
        final(bytes).capacity() == old(bytes).capacity(),
        final(final(bytes).bytes)@ == final(old(bytes).bytes)@,
        old(bytes).spec_left() >= capabilities_wire(*capabilities, with_body, with_sizes).len()
            ==> final(bytes)@ == old(bytes)@ + capabilities_wire(
            *capabilities,
            with_body,
            with_sizes,
        ),
        old(bytes)@.is_prefix_of(final(bytes)@),
        kept_behind(old(bytes).bytes@, final(bytes).bytes@, final(bytes).used as int),
{
    let total: usize = if !with_body {
        2
    } else if !with_sizes {
        10
    } else {
        18
    };
    assert(capabilities_wire(*capabilities, with_body, with_sizes).len() == total);
    if bytes.left() < total {
        assert(old(bytes)@.is_prefix_of(bytes@));
        return;
    }
    let ghost start = bytes@;
    let ghost mut sofar = Seq::<u8>::empty();
    assert(start + sofar =~= start);
    bytes.put_u16(0u16, Ghost(start), Ghost(sofar));
    proof {
        sofar = sofar + seq![0u8, 0u8];
        assert(sofar =~= seq![0u8, 0u8]);
        sofar = seq![0u8, 0u8];
    }
    if with_body {
        let body: [u8; 4] = [0, capabilities.ct_exponent, 0, 0];
        assert(body@ =~= seq![0u8, capabilities.ct_exponent, 0u8, 0u8]);
        let ghost head = sofar;
        bytes.put(body.as_slice(), Ghost(start), Ghost(sofar));
        proof {
            sofar = sofar + body@;
        }
        bytes.put_u32(capabilities.flags, Ghost(start), Ghost(sofar));
        proof {
            sofar = sofar + le_bytes_u32(capabilities.flags);
            assert(sofar =~= head + capabilities_body(*capabilities));
            sofar = head + capabilities_body(*capabilities);
        }
        if with_sizes {
            let ghost body_written = sofar;
            bytes.put_u32(capabilities.data_transfer_size, Ghost(start), Ghost(sofar));
            proof {
                sofar = sofar + le_bytes_u32(capabilities.data_transfer_size);
            }
            bytes.put_u32(capabilities.max_spdm_msg_size, Ghost(start), Ghost(sofar));
            proof {
                sofar = sofar + le_bytes_u32(capabilities.max_spdm_msg_size);
                assert(sofar =~= body_written + capabilities_sizes(*capabilities));
            }
        }
    }
    assert(old(bytes)@.is_prefix_of(bytes@));
}

/// Reads capabilities from the front of what is left.
fn read_capabilities(r: &mut Reader, mask: u32, with_body: bool, with_sizes: bool) -> (v: Option<
    SpdmCapabilities,
>)
    requires
        old(r).wf(),
    ensures
        final(r).wf(),
        final(r).buffer() == old(r).buffer(),
        v.is_some() <==> capabilities_read(old(r).remaining(), mask, with_body, with_sizes).is_some(),
        v matches Some(value) ==> capabilities_read(
            old(r).remaining(),
            mask,
            with_body,
            with_sizes,
        ) matches Some((s, n)) && s == value && capabilities_valid(
            value,
            mask,
            with_body,
            with_sizes,
        ) && n <= old(r).remaining().len() && final(r).spec_used() == old(r).spec_used() + n
            && final(r).remaining() == old(r).remaining().subrange(
            n as int,
            old(r).remaining().len() as int,
        ),
{
    let bytes = r.peek();
    if !with_body {
        let _ = r.take(2)?;
        assert(0u32 & !mask == 0) by (bit_vector);
        return Some(
            SpdmCapabilities {
                ct_exponent: 0,
                flags: 0,
                data_transfer_size: 0,
                max_spdm_msg_size: 0,
            },
        );
    }
    if bytes.len() < 10 {
        return None;
    }
    let flags: u32 = read_u32(slice_subrange(bytes, 6, 10));
    if flags & !mask != 0 {
        return None;
    }
    if !with_sizes {
        let _ = r.take(10)?;
        return Some(
            SpdmCapabilities {
                ct_exponent: bytes[3],
                flags,
                data_transfer_size: 0,
                max_spdm_msg_size: 0,
            },
        );
    }
    if bytes.len() < 18 {
        return None;
    }
    let data_transfer_size: u32 = read_u32(slice_subrange(bytes, 10, 14));
    let max_spdm_msg_size: u32 = read_u32(slice_subrange(bytes, 14, 18));
    if data_transfer_size < MIN_DATA_TRANSFER_SIZE || data_transfer_size > max_spdm_msg_size {
        return None;
    }
    let _ = r.take(18)?;
    Some(
        SpdmCapabilities { ct_exponent: bytes[3], flags, data_transfer_size, max_spdm_msg_size },
    )
}

/// Reading the wire form of capabilities gives them back and takes exactly
/// their bytes, whatever follows them.
pub proof fn lemma_capabilities_round_trip(
    capabilities: SpdmCapabilities,
    mask: u32,
    with_body: bool,
    with_sizes: bool,
    rest: Seq<u8>,
)
    requires
        capabilities_valid(capabilities, mask, with_body, with_sizes),
    ensures
        capabilities_read(
            capabilities_wire(capabilities, with_body, with_sizes) + rest,
            mask,
            with_body,
            with_sizes,
        ) == Some(
            (capabilities, capabilities_wire(capabilities, with_body, with_sizes).len()),
        ),
{
    let wire = capabilities_wire(capabilities, with_body, with_sizes) + rest;
    let body = capabilities_body(capabilities);
    lemma_le_u32(capabilities.flags);
    lemma_le_u32(capabilities.data_transfer_size);
    lemma_le_u32(capabilities.max_spdm_msg_size);
    if with_body {
        if with_sizes {
            let sizes = capabilities_sizes(capabilities);
            lemma_part(wire, seq![0u8, 0u8] + body, sizes, rest);
            lemma_part(wire, seq![0u8, 0u8], body, sizes + rest);
            assert(wire.subrange(10, 14) =~= sizes.subrange(0, 4));
            assert(wire.subrange(14, 18) =~= sizes.subrange(4, 8));
            assert(sizes.subrange(0, 4) =~= le_bytes_u32(capabilities.data_transfer_size));
            assert(sizes.subrange(4, 8) =~= le_bytes_u32(capabilities.max_spdm_msg_size));
        } else {
            lemma_part(wire, seq![0u8, 0u8], body, rest);
        }
        assert(wire[3] == body[1]);
        assert(wire.subrange(6, 10) =~= body.subrange(4, 8));
        assert(body.subrange(4, 8) =~= le_bytes_u32(capabilities.flags));
    }
}

/// The payload of GET_CAPABILITIES.
#[derive(Clone, Copy, Debug, PartialEq, Eq, Structural)]
pub struct SpdmGetCapabilitiesRequestPayload {
    pub capabilities: SpdmCapabilities,
}

/// A request of this version says what the requester can do.
pub open spec fn spec_request_has_body(version: SpdmVersion) -> bool {
    version != SpdmVersion::SpdmVersion10
}

/// A message of this version carries the two sizes.
pub open spec fn spec_has_sizes(version: SpdmVersion) -> bool {
    version == SpdmVersion::SpdmVersion12
}

/// Tells whether a request of this version says what the requester can do.
#[verifier::when_used_as_spec(spec_request_has_body)]
pub fn request_has_body(version: SpdmVersion) -> (r: bool)
    ensures
        r == spec_request_has_body(version),
{
    match version {
        SpdmVersion::SpdmVersion10 => false,
        _ => true,
    }
}

/// Tells whether a message of this version carries the two sizes.
#[verifier::when_used_as_spec(spec_has_sizes)]
pub fn has_sizes(version: SpdmVersion) -> (r: bool)
    ensures
        r == spec_has_sizes(version),
{
    match version {
        SpdmVersion::SpdmVersion12 => true,
        _ => false,
    }
}

impl SpdmCodec for SpdmGetCapabilitiesRequestPayload {
    open spec fn spdm_spec_valid(&self, context: &SpdmContext) -> bool {
        capabilities_valid(
            self.capabilities,
            REQUESTER_CAPABILITY_MASK,
            spec_request_has_body(context.negotiate_info.spdm_version_sel),
            spec_has_sizes(context.negotiate_info.spdm_version_sel),
        )
    }

    open spec fn spdm_spec_encode(&self, context: &SpdmContext) -> Seq<u8> {
        capabilities_wire(
            self.capabilities,
            spec_request_has_body(context.negotiate_info.spdm_version_sel),
            spec_has_sizes(context.negotiate_info.spdm_version_sel),
        )
    }

    open spec fn spdm_spec_read(context: &SpdmContext, bytes: Seq<u8>) -> Option<
        (SpdmGetCapabilitiesRequestPayload, nat),
    > {
        match capabilities_read(
            bytes,
            REQUESTER_CAPABILITY_MASK,
            spec_request_has_body(context.negotiate_info.spdm_version_sel),
            spec_has_sizes(context.negotiate_info.spdm_version_sel),
        ) {
            Some((capabilities, used)) => Some(
                (SpdmGetCapabilitiesRequestPayload { capabilities }, used),
            ),
            None => None,
        }
    }

    fn spdm_size(&self, context: &SpdmContext) -> (r: usize) {
        let version = context.negotiate_info.spdm_version_sel;
        capabilities_size(request_has_body(version), has_sizes(version))
    }

    fn spdm_encode(&self, context: &mut SpdmContext, bytes: &mut Writer) {
        let version = context.negotiate_info.spdm_version_sel;
        encode_capabilities(&self.capabilities, request_has_body(version), has_sizes(version), bytes);
    }

    fn spdm_read(context: &mut SpdmContext, r: &mut Reader) -> (v: Option<
        SpdmGetCapabilitiesRequestPayload,
    >) {
        let version = context.negotiate_info.spdm_version_sel;
        let capabilities = read_capabilities(
            r,
            REQUESTER_CAPABILITY_MASK,
            request_has_body(version),
            has_sizes(version),
        )?;
        Some(SpdmGetCapabilitiesRequestPayload { capabilities })
    }

    proof fn lemma_spdm_round_trip(&self, context: &SpdmContext, rest: Seq<u8>) {
        lemma_capabilities_round_trip(
            self.capabilities,
            REQUESTER_CAPABILITY_MASK,
            spec_request_has_body(context.negotiate_info.spdm_version_sel),
            spec_has_sizes(context.negotiate_info.spdm_version_sel),
            rest,
        );
    }
}

/// The payload of CAPABILITIES.
#[derive(Clone, Copy, Debug, PartialEq, Eq, Structural)]
pub struct SpdmCapabilitiesResponsePayload {
    pub capabilities: SpdmCapabilities,
}

impl SpdmCodec for SpdmCapabilitiesResponsePayload {
    open spec fn spdm_spec_valid(&self, context: &SpdmContext) -> bool {
        capabilities_valid(
            self.capabilities,
            RESPONDER_CAPABILITY_MASK,
            true,
            spec_has_sizes(context.negotiate_info.spdm_version_sel),
        )
    }

    open spec fn spdm_spec_encode(&self, context: &SpdmContext) -> Seq<u8> {
        capabilities_wire(
            self.capabilities,
            true,
            spec_has_sizes(context.negotiate_info.spdm_version_sel),
        )
    }

    open spec fn spdm_spec_read(context: &SpdmContext, bytes: Seq<u8>) -> Option<
        (SpdmCapabilitiesResponsePayload, nat),
    > {
        match capabilities_read(
            bytes,
            RESPONDER_CAPABILITY_MASK,
            true,
            spec_has_sizes(context.negotiate_info.spdm_version_sel),
        ) {
            Some((capabilities, used)) => Some(
                (SpdmCapabilitiesResponsePayload { capabilities }, used),
            ),
            None => None,
        }
    }

    fn spdm_size(&self, context: &SpdmContext) -> (r: usize) {
        let version = context.negotiate_info.spdm_version_sel;
        capabilities_size(true, has_sizes(version))
    }

    fn spdm_encode(&self, context: &mut SpdmContext, bytes: &mut Writer) {
        let version = context.negotiate_info.spdm_version_sel;
        encode_capabilities(&self.capabilities, true, has_sizes(version), bytes);
    }

    fn spdm_read(context: &mut SpdmContext, r: &mut Reader) -> (v: Option<
        SpdmCapabilitiesResponsePayload,
    >) {
        let version = context.negotiate_info.spdm_version_sel;
        let capabilities = read_capabilities(r, RESPONDER_CAPABILITY_MASK, true, has_sizes(version))?;
        Some(SpdmCapabilitiesResponsePayload { capabilities })
    }

    proof fn lemma_spdm_round_trip(&self, context: &SpdmContext, rest: Seq<u8>) {
        lemma_capabilities_round_trip(
            self.capabilities,
            RESPONDER_CAPABILITY_MASK,
            true,
            spec_has_sizes(context.negotiate_info.spdm_version_sel),
            rest,
        );
    }
}

/// Takes what the two sides can do into the connection.
pub fn note_capabilities(
    context: &mut SpdmContext,
    request: &SpdmGetCapabilitiesRequestPayload,
    response: &SpdmCapabilitiesResponsePayload,
)
    ensures
        final(context).runtime_info == old(context).runtime_info,
        final(context).negotiate_info == (crate::common::SpdmNegotiateInfo {
            req_ct_exponent_sel: request.capabilities.ct_exponent,
            req_capabilities_sel: request.capabilities.flags,
            rsp_ct_exponent_sel: response.capabilities.ct_exponent,
            rsp_capabilities_sel: response.capabilities.flags,
            ..old(context).negotiate_info
        }),
{
    context.negotiate_info.req_ct_exponent_sel = request.capabilities.ct_exponent;
    context.negotiate_info.req_capabilities_sel = request.capabilities.flags;
    context.negotiate_info.rsp_ct_exponent_sel = response.capabilities.ct_exponent;
    context.negotiate_info.rsp_capabilities_sel = response.capabilities.flags;
}

} // verus!
