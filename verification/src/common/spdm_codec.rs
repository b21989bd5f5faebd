//! The wire codec of message payloads, whose layout may depend on what the
//! connection has negotiated.

use crate::codec::{kept_behind, Reader, Writer};
use crate::common::SpdmContext;
use crate::error::{SpdmError, SpdmResult};
use crate::message::header::SpdmRequestResponseCode;
use crate::protocol::SpdmVersion;
use vstd::prelude::*;

verus! {

/// A message payload with a wire form that depends on the connection.
///
/// `spdm_spec_encode` is the wire form, `spdm_spec_read` the parse of the
/// front of a byte string, and `lemma_spdm_round_trip` the law that ties them
/// together.
pub trait SpdmCodec: Sized {
    /// The payload can be put on the wire of this connection.
    spec fn spdm_spec_valid(&self, context: &SpdmContext) -> bool;

    /// The wire form of the payload on this connection.
    spec fn spdm_spec_encode(&self, context: &SpdmContext) -> Seq<u8>;

    /// The payload at the front of `bytes` and the number of bytes it takes,
    /// or nothing where `bytes` does not start with a wire form.
    spec fn spdm_spec_read(context: &SpdmContext, bytes: Seq<u8>) -> Option<(Self, nat)>;

    /// The length of the wire form of the payload on this connection.
    fn spdm_size(&self, context: &SpdmContext) -> (r: usize)
        requires
            self.spdm_spec_valid(context),
        ensures
            r == self.spdm_spec_encode(context).len(),
    ;

    /// Appends the wire form where it fits; where it does not, what was written
    /// before stays in place in front of whatever was added. The connection
    /// stays as it is.
    fn spdm_encode(&self, context: &mut SpdmContext, bytes: &mut Writer)
        requires
            old(bytes).wf(),
            self.spdm_spec_valid(old(context)),
        ensures
            *final(context) == *old(context),
            final(bytes).wf(),
            final(bytes).capacity() == old(bytes).capacity(),
            final(final(bytes).bytes)@ == final(old(bytes).bytes)@,
            old(bytes).spec_left() >= self.spdm_spec_encode(old(context)).len() ==> final(bytes)@
                == old(bytes)@ + self.spdm_spec_encode(old(context)),
            old(bytes)@.is_prefix_of(final(bytes)@),
            kept_behind(old(bytes).bytes@, final(bytes).bytes@, final(bytes).used as int),
    ;

    /// Reads one payload from the front of what is left. The connection stays
    /// as it is.
    fn spdm_read(context: &mut SpdmContext, r: &mut Reader) -> (v: Option<Self>)
        requires
            old(r).wf(),
        ensures
            *final(context) == *old(context),
            final(r).wf(),
            final(r).buffer() == old(r).buffer(),
            v.is_some() <==> Self::spdm_spec_read(old(context), old(r).remaining()).is_some(),
            v matches Some(value) ==> Self::spdm_spec_read(old(context), old(r).remaining())
                matches Some((s, n)) && s == value && value.spdm_spec_valid(old(context)) && n
                <= old(r).remaining().len() && final(r).spec_used() == old(r).spec_used() + n
                && final(r).remaining() == old(r).remaining().subrange(
                n as int,
                old(r).remaining().len() as int,
            ),
    ;

    /// Reading the wire form of a payload gives the payload back and takes
    /// exactly its bytes, whatever follows them.
    proof fn lemma_spdm_round_trip(&self, context: &SpdmContext, rest: Seq<u8>)
        requires
            self.spdm_spec_valid(context),
        ensures
            Self::spdm_spec_read(context, self.spdm_spec_encode(context) + rest) == Some(
                (*self, self.spdm_spec_encode(context).len()),
            ),
    ;
}

/// The payload that `payload` is, which must be one and nothing more: a
/// byte string that is no payload of the kind on this connection, or that
/// holds anything behind the payload, is refused with `InvalidMsgField`.
pub open spec fn spec_decode_payload<T: SpdmCodec>(context: SpdmContext, payload: Seq<u8>)
    -> SpdmResult<T> {
    match T::spdm_spec_read(&context, payload) {
        Some((value, used)) => if used == payload.len() {
            Ok(value)
        } else {
            Err(SpdmError::InvalidMsgField)
        },
        None => Err(SpdmError::InvalidMsgField),
    }
}

/// The payload that `payload` is, which must be one and nothing more. See
/// [`spec_decode_payload`].
pub fn decode_payload<T: SpdmCodec>(context: &mut SpdmContext, payload: &[u8]) -> (r: SpdmResult<T>)
    ensures
        *final(context) == *old(context),
        r == spec_decode_payload::<T>(*old(context), payload@),
        r matches Ok(value) ==> value.spdm_spec_valid(old(context)),
{
    let mut reader = Reader::init(payload);
    match T::spdm_read(context, &mut reader) {
        Some(value) => if reader.left() == 0 {
            Ok(value)
        } else {
            Err(SpdmError::InvalidMsgField)
        },
        None => Err(SpdmError::InvalidMsgField),
    }
}

/// A message on the wire: the header, and the payload behind it.
pub open spec fn spec_message(
    version: SpdmVersion,
    code: SpdmRequestResponseCode,
    payload: Seq<u8>,
) -> Seq<u8> {
    seq![version.spec_u8(), code.spec_u8()] + payload
}

/// Writes the message with the given header and payload to the start of
/// `buffer`, and returns its length; what lies in `buffer` behind the message
/// stays as it is. A message that does not fit is refused with
/// `InvalidMsgField`, and `buffer` then stays as it is.
pub fn encode_message<T: SpdmCodec>(
    context: &mut SpdmContext,
    version: SpdmVersion,
    code: SpdmRequestResponseCode,
    payload: &T,
    buffer: &mut [u8],
) -> (r: SpdmResult<usize>)
    requires
        payload.spdm_spec_valid(old(context)),
    ensures
        *final(context) == *old(context),
        final(buffer)@.len() == old(buffer)@.len(),
        r == if 2 + payload.spdm_spec_encode(old(context)).len() <= old(buffer)@.len() {
            Ok::<usize, SpdmError>((2 + payload.spdm_spec_encode(old(context)).len()) as usize)
        } else {
            Err::<usize, SpdmError>(SpdmError::InvalidMsgField)
        },
        r matches Ok(used) ==> final(buffer)@.subrange(0, used as int) == spec_message(
            version,
            code,
            payload.spdm_spec_encode(old(context)),
        ),
        r matches Ok(used) ==> kept_behind(old(buffer)@, final(buffer)@, used as int),
        r.is_err() ==> final(buffer)@ == old(buffer)@,
{
    let size: usize = payload.spdm_size(context);
    if buffer.len() < 2 || buffer.len() - 2 < size {
        return Err(SpdmError::InvalidMsgField);
    }
    let mut writer = Writer::init(buffer);
    let ghost start = writer@;
    assert(start =~= Seq::<u8>::empty());
    assert(start + Seq::<u8>::empty() =~= start);
    writer.put_u8(version.get_u8(), Ghost(start), Ghost(Seq::<u8>::empty()));
    writer.put_u8(
        code.get_u8(),
        Ghost(start),
        Ghost(Seq::<u8>::empty() + seq![version.spec_u8()]),
    );
    let ghost head = seq![version.spec_u8(), code.spec_u8()];
    assert(writer@ =~= head);
    payload.spdm_encode(context, &mut writer);
    assert(writer@ == spec_message(version, code, payload.spdm_spec_encode(old(context))));
    Ok(writer.used())
}

} // verus!
