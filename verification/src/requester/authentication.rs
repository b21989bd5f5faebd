//! The part of the requester in the exchanges that authenticate the
//! responder: digests, certificates, and the challenge.

use crate::common::connection::{
    challenge_verified, exchange_recorded, SpdmConnection, SpdmExchange,
};
use crate::common::spdm_codec::{decode_payload, spec_decode_payload, SpdmCodec};
use crate::common::SpdmContext;
use crate::crypto::{ProviderSlot, SpdmAsymVerify, SpdmHash};
use crate::error::{SpdmError, SpdmResult};
use crate::message::certificate::{
    spec_certificate_portion_taken, take_certificate_portion, SpdmCertificateResponsePayload,
    SpdmGetCertificateRequestPayload,
};
use crate::message::challenge::SpdmChallengeAuthResponsePayload;
use crate::message::digest::SpdmDigestsResponsePayload;
use crate::message::header::SpdmRequestResponseCode;
use crate::protocol::SpdmCertChainData;
use crate::requester::{open_response, outcome, spec_open_response};
use vstd::prelude::*;
use vstd::slice::slice_subrange;

verus! {

/// The payload of the kind `T` that a response of the code `expected`
/// carries, or why the response is refused: the response must be of the
/// version of the connection, have the code `expected`, and carry one
/// payload and nothing more.
pub open spec fn spec_response_read<T: SpdmCodec>(
    context: SpdmContext,
    expected: SpdmRequestResponseCode,
    response: Seq<u8>,
) -> SpdmResult<T> {
    match spec_open_response(context, context.negotiate_info.spdm_version_sel, expected, response) {
        Ok(payload) => spec_decode_payload::<T>(context, payload),
        Err(e) => Err(e),
    }
}

/// The payload of the kind `T` that a response of the code `expected`
/// carries. See [`spec_response_read`].
pub fn read_response<T: SpdmCodec>(
    context: &mut SpdmContext,
    expected: SpdmRequestResponseCode,
    response: &[u8],
) -> (r: SpdmResult<T>)
    ensures
        *final(context) == *old(context),
        r == spec_response_read::<T>(*old(context), expected, response@),
        r matches Ok(value) ==> value.spdm_spec_valid(old(context)),
{
    let version = context.negotiate_info.spdm_version_sel;
    let payload = open_response(context, version, expected, response)?;
    decode_payload::<T>(context, payload)
}

/// Takes the response to GET_DIGESTS into the connection: the exchange is
/// recorded, and the digests are returned. A response that is refused
/// leaves the connection as it is. See [`spec_response_read`] and
/// [`exchange_recorded`].
pub fn take_digests_response<H: SpdmHash>(
    connection: &mut SpdmConnection<H>,
    hash_slot: &ProviderSlot<H>,
    context: &mut SpdmContext,
    request: &[u8],
    response: &[u8],
) -> (r: SpdmResult<SpdmDigestsResponsePayload>)
    requires
        old(connection).inv(),
    ensures
        final(connection).inv(),
        *final(context) == *old(context),
        match spec_response_read::<SpdmDigestsResponsePayload>(
            *old(context),
            SpdmRequestResponseCode::SpdmResponseDigests,
            response@,
        ) {
            Ok(digests) => exchange_recorded(
                *old(connection),
                *final(connection),
                SpdmExchange::Digests,
                request@,
                response@,
                outcome(r),
            ) && (r.is_ok() ==> r == Ok::<SpdmDigestsResponsePayload, SpdmError>(digests)),
            Err(e) => r == Err::<SpdmDigestsResponsePayload, SpdmError>(e) && *final(connection)
                == *old(connection),
        },
{
    let digests = read_response::<SpdmDigestsResponsePayload>(
        context,
        SpdmRequestResponseCode::SpdmResponseDigests,
        response,
    )?;
    connection.record_exchange(hash_slot, SpdmExchange::Digests, request, response)?;
    Ok(digests)
}

/// What the response to the GET_CERTIFICATE request `sent` means to a
/// requester that holds `held` bytes of the chain, before it is recorded: the
/// portion of the chain that the response carries, and whether the chain is
/// complete with it. See [`spec_certificate_portion_taken`].
pub open spec fn spec_certificate_response_read(
    context: SpdmContext,
    held: nat,
    sent: SpdmGetCertificateRequestPayload,
    response: Seq<u8>,
) -> SpdmResult<(Seq<u8>, bool)> {
    match spec_response_read::<SpdmCertificateResponsePayload>(
        context,
        SpdmRequestResponseCode::SpdmResponseCertificate,
        response,
    ) {
        Ok(received) => match spec_certificate_portion_taken(held, sent, received) {
            Ok(complete) => Ok((received.portion@, complete)),
            Err(e) => Err(e),
        },
        Err(e) => Err(e),
    }
}

/// Takes the response to the GET_CERTIFICATE request `sent` into the
/// connection: the portion that the response carries goes behind what
/// `chain` holds, the exchange is recorded, and the result says whether the
/// chain is complete. A response that is refused leaves connection and
/// `chain` as they are. See [`spec_certificate_response_read`] and
/// [`exchange_recorded`].
pub fn take_certificate_response<H: SpdmHash>(
    connection: &mut SpdmConnection<H>,
    hash_slot: &ProviderSlot<H>,
    context: &mut SpdmContext,
    chain: &mut SpdmCertChainData,
    sent: &SpdmGetCertificateRequestPayload,
    request: &[u8],
    response: &[u8],
) -> (r: SpdmResult<bool>)
    requires
        old(connection).inv(),
        old(chain).wf(),
    ensures
        final(connection).inv(),
        final(chain).wf(),
        *final(context) == *old(context),
        match spec_certificate_response_read(*old(context), old(chain)@.len(), *sent, response@) {
            Ok((portion, complete)) => exchange_recorded(
                *old(connection),
                *final(connection),
                SpdmExchange::Certificate,
                request@,
                response@,
                outcome(r),
            ) && (r.is_ok() ==> r == Ok::<bool, SpdmError>(complete) && final(chain)@ == old(chain)@
                + portion),
            Err(e) => r == Err::<bool, SpdmError>(e) && *final(connection) == *old(connection),
        },
        r.is_err() ==> *final(chain) == *old(chain),
{
    let received = read_response::<SpdmCertificateResponsePayload>(
        context,
        SpdmRequestResponseCode::SpdmResponseCertificate,
        response,
    )?;
    let mut grown = *chain;
    let complete = take_certificate_portion(&mut grown, sent, &received)?;
    connection.record_exchange(hash_slot, SpdmExchange::Certificate, request, response)?;
    *chain = grown;
    Ok(complete)
}

/// Takes the response to a challenge into the connection: request and
/// response, the latter without its signature, go into the transcript, and
/// the signature of the response is checked with the key in
/// `public_cert_der`. A response that is no CHALLENGE_AUTH response of the
/// connection leaves the connection as it is. See [`spec_response_read`] and
/// [`challenge_verified`].
pub fn take_challenge_auth_response<H: SpdmHash, V: SpdmAsymVerify>(
    connection: &mut SpdmConnection<H>,
    hash_slot: &ProviderSlot<H>,
    verify_slot: &ProviderSlot<V>,
    context: &mut SpdmContext,
    public_cert_der: &[u8],
    request: &[u8],
    response: &[u8],
) -> (r: SpdmResult<SpdmChallengeAuthResponsePayload>)
    requires
        old(connection).inv(),
    ensures
        final(connection).inv(),
        *final(context) == *old(context),
        match spec_response_read::<SpdmChallengeAuthResponsePayload>(
            *old(context),
            SpdmRequestResponseCode::SpdmResponseChallengeAuth,
            response@,
        ) {
            Ok(received) => challenge_verified(
                *old(connection),
                *final(connection),
                hash_slot.provider(),
                verify_slot.provider(),
                old(context).negotiate_info.base_asym_sel,
                public_cert_der@,
                request@,
                response@.subrange(0, response@.len() - received.signature.data_size),
                received.signature,
                outcome(r),
            ) && (r.is_ok() ==> r == Ok::<SpdmChallengeAuthResponsePayload, SpdmError>(received)),
            Err(e) => r == Err::<SpdmChallengeAuthResponsePayload, SpdmError>(e) && *final(connection) == *old(connection),
        },
{
    let received = read_response::<SpdmChallengeAuthResponsePayload>(
        context,
        SpdmRequestResponseCode::SpdmResponseChallengeAuth,
        response,
    )?;
    let signature_size: usize = received.signature.data_size as usize;
    let signed = slice_subrange(response, 0, response.len() - signature_size);
    connection.verify_challenge(
        hash_slot,
        verify_slot,
        context.negotiate_info.base_asym_sel,
        public_cert_der,
        request,
        signed,
        &received.signature,
    )?;
    Ok(received)
}

} // verus!
