//! Certificate chains: their reassembly from the portions of a chunked
//! transfer, and their framing.
//!
//! On the wire a chain is `total length (2) | reserved (2) | digest of the
//! root certificate | DER certificates`, the length low byte first and
//! counting the whole chain.

use crate::bytes::{append_bytes, bytes_equal};
use crate::codec::{le_bytes_u16, le_value_u16, lemma_le_u16};
use crate::config::MAX_SPDM_CERT_CHAIN_DATA_SIZE;
use crate::crypto::cert_operation::{
    get_cert_from_cert_chain, spec_get_cert_from_cert_chain, spec_verify_cert_chain,
    verify_cert_chain,
};
use crate::crypto::hash::{hash_all, spec_hash_all};
use crate::crypto::{ProviderSlot, SpdmCertOperation, SpdmHash};
use crate::error::{SpdmError, SpdmResult};
use crate::protocol::{SpdmBaseHashAlgo, SpdmCertChainData, SpdmDigestStruct};
use vstd::prelude::*;
use vstd::slice::slice_subrange;

verus! {

/// Adds a portion of a chunked transfer behind what `chain` holds. A chain
/// that would grow beyond the largest chain is refused with
/// `InvalidCertChain`, and stays as it is.
pub fn append_cert_chain_portion(chain: &mut SpdmCertChainData, portion: &[u8]) -> (r: SpdmResult)
    requires
        old(chain).wf(),
    ensures
        final(chain).wf(),
        r == if old(chain)@.len() + portion@.len() <= MAX_SPDM_CERT_CHAIN_DATA_SIZE {
            Ok::<(), SpdmError>(())
        } else {
            Err::<(), SpdmError>(SpdmError::InvalidCertChain)
        },
        r.is_ok() ==> final(chain)@ == old(chain)@ + portion@,
        r.is_err() ==> *final(chain) == *old(chain),
{
    let used: usize = chain.data_size as usize;
    if portion.len() > MAX_SPDM_CERT_CHAIN_DATA_SIZE - used {
        return Err(SpdmError::InvalidCertChain);
    }
    let mut i: usize = 0;
    while i < portion.len()
        invariant
            i <= portion@.len(),
            used == old(chain).data_size,
            used + portion@.len() <= 4096,
            chain.data_size == old(chain).data_size,
            forall|j: int| 0 <= j < used ==> chain.data@[j] == old(chain).data@[j],
            forall|j: int| 0 <= j < i ==> chain.data@[used + j] == portion@[j],
        decreases portion@.len() - i,
    {
        chain.data[used + i] = portion[i];
        i = i + 1;
    }
    chain.data_size = (used + portion.len()) as u16;
    assert(chain@ =~= old(chain)@ + portion@);
    Ok(())
}

/// The ranges of a framed chain: where the digest of the root certificate
/// ends and the certificates begin.
#[derive(Clone, Copy, Debug, PartialEq, Eq, Structural)]
pub struct SpdmCertChainLayout {
    pub root_hash_end: usize,
    pub total_length: usize,
}

/// A framed chain is well formed for a hash: it has a header, a root digest
/// and at least one byte of certificates, and its length field counts all of
/// it.
pub open spec fn cert_chain_well_framed(chain: Seq<u8>, hash_algo: SpdmBaseHashAlgo) -> bool {
    &&& chain.len() > 4 + hash_algo.spec_size()
    &&& chain.len() <= 0xFFFF
    &&& le_value_u16(chain.subrange(0, 2)) == chain.len()
}

/// Checks the framing of a chain and tells where its parts lie. A chain that
/// is too short for its header and root digest, that holds no certificate, or
/// whose length field does not count all of it, is refused with
/// `InvalidCertChain`.
pub fn parse_cert_chain(chain: &[u8], hash_algo: SpdmBaseHashAlgo) -> (r: SpdmResult<
    SpdmCertChainLayout,
>)
    ensures
        r == if cert_chain_well_framed(chain@, hash_algo) {
            Ok::<SpdmCertChainLayout, SpdmError>(
                SpdmCertChainLayout {
                    root_hash_end: (4 + hash_algo.spec_size()) as usize,
                    total_length: chain@.len() as usize,
                },
            )
        } else {
            Err::<SpdmCertChainLayout, SpdmError>(SpdmError::InvalidCertChain)
        },
{
    let hash_size: usize = hash_algo.get_size() as usize;
    if chain.len() <= 4 + hash_size || chain.len() > 0xFFFF {
        return Err(SpdmError::InvalidCertChain);
    }
    let total: usize = chain[0] as usize + (chain[1] as usize) * 256;
    assert(total == le_value_u16(chain@.subrange(0, 2)));
    if total != chain.len() {
        return Err(SpdmError::InvalidCertChain);
    }
    Ok(SpdmCertChainLayout { root_hash_end: 4 + hash_size, total_length: total })
}

/// The framed chain of the certificates `root_cert` and, behind it,
/// `other_certs`, or why there is none: the length of the whole, two
/// reserved bytes, the digest of the root certificate, and the certificates.
/// A chain of more than 65535 bytes is `InvalidCertChain`; where the digest
/// cannot be had the result is `Fault`.
pub open spec fn spec_frame_cert_chain<H: SpdmHash>(
    hash: Option<H>,
    hash_algo: SpdmBaseHashAlgo,
    root_cert: Seq<u8>,
    other_certs: Seq<u8>,
) -> SpdmResult<Seq<u8>> {
    let total = 4 + hash_algo.spec_size() + root_cert.len() + other_certs.len();
    if total > 0xffff {
        Err(SpdmError::InvalidCertChain)
    } else {
        match spec_hash_all(hash, hash_algo, root_cert) {
            Some(root_hash) => Ok(
                le_bytes_u16(total as u16) + seq![0u8, 0u8] + root_hash@ + root_cert + other_certs,
            ),
            None => Err(SpdmError::Fault),
        }
    }
}

/// Frames a chain of certificates for the wire. See
/// [`spec_frame_cert_chain`]. A chain that holds a certificate is well
/// framed.
pub fn frame_cert_chain<H: SpdmHash>(
    hash_slot: &ProviderSlot<H>,
    hash_algo: SpdmBaseHashAlgo,
    root_cert: &[u8],
    other_certs: &[u8],
) -> (r: SpdmResult<Vec<u8>>)
    ensures
        match spec_frame_cert_chain(hash_slot.provider(), hash_algo, root_cert@, other_certs@) {
            Ok(chain) => r matches Ok(framed) && framed@ == chain && (root_cert@.len()
                + other_certs@.len() > 0 ==> cert_chain_well_framed(chain, hash_algo)),
            Err(e) => r matches Err(refused) && refused == e,
        },
{
    let hash_size: usize = hash_algo.get_size() as usize;
    if root_cert.len() > 0xffff || other_certs.len() > 0xffff || 4 + hash_size + root_cert.len()
        + other_certs.len() > 0xffff {
        return Err(SpdmError::InvalidCertChain);
    }
    let total: usize = 4 + hash_size + root_cert.len() + other_certs.len();
    let root_hash = match hash_all(hash_slot, hash_algo, root_cert) {
        Some(root_hash) => root_hash,
        None => {
            return Err(SpdmError::Fault);
        },
    };
    let mut chain: Vec<u8> = Vec::new();
    chain.push((total % 256) as u8);
    chain.push((total / 256) as u8);
    chain.push(0u8);
    chain.push(0u8);
    assert(chain@ =~= le_bytes_u16(total as u16) + seq![0u8, 0u8]);
    append_bytes(&mut chain, root_hash.as_ref());
    append_bytes(&mut chain, root_cert);
    append_bytes(&mut chain, other_certs);
    proof {
        lemma_le_u16(total as u16);
        assert(chain@.subrange(0, 2) =~= le_bytes_u16(total as u16));
    }
    Ok(chain)
}

/// What is known of a chain that was checked: where its last certificate,
/// that of the device, lies in it, and the digest of that certificate.
#[derive(Clone, Copy, Debug)]
pub struct SpdmCheckedCertChain {
    pub leaf_start: usize,
    pub leaf_end: usize,
    pub leaf_hash: SpdmDigestStruct,
}

/// What checking the chain of a peer comes to.
///
/// - A chain that is not well framed is refused with `InvalidCertChain`.
/// - So is one whose root digest is not `root_hash`, where a root was
///   provisioned.
/// - The certificates must verify, each signed by the one before it: the
///   error of the provider is the result where they do not.
/// - The last certificate is looked up; the error of the provider is the
///   result where there is none.
/// - Its digest is taken: the result is `Fault` where it cannot be had.
pub open spec fn spec_check_cert_chain<H: SpdmHash, C: SpdmCertOperation>(
    hash: Option<H>,
    cert: Option<C>,
    hash_algo: SpdmBaseHashAlgo,
    chain: Seq<u8>,
    root_hash: Option<Seq<u8>>,
) -> SpdmResult<SpdmCheckedCertChain> {
    let certs_at = 4 + hash_algo.spec_size() as int;
    let certs = chain.subrange(certs_at, chain.len() as int);
    if !cert_chain_well_framed(chain, hash_algo) {
        Err(SpdmError::InvalidCertChain)
    } else if root_hash.is_some() && root_hash.unwrap() != chain.subrange(4, certs_at) {
        Err(SpdmError::InvalidCertChain)
    } else {
        match spec_verify_cert_chain(cert, certs) {
            Err(e) => Err(e),
            Ok(()) => match spec_get_cert_from_cert_chain(cert, certs, -1isize) {
                Err(e) => Err(e),
                Ok((start, end)) => match spec_hash_all(
                    hash,
                    hash_algo,
                    certs.subrange(start as int, end as int),
                ) {
                    Some(leaf_hash) => Ok(
                        SpdmCheckedCertChain {
                            leaf_start: (certs_at + start) as usize,
                            leaf_end: (certs_at + end) as usize,
                            leaf_hash,
                        },
                    ),
                    None => Err(SpdmError::Fault),
                },
            },
        }
    }
}

/// Checks the chain of a peer, as it was reassembled, against the root that
/// was provisioned, if one was, and finds the certificate of the device in
/// it. See [`spec_check_cert_chain`].
pub fn check_cert_chain<H: SpdmHash, C: SpdmCertOperation>(
    hash_slot: &ProviderSlot<H>,
    cert_slot: &ProviderSlot<C>,
    hash_algo: SpdmBaseHashAlgo,
    chain: &[u8],
    root_hash: Option<&[u8]>,
) -> (r: SpdmResult<SpdmCheckedCertChain>)
    ensures
        r == spec_check_cert_chain(
            hash_slot.provider(),
            cert_slot.provider(),
            hash_algo,
            chain@,
            match root_hash {
                Some(root_hash) => Some(root_hash@),
                None => None,
            },
        ),
        r matches Ok(checked) ==> 4 + hash_algo.spec_size() <= checked.leaf_start
            <= checked.leaf_end <= chain@.len() && checked.leaf_hash.wf()
            && checked.leaf_hash@.len() == hash_algo.spec_size(),
{
    let layout = parse_cert_chain(chain, hash_algo)?;
    let certs_at: usize = layout.root_hash_end;
    match root_hash {
        Some(root_hash) => {
            if !bytes_equal(root_hash, slice_subrange(chain, 4, certs_at)) {
                return Err(SpdmError::InvalidCertChain);
            }
        },
        None => {},
    }
    let certs = slice_subrange(chain, certs_at, chain.len());
    verify_cert_chain(cert_slot, certs)?;
    let (start, end) = get_cert_from_cert_chain(cert_slot, certs, -1)?;
    match hash_all(hash_slot, hash_algo, slice_subrange(certs, start, end)) {
        Some(leaf_hash) => Ok(
            SpdmCheckedCertChain {
                leaf_start: certs_at + start,
                leaf_end: certs_at + end,
                leaf_hash,
            },
        ),
        None => Err(SpdmError::Fault),
    }
}

} // verus!
