//! PCI DOE discovery: the exchange by which a host walks the list of data
//! object types that a mailbox supports.
//!
//! A DOE message starts with two double words: vendor id (2 bytes, low byte
//! first), data object type (1), reserved (1), then the length of the whole
//! message in double words in the low 18 bits of the second double word,
//! where 0 stands for 2^18.

use crate::codec::{le_value_u16, le_value_u32};
use vstd::prelude::*;

verus! {

/// The vendor id of PCI-SIG.
pub const PCI_DOE_VENDOR_ID_PCISIG: u16 = 0x0001;

/// The data object type of a discovery request or response.
pub const PCI_DOE_DATA_OBJECT_TYPE_DOE_DISCOVERY: u8 = 0x00;

/// The data object type of an SPDM message.
pub const PCI_DOE_DATA_OBJECT_TYPE_SPDM: u8 = 0x01;

/// The data object type of a secured SPDM message.
pub const PCI_DOE_DATA_OBJECT_TYPE_SECURED_SPDM: u8 = 0x02;

/// The header of a DOE message, with the length of the payload in bytes.
#[derive(Clone, Copy, Debug, PartialEq, Eq, Structural)]
pub struct PciDoeMessageHeader {
    pub vendor_id: u16,
    pub data_object_type: u8,
    pub payload_length: u32,
}

/// The length field of a header: the low 18 bits of the second double word,
/// with 0 standing for 2^18.
pub open spec fn spec_doe_length(second_dword: u32) -> int {
    if second_dword % 0x40000 == 0 {
        0x40000
    } else {
        (second_dword % 0x40000) as int
    }
}

impl PciDoeMessageHeader {
    /// The header at the front of `bytes`: there must be eight bytes, and the
    /// length must cover the header itself.
    pub open spec fn spec_read(bytes: Seq<u8>) -> Option<PciDoeMessageHeader> {
        if bytes.len() >= 8 && spec_doe_length(le_value_u32(bytes.subrange(4, 8))) >= 2 {
            Some(
                PciDoeMessageHeader {
                    vendor_id: le_value_u16(bytes.subrange(0, 2)),
                    data_object_type: bytes[2],
                    payload_length: (spec_doe_length(le_value_u32(bytes.subrange(4, 8))) * 4
                        - 8) as u32,
                },
            )
        } else {
            None
        }
    }

    /// The header at the front of `bytes`.
    pub fn read(bytes: &[u8]) -> (r: Option<PciDoeMessageHeader>)
        ensures
            r == Self::spec_read(bytes@),
    {
        if bytes.len() < 8 {
            return None;
        }
        let vendor_id: u16 = bytes[0] as u16 + (bytes[1] as u16) * 256;
        let data_object_type: u8 = bytes[2];
        let second: u32 = bytes[4] as u32 + (bytes[5] as u32) * 256 + (bytes[6] as u32) * 65536
            + (bytes[7] as u32) * 16777216;
        assert(second == le_value_u32(bytes@.subrange(4, 8)));
        assert(vendor_id == le_value_u16(bytes@.subrange(0, 2)));
        let mut length: u32 = second % 0x40000;
        if length == 0 {
            length = 0x40000;
        }
        if length < 2 {
            return None;
        }
        Some(PciDoeMessageHeader { vendor_id, data_object_type, payload_length: length * 4 - 8 })
    }
}

/// The discovery response for a request: header and payload, twelve bytes in
/// all. The request must be a DOE message of PCI-SIG of the discovery type
/// whose ninth byte is an index from 0 to 2. The payload names the vendor,
/// the data object type at that index, and the index that follows, which is 0
/// after the last.
pub open spec fn spec_pci_discovery_response(request: Seq<u8>) -> Option<Seq<u8>> {
    match PciDoeMessageHeader::spec_read(request) {
        Some(header) => if header.vendor_id == PCI_DOE_VENDOR_ID_PCISIG && header.data_object_type
            == PCI_DOE_DATA_OBJECT_TYPE_DOE_DISCOVERY && request.len() >= 9 && request[8] <= 2 {
            Some(
                seq![
                    0x01u8,
                    0x00u8,
                    0x00u8,
                    0x00u8,
                    0x03u8,
                    0x00u8,
                    0x00u8,
                    0x00u8,
                    0x01u8,
                    0x00u8,
                    request[8],
                    ((request[8] + 1) % 3) as u8,
                ],
            )
        } else {
            None
        },
        None => None,
    }
}

/// The discovery response for `request`, or nothing where the request is
/// none: the caller then answers that the command is unknown.
pub fn pci_discovery_response(request: &[u8]) -> (r: Option<[u8; 12]>)
    ensures
        r.is_some() == spec_pci_discovery_response(request@).is_some(),
        r matches Some(response) ==> Some(response@) == spec_pci_discovery_response(request@),
{
    let mut unknown_message = false;
    match PciDoeMessageHeader::read(request) {
        Some(pcidoe_header) => {
            if pcidoe_header.vendor_id != PCI_DOE_VENDOR_ID_PCISIG {
                unknown_message = true;
            }
            if pcidoe_header.data_object_type != PCI_DOE_DATA_OBJECT_TYPE_DOE_DISCOVERY {
                unknown_message = true;
            }
        },
        None => {
            unknown_message = true;
        },
    }
    if unknown_message || request.len() < 9 {
        return None;
    }
    let discovery_index: u8 = request[8];
    if discovery_index > 2 {
        return None;
    }
    let next_index: u8 = (discovery_index + 1) % 3;
    let response: [u8; 12] = [
        0x01,
        0x00,
        0x00,
        0x00,
        0x03,
        0x00,
        0x00,
        0x00,
        0x01,
        0x00,
        discovery_index,
        next_index,
    ];
    assert(Some(response@) =~= spec_pci_discovery_response(request@)) by {
        assert(response@ =~= spec_pci_discovery_response(request@).unwrap());
    }
    Some(response)
}

} // verus!
