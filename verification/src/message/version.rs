//! GET_VERSION and VERSION: the first exchange of a connection, in which the
//! responder lists the versions it speaks.
//!
//! Behind the header the response is `param1 | param2 | reserved | count`,
//! all but the count zero, and then one entry of two bytes for each version:
//! the update number and, in the second byte, major and minor number.

use crate::codec::{kept_behind, Codec, Reader, Writer};
use crate::common::negotiate::{select_version, spec_select_version};
use crate::common::spdm_codec::SpdmCodec;
use crate::common::SpdmContext;
use crate::error::{SpdmError, SpdmResult};
use crate::protocol::SpdmVersion;
use vstd::prelude::*;

verus! {

/// The largest number of versions that a response lists.
pub const MAX_SPDM_VERSION_COUNT: usize = 5;

/// The payload of GET_VERSION.
#[derive(Debug, Clone, Copy, Default, PartialEq, Eq, Structural)]
pub struct SpdmGetVersionRequestPayload {}

impl SpdmCodec for SpdmGetVersionRequestPayload {
    open spec fn spdm_spec_valid(&self, context: &SpdmContext) -> bool {
        true
    }

    open spec fn spdm_spec_encode(&self, context: &SpdmContext) -> Seq<u8> {
        seq![0u8, 0u8]
    }

    open spec fn spdm_spec_read(context: &SpdmContext, bytes: Seq<u8>) -> Option<
        (SpdmGetVersionRequestPayload, nat),
    > {
        if bytes.len() >= 2 {
            Some((SpdmGetVersionRequestPayload {  }, 2))
        } else {
            None
        }
    }

    fn spdm_size(&self, context: &SpdmContext) -> (r: usize) {
        2
    }

    fn spdm_encode(&self, _context: &mut SpdmContext, bytes: &mut Writer) {
        0u8.encode(bytes);  // param1
        0u8.encode(bytes);  // param2
        assert(old(bytes).spec_left() >= 2 ==> bytes@ =~= old(bytes)@ + seq![0u8, 0u8]);
    }

    fn spdm_read(_context: &mut SpdmContext, r: &mut Reader) -> (v: Option<
        SpdmGetVersionRequestPayload,
    >) {
        u8::read(r)?;  // param1
        u8::read(r)?;  // param2
        assert(r.remaining() =~= old(r).remaining().subrange(2, old(r).remaining().len() as int));
        Some(SpdmGetVersionRequestPayload {  })
    }

    proof fn lemma_spdm_round_trip(&self, context: &SpdmContext, rest: Seq<u8>) {
    }
}

/// One entry of a version list.
#[derive(Debug, Clone, Copy, PartialEq, Eq, Structural)]
pub struct SpdmVersionStruct {
    pub update: u8,
    pub version: SpdmVersion,
}

/// The entry that fills the unused places of a version list.
pub open spec fn blank_version_entry() -> SpdmVersionStruct {
    SpdmVersionStruct { update: 0, version: SpdmVersion::SpdmVersion10 }
}

/// The wire form of a list of entries: two bytes each, the update number
/// first.
pub open spec fn version_entries_wire(entries: Seq<SpdmVersionStruct>) -> Seq<u8> {
    Seq::new(
        2 * entries.len(),
        |i: int|
            if i % 2 == 0 {
                entries[i / 2].update
            } else {
                entries[i / 2].version.spec_u8()
            },
    )
}

/// Every one of the first `count` entries in `bytes` names a version that is
/// known.
pub open spec fn version_entries_known(bytes: Seq<u8>, count: int) -> bool {
    forall|i: int| 0 <= i < count ==> SpdmVersion::spec_from_u8(#[trigger] bytes[2 * i + 1]).is_some()
}

/// The first `count` entries in `bytes`, with blank entries behind them up to
/// five.
pub open spec fn version_entries_read(bytes: Seq<u8>, count: int) -> Seq<SpdmVersionStruct> {
    Seq::new(
        5,
        |i: int|
            if i < count {
                SpdmVersionStruct {
                    update: bytes[2 * i],
                    version: SpdmVersion::spec_from_u8(bytes[2 * i + 1]).unwrap(),
                }
            } else {
                blank_version_entry()
            },
    )
}

/// The payload of VERSION: the number of versions and the versions, in the
/// first places of the list.
#[derive(Debug, Clone, Copy)]
pub struct SpdmVersionResponsePayload {
    pub version_number_entry_count: u8,
    pub versions: [SpdmVersionStruct; 5],
}

impl SpdmVersionResponsePayload {
    /// The versions that the response lists.
    pub open spec fn listed(&self) -> Seq<SpdmVersionStruct> {
        self.versions@.subrange(0, self.version_number_entry_count as int)
    }

    /// The response that lists `versions`, none for more than five.
    pub fn new(versions: &[SpdmVersion]) -> (r: Option<SpdmVersionResponsePayload>)
        ensures
            r.is_some() == (versions@.len() <= 5),
            r matches Some(payload) ==> payload.version_number_entry_count == versions@.len()
                && payload.listed().len() == versions@.len() && (forall|i: int|
                0 <= i < versions@.len() ==> (#[trigger] payload.versions@[i])
                    == (SpdmVersionStruct { update: 0, version: versions@[i] })) && (forall|i: int|
                versions@.len() <= i < 5 ==> (#[trigger] payload.versions@[i])
                    == blank_version_entry()),
    {
        if versions.len() > 5 {
            return None;
        }
        let blank = SpdmVersionStruct { update: 0, version: SpdmVersion::SpdmVersion10 };
        let mut list = [blank, blank, blank, blank, blank];
        let mut i: usize = 0;
        while i < versions.len()
            invariant
                i <= versions@.len(),
                versions@.len() <= 5,
                forall|j: int|
                    0 <= j < i ==> (#[trigger] list@[j]) == (SpdmVersionStruct {
                        update: 0,
                        version: versions@[j],
                    }),
                forall|j: int| i <= j < 5 ==> (#[trigger] list@[j]) == blank_version_entry(),
            decreases versions@.len() - i,
        {
            list[i] = SpdmVersionStruct { update: 0, version: versions[i] };
            i = i + 1;
        }
        Some(
            SpdmVersionResponsePayload {
                version_number_entry_count: versions.len() as u8,
                versions: list,
            },
        )
    }

    /// The versions that the response lists, without their update numbers.
    pub open spec fn spec_listed_versions(&self) -> Seq<SpdmVersion> {
        Seq::new(self.version_number_entry_count as nat, |i: int| self.versions@[i].version)
    }

    /// The versions that the response lists, without their update numbers.
    pub fn listed_versions(&self) -> (r: Vec<SpdmVersion>)
        requires
            self.version_number_entry_count <= 5,
        ensures
            r@ == self.spec_listed_versions(),
    {
        let mut r: Vec<SpdmVersion> = Vec::new();
        let mut i: usize = 0;
        while i < self.version_number_entry_count as usize
            invariant
                i <= self.version_number_entry_count <= 5,
                r@.len() == i,
                forall|j: int| 0 <= j < i ==> r@[j] == (#[trigger] self.versions@[j]).version,
            decreases self.version_number_entry_count - i,
        {
            r.push(self.versions[i].version);
            i = i + 1;
        }
        assert(r@ =~= self.spec_listed_versions());
        r
    }
}

impl SpdmCodec for SpdmVersionResponsePayload {
    /// There are five versions at most, and the unused places of the list are
    /// blank.
    open spec fn spdm_spec_valid(&self, context: &SpdmContext) -> bool {
        &&& self.version_number_entry_count <= 5
        &&& forall|i: int|
            self.version_number_entry_count <= i < 5 ==> (#[trigger] self.versions@[i])
                == blank_version_entry()
    }

    open spec fn spdm_spec_encode(&self, context: &SpdmContext) -> Seq<u8> {
        seq![0u8, 0u8, 0u8, self.version_number_entry_count] + version_entries_wire(self.listed())
    }

    /// A response needs a count of five at most and that many entries, each
    /// of a version that is known.
    open spec fn spdm_spec_read(context: &SpdmContext, bytes: Seq<u8>) -> Option<
        (SpdmVersionResponsePayload, nat),
    > {
        if bytes.len() < 4 {
            None
        } else {
            let count = bytes[3] as int;
            let entries = bytes.subrange(4, bytes.len() as int);
            if count <= 5 && bytes.len() >= 4 + 2 * count && version_entries_known(entries, count) {
                Some(
                    (
                        SpdmVersionResponsePayload {
                            version_number_entry_count: bytes[3],
                            versions: choose|versions: [SpdmVersionStruct; 5]|
                                versions@ == version_entries_read(entries, count),
                        },
                        (4 + 2 * count) as nat,
                    ),
                )
            } else {
                None
            }
        }
    }

    fn spdm_size(&self, context: &SpdmContext) -> (r: usize) {
        let count: usize = self.version_number_entry_count as usize;
        let total: usize = 4 + 2 * count;
        assert(self.spdm_spec_encode(context).len() == total);
        total
    }

    fn spdm_encode(&self, context: &mut SpdmContext, bytes: &mut Writer) {
        let count: usize = self.version_number_entry_count as usize;
        let total: usize = 4 + 2 * count;
        assert(self.spdm_spec_encode(old(context)).len() == total);
        if bytes.left() < total {
            assert(old(bytes)@.is_prefix_of(bytes@));
            return;
        }
        0u8.encode(bytes);  // param1
        0u8.encode(bytes);  // param2
        0u8.encode(bytes);  // reserved
        self.version_number_entry_count.encode(bytes);
        let ghost head = seq![0u8, 0u8, 0u8, self.version_number_entry_count];
        assert(bytes@ =~= old(bytes)@ + head);
        let mut i: usize = 0;
        while i < count
            invariant
                i <= count <= 5,
                count == self.version_number_entry_count,
                bytes.wf(),
                bytes.capacity() == old(bytes).capacity(),
                final(bytes.bytes)@ == final(old(bytes).bytes)@,
                old(bytes).wf(),
                old(bytes).spec_left() >= 4 + 2 * count,
                head.len() == 4,
                bytes.used == old(bytes).used + 4 + 2 * i,
                kept_behind(old(bytes).bytes@, bytes.bytes@, bytes.used as int),
                bytes@ == old(bytes)@ + head + version_entries_wire(
                    self.versions@.subrange(0, i as int),
                ),
            decreases count - i,
        {
            let ghost before = bytes@;
            self.versions[i].update.encode(bytes);
            self.versions[i].version.get_u8().encode(bytes);
            proof {
                let shorter = version_entries_wire(self.versions@.subrange(0, i as int));
                let longer = version_entries_wire(self.versions@.subrange(0, i + 1));
                assert(longer =~= shorter + seq![
                    self.versions@[i as int].update,
                    self.versions@[i as int].version.spec_u8(),
                ]) by {
                    assert forall|k: int| 0 <= k < longer.len() implies longer[k] == (shorter
                        + seq![
                        self.versions@[i as int].update,
                        self.versions@[i as int].version.spec_u8(),
                    ])[k] by {
                        if k < 2 * i {
                            assert(self.versions@.subrange(0, i + 1)[k / 2]
                                == self.versions@.subrange(0, i as int)[k / 2]);
                        }
                    }
                }
                assert(bytes@ =~= before + seq![
                    self.versions@[i as int].update,
                    self.versions@[i as int].version.spec_u8(),
                ]);
                assert(bytes@ =~= old(bytes)@ + head + longer);
            }
            i = i + 1;
        }
        assert(bytes@ =~= old(bytes)@ + self.spdm_spec_encode(old(context)));
        assert(old(bytes)@.is_prefix_of(bytes@));
    }

    fn spdm_read(context: &mut SpdmContext, r: &mut Reader) -> (v: Option<
        SpdmVersionResponsePayload,
    >) {
        let ghost bytes = r.remaining();
        let fixed = r.take(4)?;
        assert(fixed@ =~= bytes.subrange(0, 4));
        let count: usize = fixed[3] as usize;
        if count > 5 {
            return None;
        }
        let wire = match r.take(2 * count) {
            Some(wire) => wire,
            None => {
                return None;
            },
        };
        let ghost entries = bytes.subrange(4, bytes.len() as int);
        assert(wire@ =~= entries.subrange(0, 2 * count));
        assert(r.remaining() =~= bytes.subrange(4 + 2 * count, bytes.len() as int));
        let blank = SpdmVersionStruct { update: 0, version: SpdmVersion::SpdmVersion10 };
        let mut versions = [blank, blank, blank, blank, blank];
        let mut i: usize = 0;
        while i < count
            invariant
                i <= count <= 5,
                r.wf(),
                r.buffer() == old(r).buffer(),
                bytes == old(r).remaining(),
                bytes.len() >= 4 + 2 * count,
                bytes[3] == count,
                entries == bytes.subrange(4, bytes.len() as int),
                entries.len() >= 2 * count,
                wire@.len() == 2 * count,
                wire@ == entries.subrange(0, 2 * count),
                version_entries_known(entries, i as int),
                forall|j: int|
                    0 <= j < 5 ==> (#[trigger] versions@[j]) == version_entries_read(
                        entries,
                        i as int,
                    )[j],
            decreases count - i,
        {
            let update: u8 = wire[2 * i];
            let version = match SpdmVersion::from_u8(wire[2 * i + 1]) {
                Some(version) => version,
                None => {
                    assert(entries[2 * i + 1] == wire@[2 * i + 1]);
                    assert(!version_entries_known(entries, count as int));
                    return None;
                },
            };
            versions[i] = SpdmVersionStruct { update, version };
            proof {
                assert(entries[2 * i] == wire@[2 * i as int]);
                assert(entries[2 * i + 1] == wire@[2 * i + 1]);
                assert forall|j: int| 0 <= j < i + 1 implies SpdmVersion::spec_from_u8(
                    #[trigger] entries[2 * j + 1],
                ).is_some() by {
                    if j < i {
                    }
                }
            }
            i = i + 1;
        }
        assert(versions@ =~= version_entries_read(entries, count as int));
        proof {
            let chosen = choose|other: [SpdmVersionStruct; 5]|
                other@ == version_entries_read(entries, count as int);
            assert(chosen@ == versions@);
            assert(chosen =~= versions);
        }
        Some(SpdmVersionResponsePayload { version_number_entry_count: fixed[3], versions })
    }

    proof fn lemma_spdm_round_trip(&self, context: &SpdmContext, rest: Seq<u8>) {
        let wire = self.spdm_spec_encode(context) + rest;
        let count = self.version_number_entry_count as int;
        let entries = wire.subrange(4, wire.len() as int);
        assert(wire[3] == self.version_number_entry_count);
        assert(entries.subrange(0, 2 * count) =~= version_entries_wire(self.listed()));
        assert forall|i: int| 0 <= i < count implies SpdmVersion::spec_from_u8(
            #[trigger] entries[2 * i + 1],
        ).is_some() by {
            assert(entries[2 * i + 1] == version_entries_wire(self.listed())[2 * i + 1]);
            assert(self.listed()[(2 * i + 1) / 2] == self.versions@[i]);
        }
        assert forall|i: int| 0 <= i < 5 implies self.versions@[i] == version_entries_read(
            entries,
            count,
        )[i] by {
            if i < count {
                assert(entries[2 * i] == version_entries_wire(self.listed())[2 * i]);
                assert(entries[2 * i + 1] == version_entries_wire(self.listed())[2 * i + 1]);
                assert(self.listed()[(2 * i) / 2] == self.versions@[i]);
                assert(self.listed()[(2 * i + 1) / 2] == self.versions@[i]);
            }
        }
        assert(self.versions@ =~= version_entries_read(entries, count));
        let chosen = choose|other: [SpdmVersionStruct; 5]|
            other@ == version_entries_read(entries, count);
        assert(chosen@ == self.versions@);
        assert(chosen =~= self.versions);
    }
}

/// What a VERSION response in `payload` means to a requester that speaks the
/// versions `local`: the version on which it goes on, the highest that both
/// sides speak, and the connection values with that version noted. A payload
/// that is no response, or holds anything behind it, is refused with
/// `InvalidMsgField`; a responder that speaks none of `local` with
/// `UnsupportedVersion`.
pub open spec fn spec_version_response_handled(
    context: SpdmContext,
    local: Seq<SpdmVersion>,
    payload: Seq<u8>,
) -> SpdmResult<(SpdmVersion, SpdmContext)> {
    match SpdmVersionResponsePayload::spdm_spec_read(&context, payload) {
        Some((response, used)) => if used == payload.len() {
            match spec_select_version(local, response.spec_listed_versions()) {
                Some(version) => Ok(
                    (
                        version,
                        SpdmContext {
                            negotiate_info: crate::common::SpdmNegotiateInfo {
                                spdm_version_sel: version,
                                ..context.negotiate_info
                            },
                            ..context
                        },
                    ),
                ),
                None => Err(SpdmError::UnsupportedVersion),
            }
        } else {
            Err(SpdmError::InvalidMsgField)
        },
        None => Err(SpdmError::InvalidMsgField),
    }
}

/// The version on which a requester that speaks the versions `local` goes on
/// after the VERSION response in `payload`, and which it notes in `context`.
/// A refusal leaves `context` as it is. See
/// [`spec_version_response_handled`].
pub fn handle_version_response(context: &mut SpdmContext, local: &[SpdmVersion], payload: &[u8])
    -> (r: SpdmResult<SpdmVersion>)
    ensures
        match spec_version_response_handled(*old(context), local@, payload@) {
            Ok((version, noted)) => r == Ok::<SpdmVersion, SpdmError>(version) && *final(context)
                == noted,
            Err(e) => r == Err::<SpdmVersion, SpdmError>(e) && *final(context) == *old(context),
        },
{
    let mut reader = Reader::init(payload);
    let response = match SpdmVersionResponsePayload::spdm_read(context, &mut reader) {
        Some(response) => response,
        None => {
            return Err(SpdmError::InvalidMsgField);
        },
    };
    if reader.left() != 0 {
        return Err(SpdmError::InvalidMsgField);
    }
    let peer = response.listed_versions();
    let version = select_version(local, peer.as_slice())?;
    context.negotiate_info.spdm_version_sel = version;
    Ok(version)
}

} // verus!
