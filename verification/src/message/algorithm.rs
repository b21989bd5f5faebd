//! NEGOTIATE_ALGORITHMS and ALGORITHMS: the exchange in which the requester
//! says which algorithms it offers and the responder says which of them both
//! sides run.
//!
//! Behind the header the request is `number of tables (1) | reserved (1) |
//! length (2) | measurement specifications (1) | other parameters (1) |
//! signature algorithms (4) | hashes (4) | reserved (12) | number of extended
//! signature algorithms (1) | number of extended hashes (1) | reserved (2) |
//! tables`, numbers low byte first. The length counts the whole message, its
//! header included. Key-agreement groups, record ciphers, signature
//! algorithms of the requester and key schedules, which came with version
//! 1.1, have a table each: `type (1) | 0x20 (1) | algorithms (2)`, where the
//! type byte says whose table it is and 0x20 says that the algorithms take
//! two bytes and that no extended algorithms follow. Tables stand in the
//! order of their type bytes, and where there are no algorithms there is no
//! table. Extended algorithms are not taken.
//!
//! The response is the same with `hash for measurements (4)` in front of the
//! signature algorithms.

use crate::bytes::{lemma_part, zeros};
use crate::codec::{
    kept_behind, le_bytes_u16, le_bytes_u32, le_value_u16, le_value_u32, lemma_le_u16, lemma_le_u32, read_u16,
    read_u32, Reader, Writer,
};
use crate::common::negotiate::{
    lemma_selection_is_offered, mask_offers, negotiate_algorithms, spec_negotiate_algorithms,
    SpdmAlgorithmOffer, SpdmAlgorithmSelection,
};
use crate::common::spdm_codec::SpdmCodec;
use crate::common::{SpdmContext, SpdmNegotiateInfo};
use crate::error::{SpdmError, SpdmResult};
use crate::protocol::{
    SpdmAeadAlgo, SpdmBaseAsymAlgo, SpdmBaseHashAlgo, SpdmDheAlgo, SpdmKeyScheduleAlgo,
    SpdmMeasurementHashAlgo, SpdmReqAsymAlgo, SpdmVersion,
};
use vstd::prelude::*;
use vstd::slice::slice_subrange;

verus! {

/// The type byte of the table of key-agreement groups.
pub const ALG_TYPE_DHE: u8 = 2;

/// The type byte of the table of record ciphers.
pub const ALG_TYPE_AEAD: u8 = 3;

/// The type byte of the table of signature algorithms of the requester.
pub const ALG_TYPE_REQ_ASYM: u8 = 4;

/// The type byte of the table of key schedules.
pub const ALG_TYPE_KEY_SCHEDULE: u8 = 5;

/// The second byte of a table: two bytes of algorithms, no extended ones.
pub const ALG_COUNT_TWO_BYTES: u8 = 0x20;

/// The algorithms that have tables: a bit mask for each table.
#[derive(Clone, Copy, Debug, PartialEq, Eq, Structural)]
pub struct SpdmAlgTables {
    pub dhe_algo: u16,
    pub aead_algo: u16,
    pub req_asym_algo: u16,
    pub key_schedule_algo: u16,
}

/// The table of one kind on the wire; nothing for a kind without algorithms.
pub open spec fn alg_table_wire(alg_type: u8, supported: u16) -> Seq<u8> {
    if supported == 0 {
        Seq::<u8>::empty()
    } else {
        seq![alg_type, ALG_COUNT_TWO_BYTES] + le_bytes_u16(supported)
    }
}

/// The tables on the wire, in the order of their type bytes.
pub open spec fn alg_tables_wire(tables: SpdmAlgTables) -> Seq<u8> {
    alg_table_wire(ALG_TYPE_DHE, tables.dhe_algo) + alg_table_wire(ALG_TYPE_AEAD, tables.aead_algo)
        + alg_table_wire(ALG_TYPE_REQ_ASYM, tables.req_asym_algo) + alg_table_wire(
        ALG_TYPE_KEY_SCHEDULE,
        tables.key_schedule_algo,
    )
}

/// One if there are algorithms, zero if there are none.
pub open spec fn spec_one_if(supported: u16) -> int {
    if supported == 0 {
        0
    } else {
        1
    }
}

/// The number of tables on the wire.
pub open spec fn spec_alg_table_count(tables: SpdmAlgTables) -> int {
    spec_one_if(tables.dhe_algo) + spec_one_if(tables.aead_algo) + spec_one_if(
        tables.req_asym_algo,
    ) + spec_one_if(tables.key_schedule_algo)
}

/// The algorithms of one kind at the front of `region`, and what lies behind
/// their table: no algorithms, and all of `region`, where `region` does not
/// begin with a table of the kind. A table of another layout than the one
/// with two bytes of algorithms is not taken.
pub open spec fn alg_table_read(region: Seq<u8>, alg_type: u8) -> Option<(u16, Seq<u8>)> {
    if region.len() >= 4 && region[0] == alg_type {
        if region[1] == ALG_COUNT_TWO_BYTES {
            Some((le_value_u16(region.subrange(2, 4)), region.subrange(4, region.len() as int)))
        } else {
            None
        }
    } else {
        Some((0u16, region))
    }
}

/// The algorithms of the tables in `region`, which must hold tables in the
/// order of their type bytes, one at most for each type, and nothing else.
pub open spec fn alg_tables_read(region: Seq<u8>) -> Option<SpdmAlgTables> {
    match alg_table_read(region, ALG_TYPE_DHE) {
        Some((dhe_algo, behind_dhe)) => match alg_table_read(behind_dhe, ALG_TYPE_AEAD) {
            Some((aead_algo, behind_aead)) => match alg_table_read(behind_aead, ALG_TYPE_REQ_ASYM) {
                Some((req_asym_algo, behind_req_asym)) => match alg_table_read(
                    behind_req_asym,
                    ALG_TYPE_KEY_SCHEDULE,
                ) {
                    Some((key_schedule_algo, behind_all)) => if behind_all.len() == 0 {
                        Some(
                            SpdmAlgTables { dhe_algo, aead_algo, req_asym_algo, key_schedule_algo },
                        )
                    } else {
                        None
                    },
                    None => None,
                },
                None => None,
            },
            None => None,
        },
        None => None,
    }
}

/// A region is empty or begins with a type byte above `alg_type`.
pub open spec fn begins_above(region: Seq<u8>, alg_type: u8) -> bool {
    region.len() == 0 || (region.len() >= 4 && region[0] > alg_type)
}

/// A table in front of tables of higher type bytes is read as what
/// was written.
pub proof fn lemma_alg_table_round_trip(alg_type: u8, supported: u16, behind: Seq<u8>)
    requires
        begins_above(behind, alg_type),
    ensures
        alg_table_read(alg_table_wire(alg_type, supported) + behind, alg_type) == Some(
            (supported, behind),
        ),
        alg_type > 0 ==> begins_above(
            alg_table_wire(alg_type, supported) + behind,
            (alg_type - 1) as u8,
        ),
        (alg_table_wire(alg_type, supported) + behind).len() == 4 * spec_one_if(supported)
            + behind.len(),
{
    let table = alg_table_wire(alg_type, supported);
    let region = table + behind;
    lemma_le_u16(supported);
    if supported == 0 {
        assert(region =~= behind);
    } else {
        assert(region[0] == alg_type);
        assert(region[1] == ALG_COUNT_TWO_BYTES);
        assert(region.subrange(2, 4) =~= le_bytes_u16(supported));
        assert(region.subrange(4, region.len() as int) =~= behind);
    }
}

/// Reading the tables that were written gives their algorithms back.
pub proof fn lemma_alg_tables_round_trip(tables: SpdmAlgTables)
    ensures
        alg_tables_read(alg_tables_wire(tables)) == Some(tables),
        alg_tables_wire(tables).len() == 4 * spec_alg_table_count(tables),
{
    let dhe = alg_table_wire(ALG_TYPE_DHE, tables.dhe_algo);
    let aead = alg_table_wire(ALG_TYPE_AEAD, tables.aead_algo);
    let req_asym = alg_table_wire(ALG_TYPE_REQ_ASYM, tables.req_asym_algo);
    let key_schedule = alg_table_wire(ALG_TYPE_KEY_SCHEDULE, tables.key_schedule_algo);
    let none = Seq::<u8>::empty();
    lemma_alg_table_round_trip(ALG_TYPE_KEY_SCHEDULE, tables.key_schedule_algo, none);
    lemma_alg_table_round_trip(ALG_TYPE_REQ_ASYM, tables.req_asym_algo, key_schedule + none);
    lemma_alg_table_round_trip(ALG_TYPE_AEAD, tables.aead_algo, req_asym + (key_schedule + none));
    lemma_alg_table_round_trip(
        ALG_TYPE_DHE,
        tables.dhe_algo,
        aead + (req_asym + (key_schedule + none)),
    );
    assert(alg_tables_wire(tables) =~= dhe + (aead + (req_asym + (key_schedule + none))));
}

/// Appends the table of one kind behind the bytes `sofar` that were written
/// behind `start`.
fn put_alg_table(
    bytes: &mut Writer,
    alg_type: u8,
    supported: u16,
    Ghost(start): Ghost<Seq<u8>>,
    Ghost(sofar): Ghost<Seq<u8>>,
)
    requires
        old(bytes).wf(),
        old(bytes)@ == start + sofar,
        old(bytes).spec_left() >= 4 * spec_one_if(supported),
    ensures
        final(bytes).wf(),
        final(bytes).capacity() == old(bytes).capacity(),
        final(final(bytes).bytes)@ == final(old(bytes).bytes)@,
        final(bytes)@ == start + (sofar + alg_table_wire(alg_type, supported)),
        final(bytes).spec_left() == old(bytes).spec_left() - 4 * spec_one_if(supported),
        kept_behind(old(bytes).bytes@, final(bytes).bytes@, final(bytes).used as int),
{
    if supported == 0 {
        assert(sofar + Seq::<u8>::empty() =~= sofar);
        return;
    }
    let head: [u8; 2] = [alg_type, ALG_COUNT_TWO_BYTES];
    assert(head@ =~= seq![alg_type, ALG_COUNT_TWO_BYTES]);
    bytes.put(head.as_slice(), Ghost(start), Ghost(sofar));
    bytes.put_u16(supported, Ghost(start), Ghost(sofar + head@));
    assert(sofar + head@ + le_bytes_u16(supported) =~= sofar + alg_table_wire(
        alg_type,
        supported,
    ));
}

/// The algorithms of one kind at the front of `region`, and what lies behind
/// their table.
fn read_alg_table(region: &[u8], alg_type: u8) -> (r: Option<(u16, &[u8])>)
    ensures
        match r {
            Some((supported, behind)) => alg_table_read(region@, alg_type) == Some(
                (supported, behind@),
            ),
            None => alg_table_read(region@, alg_type).is_none(),
        },
{
    if region.len() >= 4 && region[0] == alg_type {
        if region[1] == ALG_COUNT_TWO_BYTES {
            let supported: u16 = read_u16(slice_subrange(region, 2, 4));
            Some((supported, slice_subrange(region, 4, region.len())))
        } else {
            None
        }
    } else {
        Some((0, region))
    }
}

/// The algorithms of the tables in `region`.
fn read_alg_tables(region: &[u8]) -> (r: Option<SpdmAlgTables>)
    ensures
        r == alg_tables_read(region@),
{
    let (dhe_algo, behind_dhe) = read_alg_table(region, ALG_TYPE_DHE)?;
    let (aead_algo, behind_aead) = read_alg_table(behind_dhe, ALG_TYPE_AEAD)?;
    let (req_asym_algo, behind_req_asym) = read_alg_table(behind_aead, ALG_TYPE_REQ_ASYM)?;
    let (key_schedule_algo, behind_all) = read_alg_table(behind_req_asym, ALG_TYPE_KEY_SCHEDULE)?;
    if behind_all.len() == 0 {
        Some(SpdmAlgTables { dhe_algo, aead_algo, req_asym_algo, key_schedule_algo })
    } else {
        None
    }
}

/// The number of tables on the wire.
pub fn alg_table_count(tables: &SpdmAlgTables) -> (r: u8)
    ensures
        r == spec_alg_table_count(*tables),
        r <= 4,
{
    let mut count: u8 = 0;
    if tables.dhe_algo != 0 {
        count = count + 1;
    }
    if tables.aead_algo != 0 {
        count = count + 1;
    }
    if tables.req_asym_algo != 0 {
        count = count + 1;
    }
    if tables.key_schedule_algo != 0 {
        count = count + 1;
    }
    count
}

/// A message of this version has tables.
pub open spec fn spec_has_alg_tables(version: SpdmVersion) -> bool {
    version != SpdmVersion::SpdmVersion10
}

/// Tells whether a message of this version has tables.
#[verifier::when_used_as_spec(spec_has_alg_tables)]
pub fn has_alg_tables(version: SpdmVersion) -> (r: bool)
    ensures
        r == spec_has_alg_tables(version),
{
    match version {
        SpdmVersion::SpdmVersion10 => false,
        _ => true,
    }
}

/// The payload of NEGOTIATE_ALGORITHMS: what the requester offers, a bit
/// mask for each kind.
#[derive(Clone, Copy, Debug, PartialEq, Eq, Structural)]
pub struct SpdmNegotiateAlgorithmsRequestPayload {
    pub measurement_specification: u8,
    pub other_params_support: u8,
    pub base_asym_algo: u32,
    pub base_hash_algo: u32,
    pub tables: SpdmAlgTables,
}

impl SpdmNegotiateAlgorithmsRequestPayload {
    /// The fixed part of the request: the thirty bytes in front of the
    /// tables.
    pub open spec fn fixed_part(&self) -> Seq<u8> {
        seq![spec_alg_table_count(self.tables) as u8, 0u8] + le_bytes_u16(
            (32 + 4 * spec_alg_table_count(self.tables)) as u16,
        ) + seq![self.measurement_specification, self.other_params_support] + le_bytes_u32(
            self.base_asym_algo,
        ) + le_bytes_u32(self.base_hash_algo) + zeros(16)
    }
}

impl SpdmCodec for SpdmNegotiateAlgorithmsRequestPayload {
    /// The first version has no tables.
    open spec fn spdm_spec_valid(&self, context: &SpdmContext) -> bool {
        !spec_has_alg_tables(context.negotiate_info.spdm_version_sel) ==> spec_alg_table_count(
            self.tables,
        ) == 0
    }

    open spec fn spdm_spec_encode(&self, context: &SpdmContext) -> Seq<u8> {
        self.fixed_part() + alg_tables_wire(self.tables)
    }

    /// A request needs four tables at most, none in the first version, a
    /// length that counts all of it, no extended algorithms, and tables as
    /// they must be.
    open spec fn spdm_spec_read(context: &SpdmContext, bytes: Seq<u8>) -> Option<
        (SpdmNegotiateAlgorithmsRequestPayload, nat),
    > {
        if bytes.len() < 30 {
            None
        } else {
            let count: int = if spec_has_alg_tables(context.negotiate_info.spdm_version_sel) {
                bytes[0] as int
            } else {
                0
            };
            if count <= 4 && le_value_u16(bytes.subrange(2, 4)) == 32 + 4 * count && bytes[26] == 0
                && bytes[27] == 0 && bytes.len() >= 30 + 4 * count {
                match alg_tables_read(bytes.subrange(30, 30 + 4 * count)) {
                    Some(tables) => Some(
                        (
                            SpdmNegotiateAlgorithmsRequestPayload {
                                measurement_specification: bytes[4],
                                other_params_support: bytes[5],
                                base_asym_algo: le_value_u32(bytes.subrange(6, 10)),
                                base_hash_algo: le_value_u32(bytes.subrange(10, 14)),
                                tables,
                            },
                            (30 + 4 * count) as nat,
                        ),
                    ),
                    None => None,
                }
            } else {
                None
            }
        }
    }

    fn spdm_size(&self, context: &SpdmContext) -> (r: usize) {
        let count: u8 = alg_table_count(&self.tables);
        let total: usize = 30 + 4 * count as usize;
        proof {
            lemma_alg_tables_round_trip(self.tables);
        }
        assert(self.spdm_spec_encode(context).len() == total);
        total
    }

    fn spdm_encode(&self, context: &mut SpdmContext, bytes: &mut Writer) {
        let count: u8 = alg_table_count(&self.tables);
        let total: usize = 30 + 4 * count as usize;
        proof {
            lemma_alg_tables_round_trip(self.tables);
        }
        assert(self.spdm_spec_encode(old(context)).len() == total);
        if bytes.left() < total {
            assert(old(bytes)@.is_prefix_of(bytes@));
            return;
        }
        let ghost start = bytes@;
        let ghost mut sofar = Seq::<u8>::empty();
        assert(start + sofar =~= start);
        bytes.put_u8(count, Ghost(start), Ghost(sofar));
        proof {
            sofar = sofar + seq![count];
        }
        bytes.put_u8(0u8, Ghost(start), Ghost(sofar));
        proof {
            sofar = sofar + seq![0u8];
            assert(sofar =~= seq![count, 0u8]);
            sofar = seq![count, 0u8];
        }
        bytes.put_u16(32 + 4 * count as u16, Ghost(start), Ghost(sofar));
        proof {
            sofar = sofar + le_bytes_u16((32 + 4 * count) as u16);
        }
        let ghost length_written = sofar;
        bytes.put_u8(self.measurement_specification, Ghost(start), Ghost(sofar));
        proof {
            sofar = sofar + seq![self.measurement_specification];
        }
        bytes.put_u8(self.other_params_support, Ghost(start), Ghost(sofar));
        proof {
            sofar = sofar + seq![self.other_params_support];
            assert(sofar =~= length_written + seq![
                self.measurement_specification,
                self.other_params_support,
            ]);
            sofar = length_written + seq![
                self.measurement_specification,
                self.other_params_support,
            ];
        }
        bytes.put_u32(self.base_asym_algo, Ghost(start), Ghost(sofar));
        proof {
            sofar = sofar + le_bytes_u32(self.base_asym_algo);
        }
        bytes.put_u32(self.base_hash_algo, Ghost(start), Ghost(sofar));
        proof {
            sofar = sofar + le_bytes_u32(self.base_hash_algo);
        }
        let reserved = [0u8; 16];
        assert(reserved@ =~= zeros(16));
        bytes.put(reserved.as_slice(), Ghost(start), Ghost(sofar));
        proof {
            sofar = sofar + zeros(16);
        }
        put_alg_tables(bytes, &self.tables, Ghost(start), Ghost(sofar));
        assert(old(bytes)@.is_prefix_of(bytes@));
    }

    fn spdm_read(context: &mut SpdmContext, r: &mut Reader) -> (v: Option<
        SpdmNegotiateAlgorithmsRequestPayload,
    >) {
        let bytes = r.peek();
        if bytes.len() < 30 {
            return None;
        }
        let count: usize = if has_alg_tables(context.negotiate_info.spdm_version_sel) {
            bytes[0] as usize
        } else {
            0
        };
        let length: u16 = read_u16(slice_subrange(bytes, 2, 4));
        if count > 4 || length as usize != 32 + 4 * count || bytes[26] != 0 || bytes[27] != 0
            || bytes.len() < 30 + 4 * count {
            return None;
        }
        let tables = read_alg_tables(slice_subrange(bytes, 30, 30 + 4 * count))?;
        let base_asym_algo: u32 = read_u32(slice_subrange(bytes, 6, 10));
        let base_hash_algo: u32 = read_u32(slice_subrange(bytes, 10, 14));
        let _ = r.take(30 + 4 * count)?;
        Some(
            SpdmNegotiateAlgorithmsRequestPayload {
                measurement_specification: bytes[4],
                other_params_support: bytes[5],
                base_asym_algo,
                base_hash_algo,
                tables,
            },
        )
    }

    proof fn lemma_spdm_round_trip(&self, context: &SpdmContext, rest: Seq<u8>) {
        let wire = self.spdm_spec_encode(context) + rest;
        let fixed = self.fixed_part();
        let count = spec_alg_table_count(self.tables);
        lemma_alg_tables_round_trip(self.tables);
        lemma_part(wire, fixed, alg_tables_wire(self.tables), rest);
        lemma_le_u16((32 + 4 * count) as u16);
        lemma_le_u32(self.base_asym_algo);
        lemma_le_u32(self.base_hash_algo);
        assert(wire.subrange(0, 30) =~= fixed);
        assert(wire[0] == fixed[0] && wire[4] == fixed[4] && wire[5] == fixed[5] && wire[26]
            == fixed[26] && wire[27] == fixed[27]);
        assert(wire.subrange(2, 4) =~= fixed.subrange(2, 4));
        assert(wire.subrange(6, 10) =~= fixed.subrange(6, 10));
        assert(wire.subrange(10, 14) =~= fixed.subrange(10, 14));
        assert(fixed.subrange(2, 4) =~= le_bytes_u16((32 + 4 * count) as u16));
        assert(fixed.subrange(6, 10) =~= le_bytes_u32(self.base_asym_algo));
        assert(fixed.subrange(10, 14) =~= le_bytes_u32(self.base_hash_algo));
    }
}

/// Appends the tables behind the bytes `sofar` that were written behind
/// `start`.
fn put_alg_tables(
    bytes: &mut Writer,
    tables: &SpdmAlgTables,
    Ghost(start): Ghost<Seq<u8>>,
    Ghost(sofar): Ghost<Seq<u8>>,
)
    requires
        old(bytes).wf(),
        old(bytes)@ == start + sofar,
        old(bytes).spec_left() >= 4 * spec_alg_table_count(*tables),
    ensures
        final(bytes).wf(),
        final(bytes).capacity() == old(bytes).capacity(),
        final(final(bytes).bytes)@ == final(old(bytes).bytes)@,
        final(bytes)@ == start + (sofar + alg_tables_wire(*tables)),
        kept_behind(old(bytes).bytes@, final(bytes).bytes@, final(bytes).used as int),
{
    let ghost dhe = alg_table_wire(ALG_TYPE_DHE, tables.dhe_algo);
    let ghost aead = alg_table_wire(ALG_TYPE_AEAD, tables.aead_algo);
    let ghost req_asym = alg_table_wire(ALG_TYPE_REQ_ASYM, tables.req_asym_algo);
    let ghost key_schedule = alg_table_wire(ALG_TYPE_KEY_SCHEDULE, tables.key_schedule_algo);
    put_alg_table(bytes, ALG_TYPE_DHE, tables.dhe_algo, Ghost(start), Ghost(sofar));
    put_alg_table(bytes, ALG_TYPE_AEAD, tables.aead_algo, Ghost(start), Ghost(sofar + dhe));
    put_alg_table(
        bytes,
        ALG_TYPE_REQ_ASYM,
        tables.req_asym_algo,
        Ghost(start),
        Ghost(sofar + dhe + aead),
    );
    put_alg_table(
        bytes,
        ALG_TYPE_KEY_SCHEDULE,
        tables.key_schedule_algo,
        Ghost(start),
        Ghost(sofar + dhe + aead + req_asym),
    );
    assert(sofar + dhe + aead + req_asym + key_schedule =~= sofar + alg_tables_wire(*tables));
}

/// The payload of ALGORITHMS: what the responder selects, a bit mask for
/// each kind, with one bit at most.
#[derive(Clone, Copy, Debug, PartialEq, Eq, Structural)]
pub struct SpdmAlgorithmsResponsePayload {
    pub measurement_specification_sel: u8,
    pub other_params_selection: u8,
    pub measurement_hash_algo: u32,
    pub base_asym_sel: u32,
    pub base_hash_sel: u32,
    pub tables: SpdmAlgTables,
}

impl SpdmAlgorithmsResponsePayload {
    /// The fixed part of the response: the thirty-four bytes in front of the
    /// tables.
    pub open spec fn fixed_part(&self) -> Seq<u8> {
        seq![spec_alg_table_count(self.tables) as u8, 0u8] + le_bytes_u16(
            (36 + 4 * spec_alg_table_count(self.tables)) as u16,
        ) + seq![self.measurement_specification_sel, self.other_params_selection] + le_bytes_u32(
            self.measurement_hash_algo,
        ) + le_bytes_u32(self.base_asym_sel) + le_bytes_u32(self.base_hash_sel) + zeros(16)
    }
}

impl SpdmCodec for SpdmAlgorithmsResponsePayload {
    /// The first version has no tables.
    open spec fn spdm_spec_valid(&self, context: &SpdmContext) -> bool {
        !spec_has_alg_tables(context.negotiate_info.spdm_version_sel) ==> spec_alg_table_count(
            self.tables,
        ) == 0
    }

    open spec fn spdm_spec_encode(&self, context: &SpdmContext) -> Seq<u8> {
        self.fixed_part() + alg_tables_wire(self.tables)
    }

    /// A response needs four tables at most, none in the first version, a
    /// length that counts all of it, no extended algorithms, and tables as
    /// they must be.
    open spec fn spdm_spec_read(context: &SpdmContext, bytes: Seq<u8>) -> Option<
        (SpdmAlgorithmsResponsePayload, nat),
    > {
        if bytes.len() < 34 {
            None
        } else {
            let count: int = if spec_has_alg_tables(context.negotiate_info.spdm_version_sel) {
                bytes[0] as int
            } else {
                0
            };
            if count <= 4 && le_value_u16(bytes.subrange(2, 4)) == 36 + 4 * count && bytes[30] == 0
                && bytes[31] == 0 && bytes.len() >= 34 + 4 * count {
                match alg_tables_read(bytes.subrange(34, 34 + 4 * count)) {
                    Some(tables) => Some(
                        (
                            SpdmAlgorithmsResponsePayload {
                                measurement_specification_sel: bytes[4],
                                other_params_selection: bytes[5],
                                measurement_hash_algo: le_value_u32(bytes.subrange(6, 10)),
                                base_asym_sel: le_value_u32(bytes.subrange(10, 14)),
                                base_hash_sel: le_value_u32(bytes.subrange(14, 18)),
                                tables,
                            },
                            (34 + 4 * count) as nat,
                        ),
                    ),
                    None => None,
                }
            } else {
                None
            }
        }
    }

    fn spdm_size(&self, context: &SpdmContext) -> (r: usize) {
        let count: u8 = alg_table_count(&self.tables);
        let total: usize = 34 + 4 * count as usize;
        proof {
            lemma_alg_tables_round_trip(self.tables);
        }
        assert(self.spdm_spec_encode(context).len() == total);
        total
    }

    fn spdm_encode(&self, context: &mut SpdmContext, bytes: &mut Writer) {
        let count: u8 = alg_table_count(&self.tables);
        let total: usize = 34 + 4 * count as usize;
        proof {
            lemma_alg_tables_round_trip(self.tables);
        }
        assert(self.spdm_spec_encode(old(context)).len() == total);
        if bytes.left() < total {
            assert(old(bytes)@.is_prefix_of(bytes@));
            return;
        }
        let ghost start = bytes@;
        let ghost mut sofar = Seq::<u8>::empty();
        assert(start + sofar =~= start);
        bytes.put_u8(count, Ghost(start), Ghost(sofar));
        proof {
            sofar = sofar + seq![count];
        }
        bytes.put_u8(0u8, Ghost(start), Ghost(sofar));
        proof {
            sofar = sofar + seq![0u8];
            assert(sofar =~= seq![count, 0u8]);
            sofar = seq![count, 0u8];
        }
        bytes.put_u16(36 + 4 * count as u16, Ghost(start), Ghost(sofar));
        proof {
            sofar = sofar + le_bytes_u16((36 + 4 * count) as u16);
        }
        let ghost length_written = sofar;
        bytes.put_u8(self.measurement_specification_sel, Ghost(start), Ghost(sofar));
        proof {
            sofar = sofar + seq![self.measurement_specification_sel];
        }
        bytes.put_u8(self.other_params_selection, Ghost(start), Ghost(sofar));
        proof {
            sofar = sofar + seq![self.other_params_selection];
            assert(sofar =~= length_written + seq![
                self.measurement_specification_sel,
                self.other_params_selection,
            ]);
            sofar = length_written + seq![
                self.measurement_specification_sel,
                self.other_params_selection,
            ];
        }
        bytes.put_u32(self.measurement_hash_algo, Ghost(start), Ghost(sofar));
        proof {
            sofar = sofar + le_bytes_u32(self.measurement_hash_algo);
        }
        bytes.put_u32(self.base_asym_sel, Ghost(start), Ghost(sofar));
        proof {
            sofar = sofar + le_bytes_u32(self.base_asym_sel);
        }
        bytes.put_u32(self.base_hash_sel, Ghost(start), Ghost(sofar));
        proof {
            sofar = sofar + le_bytes_u32(self.base_hash_sel);
        }
        let reserved = [0u8; 16];
        assert(reserved@ =~= zeros(16));
        bytes.put(reserved.as_slice(), Ghost(start), Ghost(sofar));
        proof {
            sofar = sofar + zeros(16);
        }
        put_alg_tables(bytes, &self.tables, Ghost(start), Ghost(sofar));
        assert(old(bytes)@.is_prefix_of(bytes@));
    }

    fn spdm_read(context: &mut SpdmContext, r: &mut Reader) -> (v: Option<
        SpdmAlgorithmsResponsePayload,
    >) {
        let bytes = r.peek();
        if bytes.len() < 34 {
            return None;
        }
        let count: usize = if has_alg_tables(context.negotiate_info.spdm_version_sel) {
            bytes[0] as usize
        } else {
            0
        };
        let length: u16 = read_u16(slice_subrange(bytes, 2, 4));
        if count > 4 || length as usize != 36 + 4 * count || bytes[30] != 0 || bytes[31] != 0
            || bytes.len() < 34 + 4 * count {
            return None;
        }
        let tables = read_alg_tables(slice_subrange(bytes, 34, 34 + 4 * count))?;
        let measurement_hash_algo: u32 = read_u32(slice_subrange(bytes, 6, 10));
        let base_asym_sel: u32 = read_u32(slice_subrange(bytes, 10, 14));
        let base_hash_sel: u32 = read_u32(slice_subrange(bytes, 14, 18));
        let _ = r.take(34 + 4 * count)?;
        Some(
            SpdmAlgorithmsResponsePayload {
                measurement_specification_sel: bytes[4],
                other_params_selection: bytes[5],
                measurement_hash_algo,
                base_asym_sel,
                base_hash_sel,
                tables,
            },
        )
    }

    proof fn lemma_spdm_round_trip(&self, context: &SpdmContext, rest: Seq<u8>) {
        let wire = self.spdm_spec_encode(context) + rest;
        let fixed = self.fixed_part();
        let count = spec_alg_table_count(self.tables);
        lemma_alg_tables_round_trip(self.tables);
        lemma_part(wire, fixed, alg_tables_wire(self.tables), rest);
        lemma_le_u16((36 + 4 * count) as u16);
        lemma_le_u32(self.measurement_hash_algo);
        lemma_le_u32(self.base_asym_sel);
        lemma_le_u32(self.base_hash_sel);
        assert(wire.subrange(0, 34) =~= fixed);
        assert(wire[0] == fixed[0] && wire[4] == fixed[4] && wire[5] == fixed[5] && wire[30]
            == fixed[30] && wire[31] == fixed[31]);
        assert(wire.subrange(2, 4) =~= fixed.subrange(2, 4));
        assert(wire.subrange(6, 10) =~= fixed.subrange(6, 10));
        assert(wire.subrange(10, 14) =~= fixed.subrange(10, 14));
        assert(wire.subrange(14, 18) =~= fixed.subrange(14, 18));
        assert(fixed.subrange(2, 4) =~= le_bytes_u16((36 + 4 * count) as u16));
        assert(fixed.subrange(6, 10) =~= le_bytes_u32(self.measurement_hash_algo));
        assert(fixed.subrange(10, 14) =~= le_bytes_u32(self.base_asym_sel));
        assert(fixed.subrange(14, 18) =~= le_bytes_u32(self.base_hash_sel));
    }
}

/// Every hash for measurements: the mask that stands for a request, which
/// leaves the hash for measurements to the responder.
pub const ANY_MEASUREMENT_HASH: u32 = 0xf;

/// What a request offers. It offers every hash for measurements: the
/// responder alone has a say in that.
pub open spec fn spec_offer(request: SpdmNegotiateAlgorithmsRequestPayload) -> SpdmAlgorithmOffer {
    SpdmAlgorithmOffer {
        base_hash_algo: request.base_hash_algo,
        base_asym_algo: request.base_asym_algo,
        measurement_hash_algo: ANY_MEASUREMENT_HASH,
        dhe_algo: request.tables.dhe_algo,
        aead_algo: request.tables.aead_algo,
        req_asym_algo: request.tables.req_asym_algo,
        key_schedule_algo: request.tables.key_schedule_algo,
    }
}

/// What a request offers.
#[verifier::when_used_as_spec(spec_offer)]
pub fn offer(request: SpdmNegotiateAlgorithmsRequestPayload) -> (r: SpdmAlgorithmOffer)
    ensures
        r == spec_offer(request),
{
    SpdmAlgorithmOffer {
        base_hash_algo: request.base_hash_algo,
        base_asym_algo: request.base_asym_algo,
        measurement_hash_algo: ANY_MEASUREMENT_HASH,
        dhe_algo: request.tables.dhe_algo,
        aead_algo: request.tables.aead_algo,
        req_asym_algo: request.tables.req_asym_algo,
        key_schedule_algo: request.tables.key_schedule_algo,
    }
}

/// What a response selects: of each kind the algorithm whose bit is the one
/// bit of the mask; nothing where a mask holds no bit, several bits, or the
/// bit of no algorithm.
pub open spec fn spec_selection(response: SpdmAlgorithmsResponsePayload) -> Option<
    SpdmAlgorithmSelection,
> {
    match (
        SpdmBaseHashAlgo::spec_from_bit(response.base_hash_sel),
        SpdmBaseAsymAlgo::spec_from_bit(response.base_asym_sel),
        SpdmMeasurementHashAlgo::spec_from_bit(response.measurement_hash_algo),
        SpdmDheAlgo::spec_from_bit(response.tables.dhe_algo),
        SpdmAeadAlgo::spec_from_bit(response.tables.aead_algo),
        SpdmReqAsymAlgo::spec_from_bit(response.tables.req_asym_algo),
        SpdmKeyScheduleAlgo::spec_from_bit(response.tables.key_schedule_algo),
    ) {
        (
            Some(base_hash_sel),
            Some(base_asym_sel),
            Some(measurement_hash_sel),
            Some(dhe_sel),
            Some(aead_sel),
            Some(req_asym_sel),
            Some(key_schedule_sel),
        ) => Some(
            SpdmAlgorithmSelection {
                base_hash_sel,
                base_asym_sel,
                measurement_hash_sel,
                dhe_sel,
                aead_sel,
                req_asym_sel,
                key_schedule_sel,
            },
        ),
        _ => None,
    }
}

/// What a response selects.
pub fn selection(response: &SpdmAlgorithmsResponsePayload) -> (r: Option<SpdmAlgorithmSelection>)
    ensures
        r == spec_selection(*response),
{
    let base_hash_sel = SpdmBaseHashAlgo::from_bit(response.base_hash_sel)?;
    let base_asym_sel = SpdmBaseAsymAlgo::from_bit(response.base_asym_sel)?;
    let measurement_hash_sel = SpdmMeasurementHashAlgo::from_bit(response.measurement_hash_algo)?;
    let dhe_sel = SpdmDheAlgo::from_bit(response.tables.dhe_algo)?;
    let aead_sel = SpdmAeadAlgo::from_bit(response.tables.aead_algo)?;
    let req_asym_sel = SpdmReqAsymAlgo::from_bit(response.tables.req_asym_algo)?;
    let key_schedule_sel = SpdmKeyScheduleAlgo::from_bit(response.tables.key_schedule_algo)?;
    Some(
        SpdmAlgorithmSelection {
            base_hash_sel,
            base_asym_sel,
            measurement_hash_sel,
            dhe_sel,
            aead_sel,
            req_asym_sel,
            key_schedule_sel,
        },
    )
}

/// The negotiated values with the algorithms of `selection` in them.
pub open spec fn spec_selected(info: SpdmNegotiateInfo, selection: SpdmAlgorithmSelection)
    -> SpdmNegotiateInfo {
    SpdmNegotiateInfo {
        base_hash_sel: selection.base_hash_sel,
        base_asym_sel: selection.base_asym_sel,
        measurement_hash_sel: selection.measurement_hash_sel,
        dhe_sel: selection.dhe_sel,
        aead_sel: selection.aead_sel,
        req_asym_sel: selection.req_asym_sel,
        key_schedule_sel: selection.key_schedule_sel,
        ..info
    }
}

/// The connection after the algorithms of `selection` are noted in it.
pub open spec fn spec_noted(context: SpdmContext, selection: SpdmAlgorithmSelection) -> SpdmContext {
    SpdmContext { negotiate_info: spec_selected(context.negotiate_info, selection), ..context }
}

/// Notes the algorithms of `selection` in the connection.
pub fn note_selection(context: &mut SpdmContext, selection: &SpdmAlgorithmSelection)
    ensures
        *final(context) == spec_noted(*old(context), *selection),
{
    context.negotiate_info.base_hash_sel = selection.base_hash_sel;
    context.negotiate_info.base_asym_sel = selection.base_asym_sel;
    context.negotiate_info.measurement_hash_sel = selection.measurement_hash_sel;
    context.negotiate_info.dhe_sel = selection.dhe_sel;
    context.negotiate_info.aead_sel = selection.aead_sel;
    context.negotiate_info.req_asym_sel = selection.req_asym_sel;
    context.negotiate_info.key_schedule_sel = selection.key_schedule_sel;
}

/// The response that selects the algorithms of `selection`, and the
/// measurement specification of DMTF as far as the request offers it.
pub open spec fn spec_algorithms_response(
    request: SpdmNegotiateAlgorithmsRequestPayload,
    selection: SpdmAlgorithmSelection,
) -> SpdmAlgorithmsResponsePayload {
    SpdmAlgorithmsResponsePayload {
        measurement_specification_sel: request.measurement_specification & 1,
        other_params_selection: 0,
        measurement_hash_algo: selection.measurement_hash_sel.spec_bit(),
        base_asym_sel: selection.base_asym_sel.spec_bit(),
        base_hash_sel: selection.base_hash_sel.spec_bit(),
        tables: SpdmAlgTables {
            dhe_algo: selection.dhe_sel.spec_bit(),
            aead_algo: selection.aead_sel.spec_bit(),
            req_asym_algo: selection.req_asym_sel.spec_bit(),
            key_schedule_algo: selection.key_schedule_sel.spec_bit(),
        },
    }
}

/// The part of the responder in the negotiation: of each kind the most
/// preferred algorithm that the request and `local` both offer is selected,
/// noted in the connection, and put into the response. Where, for some kind,
/// they offer none in common, the result is `NegotiationFail` and the
/// connection stays as it is.
pub fn respond_to_negotiate_algorithms(
    context: &mut SpdmContext,
    request: &SpdmNegotiateAlgorithmsRequestPayload,
    local: SpdmAlgorithmOffer,
) -> (r: SpdmResult<SpdmAlgorithmsResponsePayload>)
    ensures
        match spec_negotiate_algorithms(spec_offer(*request), local) {
            Some(selection) => r == Ok::<SpdmAlgorithmsResponsePayload, SpdmError>(
                spec_algorithms_response(*request, selection),
            ) && *final(context) == spec_noted(*old(context), selection)
                && selection.offered_by(spec_offer(*request)) && selection.offered_by(local)
                && spec_selection(spec_algorithms_response(*request, selection)) == Some(
                selection,
            ),
            None => r == Err::<SpdmAlgorithmsResponsePayload, SpdmError>(
                SpdmError::NegotiationFail,
            ) && *final(context) == *old(context),
        },
{
    let selection = negotiate_algorithms(offer(*request), local)?;
    note_selection(context, &selection);
    Ok(
        SpdmAlgorithmsResponsePayload {
            measurement_specification_sel: request.measurement_specification & 1,
            other_params_selection: 0,
            measurement_hash_algo: selection.measurement_hash_sel.get_bit(),
            base_asym_sel: selection.base_asym_sel.get_bit(),
            base_hash_sel: selection.base_hash_sel.get_bit(),
            tables: SpdmAlgTables {
                dhe_algo: selection.dhe_sel.get_bit(),
                aead_algo: selection.aead_sel.get_bit(),
                req_asym_algo: selection.req_asym_sel.get_bit(),
                key_schedule_algo: selection.key_schedule_sel.get_bit(),
            },
        },
    )
}

/// What a response to `request` comes to: the algorithms that it selects,
/// where it selects one algorithm of each kind and `request` offers every
/// one of them.
pub open spec fn spec_algorithms_response_taken(
    request: SpdmNegotiateAlgorithmsRequestPayload,
    response: SpdmAlgorithmsResponsePayload,
) -> Option<SpdmAlgorithmSelection> {
    match spec_selection(response) {
        Some(selection) => if selection.offered_by(spec_offer(request)) {
            Some(selection)
        } else {
            None
        },
        None => None,
    }
}

/// The part of the requester in the negotiation: the algorithms that the
/// response selects are noted in the connection, if the response selects one
/// algorithm of each kind and the request offered every one of them. A
/// response that does not is refused with `NegotiationFail`, and the
/// connection stays as it is.
pub fn handle_algorithms_response(
    context: &mut SpdmContext,
    request: &SpdmNegotiateAlgorithmsRequestPayload,
    response: &SpdmAlgorithmsResponsePayload,
) -> (r: SpdmResult<SpdmAlgorithmSelection>)
    ensures
        match spec_algorithms_response_taken(*request, *response) {
            Some(selection) => r == Ok::<SpdmAlgorithmSelection, SpdmError>(selection)
                && *final(context) == spec_noted(*old(context), selection),
            None => r == Err::<SpdmAlgorithmSelection, SpdmError>(SpdmError::NegotiationFail)
                && *final(context) == *old(context),
        },
{
    let selection = match selection(response) {
        Some(selection) => selection,
        None => {
            return Err(SpdmError::NegotiationFail);
        },
    };
    if !(mask_offers(request.base_hash_algo, selection.base_hash_sel.get_bit()) && mask_offers(
        request.base_asym_algo,
        selection.base_asym_sel.get_bit(),
    ) && mask_offers(ANY_MEASUREMENT_HASH, selection.measurement_hash_sel.get_bit())
        && mask_offers(request.tables.dhe_algo as u32, selection.dhe_sel.get_bit() as u32)
        && mask_offers(request.tables.aead_algo as u32, selection.aead_sel.get_bit() as u32)
        && mask_offers(request.tables.req_asym_algo as u32, selection.req_asym_sel.get_bit() as u32)
        && mask_offers(
        request.tables.key_schedule_algo as u32,
        selection.key_schedule_sel.get_bit() as u32,
    )) {
        return Err(SpdmError::NegotiationFail);
    }
    note_selection(context, &selection);
    Ok(selection)
}

/// Whatever the two sides offer, where the negotiation succeeds, every
/// algorithm that the responder selects is in the offer of the requester and
/// in the offer of the responder, and the requester takes its response.
pub proof fn lemma_negotiated_algorithms_are_offered(
    request: SpdmNegotiateAlgorithmsRequestPayload,
    local: SpdmAlgorithmOffer,
)
    ensures
        spec_negotiate_algorithms(spec_offer(request), local) matches Some(selection)
            ==> selection.offered_by(spec_offer(request)) && selection.offered_by(local)
            && spec_algorithms_response_taken(
            request,
            spec_algorithms_response(request, selection),
        ) == Some(selection),
{
    match spec_negotiate_algorithms(spec_offer(request), local) {
        Some(selection) => {
            lemma_selection_is_offered(spec_offer(request), local);
        },
        None => {},
    }
}

} // verus!
