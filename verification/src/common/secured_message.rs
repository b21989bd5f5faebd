//! Secured records: the framing of application data under the record keys of
//! a session.
//!
//! A record is `session id (4) | length (2) | cipher text | tag`, numbers low
//! byte first, where the length counts cipher text and tag. The cipher text
//! hides `application data length (2) | application data`. Session id and
//! length are the associated data. The nonce is the salt of the direction
//! with the number of the record, as eight bytes high byte first, folded into
//! its last eight bytes by exclusive or. The number itself is not sent.

use crate::bytes::{append_bytes, copy_into, lemma_part};
use crate::codec::{
    be_bytes_u64, le_bytes_u16, le_bytes_u32, le_value_u16, le_value_u32, u64_to_be_bytes, Codec,
    Writer,
};
use crate::crypto::aead::{decrypt, encrypt, spec_decrypt, spec_encrypt};
use crate::crypto::{ProviderSlot, SpdmAead};
use crate::error::{SpdmError, SpdmResult};
use crate::protocol::{SpdmAeadAlgo, SpdmAeadIvStruct, SpdmAeadKeyStruct};
use vstd::prelude::*;
use vstd::slice::slice_subrange;

verus! {

/// Length of the session id and the length field in front of a record.
pub const SECURED_MESSAGE_HEADER_SIZE: usize = 6;

/// Longest application data that one record carries: the length field counts
/// up to 65535 bytes of cipher text and tag.
pub const MAX_SECURED_APP_DATA_SIZE: usize = 0xFFFF - 2 - 16;

/// The nonce of the record with the number `sequence_number`, for a salt of
/// twelve bytes.
pub open spec fn spec_record_iv(salt: Seq<u8>, sequence_number: u64) -> Seq<u8> {
    Seq::new(
        12,
        |i: int|
            if i < 4 {
                salt[i]
            } else {
                salt[i] ^ be_bytes_u64(sequence_number)[i - 4]
            },
    )
}

/// The associated data of a record: session id and length.
pub open spec fn spec_record_aad(session_id: u32, length: u16) -> Seq<u8> {
    le_bytes_u32(session_id) + le_bytes_u16(length)
}

/// What a record hides: the length of the application data and the data.
pub open spec fn spec_record_plain_text(app: Seq<u8>) -> Seq<u8> {
    le_bytes_u16(app.len() as u16) + app
}

/// The record that carries `app`, or why there is none:
/// `InvalidMsgField` for data too long for a record or for `capacity`,
/// `InvalidState` for a salt that is not twelve bytes long, the provider's
/// error where sealing fails, and `Fault` where the provider returns a cipher
/// text of another length than the plain text or a tag of another length
/// than the cipher calls for.
pub open spec fn spec_seal_record<P: SpdmAead>(
    provider: Option<P>,
    aead_algo: SpdmAeadAlgo,
    key: Seq<u8>,
    salt: Seq<u8>,
    sequence_number: u64,
    session_id: u32,
    app: Seq<u8>,
    capacity: nat,
) -> SpdmResult<Seq<u8>> {
    let plain_text = spec_record_plain_text(app);
    let length = (plain_text.len() + aead_algo.spec_tag_size()) as u16;
    if app.len() > MAX_SECURED_APP_DATA_SIZE || capacity < 6 + plain_text.len()
        + aead_algo.spec_tag_size() {
        Err(SpdmError::InvalidMsgField)
    } else if salt.len() != 12 {
        Err(SpdmError::InvalidState)
    } else {
        match spec_encrypt(
            provider,
            aead_algo,
            key,
            spec_record_iv(salt, sequence_number),
            spec_record_aad(session_id, length),
            plain_text,
            aead_algo.spec_tag_size() as nat,
            plain_text.len(),
        ) {
            Ok((cipher_text, tag)) => if cipher_text.len() == plain_text.len() && tag.len()
                == aead_algo.spec_tag_size() {
                Ok(spec_record_aad(session_id, length) + cipher_text + tag)
            } else {
                Err(SpdmError::Fault)
            },
            Err(e) => Err(e),
        }
    }
}

/// The application data that `record` carries, or why there is none:
/// `InvalidMsgField` for a record that is too short, names another session,
/// or whose length field does not count what follows it;
/// `InvalidState` for a salt that is not twelve bytes long;
/// `DecryptFail` where the record does not open;
/// `InvalidMsgField` again where what it hides is no length with that many
/// bytes behind it, or more than `capacity` bytes.
pub open spec fn spec_open_record<P: SpdmAead>(
    provider: Option<P>,
    aead_algo: SpdmAeadAlgo,
    key: Seq<u8>,
    salt: Seq<u8>,
    sequence_number: u64,
    session_id: u32,
    record: Seq<u8>,
    capacity: nat,
) -> SpdmResult<Seq<u8>> {
    let tag_size = aead_algo.spec_tag_size() as int;
    if record.len() < 6 + tag_size || le_value_u32(record.subrange(0, 4)) != session_id
        || le_value_u16(record.subrange(4, 6)) != record.len() - 6 {
        Err(SpdmError::InvalidMsgField)
    } else if salt.len() != 12 {
        Err(SpdmError::InvalidState)
    } else {
        match spec_decrypt(
            provider,
            aead_algo,
            key,
            spec_record_iv(salt, sequence_number),
            record.subrange(0, 6),
            record.subrange(6, record.len() - tag_size),
            record.subrange(record.len() - tag_size, record.len() as int),
            (record.len() - 6 - tag_size) as nat,
        ) {
            Ok(plain_text) => if plain_text.len() >= 2 && le_value_u16(plain_text.subrange(0, 2))
                <= plain_text.len() - 2 && le_value_u16(plain_text.subrange(0, 2)) <= capacity {
                Ok(plain_text.subrange(2, 2 + le_value_u16(plain_text.subrange(0, 2))))
            } else {
                Err(SpdmError::InvalidMsgField)
            },
            Err(_) => Err(SpdmError::DecryptFail),
        }
    }
}

/// The nonce of the record with the number `sequence_number`.
pub fn record_iv(salt: &SpdmAeadIvStruct, sequence_number: u64) -> (r: [u8; 12])
    requires
        salt.wf(),
        salt@.len() == 12,
    ensures
        r@ == spec_record_iv(salt@, sequence_number),
{
    let number = u64_to_be_bytes(sequence_number);
    let mut iv: [u8; 12] = salt.data;
    let mut i: usize = 4;
    while i < 12
        invariant
            4 <= i <= 12,
            number@ == be_bytes_u64(sequence_number),
            forall|j: int| 0 <= j < 4 ==> iv@[j] == salt.data@[j],
            forall|j: int| 4 <= j < i ==> iv@[j] == salt.data@[j] ^ number@[j - 4],
            forall|j: int| i <= j < 12 ==> iv@[j] == salt.data@[j],
        decreases 12 - i,
    {
        iv[i] = salt.data[i] ^ number[i - 4];
        i = i + 1;
    }
    assert(iv@ =~= spec_record_iv(salt@, sequence_number));
    iv
}

/// Seals `app` into a record at the start of `record` and returns its
/// length; on failure `record` stays as it is. What it writes opens again,
/// under the same key, salt and record number, to `app`.
pub fn seal_record<P: SpdmAead>(
    aead_slot: &ProviderSlot<P>,
    aead_algo: SpdmAeadAlgo,
    key: &SpdmAeadKeyStruct,
    salt: &SpdmAeadIvStruct,
    sequence_number: u64,
    session_id: u32,
    app: &[u8],
    record: &mut [u8],
) -> (r: SpdmResult<usize>)
    requires
        key.wf(),
        salt.wf(),
    ensures
        final(record)@.len() == old(record)@.len(),
        match spec_seal_record(
            aead_slot.provider(),
            aead_algo,
            key@,
            salt@,
            sequence_number,
            session_id,
            app@,
            old(record)@.len(),
        ) {
            Ok(sealed) => r == Ok::<usize, SpdmError>(sealed.len() as usize) && sealed.len()
                == 6 + 2 + app@.len() + aead_algo.spec_tag_size() && final(record)@.subrange(
                0,
                sealed.len() as int,
            ) == sealed && forall|capacity: nat|
                capacity >= app@.len() ==> #[trigger] spec_open_record(
                    aead_slot.provider(),
                    aead_algo,
                    key@,
                    salt@,
                    sequence_number,
                    session_id,
                    sealed,
                    capacity,
                ) == Ok::<Seq<u8>, SpdmError>(app@),
            Err(e) => r == Err::<usize, SpdmError>(e) && final(record)@ == old(record)@,
        },
{
    let tag_size: usize = aead_algo.get_tag_size() as usize;
    if app.len() > MAX_SECURED_APP_DATA_SIZE || record.len() < 6 + 2 + app.len() + tag_size {
        return Err(SpdmError::InvalidMsgField);
    }
    if salt.data_size != 12 {
        return Err(SpdmError::InvalidState);
    }
    let length: u16 = (2 + app.len() + tag_size) as u16;

    let mut plain_text: Vec<u8> = Vec::new();
    let app_length: [u8; 2] = [(app.len() % 256) as u8, (app.len() / 256) as u8];
    assert(app_length@ =~= le_bytes_u16(app@.len() as u16));
    append_bytes(&mut plain_text, app_length.as_slice());
    append_bytes(&mut plain_text, app);
    assert(plain_text@ =~= spec_record_plain_text(app@));

    let mut aad_buffer = [0u8; 6];
    let mut aad_writer = Writer::init(&mut aad_buffer);
    session_id.encode(&mut aad_writer);
    length.encode(&mut aad_writer);
    assert(aad_writer@ =~= spec_record_aad(session_id, length));
    let _ = aad_writer.used();
    assert(aad_buffer@ =~= spec_record_aad(session_id, length));

    let iv = record_iv(salt, sequence_number);
    let mut tag: Vec<u8> = vec![0u8; tag_size];
    let mut cipher_text: Vec<u8> = vec![0u8; plain_text.len()];
    let (cipher_length, tag_length) = encrypt(
        aead_slot,
        aead_algo,
        key.as_ref(),
        iv.as_slice(),
        aad_buffer.as_slice(),
        plain_text.as_slice(),
        tag.as_mut_slice(),
        cipher_text.as_mut_slice(),
    )?;
    if cipher_length != plain_text.len() || tag_length != tag_size {
        return Err(SpdmError::Fault);
    }
    let ghost sealed = spec_record_aad(session_id, length) + cipher_text@ + tag@;
    assert(cipher_text@.subrange(0, cipher_length as int) =~= cipher_text@);
    assert(tag@.subrange(0, tag_length as int) =~= tag@);

    let mut writer = Writer::init(record);
    let _ = writer.extend_from_slice(aad_buffer.as_slice());
    let _ = writer.extend_from_slice(cipher_text.as_slice());
    let _ = writer.extend_from_slice(tag.as_slice());
    assert(writer@ =~= sealed);
    let used: usize = writer.used();
    assert(record@.subrange(0, used as int) =~= sealed);
    assert(spec_seal_record(
        aead_slot.provider(),
        aead_algo,
        key@,
        salt@,
        sequence_number,
        session_id,
        app@,
        old(record)@.len(),
    ) == Ok::<Seq<u8>, SpdmError>(sealed));
    proof {
        assert forall|capacity: nat| capacity >= app@.len() implies #[trigger] spec_open_record(
            aead_slot.provider(),
            aead_algo,
            key@,
            salt@,
            sequence_number,
            session_id,
            sealed,
            capacity,
        ) == Ok::<Seq<u8>, SpdmError>(app@) by {
            lemma_sealed_record_opens(
                aead_slot.provider(),
                aead_algo,
                key@,
                salt@,
                sequence_number,
                session_id,
                app@,
                cipher_text@,
                tag@,
                capacity,
            );
        }
    }
    Ok(used)
}

/// Opens `record` into the start of `app` and returns the length of the
/// application data; on failure `app` stays as it is.
pub fn open_record<P: SpdmAead>(
    aead_slot: &ProviderSlot<P>,
    aead_algo: SpdmAeadAlgo,
    key: &SpdmAeadKeyStruct,
    salt: &SpdmAeadIvStruct,
    sequence_number: u64,
    session_id: u32,
    record: &[u8],
    app: &mut [u8],
) -> (r: SpdmResult<usize>)
    requires
        key.wf(),
        salt.wf(),
    ensures
        final(app)@.len() == old(app)@.len(),
        match spec_open_record(
            aead_slot.provider(),
            aead_algo,
            key@,
            salt@,
            sequence_number,
            session_id,
            record@,
            old(app)@.len(),
        ) {
            Ok(opened) => r == Ok::<usize, SpdmError>(opened.len() as usize) && opened.len()
                <= old(app)@.len() && final(app)@.subrange(0, opened.len() as int) == opened,
            Err(e) => r == Err::<usize, SpdmError>(e) && final(app)@ == old(app)@,
        },
{
    let tag_size: usize = aead_algo.get_tag_size() as usize;
    if record.len() < 6 + tag_size {
        return Err(SpdmError::InvalidMsgField);
    }
    let wire_id: u32 = record[0] as u32 + (record[1] as u32) * 256 + (record[2] as u32) * 65536
        + (record[3] as u32) * 16777216;
    let length: u16 = record[4] as u16 + (record[5] as u16) * 256;
    assert(wire_id == le_value_u32(record@.subrange(0, 4)));
    assert(length == le_value_u16(record@.subrange(4, 6)));
    if wire_id != session_id || length as usize != record.len() - 6 {
        return Err(SpdmError::InvalidMsgField);
    }
    if salt.data_size != 12 {
        return Err(SpdmError::InvalidState);
    }
    let iv = record_iv(salt, sequence_number);
    let aad = slice_subrange(record, 0, 6);
    let cipher_text = slice_subrange(record, 6, record.len() - tag_size);
    let tag = slice_subrange(record, record.len() - tag_size, record.len());
    let mut plain_text: Vec<u8> = vec![0u8; cipher_text.len()];
    let plain_length: usize = match decrypt(
        aead_slot,
        aead_algo,
        key.as_ref(),
        iv.as_slice(),
        aad,
        cipher_text,
        tag,
        plain_text.as_mut_slice(),
    ) {
        Ok(n) => n,
        Err(_) => {
            return Err(SpdmError::DecryptFail);
        },
    };
    let ghost opened = plain_text@.subrange(0, plain_length as int);
    if plain_length < 2 {
        return Err(SpdmError::InvalidMsgField);
    }
    let app_length: usize = plain_text[0] as usize + (plain_text[1] as usize) * 256;
    assert(app_length == le_value_u16(opened.subrange(0, 2)));
    if app_length > plain_length - 2 || app_length > app.len() {
        return Err(SpdmError::InvalidMsgField);
    }
    let data = slice_subrange(plain_text.as_slice(), 2, 2 + app_length);
    assert(data@ =~= opened.subrange(2, 2 + app_length));
    copy_into(app, data);
    Ok(app_length)
}

/// A record made of what sealing `app` gives opens to `app`, provided that
/// opening undoes sealing for these bytes.
pub proof fn lemma_sealed_record_opens<P: SpdmAead>(
    provider: Option<P>,
    aead_algo: SpdmAeadAlgo,
    key: Seq<u8>,
    salt: Seq<u8>,
    sequence_number: u64,
    session_id: u32,
    app: Seq<u8>,
    cipher_text: Seq<u8>,
    tag: Seq<u8>,
    capacity: nat,
)
    requires
        app.len() <= MAX_SECURED_APP_DATA_SIZE,
        salt.len() == 12,
        capacity >= app.len(),
        cipher_text.len() == 2 + app.len(),
        tag.len() == aead_algo.spec_tag_size(),
        spec_decrypt(
            provider,
            aead_algo,
            key,
            spec_record_iv(salt, sequence_number),
            spec_record_aad(session_id, (2 + app.len() + aead_algo.spec_tag_size()) as u16),
            cipher_text,
            tag,
            (2 + app.len()) as nat,
        ) == Ok::<Seq<u8>, SpdmError>(spec_record_plain_text(app)),
    ensures
        spec_open_record(
            provider,
            aead_algo,
            key,
            salt,
            sequence_number,
            session_id,
            spec_record_aad(session_id, (2 + app.len() + aead_algo.spec_tag_size()) as u16)
                + cipher_text + tag,
            capacity,
        ) == Ok::<Seq<u8>, SpdmError>(app),
{
    let length = (2 + app.len() + aead_algo.spec_tag_size()) as u16;
    let aad = spec_record_aad(session_id, length);
    let record = aad + cipher_text + tag;
    let plain_text = spec_record_plain_text(app);
    let none = Seq::<u8>::empty();
    assert(aad.len() == 6);
    assert(record =~= aad + cipher_text + tag + none);
    lemma_part(record, aad + cipher_text, tag, none);
    lemma_part(record, aad, cipher_text, tag);
    assert(record.subrange(0, 6) =~= aad);
    assert(aad.subrange(0, 4) =~= le_bytes_u32(session_id));
    assert(aad.subrange(4, 6) =~= le_bytes_u16(length));
    assert(record.subrange(0, 4) =~= aad.subrange(0, 4));
    assert(record.subrange(4, 6) =~= aad.subrange(4, 6));
    assert(plain_text.subrange(0, 2) =~= le_bytes_u16(app.len() as u16));
    assert(plain_text.subrange(2, 2 + app.len() as int) =~= app);
}

} // verus!
