use spdmlib::common::session::{SpdmSessionState, INVALID_SESSION_ID};
use spdmlib::common::session_table::SpdmSessionTable;
use spdmlib::crypto;
use spdmlib::crypto::spdm_ring;
use spdmlib::crypto::ProviderSlot;
use spdmlib::error::SpdmError;
use spdmlib::protocol::{
    SpdmAeadAlgo, SpdmBaseHashAlgo, SpdmDheAlgo, SpdmDheFinalKeyStruct, SpdmDigestStruct,
    SpdmKeyScheduleAlgo, SpdmVersion,
};

type Hmac = spdm_ring::hmac_impl::SpdmRingHmac;
type Hkdf = spdm_ring::hkdf_impl::SpdmRingHkdf;
type Aead = spdm_ring::aead_impl::SpdmRingAead;

struct Providers {
    hmac: ProviderSlot<Hmac>,
    hkdf: ProviderSlot<Hkdf>,
    aead: ProviderSlot<Aead>,
}

fn providers() -> Providers {
    let mut hmac = ProviderSlot::empty();
    assert!(crypto::hmac::register(&mut hmac, spdm_ring::hmac_impl::DEFAULT));
    let mut hkdf = ProviderSlot::empty();
    assert!(crypto::hkdf::register(&mut hkdf, spdm_ring::hkdf_impl::DEFAULT));
    let mut aead = ProviderSlot::empty();
    assert!(crypto::aead::register(&mut aead, spdm_ring::aead_impl::DEFAULT));
    Providers { hmac, hkdf, aead }
}

/// Puts an established session with the given id into the table.
fn establish(p: &Providers, table: &mut SpdmSessionTable, session_id: u32) {
    let slot = table.add_session(session_id).unwrap();
    let mut session = table.get_slot(slot);
    session
        .set_crypto_param(
            SpdmBaseHashAlgo::TPM_ALG_SHA_384,
            SpdmDheAlgo::SECP_384_R1,
            SpdmAeadAlgo::AES_256_GCM,
            SpdmKeyScheduleAlgo::SPDM_KEY_SCHEDULE,
        )
        .unwrap();
    session.set_session_state(SpdmSessionState::SpdmSessionHandshaking).unwrap();
    let version = SpdmVersion::SpdmVersion12;
    session.set_dhe_secret(version, SpdmDheFinalKeyStruct::from_bytes(&[3u8; 48]).unwrap()).unwrap();
    let th = SpdmDigestStruct::from_bytes(&[4u8; 48]).unwrap();
    session.generate_handshake_secret(&p.hmac, &p.hkdf, version, &th).unwrap();
    session.generate_data_secret(&p.hkdf, version, &th).unwrap();
    session.set_session_state(SpdmSessionState::SpdmSessionEstablished).unwrap();
    table.replace(slot, session);
}

#[test]
fn a_new_table_holds_no_session() {
    let table = SpdmSessionTable::new();
    for id in [0u32, 1, 0xffff_ffff] {
        assert!(table.find(id).is_none());
        assert!(table.get_session_via_id(id).is_none());
    }
    for slot in 0..4 {
        assert_eq!(table.get_slot(slot).get_session_id(), INVALID_SESSION_ID);
    }
}

#[test]
fn ids_are_unique_and_slots_are_limited() {
    let mut table = SpdmSessionTable::new();
    assert_eq!(table.add_session(0), Err(SpdmError::InvalidMsgField));
    assert_eq!(table.add_session(10), Ok(0));
    assert_eq!(table.add_session(10), Err(SpdmError::InvalidState));
    assert_eq!(table.add_session(11), Ok(1));
    assert_eq!(table.add_session(12), Ok(2));
    assert_eq!(table.add_session(13), Ok(3));
    assert_eq!(table.add_session(14), Err(SpdmError::SessionLimit));
    assert_eq!(table.find(12), Some(2));
    assert_eq!(table.get_session_via_id(13).unwrap().get_session_id(), 13);

    // a freed slot is taken again, and is blank
    assert_eq!(table.end_session(11), Ok(()));
    assert!(table.find(11).is_none());
    assert_eq!(table.add_session(14), Ok(1));
    assert_eq!(
        table.get_session_via_id(14).unwrap().get_session_state(),
        SpdmSessionState::SpdmSessionNotStarted
    );
}

#[test]
fn a_second_end_session_finds_nothing() {
    let p = providers();
    let mut table = SpdmSessionTable::new();
    establish(&p, &mut table, 0x0001_0001);
    establish(&p, &mut table, 0x0002_0002);
    assert_eq!(table.end_session(0x0001_0001), Ok(()));
    assert_eq!(table.end_session(0x0001_0001), Err(SpdmError::SessionNotFound));
    assert_eq!(table.end_session(0), Err(SpdmError::SessionNotFound));
    // the other session is untouched
    let other = table.get_session_via_id(0x0002_0002).unwrap();
    assert_eq!(other.get_session_state(), SpdmSessionState::SpdmSessionEstablished);
    assert!(other.export_keys().is_ok());
}

#[test]
fn a_record_that_does_not_open_removes_the_session() {
    let p = providers();
    let mut requester = SpdmSessionTable::new();
    let mut responder = SpdmSessionTable::new();
    for table in [&mut requester, &mut responder] {
        establish(&p, table, 21);
        establish(&p, table, 22);
    }
    let mut record = [0u8; 64];
    let mut app = [0u8; 64];
    let used = requester.encode_spdm_secured_message(&p.aead, 21, b"hello", &mut record, true).unwrap();
    record[used - 1] ^= 0x01;
    assert_eq!(
        responder.decode_spdm_secured_message(&p.aead, 21, &record[..used], &mut app, false),
        Err(SpdmError::DecryptFail)
    );
    assert!(responder.find(21).is_none());
    assert!(responder.get_session_via_id(21).is_none());
    record[used - 1] ^= 0x01;
    assert_eq!(
        responder.decode_spdm_secured_message(&p.aead, 21, &record[..used], &mut app, false),
        Err(SpdmError::SessionNotFound)
    );

    // the table is still usable: the other session works, and a new one can start
    let used = requester.encode_spdm_secured_message(&p.aead, 22, b"hello", &mut record, true).unwrap();
    assert_eq!(
        responder.decode_spdm_secured_message(&p.aead, 22, &record[..used], &mut app, false),
        Ok(5)
    );
    assert_eq!(&app[..5], b"hello");
    assert_eq!(responder.add_session(23), Ok(0));
}

#[test]
fn records_of_unknown_sessions_are_refused() {
    let p = providers();
    let mut table = SpdmSessionTable::new();
    establish(&p, &mut table, 5);
    let mut record = [0xaau8; 64];
    let mut app = [0xbbu8; 64];
    assert_eq!(
        table.encode_spdm_secured_message(&p.aead, 6, b"x", &mut record, true),
        Err(SpdmError::SessionNotFound)
    );
    assert_eq!(record, [0xaau8; 64]);
    assert_eq!(
        table.decode_spdm_secured_message(&p.aead, 0, &record, &mut app, true),
        Err(SpdmError::SessionNotFound)
    );
    assert_eq!(app, [0xbbu8; 64]);
}

#[test]
fn used_up_record_numbers_remove_the_session() {
    let p = providers();
    let mut table = SpdmSessionTable::new();
    establish(&p, &mut table, 5);
    let slot = table.find(5).unwrap();
    let mut session = table.get_slot(slot);
    session.advance_sequence_number(true, u64::MAX).unwrap();
    table.replace(slot, session);
    let mut record = [0u8; 64];
    assert_eq!(
        table.encode_spdm_secured_message(&p.aead, 5, b"x", &mut record, true),
        Err(SpdmError::SequenceExhausted)
    );
    assert!(table.find(5).is_none());
}

#[test]
fn a_finish_with_wrong_verify_data_removes_the_session() {
    let p = providers();
    let mut table = SpdmSessionTable::new();
    establish(&p, &mut table, 31);
    establish(&p, &mut table, 32);
    let th = [9u8; 48];
    let good = table
        .get_session_via_id(31)
        .unwrap()
        .generate_hmac_with_finished_key(&p.hmac, true, &th)
        .unwrap();
    assert_eq!(table.verify_finish(&p.hmac, 31, true, &th, &good), Ok(()));
    assert!(table.find(31).is_some());
    assert_eq!(table.verify_finish(&p.hmac, 33, true, &th, &good), Err(SpdmError::SessionNotFound));

    let mut flipped = good;
    flipped.data[0] ^= 0x01;
    assert_eq!(table.verify_finish(&p.hmac, 31, true, &th, &flipped), Err(SpdmError::InvalidMac));
    assert!(table.find(31).is_none());
    assert!(table.find(32).is_some());
    assert_eq!(table.verify_finish(&p.hmac, 31, true, &th, &good), Err(SpdmError::SessionNotFound));
}
