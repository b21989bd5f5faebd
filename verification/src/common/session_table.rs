//! The session table of a connection: a fixed number of slots, each free or
//! holding one session. No two sessions have the same id.

use crate::common::session::{SpdmSession, SpdmSessionView, INVALID_SESSION_ID};
use crate::crypto::{ProviderSlot, SpdmAead, SpdmHmac};
use crate::error::{SpdmError, SpdmResult};
use crate::protocol::SpdmDigestStruct;
use vstd::prelude::*;

verus! {

/// The sessions of one connection.
pub struct SpdmSessionTable {
    sessions: [SpdmSession; 4],
}

impl View for SpdmSessionTable {
    type V = Seq<SpdmSessionView>;

    /// What each slot holds, in the order of the slots.
    closed spec fn view(&self) -> Seq<SpdmSessionView> {
        Seq::new(4, |i: int| self.sessions@[i]@)
    }
}

/// The slot of the session `session_id` in a table, or -1 where the table
/// does not hold it.
pub open spec fn slot_of(slots: Seq<SpdmSessionView>, session_id: u32) -> int
    decreases slots.len(),
{
    if slots.len() == 0 {
        -1
    } else if slots.last().session_id == session_id {
        slots.len() - 1
    } else {
        slot_of(slots.drop_last(), session_id)
    }
}

/// The table holds the session `session_id`.
pub open spec fn holds_session(slots: Seq<SpdmSessionView>, session_id: u32) -> bool {
    session_id != INVALID_SESSION_ID && exists|i: int|
        0 <= i < slots.len() && (#[trigger] slots[i]).session_id == session_id
}

/// No two slots hold sessions of the same id.
pub open spec fn ids_unique(slots: Seq<SpdmSessionView>) -> bool {
    forall|i: int, j: int|
        0 <= i < slots.len() && 0 <= j < slots.len() && i != j && (#[trigger] slots[i]).session_id
            != INVALID_SESSION_ID ==> slots[i].session_id != (#[trigger] slots[j]).session_id
}

impl SpdmSessionTable {
    /// Every slot is as a session must be.
    pub closed spec fn slots_inv(&self) -> bool {
        forall|i: int| 0 <= i < 4 ==> (#[trigger] self.sessions@[i]).inv()
    }

    /// There are four slots, every slot is as a session must be, and no two
    /// sessions have the same id.
    pub open spec fn inv(&self) -> bool {
        &&& self@.len() == 4
        &&& self.slots_inv()
        &&& ids_unique(self@)
    }

    /// The table holds the session `session_id`.
    pub open spec fn contains(&self, session_id: u32) -> bool {
        holds_session(self@, session_id)
    }

    /// A table of free slots.
    pub fn new() -> (r: SpdmSessionTable)
        ensures
            r.inv(),
            r@.len() == 4,
            forall|i: int| 0 <= i < 4 ==> (#[trigger] r@[i]).is_free(),
            forall|session_id: u32| !r.contains(session_id),
    {
        let free = SpdmSession::new();
        let r = SpdmSessionTable { sessions: [free, free, free, free] };
        assert(r@.len() == 4);
        r
    }

    /// The slot that holds the session `session_id`.
    pub fn find(&self, session_id: u32) -> (r: Option<usize>)
        requires
            self.inv(),
        ensures
            r.is_some() == self.contains(session_id),
            r matches Some(i) ==> i < 4 && self@[i as int].session_id == session_id,
    {
        if session_id == INVALID_SESSION_ID {
            return None;
        }
        let mut i: usize = 0;
        while i < 4
            invariant
                i <= 4,
                self@.len() == 4,
                session_id != INVALID_SESSION_ID,
                forall|j: int| 0 <= j < i ==> (#[trigger] self@[j]).session_id != session_id,
            decreases 4 - i,
        {
            if self.sessions[i].get_session_id() == session_id {
                assert(self@[i as int].session_id == session_id);
                return Some(i);
            }
            i = i + 1;
        }
        None
    }

    /// The session `session_id`, if the table holds it.
    pub fn get_session_via_id(&self, session_id: u32) -> (r: Option<&SpdmSession>)
        requires
            self.inv(),
        ensures
            r.is_some() == self.contains(session_id),
            r matches Some(session) ==> session.inv() && session.session_id() == session_id
                && exists|i: int| 0 <= i < 4 && self@[i] == session@,
    {
        match self.find(session_id) {
            Some(i) => Some(&self.sessions[i]),
            None => None,
        }
    }

    /// Takes a free slot for the session `session_id`.
    ///
    /// Fails with `InvalidMsgField` for the id of no session, with
    /// `InvalidState` where the table holds a session of that id already, and
    /// with `SessionLimit` where no slot is free. On failure the table stays
    /// as it is.
    pub fn add_session(&mut self, session_id: u32) -> (r: SpdmResult<usize>)
        requires
            old(self).inv(),
        ensures
            final(self).inv(),
            session_id == INVALID_SESSION_ID ==> r == Err::<usize, SpdmError>(
                SpdmError::InvalidMsgField,
            ),
            session_id != INVALID_SESSION_ID && old(self).contains(session_id) ==> r == Err::<
                usize,
                SpdmError,
            >(SpdmError::InvalidState),
            session_id != INVALID_SESSION_ID && !old(self).contains(session_id) ==> (if exists|i: int|
                0 <= i < 4 && (#[trigger] old(self)@[i]).session_id == INVALID_SESSION_ID {
                r.is_ok()
            } else {
                r == Err::<usize, SpdmError>(SpdmError::SessionLimit)
            }),
            r matches Ok(i) ==> i < 4 && old(self)@[i as int].is_free() && final(self)@ == old(self)@.update(
                i as int,
                SpdmSessionView { session_id, ..old(self)@[i as int] },
            ) && final(self).contains(session_id),
            r matches Err(e) ==> final(self)@ == old(self)@ && (e == SpdmError::InvalidMsgField
                || e == SpdmError::InvalidState || e == SpdmError::SessionLimit),
    {
        if session_id == INVALID_SESSION_ID {
            return Err(SpdmError::InvalidMsgField);
        }
        if self.find(session_id).is_some() {
            return Err(SpdmError::InvalidState);
        }
        let mut i: usize = 0;
        while i < 4
            invariant
                i <= 4,
                self@.len() == 4,
                self@ == old(self)@,
                self.inv(),
                !self.contains(session_id),
                session_id != INVALID_SESSION_ID,
                forall|j: int|
                    0 <= j < i ==> (#[trigger] self@[j]).session_id != INVALID_SESSION_ID,
            decreases 4 - i,
        {
            if self.sessions[i].get_session_id() == INVALID_SESSION_ID {
                let mut session = self.sessions[i];
                let _ = session.setup(session_id);
                self.sessions[i] = session;
                assert(self@ =~= old(self)@.update(
                    i as int,
                    SpdmSessionView { session_id, ..old(self)@[i as int] },
                ));
                assert(self@[i as int].session_id == session_id);
                return Ok(i);
            }
            i = i + 1;
        }
        Err(SpdmError::SessionLimit)
    }

    /// Ends the session `session_id`: wipes it and frees its slot. Fails with
    /// `SessionNotFound`, and leaves the table as it is, where the table does
    /// not hold the session. Afterwards the table does not hold it, so that
    /// ending it once more fails.
    pub fn end_session(&mut self, session_id: u32) -> (r: SpdmResult)
        requires
            old(self).inv(),
        ensures
            final(self).inv(),
            r == if old(self).contains(session_id) {
                Ok::<(), SpdmError>(())
            } else {
                Err::<(), SpdmError>(SpdmError::SessionNotFound)
            },
            r.is_err() ==> final(self)@ == old(self)@,
            r.is_ok() ==> final(self)@ == old(self)@.update(
                slot_of(old(self)@, session_id),
                SpdmSessionView::free(),
            ),
            !final(self).contains(session_id),
    {
        match self.find(session_id) {
            Some(i) => {
                proof {
                    lemma_slot_of(self@, session_id, i as int);
                }
                self.sessions[i] = SpdmSession::new();
                assert(self@ =~= old(self)@.update(i as int, SpdmSessionView::free()));
                Ok(())
            },
            None => Err(SpdmError::SessionNotFound),
        }
    }

    /// A copy of what the slot `i` holds.
    pub fn get_slot(&self, i: usize) -> (r: SpdmSession)
        requires
            self.inv(),
            i < 4,
        ensures
            r.inv(),
            r@ == self@[i as int],
    {
        self.sessions[i]
    }

    /// Puts `session` into the slot `i` in place of a session of the same id,
    /// or of the session that `session` was before it was wiped.
    pub fn replace(&mut self, i: usize, session: SpdmSession)
        requires
            old(self).inv(),
            i < 4,
            session.inv(),
            session.session_id() == old(self)@[i as int].session_id || session.session_id()
                == INVALID_SESSION_ID,
        ensures
            final(self).inv(),
            final(self)@ == old(self)@.update(i as int, session@),
    {
        self.sessions[i] = session;
        assert(self@ =~= old(self)@.update(i as int, session@));
    }

    /// Seals `app_buffer` into a record of the session `session_id`: see
    /// [`SpdmSessionView::encode`]. Fails with `SessionNotFound`, and changes
    /// nothing, where the table does not hold the session. A session whose
    /// record numbers are used up is wiped, and gone from the table.
    pub fn encode_spdm_secured_message<P: SpdmAead>(
        &mut self,
        aead_slot: &ProviderSlot<P>,
        session_id: u32,
        app_buffer: &[u8],
        secured_buffer: &mut [u8],
        is_requester: bool,
    ) -> (r: SpdmResult<usize>)
        requires
            old(self).inv(),
        ensures
            final(self).inv(),
            final(secured_buffer)@.len() == old(secured_buffer)@.len(),
            !old(self).contains(session_id) ==> r == Err::<usize, SpdmError>(
                SpdmError::SessionNotFound,
            ) && final(self)@ == old(self)@ && final(secured_buffer)@ == old(secured_buffer)@,
            old(self).contains(session_id) ==> ({
                let slot = slot_of(old(self)@, session_id);
                let outcome = old(self)@[slot].encode(
                    aead_slot.provider(),
                    app_buffer@,
                    old(secured_buffer)@.len(),
                    is_requester,
                );
                &&& final(self)@ == old(self)@.update(slot, outcome.1)
                &&& match outcome.0 {
                    Ok(sealed) => r == Ok::<usize, SpdmError>(sealed.len() as usize)
                        && final(secured_buffer)@.subrange(0, sealed.len() as int) == sealed,
                    Err(e) => r == Err::<usize, SpdmError>(e) && final(secured_buffer)@ == old(secured_buffer)@,
                }
            }),
    {
        match self.find(session_id) {
            Some(i) => {
                proof {
                    lemma_slot_of(self@, session_id, i as int);
                }
                let mut session = self.sessions[i];
                let r = session.encode_spdm_secured_message(
                    aead_slot,
                    app_buffer,
                    secured_buffer,
                    is_requester,
                );
                self.replace(i, session);
                r
            },
            None => Err(SpdmError::SessionNotFound),
        }
    }

    /// Opens a record of the session `session_id`: see
    /// [`SpdmSessionView::decode`]. Fails with `SessionNotFound`, and changes
    /// nothing, where the table does not hold the session. A session whose
    /// record does not open is wiped, and gone from the table.
    pub fn decode_spdm_secured_message<P: SpdmAead>(
        &mut self,
        aead_slot: &ProviderSlot<P>,
        session_id: u32,
        secured_buffer: &[u8],
        app_buffer: &mut [u8],
        is_requester: bool,
    ) -> (r: SpdmResult<usize>)
        requires
            old(self).inv(),
        ensures
            final(self).inv(),
            final(app_buffer)@.len() == old(app_buffer)@.len(),
            !old(self).contains(session_id) ==> r == Err::<usize, SpdmError>(
                SpdmError::SessionNotFound,
            ) && final(self)@ == old(self)@ && final(app_buffer)@ == old(app_buffer)@,
            old(self).contains(session_id) ==> ({
                let slot = slot_of(old(self)@, session_id);
                let outcome = old(self)@[slot].decode(
                    aead_slot.provider(),
                    secured_buffer@,
                    old(app_buffer)@.len(),
                    !is_requester,
                );
                &&& final(self)@ == old(self)@.update(slot, outcome.1)
                &&& match outcome.0 {
                    Ok(opened) => r == Ok::<usize, SpdmError>(opened.len() as usize)
                        && final(app_buffer)@.subrange(0, opened.len() as int) == opened,
                    Err(e) => r == Err::<usize, SpdmError>(e) && final(app_buffer)@ == old(app_buffer)@,
                }
            }),
            r == Err::<usize, SpdmError>(SpdmError::DecryptFail) ==> !final(self).contains(
                session_id,
            ),
    {
        match self.find(session_id) {
            Some(i) => {
                proof {
                    lemma_slot_of(self@, session_id, i as int);
                }
                let mut session = self.sessions[i];
                let r = session.decode_spdm_secured_message(
                    aead_slot,
                    secured_buffer,
                    app_buffer,
                    is_requester,
                );
                self.replace(i, session);
                proof {
                    if r == Err::<usize, SpdmError>(SpdmError::DecryptFail) {
                        lemma_wiped_slot_is_gone(old(self)@, session_id, i as int);
                    }
                }
                r
            },
            None => Err(SpdmError::SessionNotFound),
        }
    }

    /// Checks the verify-data of a FINISH for the session `session_id`
    /// against the MAC of `message_hash` under the finished key of the given
    /// side. A mismatch is `InvalidMac` and wipes the session, which is then
    /// gone from the table. Fails with `SessionNotFound`, and changes
    /// nothing, where the table does not hold the session.
    pub fn verify_finish<M: SpdmHmac>(
        &mut self,
        hmac_slot: &ProviderSlot<M>,
        session_id: u32,
        of_requester: bool,
        message_hash: &[u8],
        verify_data: &SpdmDigestStruct,
    ) -> (r: SpdmResult)
        requires
            old(self).inv(),
        ensures
            final(self).inv(),
            !old(self).contains(session_id) ==> r == Err::<(), SpdmError>(
                SpdmError::SessionNotFound,
            ) && final(self)@ == old(self)@,
            old(self).contains(session_id) ==> r == if old(self)@[slot_of(
                old(self)@,
                session_id,
            )].finished_mac_matches(hmac_slot.provider(), of_requester, message_hash@, *verify_data) {
                Ok::<(), SpdmError>(())
            } else {
                Err::<(), SpdmError>(SpdmError::InvalidMac)
            },
            r.is_ok() ==> final(self)@ == old(self)@,
            old(self).contains(session_id) && r.is_err() ==> final(self)@ == old(self)@.update(
                slot_of(old(self)@, session_id),
                SpdmSessionView::free(),
            ) && !final(self).contains(session_id),
    {
        match self.find(session_id) {
            Some(i) => {
                proof {
                    lemma_slot_of(self@, session_id, i as int);
                }
                let session = self.sessions[i];
                let r = session.verify_hmac_with_finished_key(
                    hmac_slot,
                    of_requester,
                    message_hash,
                    verify_data,
                );
                if r.is_err() {
                    self.replace(i, SpdmSession::new());
                    proof {
                        lemma_wiped_slot_is_gone(old(self)@, session_id, i as int);
                    }
                }
                r
            },
            None => Err(SpdmError::SessionNotFound),
        }
    }
}

/// In a table without duplicate ids, the slot of a session is the one slot
/// that holds its id.
pub proof fn lemma_slot_of(slots: Seq<SpdmSessionView>, session_id: u32, i: int)
    requires
        ids_unique(slots),
        session_id != INVALID_SESSION_ID,
        0 <= i < slots.len(),
        slots[i].session_id == session_id,
    ensures
        slot_of(slots, session_id) == i,
    decreases slots.len(),
{
    if slots.last().session_id == session_id {
        if i != slots.len() - 1 {
            assert(slots[i].session_id != slots[slots.len() - 1].session_id);
        }
    } else {
        let shorter = slots.drop_last();
        assert(shorter[i] == slots[i]);
        assert forall|a: int, b: int|
            0 <= a < shorter.len() && 0 <= b < shorter.len() && a != b && (
            #[trigger] shorter[a]).session_id != INVALID_SESSION_ID implies shorter[a].session_id
            != (#[trigger] shorter[b]).session_id by {
            assert(shorter[a] == slots[a]);
            assert(shorter[b] == slots[b]);
        }
        lemma_slot_of(shorter, session_id, i);
    }
}

/// Once the slot of a session is wiped, the table does not hold the session
/// any more.
pub proof fn lemma_wiped_slot_is_gone(slots: Seq<SpdmSessionView>, session_id: u32, i: int)
    requires
        ids_unique(slots),
        session_id != INVALID_SESSION_ID,
        0 <= i < slots.len(),
        slots[i].session_id == session_id,
    ensures
        !holds_session(slots.update(i, SpdmSessionView::free()), session_id),
{
    let after = slots.update(i, SpdmSessionView::free());
    assert forall|j: int| 0 <= j < after.len() implies (#[trigger] after[j]).session_id
        != session_id by {
        if j != i {
            assert(slots[i].session_id != slots[j].session_id);
        }
    }
}

} // verus!
