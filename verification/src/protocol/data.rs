//! Fixed-capacity byte buffers with an explicit length.
//!
//! Each holds its bytes at the start of `data`; `data_size` says how many of
//! them count. The view of a buffer is that prefix. A buffer made by
//! `from_bytes` has zeros behind it, so that two buffers made from the same
//! bytes are equal.

use crate::bytes::copy_into;
use vstd::prelude::*;
use vstd::slice::slice_subrange;

verus! {

/// A digest of at most 64 bytes.
#[derive(Clone, Copy, Debug)]
pub struct SpdmDigestStruct {
    pub data_size: u16,
    pub data: [u8; 64],
}

impl View for SpdmDigestStruct {
    type V = Seq<u8>;

    open spec fn view(&self) -> Seq<u8> {
        self.data@.subrange(0, self.data_size as int)
    }
}

impl SpdmDigestStruct {
    /// The length field does not exceed the capacity.
    pub open spec fn wf(&self) -> bool {
        self.data_size <= 64
    }

    /// The buffer holds exactly `value`, with zeros behind it.
    pub open spec fn holds(&self, value: Seq<u8>) -> bool {
        &&& self.data_size == value.len()
        &&& self@ == value
        &&& forall|i: int| value.len() <= i < 64 ==> self.data@[i] == 0
    }

    /// The buffer that holds exactly `value`, with zeros behind it.
    pub open spec fn spec_from_bytes(value: Seq<u8>) -> SpdmDigestStruct {
        choose|s: SpdmDigestStruct| s.holds(value)
    }

    /// There is one buffer only that holds `value`.
    pub proof fn lemma_holds_unique(a: SpdmDigestStruct, b: SpdmDigestStruct, value: Seq<u8>)
        requires
            a.holds(value),
            b.holds(value),
            value.len() <= 64,
        ensures
            a == b,
    {
        assert forall|i: int| 0 <= i < 64 implies a.data[i] == b.data[i] by {
            if i < value.len() {
                assert(a.data@[i] == a@[i]);
                assert(b.data@[i] == b@[i]);
            }
        }
        assert(a.data =~= b.data);
    }

    /// The buffer that holds `value` and zeros behind it; nothing for a value
    /// that does not fit.
    pub fn from_bytes(value: &[u8]) -> (r: Option<SpdmDigestStruct>)
        ensures
            r.is_some() <==> value@.len() <= 64,
            r matches Some(s) ==> s.wf() && s.holds(value@) && s == SpdmDigestStruct::spec_from_bytes(
                value@,
            ),
    {
        if value.len() > 64 {
            return None;
        }
        let mut data = [0u8; 64];
        copy_into(&mut data, value);
        let s = SpdmDigestStruct { data_size: value.len() as u16, data };
        assert(s@ =~= value@);
        assert forall|i: int| value@.len() <= i < 64 implies s.data@[i] == 0 by {
            assert(s.data@[i] == s.data@.subrange(value@.len() as int, 64)[i - value@.len()]);
        }
        proof {
            SpdmDigestStruct::lemma_holds_unique(s, SpdmDigestStruct::spec_from_bytes(value@), value@);
        }
        Some(s)
    }

    /// The bytes that count.
    pub fn as_ref(&self) -> (r: &[u8])
        requires
            self.wf(),
        ensures
            r@ == self@,
    {
        slice_subrange(self.data.as_slice(), 0, self.data_size as usize)
    }
}

impl Default for SpdmDigestStruct {
    fn default() -> (r: SpdmDigestStruct)
        ensures
            r.wf(),
            r.holds(Seq::<u8>::empty()),
            r == SpdmDigestStruct::spec_from_bytes(Seq::<u8>::empty()),
    {
        let r = SpdmDigestStruct { data_size: 0, data: [0u8; 64] };
        assert(r@ =~= Seq::<u8>::empty());
        assert(r.holds(Seq::<u8>::empty()));
        proof {
            SpdmDigestStruct::lemma_holds_unique(
                r,
                SpdmDigestStruct::spec_from_bytes(Seq::<u8>::empty()),
                Seq::<u8>::empty(),
            );
        }
        r
    }
}

/// A signature of at most 512 bytes.
#[derive(Clone, Copy, Debug)]
pub struct SpdmSignatureStruct {
    pub data_size: u16,
    pub data: [u8; 512],
}

impl View for SpdmSignatureStruct {
    type V = Seq<u8>;

    open spec fn view(&self) -> Seq<u8> {
        self.data@.subrange(0, self.data_size as int)
    }
}

impl SpdmSignatureStruct {
    /// The length field does not exceed the capacity.
    pub open spec fn wf(&self) -> bool {
        self.data_size <= 512
    }

    /// The buffer holds exactly `value`, with zeros behind it.
    pub open spec fn holds(&self, value: Seq<u8>) -> bool {
        &&& self.data_size == value.len()
        &&& self@ == value
        &&& forall|i: int| value.len() <= i < 512 ==> self.data@[i] == 0
    }

    /// The buffer that holds exactly `value`, with zeros behind it.
    pub open spec fn spec_from_bytes(value: Seq<u8>) -> SpdmSignatureStruct {
        choose|s: SpdmSignatureStruct| s.holds(value)
    }

    /// There is one buffer only that holds `value`.
    pub proof fn lemma_holds_unique(a: SpdmSignatureStruct, b: SpdmSignatureStruct, value: Seq<u8>)
        requires
            a.holds(value),
            b.holds(value),
            value.len() <= 512,
        ensures
            a == b,
    {
        assert forall|i: int| 0 <= i < 512 implies a.data[i] == b.data[i] by {
            if i < value.len() {
                assert(a.data@[i] == a@[i]);
                assert(b.data@[i] == b@[i]);
            }
        }
        assert(a.data =~= b.data);
    }

    /// The buffer that holds `value` and zeros behind it; nothing for a value
    /// that does not fit.
    pub fn from_bytes(value: &[u8]) -> (r: Option<SpdmSignatureStruct>)
        ensures
            r.is_some() <==> value@.len() <= 512,
            r matches Some(s) ==> s.wf() && s.holds(value@) && s == SpdmSignatureStruct::spec_from_bytes(
                value@,
            ),
    {
        if value.len() > 512 {
            return None;
        }
        let mut data = [0u8; 512];
        copy_into(&mut data, value);
        let s = SpdmSignatureStruct { data_size: value.len() as u16, data };
        assert(s@ =~= value@);
        assert forall|i: int| value@.len() <= i < 512 implies s.data@[i] == 0 by {
            assert(s.data@[i] == s.data@.subrange(value@.len() as int, 512)[i - value@.len()]);
        }
        proof {
            SpdmSignatureStruct::lemma_holds_unique(s, SpdmSignatureStruct::spec_from_bytes(value@), value@);
        }
        Some(s)
    }

    /// The bytes that count.
    pub fn as_ref(&self) -> (r: &[u8])
        requires
            self.wf(),
        ensures
            r@ == self@,
    {
        slice_subrange(self.data.as_slice(), 0, self.data_size as usize)
    }
}

impl Default for SpdmSignatureStruct {
    fn default() -> (r: SpdmSignatureStruct)
        ensures
            r.wf(),
            r.holds(Seq::<u8>::empty()),
            r == SpdmSignatureStruct::spec_from_bytes(Seq::<u8>::empty()),
    {
        let r = SpdmSignatureStruct { data_size: 0, data: [0u8; 512] };
        assert(r@ =~= Seq::<u8>::empty());
        assert(r.holds(Seq::<u8>::empty()));
        proof {
            SpdmSignatureStruct::lemma_holds_unique(
                r,
                SpdmSignatureStruct::spec_from_bytes(Seq::<u8>::empty()),
                Seq::<u8>::empty(),
            );
        }
        r
    }
}

/// A record encryption key of at most 32 bytes.
#[derive(Clone, Copy, Debug)]
pub struct SpdmAeadKeyStruct {
    pub data_size: u16,
    pub data: [u8; 32],
}

impl View for SpdmAeadKeyStruct {
    type V = Seq<u8>;

    open spec fn view(&self) -> Seq<u8> {
        self.data@.subrange(0, self.data_size as int)
    }
}

impl SpdmAeadKeyStruct {
    /// The length field does not exceed the capacity.
    pub open spec fn wf(&self) -> bool {
        self.data_size <= 32
    }

    /// The buffer holds exactly `value`, with zeros behind it.
    pub open spec fn holds(&self, value: Seq<u8>) -> bool {
        &&& self.data_size == value.len()
        &&& self@ == value
        &&& forall|i: int| value.len() <= i < 32 ==> self.data@[i] == 0
    }

    /// The buffer that holds exactly `value`, with zeros behind it.
    pub open spec fn spec_from_bytes(value: Seq<u8>) -> SpdmAeadKeyStruct {
        choose|s: SpdmAeadKeyStruct| s.holds(value)
    }

    /// There is one buffer only that holds `value`.
    pub proof fn lemma_holds_unique(a: SpdmAeadKeyStruct, b: SpdmAeadKeyStruct, value: Seq<u8>)
        requires
            a.holds(value),
            b.holds(value),
            value.len() <= 32,
        ensures
            a == b,
    {
        assert forall|i: int| 0 <= i < 32 implies a.data[i] == b.data[i] by {
            if i < value.len() {
                assert(a.data@[i] == a@[i]);
                assert(b.data@[i] == b@[i]);
            }
        }
        assert(a.data =~= b.data);
    }

    /// The buffer that holds `value` and zeros behind it; nothing for a value
    /// that does not fit.
    pub fn from_bytes(value: &[u8]) -> (r: Option<SpdmAeadKeyStruct>)
        ensures
            r.is_some() <==> value@.len() <= 32,
            r matches Some(s) ==> s.wf() && s.holds(value@) && s == SpdmAeadKeyStruct::spec_from_bytes(
                value@,
            ),
    {
        if value.len() > 32 {
            return None;
        }
        let mut data = [0u8; 32];
        copy_into(&mut data, value);
        let s = SpdmAeadKeyStruct { data_size: value.len() as u16, data };
        assert(s@ =~= value@);
        assert forall|i: int| value@.len() <= i < 32 implies s.data@[i] == 0 by {
            assert(s.data@[i] == s.data@.subrange(value@.len() as int, 32)[i - value@.len()]);
        }
        proof {
            SpdmAeadKeyStruct::lemma_holds_unique(s, SpdmAeadKeyStruct::spec_from_bytes(value@), value@);
        }
        Some(s)
    }

    /// The bytes that count.
    pub fn as_ref(&self) -> (r: &[u8])
        requires
            self.wf(),
        ensures
            r@ == self@,
    {
        slice_subrange(self.data.as_slice(), 0, self.data_size as usize)
    }
}

impl Default for SpdmAeadKeyStruct {
    fn default() -> (r: SpdmAeadKeyStruct)
        ensures
            r.wf(),
            r.holds(Seq::<u8>::empty()),
            r == SpdmAeadKeyStruct::spec_from_bytes(Seq::<u8>::empty()),
    {
        let r = SpdmAeadKeyStruct { data_size: 0, data: [0u8; 32] };
        assert(r@ =~= Seq::<u8>::empty());
        assert(r.holds(Seq::<u8>::empty()));
        proof {
            SpdmAeadKeyStruct::lemma_holds_unique(
                r,
                SpdmAeadKeyStruct::spec_from_bytes(Seq::<u8>::empty()),
                Seq::<u8>::empty(),
            );
        }
        r
    }
}

/// An initialisation vector salt of at most 12 bytes.
#[derive(Clone, Copy, Debug)]
pub struct SpdmAeadIvStruct {
    pub data_size: u16,
    pub data: [u8; 12],
}

impl View for SpdmAeadIvStruct {
    type V = Seq<u8>;

    open spec fn view(&self) -> Seq<u8> {
        self.data@.subrange(0, self.data_size as int)
    }
}

impl SpdmAeadIvStruct {
    /// The length field does not exceed the capacity.
    pub open spec fn wf(&self) -> bool {
        self.data_size <= 12
    }

    /// The buffer holds exactly `value`, with zeros behind it.
    pub open spec fn holds(&self, value: Seq<u8>) -> bool {
        &&& self.data_size == value.len()
        &&& self@ == value
        &&& forall|i: int| value.len() <= i < 12 ==> self.data@[i] == 0
    }

    /// The buffer that holds exactly `value`, with zeros behind it.
    pub open spec fn spec_from_bytes(value: Seq<u8>) -> SpdmAeadIvStruct {
        choose|s: SpdmAeadIvStruct| s.holds(value)
    }

    /// There is one buffer only that holds `value`.
    pub proof fn lemma_holds_unique(a: SpdmAeadIvStruct, b: SpdmAeadIvStruct, value: Seq<u8>)
        requires
            a.holds(value),
            b.holds(value),
            value.len() <= 12,
        ensures
            a == b,
    {
        assert forall|i: int| 0 <= i < 12 implies a.data[i] == b.data[i] by {
            if i < value.len() {
                assert(a.data@[i] == a@[i]);
                assert(b.data@[i] == b@[i]);
            }
        }
        assert(a.data =~= b.data);
    }

    /// The buffer that holds `value` and zeros behind it; nothing for a value
    /// that does not fit.
    pub fn from_bytes(value: &[u8]) -> (r: Option<SpdmAeadIvStruct>)
        ensures
            r.is_some() <==> value@.len() <= 12,
            r matches Some(s) ==> s.wf() && s.holds(value@) && s == SpdmAeadIvStruct::spec_from_bytes(
                value@,
            ),
    {
        if value.len() > 12 {
            return None;
        }
        let mut data = [0u8; 12];
        copy_into(&mut data, value);
        let s = SpdmAeadIvStruct { data_size: value.len() as u16, data };
        assert(s@ =~= value@);
        assert forall|i: int| value@.len() <= i < 12 implies s.data@[i] == 0 by {
            assert(s.data@[i] == s.data@.subrange(value@.len() as int, 12)[i - value@.len()]);
        }
        proof {
            SpdmAeadIvStruct::lemma_holds_unique(s, SpdmAeadIvStruct::spec_from_bytes(value@), value@);
        }
        Some(s)
    }

    /// The bytes that count.
    pub fn as_ref(&self) -> (r: &[u8])
        requires
            self.wf(),
        ensures
            r@ == self@,
    {
        slice_subrange(self.data.as_slice(), 0, self.data_size as usize)
    }
}

impl Default for SpdmAeadIvStruct {
    fn default() -> (r: SpdmAeadIvStruct)
        ensures
            r.wf(),
            r.holds(Seq::<u8>::empty()),
            r == SpdmAeadIvStruct::spec_from_bytes(Seq::<u8>::empty()),
    {
        let r = SpdmAeadIvStruct { data_size: 0, data: [0u8; 12] };
        assert(r@ =~= Seq::<u8>::empty());
        assert(r.holds(Seq::<u8>::empty()));
        proof {
            SpdmAeadIvStruct::lemma_holds_unique(
                r,
                SpdmAeadIvStruct::spec_from_bytes(Seq::<u8>::empty()),
                Seq::<u8>::empty(),
            );
        }
        r
    }
}

/// A key-agreement public key of at most 512 bytes.
#[derive(Clone, Copy, Debug)]
pub struct SpdmDheExchangeStruct {
    pub data_size: u16,
    pub data: [u8; 512],
}

impl View for SpdmDheExchangeStruct {
    type V = Seq<u8>;

    open spec fn view(&self) -> Seq<u8> {
        self.data@.subrange(0, self.data_size as int)
    }
}

impl SpdmDheExchangeStruct {
    /// The length field does not exceed the capacity.
    pub open spec fn wf(&self) -> bool {
        self.data_size <= 512
    }

    /// The buffer holds exactly `value`, with zeros behind it.
    pub open spec fn holds(&self, value: Seq<u8>) -> bool {
        &&& self.data_size == value.len()
        &&& self@ == value
        &&& forall|i: int| value.len() <= i < 512 ==> self.data@[i] == 0
    }

    /// The buffer that holds exactly `value`, with zeros behind it.
    pub open spec fn spec_from_bytes(value: Seq<u8>) -> SpdmDheExchangeStruct {
        choose|s: SpdmDheExchangeStruct| s.holds(value)
    }

    /// There is one buffer only that holds `value`.
    pub proof fn lemma_holds_unique(a: SpdmDheExchangeStruct, b: SpdmDheExchangeStruct, value: Seq<u8>)
        requires
            a.holds(value),
            b.holds(value),
            value.len() <= 512,
        ensures
            a == b,
    {
        assert forall|i: int| 0 <= i < 512 implies a.data[i] == b.data[i] by {
            if i < value.len() {
                assert(a.data@[i] == a@[i]);
                assert(b.data@[i] == b@[i]);
            }
        }
        assert(a.data =~= b.data);
    }

    /// The buffer that holds `value` and zeros behind it; nothing for a value
    /// that does not fit.
    pub fn from_bytes(value: &[u8]) -> (r: Option<SpdmDheExchangeStruct>)
        ensures
            r.is_some() <==> value@.len() <= 512,
            r matches Some(s) ==> s.wf() && s.holds(value@) && s == SpdmDheExchangeStruct::spec_from_bytes(
                value@,
            ),
    {
        if value.len() > 512 {
            return None;
        }
        let mut data = [0u8; 512];
        copy_into(&mut data, value);
        let s = SpdmDheExchangeStruct { data_size: value.len() as u16, data };
        assert(s@ =~= value@);
        assert forall|i: int| value@.len() <= i < 512 implies s.data@[i] == 0 by {
            assert(s.data@[i] == s.data@.subrange(value@.len() as int, 512)[i - value@.len()]);
        }
        proof {
            SpdmDheExchangeStruct::lemma_holds_unique(s, SpdmDheExchangeStruct::spec_from_bytes(value@), value@);
        }
        Some(s)
    }

    /// The bytes that count.
    pub fn as_ref(&self) -> (r: &[u8])
        requires
            self.wf(),
        ensures
            r@ == self@,
    {
        slice_subrange(self.data.as_slice(), 0, self.data_size as usize)
    }
}

impl Default for SpdmDheExchangeStruct {
    fn default() -> (r: SpdmDheExchangeStruct)
        ensures
            r.wf(),
            r.holds(Seq::<u8>::empty()),
            r == SpdmDheExchangeStruct::spec_from_bytes(Seq::<u8>::empty()),
    {
        let r = SpdmDheExchangeStruct { data_size: 0, data: [0u8; 512] };
        assert(r@ =~= Seq::<u8>::empty());
        assert(r.holds(Seq::<u8>::empty()));
        proof {
            SpdmDheExchangeStruct::lemma_holds_unique(
                r,
                SpdmDheExchangeStruct::spec_from_bytes(Seq::<u8>::empty()),
                Seq::<u8>::empty(),
            );
        }
        r
    }
}

/// A key-agreement shared secret of at most 512 bytes.
#[derive(Clone, Copy, Debug)]
pub struct SpdmDheFinalKeyStruct {
    pub data_size: u16,
    pub data: [u8; 512],
}

impl View for SpdmDheFinalKeyStruct {
    type V = Seq<u8>;

    open spec fn view(&self) -> Seq<u8> {
        self.data@.subrange(0, self.data_size as int)
    }
}

impl SpdmDheFinalKeyStruct {
    /// The length field does not exceed the capacity.
    pub open spec fn wf(&self) -> bool {
        self.data_size <= 512
    }

    /// The buffer holds exactly `value`, with zeros behind it.
    pub open spec fn holds(&self, value: Seq<u8>) -> bool {
        &&& self.data_size == value.len()
        &&& self@ == value
        &&& forall|i: int| value.len() <= i < 512 ==> self.data@[i] == 0
    }

    /// The buffer that holds exactly `value`, with zeros behind it.
    pub open spec fn spec_from_bytes(value: Seq<u8>) -> SpdmDheFinalKeyStruct {
        choose|s: SpdmDheFinalKeyStruct| s.holds(value)
    }

    /// There is one buffer only that holds `value`.
    pub proof fn lemma_holds_unique(a: SpdmDheFinalKeyStruct, b: SpdmDheFinalKeyStruct, value: Seq<u8>)
        requires
            a.holds(value),
            b.holds(value),
            value.len() <= 512,
        ensures
            a == b,
    {
        assert forall|i: int| 0 <= i < 512 implies a.data[i] == b.data[i] by {
            if i < value.len() {
                assert(a.data@[i] == a@[i]);
                assert(b.data@[i] == b@[i]);
            }
        }
        assert(a.data =~= b.data);
    }

    /// The buffer that holds `value` and zeros behind it; nothing for a value
    /// that does not fit.
    pub fn from_bytes(value: &[u8]) -> (r: Option<SpdmDheFinalKeyStruct>)
        ensures
            r.is_some() <==> value@.len() <= 512,
            r matches Some(s) ==> s.wf() && s.holds(value@) && s == SpdmDheFinalKeyStruct::spec_from_bytes(
                value@,
            ),
    {
        if value.len() > 512 {
            return None;
        }
        let mut data = [0u8; 512];
        copy_into(&mut data, value);
        let s = SpdmDheFinalKeyStruct { data_size: value.len() as u16, data };
        assert(s@ =~= value@);
        assert forall|i: int| value@.len() <= i < 512 implies s.data@[i] == 0 by {
            assert(s.data@[i] == s.data@.subrange(value@.len() as int, 512)[i - value@.len()]);
        }
        proof {
            SpdmDheFinalKeyStruct::lemma_holds_unique(s, SpdmDheFinalKeyStruct::spec_from_bytes(value@), value@);
        }
        Some(s)
    }

    /// The bytes that count.
    pub fn as_ref(&self) -> (r: &[u8])
        requires
            self.wf(),
        ensures
            r@ == self@,
    {
        slice_subrange(self.data.as_slice(), 0, self.data_size as usize)
    }
}

impl Default for SpdmDheFinalKeyStruct {
    fn default() -> (r: SpdmDheFinalKeyStruct)
        ensures
            r.wf(),
            r.holds(Seq::<u8>::empty()),
            r == SpdmDheFinalKeyStruct::spec_from_bytes(Seq::<u8>::empty()),
    {
        let r = SpdmDheFinalKeyStruct { data_size: 0, data: [0u8; 512] };
        assert(r@ =~= Seq::<u8>::empty());
        assert(r.holds(Seq::<u8>::empty()));
        proof {
            SpdmDheFinalKeyStruct::lemma_holds_unique(
                r,
                SpdmDheFinalKeyStruct::spec_from_bytes(Seq::<u8>::empty()),
                Seq::<u8>::empty(),
            );
        }
        r
    }
}

/// Output keying material of at most 64 bytes.
#[derive(Clone, Copy, Debug)]
pub struct SpdmHKDFKeyStruct {
    pub data_size: u16,
    pub data: [u8; 64],
}

impl View for SpdmHKDFKeyStruct {
    type V = Seq<u8>;

    open spec fn view(&self) -> Seq<u8> {
        self.data@.subrange(0, self.data_size as int)
    }
}

impl SpdmHKDFKeyStruct {
    /// The length field does not exceed the capacity.
    pub open spec fn wf(&self) -> bool {
        self.data_size <= 64
    }

    /// The buffer holds exactly `value`, with zeros behind it.
    pub open spec fn holds(&self, value: Seq<u8>) -> bool {
        &&& self.data_size == value.len()
        &&& self@ == value
        &&& forall|i: int| value.len() <= i < 64 ==> self.data@[i] == 0
    }

    /// The buffer that holds exactly `value`, with zeros behind it.
    pub open spec fn spec_from_bytes(value: Seq<u8>) -> SpdmHKDFKeyStruct {
        choose|s: SpdmHKDFKeyStruct| s.holds(value)
    }

    /// There is one buffer only that holds `value`.
    pub proof fn lemma_holds_unique(a: SpdmHKDFKeyStruct, b: SpdmHKDFKeyStruct, value: Seq<u8>)
        requires
            a.holds(value),
            b.holds(value),
            value.len() <= 64,
        ensures
            a == b,
    {
        assert forall|i: int| 0 <= i < 64 implies a.data[i] == b.data[i] by {
            if i < value.len() {
                assert(a.data@[i] == a@[i]);
                assert(b.data@[i] == b@[i]);
            }
        }
        assert(a.data =~= b.data);
    }

    /// The buffer that holds `value` and zeros behind it; nothing for a value
    /// that does not fit.
    pub fn from_bytes(value: &[u8]) -> (r: Option<SpdmHKDFKeyStruct>)
        ensures
            r.is_some() <==> value@.len() <= 64,
            r matches Some(s) ==> s.wf() && s.holds(value@) && s == SpdmHKDFKeyStruct::spec_from_bytes(
                value@,
            ),
    {
        if value.len() > 64 {
            return None;
        }
        let mut data = [0u8; 64];
        copy_into(&mut data, value);
        let s = SpdmHKDFKeyStruct { data_size: value.len() as u16, data };
        assert(s@ =~= value@);
        assert forall|i: int| value@.len() <= i < 64 implies s.data@[i] == 0 by {
            assert(s.data@[i] == s.data@.subrange(value@.len() as int, 64)[i - value@.len()]);
        }
        proof {
            SpdmHKDFKeyStruct::lemma_holds_unique(s, SpdmHKDFKeyStruct::spec_from_bytes(value@), value@);
        }
        Some(s)
    }

    /// The bytes that count.
    pub fn as_ref(&self) -> (r: &[u8])
        requires
            self.wf(),
        ensures
            r@ == self@,
    {
        slice_subrange(self.data.as_slice(), 0, self.data_size as usize)
    }
}

impl Default for SpdmHKDFKeyStruct {
    fn default() -> (r: SpdmHKDFKeyStruct)
        ensures
            r.wf(),
            r.holds(Seq::<u8>::empty()),
            r == SpdmHKDFKeyStruct::spec_from_bytes(Seq::<u8>::empty()),
    {
        let r = SpdmHKDFKeyStruct { data_size: 0, data: [0u8; 64] };
        assert(r@ =~= Seq::<u8>::empty());
        assert(r.holds(Seq::<u8>::empty()));
        proof {
            SpdmHKDFKeyStruct::lemma_holds_unique(
                r,
                SpdmHKDFKeyStruct::spec_from_bytes(Seq::<u8>::empty()),
                Seq::<u8>::empty(),
            );
        }
        r
    }
}

/// Opaque data of at most 1024 bytes, which the protocol carries without looking into it.
#[derive(Clone, Copy, Debug)]
pub struct SpdmOpaqueStruct {
    pub data_size: u16,
    pub data: [u8; 1024],
}

impl View for SpdmOpaqueStruct {
    type V = Seq<u8>;

    open spec fn view(&self) -> Seq<u8> {
        self.data@.subrange(0, self.data_size as int)
    }
}

impl SpdmOpaqueStruct {
    /// The length field does not exceed the capacity.
    pub open spec fn wf(&self) -> bool {
        self.data_size <= 1024
    }

    /// The buffer holds exactly `value`, with zeros behind it.
    pub open spec fn holds(&self, value: Seq<u8>) -> bool {
        &&& self.data_size == value.len()
        &&& self@ == value
        &&& forall|i: int| value.len() <= i < 1024 ==> self.data@[i] == 0
    }

    /// The buffer that holds exactly `value`, with zeros behind it.
    pub open spec fn spec_from_bytes(value: Seq<u8>) -> SpdmOpaqueStruct {
        choose|s: SpdmOpaqueStruct| s.holds(value)
    }

    /// There is one buffer only that holds `value`.
    pub proof fn lemma_holds_unique(a: SpdmOpaqueStruct, b: SpdmOpaqueStruct, value: Seq<u8>)
        requires
            a.holds(value),
            b.holds(value),
            value.len() <= 1024,
        ensures
            a == b,
    {
        assert forall|i: int| 0 <= i < 1024 implies a.data[i] == b.data[i] by {
            if i < value.len() {
                assert(a.data@[i] == a@[i]);
                assert(b.data@[i] == b@[i]);
            }
        }
        assert(a.data =~= b.data);
    }

    /// The buffer that holds `value` and zeros behind it; nothing for a value
    /// that does not fit.
    pub fn from_bytes(value: &[u8]) -> (r: Option<SpdmOpaqueStruct>)
        ensures
            r.is_some() <==> value@.len() <= 1024,
            r matches Some(s) ==> s.wf() && s.holds(value@) && s == SpdmOpaqueStruct::spec_from_bytes(
                value@,
            ),
    {
        if value.len() > 1024 {
            return None;
        }
        let mut data = [0u8; 1024];
        copy_into(&mut data, value);
        let s = SpdmOpaqueStruct { data_size: value.len() as u16, data };
        assert(s@ =~= value@);
        assert forall|i: int| value@.len() <= i < 1024 implies s.data@[i] == 0 by {
            assert(s.data@[i] == s.data@.subrange(value@.len() as int, 1024)[i - value@.len()]);
        }
        proof {
            SpdmOpaqueStruct::lemma_holds_unique(s, SpdmOpaqueStruct::spec_from_bytes(value@), value@);
        }
        Some(s)
    }

    /// The bytes that count.
    pub fn as_ref(&self) -> (r: &[u8])
        requires
            self.wf(),
        ensures
            r@ == self@,
    {
        slice_subrange(self.data.as_slice(), 0, self.data_size as usize)
    }
}

impl Default for SpdmOpaqueStruct {
    fn default() -> (r: SpdmOpaqueStruct)
        ensures
            r.wf(),
            r.holds(Seq::<u8>::empty()),
            r == SpdmOpaqueStruct::spec_from_bytes(Seq::<u8>::empty()),
    {
        let r = SpdmOpaqueStruct { data_size: 0, data: [0u8; 1024] };
        assert(r@ =~= Seq::<u8>::empty());
        assert(r.holds(Seq::<u8>::empty()));
        proof {
            SpdmOpaqueStruct::lemma_holds_unique(
                r,
                SpdmOpaqueStruct::spec_from_bytes(Seq::<u8>::empty()),
                Seq::<u8>::empty(),
            );
        }
        r
    }
}

/// The concatenated DER certificates of a chain, at most 4096 bytes.
#[derive(Clone, Copy, Debug)]
pub struct SpdmCertChainData {
    pub data_size: u16,
    pub data: [u8; 4096],
}

impl View for SpdmCertChainData {
    type V = Seq<u8>;

    open spec fn view(&self) -> Seq<u8> {
        self.data@.subrange(0, self.data_size as int)
    }
}

impl SpdmCertChainData {
    /// The length field does not exceed the capacity.
    pub open spec fn wf(&self) -> bool {
        self.data_size <= 4096
    }

    /// The buffer holds exactly `value`, with zeros behind it.
    pub open spec fn holds(&self, value: Seq<u8>) -> bool {
        &&& self.data_size == value.len()
        &&& self@ == value
        &&& forall|i: int| value.len() <= i < 4096 ==> self.data@[i] == 0
    }

    /// The buffer that holds exactly `value`, with zeros behind it.
    pub open spec fn spec_from_bytes(value: Seq<u8>) -> SpdmCertChainData {
        choose|s: SpdmCertChainData| s.holds(value)
    }

    /// There is one buffer only that holds `value`.
    pub proof fn lemma_holds_unique(a: SpdmCertChainData, b: SpdmCertChainData, value: Seq<u8>)
        requires
            a.holds(value),
            b.holds(value),
            value.len() <= 4096,
        ensures
            a == b,
    {
        assert forall|i: int| 0 <= i < 4096 implies a.data[i] == b.data[i] by {
            if i < value.len() {
                assert(a.data@[i] == a@[i]);
                assert(b.data@[i] == b@[i]);
            }
        }
        assert(a.data =~= b.data);
    }

    /// The buffer that holds `value` and zeros behind it; nothing for a value
    /// that does not fit.
    pub fn from_bytes(value: &[u8]) -> (r: Option<SpdmCertChainData>)
        ensures
            r.is_some() <==> value@.len() <= 4096,
            r matches Some(s) ==> s.wf() && s.holds(value@) && s == SpdmCertChainData::spec_from_bytes(
                value@,
            ),
    {
        if value.len() > 4096 {
            return None;
        }
        let mut data = [0u8; 4096];
        copy_into(&mut data, value);
        let s = SpdmCertChainData { data_size: value.len() as u16, data };
        assert(s@ =~= value@);
        assert forall|i: int| value@.len() <= i < 4096 implies s.data@[i] == 0 by {
            assert(s.data@[i] == s.data@.subrange(value@.len() as int, 4096)[i - value@.len()]);
        }
        proof {
            SpdmCertChainData::lemma_holds_unique(s, SpdmCertChainData::spec_from_bytes(value@), value@);
        }
        Some(s)
    }

    /// The bytes that count.
    pub fn as_ref(&self) -> (r: &[u8])
        requires
            self.wf(),
        ensures
            r@ == self@,
    {
        slice_subrange(self.data.as_slice(), 0, self.data_size as usize)
    }
}

impl Default for SpdmCertChainData {
    fn default() -> (r: SpdmCertChainData)
        ensures
            r.wf(),
            r.holds(Seq::<u8>::empty()),
            r == SpdmCertChainData::spec_from_bytes(Seq::<u8>::empty()),
    {
        let r = SpdmCertChainData { data_size: 0, data: [0u8; 4096] };
        assert(r@ =~= Seq::<u8>::empty());
        assert(r.holds(Seq::<u8>::empty()));
        proof {
            SpdmCertChainData::lemma_holds_unique(
                r,
                SpdmCertChainData::spec_from_bytes(Seq::<u8>::empty()),
                Seq::<u8>::empty(),
            );
        }
        r
    }
}

/// The name of a pre-shared key, at most 32 bytes.
#[derive(Clone, Copy, Debug)]
pub struct SpdmPskHintStruct {
    pub data_size: u16,
    pub data: [u8; 32],
}

impl View for SpdmPskHintStruct {
    type V = Seq<u8>;

    open spec fn view(&self) -> Seq<u8> {
        self.data@.subrange(0, self.data_size as int)
    }
}

impl SpdmPskHintStruct {
    /// The length field does not exceed the capacity.
    pub open spec fn wf(&self) -> bool {
        self.data_size <= 32
    }

    /// The buffer holds exactly `value`, with zeros behind it.
    pub open spec fn holds(&self, value: Seq<u8>) -> bool {
        &&& self.data_size == value.len()
        &&& self@ == value
        &&& forall|i: int| value.len() <= i < 32 ==> self.data@[i] == 0
    }

    /// The buffer that holds exactly `value`, with zeros behind it.
    pub open spec fn spec_from_bytes(value: Seq<u8>) -> SpdmPskHintStruct {
        choose|s: SpdmPskHintStruct| s.holds(value)
    }

    /// There is one buffer only that holds `value`.
    pub proof fn lemma_holds_unique(a: SpdmPskHintStruct, b: SpdmPskHintStruct, value: Seq<u8>)
        requires
            a.holds(value),
            b.holds(value),
            value.len() <= 32,
        ensures
            a == b,
    {
        assert forall|i: int| 0 <= i < 32 implies a.data[i] == b.data[i] by {
            if i < value.len() {
                assert(a.data@[i] == a@[i]);
                assert(b.data@[i] == b@[i]);
            }
        }
        assert(a.data =~= b.data);
    }

    /// The buffer that holds `value` and zeros behind it; nothing for a value
    /// that does not fit.
    pub fn from_bytes(value: &[u8]) -> (r: Option<SpdmPskHintStruct>)
        ensures
            r.is_some() <==> value@.len() <= 32,
            r matches Some(s) ==> s.wf() && s.holds(value@) && s == SpdmPskHintStruct::spec_from_bytes(
                value@,
            ),
    {
        if value.len() > 32 {
            return None;
        }
        let mut data = [0u8; 32];
        copy_into(&mut data, value);
        let s = SpdmPskHintStruct { data_size: value.len() as u16, data };
        assert(s@ =~= value@);
        assert forall|i: int| value@.len() <= i < 32 implies s.data@[i] == 0 by {
            assert(s.data@[i] == s.data@.subrange(value@.len() as int, 32)[i - value@.len()]);
        }
        proof {
            SpdmPskHintStruct::lemma_holds_unique(s, SpdmPskHintStruct::spec_from_bytes(value@), value@);
        }
        Some(s)
    }

    /// The bytes that count.
    pub fn as_ref(&self) -> (r: &[u8])
        requires
            self.wf(),
        ensures
            r@ == self@,
    {
        slice_subrange(self.data.as_slice(), 0, self.data_size as usize)
    }
}

impl Default for SpdmPskHintStruct {
    fn default() -> (r: SpdmPskHintStruct)
        ensures
            r.wf(),
            r.holds(Seq::<u8>::empty()),
            r == SpdmPskHintStruct::spec_from_bytes(Seq::<u8>::empty()),
    {
        let r = SpdmPskHintStruct { data_size: 0, data: [0u8; 32] };
        assert(r@ =~= Seq::<u8>::empty());
        assert(r.holds(Seq::<u8>::empty()));
        proof {
            SpdmPskHintStruct::lemma_holds_unique(
                r,
                SpdmPskHintStruct::spec_from_bytes(Seq::<u8>::empty()),
                Seq::<u8>::empty(),
            );
        }
        r
    }
}

/// The bytes that one side adds to an exchange on a pre-shared key, at most 64 bytes.
#[derive(Clone, Copy, Debug)]
pub struct SpdmPskContextStruct {
    pub data_size: u16,
    pub data: [u8; 64],
}

impl View for SpdmPskContextStruct {
    type V = Seq<u8>;

    open spec fn view(&self) -> Seq<u8> {
        self.data@.subrange(0, self.data_size as int)
    }
}

impl SpdmPskContextStruct {
    /// The length field does not exceed the capacity.
    pub open spec fn wf(&self) -> bool {
        self.data_size <= 64
    }

    /// The buffer holds exactly `value`, with zeros behind it.
    pub open spec fn holds(&self, value: Seq<u8>) -> bool {
        &&& self.data_size == value.len()
        &&& self@ == value
        &&& forall|i: int| value.len() <= i < 64 ==> self.data@[i] == 0
    }

    /// The buffer that holds exactly `value`, with zeros behind it.
    pub open spec fn spec_from_bytes(value: Seq<u8>) -> SpdmPskContextStruct {
        choose|s: SpdmPskContextStruct| s.holds(value)
    }

    /// There is one buffer only that holds `value`.
    pub proof fn lemma_holds_unique(a: SpdmPskContextStruct, b: SpdmPskContextStruct, value: Seq<u8>)
        requires
            a.holds(value),
            b.holds(value),
            value.len() <= 64,
        ensures
            a == b,
    {
        assert forall|i: int| 0 <= i < 64 implies a.data[i] == b.data[i] by {
            if i < value.len() {
                assert(a.data@[i] == a@[i]);
                assert(b.data@[i] == b@[i]);
            }
        }
        assert(a.data =~= b.data);
    }

    /// The buffer that holds `value` and zeros behind it; nothing for a value
    /// that does not fit.
    pub fn from_bytes(value: &[u8]) -> (r: Option<SpdmPskContextStruct>)
        ensures
            r.is_some() <==> value@.len() <= 64,
            r matches Some(s) ==> s.wf() && s.holds(value@) && s == SpdmPskContextStruct::spec_from_bytes(
                value@,
            ),
    {
        if value.len() > 64 {
            return None;
        }
        let mut data = [0u8; 64];
        copy_into(&mut data, value);
        let s = SpdmPskContextStruct { data_size: value.len() as u16, data };
        assert(s@ =~= value@);
        assert forall|i: int| value@.len() <= i < 64 implies s.data@[i] == 0 by {
            assert(s.data@[i] == s.data@.subrange(value@.len() as int, 64)[i - value@.len()]);
        }
        proof {
            SpdmPskContextStruct::lemma_holds_unique(s, SpdmPskContextStruct::spec_from_bytes(value@), value@);
        }
        Some(s)
    }

    /// The bytes that count.
    pub fn as_ref(&self) -> (r: &[u8])
        requires
            self.wf(),
        ensures
            r@ == self@,
    {
        slice_subrange(self.data.as_slice(), 0, self.data_size as usize)
    }
}

impl Default for SpdmPskContextStruct {
    fn default() -> (r: SpdmPskContextStruct)
        ensures
            r.wf(),
            r.holds(Seq::<u8>::empty()),
            r == SpdmPskContextStruct::spec_from_bytes(Seq::<u8>::empty()),
    {
        let r = SpdmPskContextStruct { data_size: 0, data: [0u8; 64] };
        assert(r@ =~= Seq::<u8>::empty());
        assert(r.holds(Seq::<u8>::empty()));
        proof {
            SpdmPskContextStruct::lemma_holds_unique(
                r,
                SpdmPskContextStruct::spec_from_bytes(Seq::<u8>::empty()),
                Seq::<u8>::empty(),
            );
        }
        r
    }
}

/// One portion of a certificate chain that is moved in parts, at most 512 bytes.
#[derive(Clone, Copy, Debug)]
pub struct SpdmCertChainPortion {
    pub data_size: u16,
    pub data: [u8; 512],
}

impl View for SpdmCertChainPortion {
    type V = Seq<u8>;

    open spec fn view(&self) -> Seq<u8> {
        self.data@.subrange(0, self.data_size as int)
    }
}

impl SpdmCertChainPortion {
    /// The length field does not exceed the capacity.
    pub open spec fn wf(&self) -> bool {
        self.data_size <= 512
    }

    /// The buffer holds exactly `value`, with zeros behind it.
    pub open spec fn holds(&self, value: Seq<u8>) -> bool {
        &&& self.data_size == value.len()
        &&& self@ == value
        &&& forall|i: int| value.len() <= i < 512 ==> self.data@[i] == 0
    }

    /// The buffer that holds exactly `value`, with zeros behind it.
    pub open spec fn spec_from_bytes(value: Seq<u8>) -> SpdmCertChainPortion {
        choose|s: SpdmCertChainPortion| s.holds(value)
    }

    /// There is one buffer only that holds `value`.
    pub proof fn lemma_holds_unique(a: SpdmCertChainPortion, b: SpdmCertChainPortion, value: Seq<u8>)
        requires
            a.holds(value),
            b.holds(value),
            value.len() <= 512,
        ensures
            a == b,
    {
        assert forall|i: int| 0 <= i < 512 implies a.data[i] == b.data[i] by {
            if i < value.len() {
                assert(a.data@[i] == a@[i]);
                assert(b.data@[i] == b@[i]);
            }
        }
        assert(a.data =~= b.data);
    }

    /// The buffer that holds `value` and zeros behind it; nothing for a value
    /// that does not fit.
    pub fn from_bytes(value: &[u8]) -> (r: Option<SpdmCertChainPortion>)
        ensures
            r.is_some() <==> value@.len() <= 512,
            r matches Some(s) ==> s.wf() && s.holds(value@) && s == SpdmCertChainPortion::spec_from_bytes(
                value@,
            ),
    {
        if value.len() > 512 {
            return None;
        }
        let mut data = [0u8; 512];
        copy_into(&mut data, value);
        let s = SpdmCertChainPortion { data_size: value.len() as u16, data };
        assert(s@ =~= value@);
        assert forall|i: int| value@.len() <= i < 512 implies s.data@[i] == 0 by {
            assert(s.data@[i] == s.data@.subrange(value@.len() as int, 512)[i - value@.len()]);
        }
        proof {
            SpdmCertChainPortion::lemma_holds_unique(s, SpdmCertChainPortion::spec_from_bytes(value@), value@);
        }
        Some(s)
    }

    /// The bytes that count.
    pub fn as_ref(&self) -> (r: &[u8])
        requires
            self.wf(),
        ensures
            r@ == self@,
    {
        slice_subrange(self.data.as_slice(), 0, self.data_size as usize)
    }
}

impl Default for SpdmCertChainPortion {
    fn default() -> (r: SpdmCertChainPortion)
        ensures
            r.wf(),
            r.holds(Seq::<u8>::empty()),
            r == SpdmCertChainPortion::spec_from_bytes(Seq::<u8>::empty()),
    {
        let r = SpdmCertChainPortion { data_size: 0, data: [0u8; 512] };
        assert(r@ =~= Seq::<u8>::empty());
        assert(r.holds(Seq::<u8>::empty()));
        proof {
            SpdmCertChainPortion::lemma_holds_unique(
                r,
                SpdmCertChainPortion::spec_from_bytes(Seq::<u8>::empty()),
                Seq::<u8>::empty(),
            );
        }
        r
    }
}

} // verus!
