//! Little-endian wire codec: a bounded writer, a reader and the encodings of
//! the integer types.

use vstd::prelude::*;
use vstd::slice::slice_subrange;

verus! {

/// What lies in a buffer from the place `used` on is the same in `after` as
/// in `before`.
pub open spec fn kept_behind(before: Seq<u8>, after: Seq<u8>, used: int) -> bool {
    forall|i: int| used <= i < after.len() ==> after[i] == before[i]
}

/// Appends bytes to a caller-provided buffer and never grows it.
///
/// The view of a writer is what has been written so far: the first `used`
/// bytes of the buffer.
pub struct Writer<'a> {
    pub bytes: &'a mut [u8],
    pub used: usize,
}

impl<'a> View for Writer<'a> {
    type V = Seq<u8>;

    open spec fn view(&self) -> Seq<u8> {
        self.bytes@.subrange(0, self.used as int)
    }
}

impl<'a> Writer<'a> {
    /// The cursor lies within the buffer.
    pub open spec fn wf(&self) -> bool {
        self.used <= self.bytes@.len()
    }

    /// The length of the buffer.
    pub open spec fn capacity(&self) -> nat {
        self.bytes@.len()
    }

    /// The number of bytes that can still be written.
    pub open spec fn spec_left(&self) -> nat {
        (self.bytes@.len() - self.used) as nat
    }

    /// A writer at the start of `bytes`.
    pub fn init(bytes: &'a mut [u8]) -> (w: Writer<'a>)
        ensures
            w.wf(),
            w.used == 0,
            w.bytes@ == old(bytes)@,
            final(bytes)@ == final(w.bytes)@,
    {
        Writer { bytes, used: 0 }
    }

    /// Appends one byte, or does nothing where the buffer is full.
    pub fn push(&mut self, value: u8) -> (r: Option<u8>)
        requires
            old(self).wf(),
        ensures
            final(self).wf(),
            final(self).capacity() == old(self).capacity(),
            final(final(self).bytes)@ == final(old(self).bytes)@,
            r.is_some() <==> old(self).spec_left() >= 1,
            r.is_some() ==> r == Some(value) && final(self)@ == old(self)@.push(value),
            r.is_none() ==> final(self)@ == old(self)@,
            kept_behind(old(self).bytes@, final(self).bytes@, final(self).used as int),
    {
        if self.used < self.bytes.len() {
            self.bytes[self.used] = value;
            self.used = self.used + 1;
            assert(self@ =~= old(self)@.push(value));
            Some(value)
        } else {
            None
        }
    }

    /// Appends `value` whole, or does nothing where it does not fit.
    pub fn extend_from_slice(&mut self, value: &[u8]) -> (r: Option<usize>)
        requires
            old(self).wf(),
        ensures
            final(self).wf(),
            final(self).capacity() == old(self).capacity(),
            final(final(self).bytes)@ == final(old(self).bytes)@,
            r.is_some() <==> old(self).spec_left() >= value@.len(),
            r.is_some() ==> r == Some(value@.len() as usize) && final(self)@ == old(self)@
                + value@,
            r.is_none() ==> final(self)@ == old(self)@,
            kept_behind(old(self).bytes@, final(self).bytes@, final(self).used as int),
    {
        if self.bytes.len() - self.used < value.len() {
            return None;
        }
        let added: usize = value.len();
        let start: usize = self.used;
        let mut i: usize = 0;
        while i < added
            invariant
                added == value@.len(),
                start == old(self).used,
                self.used == start,
                self.bytes@.len() == old(self).bytes@.len(),
                start + added <= self.bytes@.len(),
                start + added <= usize::MAX,
                i <= added,
                final(self.bytes)@ == final(old(self).bytes)@,
                forall|j: int| 0 <= j < start ==> self.bytes@[j] == old(self).bytes@[j],
                forall|j: int| 0 <= j < i ==> self.bytes@[start + j] == value@[j],
                forall|j: int|
                    start + i <= j < self.bytes@.len() ==> self.bytes@[j] == old(self).bytes@[j],
            decreases added - i,
        {
            self.bytes[start + i] = value[i];
            i = i + 1;
        }
        self.used = start + added;
        assert(self@ =~= old(self)@ + value@);
        Some(added)
    }

    /// Appends `value` behind the bytes `sofar` that were written behind
    /// `start`.
    pub(crate) fn put(&mut self, value: &[u8], Ghost(start): Ghost<Seq<u8>>, Ghost(sofar): Ghost<Seq<u8>>)
        requires
            old(self).wf(),
            old(self)@ == start + sofar,
            old(self).spec_left() >= value@.len(),
        ensures
            final(self).wf(),
            final(self).capacity() == old(self).capacity(),
            final(final(self).bytes)@ == final(old(self).bytes)@,
            final(self)@ == start + (sofar + value@),
            final(self).spec_left() == old(self).spec_left() - value@.len(),
            kept_behind(old(self).bytes@, final(self).bytes@, final(self).used as int),
    {
        let _ = self.extend_from_slice(value);
        assert(start + sofar + value@ =~= start + (sofar + value@));
    }

    /// Appends the byte `value` behind the bytes `sofar` that were written
    /// behind `start`.
    pub(crate) fn put_u8(&mut self, value: u8, Ghost(start): Ghost<Seq<u8>>, Ghost(sofar): Ghost<Seq<u8>>)
        requires
            old(self).wf(),
            old(self)@ == start + sofar,
            old(self).spec_left() >= 1,
        ensures
            final(self).wf(),
            final(self).capacity() == old(self).capacity(),
            final(final(self).bytes)@ == final(old(self).bytes)@,
            final(self)@ == start + (sofar + seq![value]),
            final(self).spec_left() == old(self).spec_left() - 1,
            kept_behind(old(self).bytes@, final(self).bytes@, final(self).used as int),
    {
        let _ = self.push(value);
        assert((start + sofar).push(value) =~= start + (sofar + seq![value]));
    }

    /// Appends the two bytes of `value`, low byte first, behind the bytes
    /// `sofar` that were written behind `start`.
    pub(crate) fn put_u16(&mut self, value: u16, Ghost(start): Ghost<Seq<u8>>, Ghost(sofar): Ghost<Seq<u8>>)
        requires
            old(self).wf(),
            old(self)@ == start + sofar,
            old(self).spec_left() >= 2,
        ensures
            final(self).wf(),
            final(self).capacity() == old(self).capacity(),
            final(final(self).bytes)@ == final(old(self).bytes)@,
            final(self)@ == start + (sofar + le_bytes_u16(value)),
            final(self).spec_left() == old(self).spec_left() - 2,
            kept_behind(old(self).bytes@, final(self).bytes@, final(self).used as int),
    {
        let _ = self.push((value % 256) as u8);
        let _ = self.push((value / 256) as u8);
        assert((start + sofar).push((value % 256) as u8).push((value / 256) as u8) =~= start + (
        sofar + le_bytes_u16(value)));
    }

    /// Appends the four bytes of `value`, low byte first, behind the bytes
    /// `sofar` that were written behind `start`.
    pub(crate) fn put_u32(&mut self, value: u32, Ghost(start): Ghost<Seq<u8>>, Ghost(sofar): Ghost<Seq<u8>>)
        requires
            old(self).wf(),
            old(self)@ == start + sofar,
            old(self).spec_left() >= 4,
        ensures
            final(self).wf(),
            final(self).capacity() == old(self).capacity(),
            final(final(self).bytes)@ == final(old(self).bytes)@,
            final(self)@ == start + (sofar + le_bytes_u32(value)),
            final(self).spec_left() == old(self).spec_left() - 4,
            kept_behind(old(self).bytes@, final(self).bytes@, final(self).used as int),
    {
        assert(le_bytes_u32(value).len() == 4);
        value.encode(self);
        assert(start + sofar + le_bytes_u32(value) =~= start + (sofar + le_bytes_u32(value)));
    }

    /// Appends the three bytes of `value`, low byte first, behind the bytes
    /// `sofar` that were written behind `start`.
    pub(crate) fn put_u24(&mut self, value: u32, Ghost(start): Ghost<Seq<u8>>, Ghost(sofar): Ghost<Seq<u8>>)
        requires
            old(self).wf(),
            old(self)@ == start + sofar,
            old(self).spec_left() >= 3,
            value <= 0xff_ffff,
        ensures
            final(self).wf(),
            final(self).capacity() == old(self).capacity(),
            final(final(self).bytes)@ == final(old(self).bytes)@,
            final(self)@ == start + (sofar + le_bytes_u24(value)),
            final(self).spec_left() == old(self).spec_left() - 3,
            kept_behind(old(self).bytes@, final(self).bytes@, final(self).used as int),
    {
        let wire: [u8; 3] = [(value % 256) as u8, ((value / 256) % 256) as u8, (value / 65536) as u8];
        assert(wire@ =~= le_bytes_u24(value));
        self.put(wire.as_slice(), Ghost(start), Ghost(sofar));
    }

    /// The number of bytes written so far.
    pub fn used(&self) -> (n: usize)
        ensures
            n == self.used,
            n == self@.len() || !self.wf(),
    {
        self.used
    }

    /// The number of bytes that can still be written.
    pub fn left(&self) -> (n: usize)
        requires
            self.wf(),
        ensures
            n == self.spec_left(),
    {
        self.bytes.len() - self.used
    }

    /// What has been written so far.
    pub fn written(&self) -> (r: &[u8])
        requires
            self.wf(),
        ensures
            r@ == self@,
    {
        slice_subrange(self.bytes, 0, self.used)
    }
}

/// Reads a byte string from front to back.
pub struct Reader<'a> {
    buf: &'a [u8],
    offs: usize,
}

impl<'a> Reader<'a> {
    /// The whole byte string, read or not.
    pub closed spec fn buffer(&self) -> Seq<u8> {
        self.buf@
    }

    /// The number of bytes read so far.
    pub closed spec fn spec_used(&self) -> nat {
        self.offs as nat
    }

    /// The cursor lies within the buffer.
    pub open spec fn wf(&self) -> bool {
        self.spec_used() <= self.buffer().len()
    }

    /// The bytes that have not been read yet.
    pub open spec fn remaining(&self) -> Seq<u8> {
        self.buffer().subrange(self.spec_used() as int, self.buffer().len() as int)
    }

    /// A reader at the start of `bytes`.
    pub fn init(bytes: &'a [u8]) -> (r: Reader<'a>)
        ensures
            r.wf(),
            r.buffer() == bytes@,
            r.spec_used() == 0,
            r.remaining() == bytes@,
    {
        let r = Reader { buf: bytes, offs: 0 };
        assert(r.remaining() =~= bytes@);
        r
    }

    /// The number of bytes that have not been read yet.
    pub fn left(&self) -> (n: usize)
        requires
            self.wf(),
        ensures
            n == self.remaining().len(),
    {
        self.buf.len() - self.offs
    }

    /// The number of bytes read so far.
    pub fn used(&self) -> (n: usize)
        ensures
            n == self.spec_used(),
    {
        self.offs
    }

    /// Tells whether anything is left to read.
    pub fn any_left(&self) -> (b: bool)
        requires
            self.wf(),
        ensures
            b == (self.remaining().len() > 0),
    {
        self.offs < self.buf.len()
    }

    /// The bytes that have not been read yet. The reader stays where it is.
    pub fn peek(&self) -> (r: &'a [u8])
        requires
            self.wf(),
        ensures
            r@ == self.remaining(),
    {
        slice_subrange(self.buf, self.offs, self.buf.len())
    }

    /// Reads the next `length` bytes, or nothing where fewer are left.
    pub fn take(&mut self, length: usize) -> (r: Option<&'a [u8]>)
        requires
            old(self).wf(),
        ensures
            final(self).wf(),
            final(self).buffer() == old(self).buffer(),
            r.is_some() <==> old(self).remaining().len() >= length,
            r matches Some(s) ==> s@ == old(self).remaining().subrange(0, length as int)
                && final(self).spec_used() == old(self).spec_used() + length
                && final(self).remaining() == old(self).remaining().subrange(
                length as int,
                old(self).remaining().len() as int,
            ),
            r.is_none() ==> final(self).spec_used() == old(self).spec_used(),
    {
        if self.buf.len() - self.offs < length {
            return None;
        }
        let current: usize = self.offs;
        self.offs = current + length;
        let s = slice_subrange(self.buf, current, current + length);
        assert(s@ =~= old(self).remaining().subrange(0, length as int));
        assert(self.remaining() =~= old(self).remaining().subrange(
            length as int,
            old(self).remaining().len() as int,
        ));
        Some(s)
    }

    /// Reads one byte, or nothing at the end.
    pub fn take_u8(&mut self) -> (r: Option<u8>)
        requires
            old(self).wf(),
        ensures
            final(self).wf(),
            final(self).buffer() == old(self).buffer(),
            r.is_some() <==> old(self).remaining().len() >= 1,
            r matches Some(b) ==> b == old(self).remaining()[0] && final(self).spec_used() == old(
                self,
            ).spec_used() + 1 && final(self).remaining() == old(self).remaining().subrange(
                1,
                old(self).remaining().len() as int,
            ),
            r.is_none() ==> final(self).spec_used() == old(self).spec_used(),
    {
        if self.offs < self.buf.len() {
            let b: u8 = self.buf[self.offs];
            self.offs = self.offs + 1;
            assert(self.remaining() =~= old(self).remaining().subrange(
                1,
                old(self).remaining().len() as int,
            ));
            Some(b)
        } else {
            None
        }
    }
}

/// A value with a wire form.
///
/// `spec_encode` is the wire form, `spec_read` the parse of the front of a
/// byte string, and `lemma_round_trip` the law that ties them together.
pub trait Codec: Sized {
    /// The value can be put on the wire.
    spec fn spec_valid(&self) -> bool;

    /// The wire form of the value.
    spec fn spec_encode(&self) -> Seq<u8>;

    /// The value at the front of `bytes` and the number of bytes it takes, or
    /// nothing where `bytes` does not start with a wire form.
    spec fn spec_read(bytes: Seq<u8>) -> Option<(Self, nat)>;

    /// Appends the wire form where it fits; where it does not, what was written
    /// before stays in place in front of whatever was added.
    fn encode(&self, bytes: &mut Writer)
        requires
            old(bytes).wf(),
            self.spec_valid(),
        ensures
            final(bytes).wf(),
            final(bytes).capacity() == old(bytes).capacity(),
            final(final(bytes).bytes)@ == final(old(bytes).bytes)@,
            old(bytes).spec_left() >= self.spec_encode().len() ==> final(bytes)@ == old(bytes)@
                + self.spec_encode(),
            old(bytes)@.is_prefix_of(final(bytes)@),
            kept_behind(old(bytes).bytes@, final(bytes).bytes@, final(bytes).used as int),
    ;

    /// Reads one value from the front of what is left.
    fn read(r: &mut Reader) -> (v: Option<Self>)
        requires
            old(r).wf(),
        ensures
            final(r).wf(),
            final(r).buffer() == old(r).buffer(),
            v.is_some() <==> Self::spec_read(old(r).remaining()).is_some(),
            v matches Some(value) ==> Self::spec_read(old(r).remaining()) matches Some((s, n))
                && s == value && value.spec_valid() && n <= old(r).remaining().len()
                && final(r).spec_used() == old(r).spec_used() + n
                && final(r).remaining() == old(r).remaining().subrange(
                n as int,
                old(r).remaining().len() as int,
            ),
    ;

    /// Reading the wire form of a value gives the value back and takes exactly
    /// its bytes, whatever follows them.
    proof fn lemma_round_trip(&self, rest: Seq<u8>)
        requires
            self.spec_valid(),
        ensures
            Self::spec_read(self.spec_encode() + rest) == Some(
                (*self, self.spec_encode().len()),
            ),
    ;
}

impl Codec for u8 {
    open spec fn spec_valid(&self) -> bool {
        true
    }

    open spec fn spec_encode(&self) -> Seq<u8> {
        seq![*self]
    }

    open spec fn spec_read(bytes: Seq<u8>) -> Option<(u8, nat)> {
        if bytes.len() >= 1 {
            Some((bytes[0], 1))
        } else {
            None
        }
    }

    fn encode(&self, bytes: &mut Writer) {
        let _ = bytes.push(*self);
        assert(self.spec_encode().len() == 1);
        assert(old(bytes)@.push(*self) =~= old(bytes)@ + seq![*self]);
    }

    fn read(r: &mut Reader) -> (v: Option<u8>) {
        r.take_u8()
    }

    proof fn lemma_round_trip(&self, rest: Seq<u8>) {
    }
}

/// The two bytes of `value`, low byte first.
pub open spec fn le_bytes_u16(value: u16) -> Seq<u8> {
    seq![(value % 256) as u8, (value / 256) as u8]
}

/// The number whose little-endian form is the first two bytes of `bytes`.
pub open spec fn le_value_u16(bytes: Seq<u8>) -> u16 {
    (bytes[0] as int + bytes[1] as int * 256) as u16
}

/// The number whose little-endian form is `bytes`.
pub fn read_u16(bytes: &[u8]) -> (r: u16)
    requires
        bytes@.len() == 2,
    ensures
        r == le_value_u16(bytes@),
{
    bytes[0] as u16 + (bytes[1] as u16) * 256
}

impl Codec for u16 {
    open spec fn spec_valid(&self) -> bool {
        true
    }

    open spec fn spec_encode(&self) -> Seq<u8> {
        le_bytes_u16(*self)
    }

    open spec fn spec_read(bytes: Seq<u8>) -> Option<(u16, nat)> {
        if bytes.len() >= 2 {
            Some((le_value_u16(bytes), 2))
        } else {
            None
        }
    }

    fn encode(&self, bytes: &mut Writer) {
        let value: u16 = *self;
        let wire: [u8; 2] = [(value % 256) as u8, (value / 256) as u8];
        assert(wire@ =~= le_bytes_u16(value));
        let _ = bytes.extend_from_slice(wire.as_slice());
        proof {
            assert(self.spec_encode() == wire@);
            assert(wire@.len() == 2);
        }
    }

    fn read(r: &mut Reader) -> (v: Option<u16>) {
        match r.take(2) {
            Some(s) => {
                let value: u16 = s[0] as u16 + (s[1] as u16) * 256;
                Some(value)
            },
            None => None,
        }
    }

    proof fn lemma_round_trip(&self, rest: Seq<u8>) {
    }
}

/// A number of 24 bits, carried on the wire in three bytes.
#[allow(non_camel_case_types)]
#[derive(Clone, Copy, Debug, PartialEq, Eq, Structural)]
pub struct u24(pub u32);

impl u24 {
    /// The 24-bit number `value`, or its low 24 bits where it is larger.
    pub fn new(value: u32) -> (r: u24)
        ensures
            r.0 == value % 0x100_0000,
            r.spec_valid(),
    {
        u24(value % 0x100_0000)
    }

    /// The number as a `u32`.
    pub fn get(&self) -> (r: u32)
        ensures
            r == self.0,
    {
        self.0
    }
}

/// The three low bytes of `value`, low byte first.
pub open spec fn le_bytes_u24(value: u32) -> Seq<u8> {
    seq![(value % 256) as u8, ((value / 256) % 256) as u8, ((value / 65536) % 256) as u8]
}

/// The number whose little-endian form is the first three bytes of `bytes`.
pub open spec fn le_value_u24(bytes: Seq<u8>) -> u32 {
    (bytes[0] as int + bytes[1] as int * 256 + bytes[2] as int * 65536) as u32
}

impl Codec for u24 {
    open spec fn spec_valid(&self) -> bool {
        self.0 < 0x100_0000
    }

    open spec fn spec_encode(&self) -> Seq<u8> {
        le_bytes_u24(self.0)
    }

    open spec fn spec_read(bytes: Seq<u8>) -> Option<(u24, nat)> {
        if bytes.len() >= 3 {
            Some((u24(le_value_u24(bytes)), 3))
        } else {
            None
        }
    }

    fn encode(&self, bytes: &mut Writer) {
        let value: u32 = self.0;
        let wire: [u8; 3] = [
            (value % 256) as u8,
            ((value / 256) % 256) as u8,
            ((value / 65536) % 256) as u8,
        ];
        assert(wire@ =~= le_bytes_u24(value));
        assert(le_bytes_u24(value).len() == 3);
        let _ = bytes.extend_from_slice(wire.as_slice());
    }

    fn read(r: &mut Reader) -> (v: Option<u24>) {
        match r.take(3) {
            Some(s) => {
                let value: u32 = s[0] as u32 + (s[1] as u32) * 256 + (s[2] as u32) * 65536;
                Some(u24(value))
            },
            None => None,
        }
    }

    proof fn lemma_round_trip(&self, rest: Seq<u8>) {
    }
}

/// The four bytes of `value`, low byte first.
pub open spec fn le_bytes_u32(value: u32) -> Seq<u8> {
    seq![
        (value % 256) as u8,
        ((value / 256) % 256) as u8,
        ((value / 65536) % 256) as u8,
        (value / 16777216) as u8,
    ]
}

/// The number whose little-endian form is the first four bytes of `bytes`.
pub open spec fn le_value_u32(bytes: Seq<u8>) -> u32 {
    (bytes[0] as int + bytes[1] as int * 256 + bytes[2] as int * 65536 + bytes[3] as int
        * 16777216) as u32
}

/// The number whose little-endian form is `bytes`.
pub fn read_u24(bytes: &[u8]) -> (r: u32)
    requires
        bytes@.len() == 3,
    ensures
        r == le_value_u24(bytes@),
        r <= 0xff_ffff,
{
    bytes[0] as u32 + (bytes[1] as u32) * 256 + (bytes[2] as u32) * 65536
}

/// The number whose little-endian form is the little-endian form of `value`
/// is `value`.
pub proof fn lemma_le_u24(value: u32)
    requires
        value <= 0xff_ffff,
    ensures
        le_value_u24(le_bytes_u24(value)) == value,
        le_bytes_u24(value).len() == 3,
{
}

/// The number whose little-endian form is `bytes`.
pub fn read_u32(bytes: &[u8]) -> (r: u32)
    requires
        bytes@.len() == 4,
    ensures
        r == le_value_u32(bytes@),
{
    bytes[0] as u32 + (bytes[1] as u32) * 256 + (bytes[2] as u32) * 65536 + (bytes[3] as u32)
        * 16777216
}

/// The number whose little-endian form is the little-endian form of `value`
/// is `value`.
pub proof fn lemma_le_u32(value: u32)
    ensures
        le_value_u32(le_bytes_u32(value)) == value,
        le_bytes_u32(value).len() == 4,
{
}

/// The number whose little-endian form is the little-endian form of `value`
/// is `value`.
pub proof fn lemma_le_u16(value: u16)
    ensures
        le_value_u16(le_bytes_u16(value)) == value,
        le_bytes_u16(value).len() == 2,
{
}

impl Codec for u32 {
    open spec fn spec_valid(&self) -> bool {
        true
    }

    open spec fn spec_encode(&self) -> Seq<u8> {
        le_bytes_u32(*self)
    }

    open spec fn spec_read(bytes: Seq<u8>) -> Option<(u32, nat)> {
        if bytes.len() >= 4 {
            Some((le_value_u32(bytes), 4))
        } else {
            None
        }
    }

    fn encode(&self, bytes: &mut Writer) {
        let value: u32 = *self;
        let wire: [u8; 4] = [
            (value % 256) as u8,
            ((value / 256) % 256) as u8,
            ((value / 65536) % 256) as u8,
            (value / 16777216) as u8,
        ];
        assert(wire@ =~= le_bytes_u32(value));
        assert(le_bytes_u32(value).len() == 4);
        let _ = bytes.extend_from_slice(wire.as_slice());
    }

    fn read(r: &mut Reader) -> (v: Option<u32>) {
        match r.take(4) {
            Some(s) => {
                let value: u32 = s[0] as u32 + (s[1] as u32) * 256 + (s[2] as u32) * 65536 + (
                s[3] as u32) * 16777216;
                Some(value)
            },
            None => None,
        }
    }

    proof fn lemma_round_trip(&self, rest: Seq<u8>) {
    }
}

/// The eight bytes of `value`, high byte first.
pub open spec fn be_bytes_u64(value: u64) -> Seq<u8> {
    seq![
        (value / 0x100_0000_0000_0000) as u8,
        ((value / 0x1_0000_0000_0000) % 256) as u8,
        ((value / 0x100_0000_0000) % 256) as u8,
        ((value / 0x1_0000_0000) % 256) as u8,
        ((value / 0x100_0000) % 256) as u8,
        ((value / 0x1_0000) % 256) as u8,
        ((value / 0x100) % 256) as u8,
        (value % 256) as u8,
    ]
}

/// The eight bytes of `value`, high byte first.
pub fn u64_to_be_bytes(value: u64) -> (r: [u8; 8])
    ensures
        r@ == be_bytes_u64(value),
{
    let r: [u8; 8] = [
        (value / 0x100_0000_0000_0000) as u8,
        ((value / 0x1_0000_0000_0000) % 256) as u8,
        ((value / 0x100_0000_0000) % 256) as u8,
        ((value / 0x1_0000_0000) % 256) as u8,
        ((value / 0x100_0000) % 256) as u8,
        ((value / 0x1_0000) % 256) as u8,
        ((value / 0x100) % 256) as u8,
        (value % 256) as u8,
    ];
    assert(r@ =~= be_bytes_u64(value));
    r
}

/// Reads one value from the front of `bytes`.
pub fn read_bytes<T: Codec>(bytes: &[u8]) -> (v: Option<T>)
    ensures
        v.is_some() <==> T::spec_read(bytes@).is_some(),
        v matches Some(value) ==> T::spec_read(bytes@) matches Some((s, n)) && s == value
            && value.spec_valid(),
{
    let mut r = Reader::init(bytes);
    T::read(&mut r)
}

} // verus!
