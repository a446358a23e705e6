//! Big-endian binary codec: fixed-width integers and length-prefixed UTF-8 text.
use vstd::prelude::*;
use vstd::utf8::{decode_utf8, encode_utf8, valid_utf8};

use crate::{Error, ErrorView};

verus! {

broadcast use vstd::utf8::encode_utf8_decode_utf8, vstd::utf8::encode_utf8_valid_utf8;

/// A read position in a byte slice.
pub struct Cursor<'a> {
    data: &'a [u8],
    pos: usize,
}

impl<'a> Cursor<'a> {
    #[verifier::type_invariant]
    closed spec fn inv(&self) -> bool {
        self.pos <= self.data@.len()
    }

    /// All the bytes, read or not.
    pub closed spec fn bytes(&self) -> Seq<u8> {
        self.data@
    }

    /// The bytes that have not been read yet.
    pub closed spec fn rest(&self) -> Seq<u8> {
        self.data@.subrange(self.pos as int, self.data@.len() as int)
    }

    /// A cursor at the start of `data`.
    pub fn new(data: &'a [u8]) -> (r: Self)
        ensures
            r.bytes() == data@,
            r.rest() == data@,
    {
        let r = Cursor { data, pos: 0 };
        assert(r.rest() =~= data@);
        r
    }

    /// Number of bytes not read yet.
    pub fn remaining(&self) -> (n: usize)
        ensures
            n == self.rest().len(),
    {
        proof {
            use_type_invariant(self);
        }
        self.data.len() - self.pos
    }

    /// Reads one byte.
    pub fn read_byte(&mut self) -> (res: Result<u8, Error>)
        ensures
            final(self).bytes() == old(self).bytes(),
            old(self).rest().len() == 0 ==> res == Err::<u8, Error>(Error::UnexpectedEof)
                && final(self).rest() == old(self).rest(),
            old(self).rest().len() > 0 ==> res == Ok::<u8, Error>(old(self).rest()[0])
                && final(self).rest() == old(self).rest().skip(1),
    {
        proof {
            use_type_invariant(&*self);
        }
        if self.pos < self.data.len() {
            let b = self.data[self.pos];
            self.pos = self.pos + 1;
            assert(self.rest() =~= old(self).rest().skip(1));
            Ok(b)
        } else {
            Err(Error::UnexpectedEof)
        }
    }

    /// Reads exactly `n` bytes.
    pub fn read_exact(&mut self, n: usize) -> (res: Result<Vec<u8>, Error>)
        ensures
            final(self).bytes() == old(self).bytes(),
            old(self).rest().len() < n ==> res == Err::<Vec<u8>, Error>(Error::UnexpectedEof),
            old(self).rest().len() >= n ==> res is Ok && res->Ok_0@ == old(self).rest().take(
                n as int,
            ) && final(self).rest() == old(self).rest().skip(n as int),
    {
        proof {
            use_type_invariant(&*self);
        }
        if n > self.data.len() - self.pos {
            return Err(Error::UnexpectedEof);
        }
        let mut out: Vec<u8> = Vec::with_capacity(n);
        let start: usize = self.pos;
        let end: usize = self.pos + n;
        let mut j: usize = start;
        while j < end
            invariant
                start <= j <= end,
                end <= self.data@.len(),
                out@ == self.data@.subrange(start as int, j as int),
            decreases end - j,
        {
            out.push(self.data[j]);
            j = j + 1;
            assert(out@ =~= self.data@.subrange(start as int, j as int));
        }
        self.pos = end;
        assert(out@ =~= old(self).rest().take(n as int));
        assert(self.rest() =~= old(self).rest().skip(n as int));
        Ok(out)
    }
}

/// Whether `res`, read from `before` with `after` left over, is what
/// `spec_result` says: on success the same value, with exactly the bytes it
/// counts consumed; on failure the same error.
pub open spec fn read_as<T: View>(
    spec_result: Result<(T::V, int), ErrorView>,
    res: Result<T, Error>,
    before: Seq<u8>,
    after: Seq<u8>,
) -> bool {
    match spec_result {
        Ok((v, n)) => res is Ok && res->Ok_0@ == v && after == before.skip(n),
        Err(e) => res is Err && res->Err_0@ == e,
    }
}

/// A value with a fixed binary form.
pub trait Serialize: Sized + View {
    /// Whether the value can be written (text fields fit a 16-bit length).
    spec fn encodable(&self) -> bool;

    /// The bytes the value is written as.
    spec fn encoding(&self) -> Seq<u8>;

    /// Reading a value off the front of `data`: the value and the number of bytes
    /// read, or the error.
    spec fn decoding(data: Seq<u8>) -> Result<(Self::V, int), ErrorView>;

    /// Reading back what was written gives the value, whatever follows it.
    proof fn lemma_round_trip(&self, rest: Seq<u8>)
        requires
            self.encodable(),
        ensures
            Self::decoding(self.encoding() + rest) == Ok::<(Self::V, int), ErrorView>(
                (self@, self.encoding().len() as int),
            ),
    ;

    fn serialize(&self, w: &mut Vec<u8>)
        requires
            self.encodable(),
        ensures
            final(w)@ == old(w)@ + self.encoding(),
    ;

    fn deserialize(r: &mut Cursor) -> (res: Result<Self, Error>)
        ensures
            final(r).bytes() == old(r).bytes(),
            read_as(Self::decoding(old(r).rest()), res, old(r).rest(), final(r).rest()),
    ;
}

// ---- u8 / i8 ----

impl Serialize for u8 {
    open spec fn encodable(&self) -> bool {
        true
    }

    open spec fn encoding(&self) -> Seq<u8> {
        seq![*self]
    }

    open spec fn decoding(data: Seq<u8>) -> Result<(u8, int), ErrorView> {
        if data.len() < 1 {
            Err(ErrorView::UnexpectedEof)
        } else {
            Ok((data[0], 1))
        }
    }

    proof fn lemma_round_trip(&self, rest: Seq<u8>) {
    }

    fn serialize(&self, w: &mut Vec<u8>) {
        w.push(*self);
    }

    fn deserialize(r: &mut Cursor) -> (res: Result<Self, Error>) {
        r.read_byte()
    }
}


impl Serialize for i8 {
    open spec fn encodable(&self) -> bool {
        true
    }

    open spec fn encoding(&self) -> Seq<u8> {
        seq![*self as u8]
    }

    open spec fn decoding(data: Seq<u8>) -> Result<(i8, int), ErrorView> {
        if data.len() < 1 {
            Err(ErrorView::UnexpectedEof)
        } else {
            Ok((data[0] as i8, 1))
        }
    }

    proof fn lemma_round_trip(&self, rest: Seq<u8>) {
        let x = *self;
        assert((x as u8) as i8 == x) by (bit_vector);
    }

    fn serialize(&self, w: &mut Vec<u8>) {
        w.push(*self as u8);
    }

    fn deserialize(r: &mut Cursor) -> (res: Result<Self, Error>) {
        match r.read_byte() {
            Ok(b) => Ok(b as i8),
            Err(e) => Err(e),
        }
    }
}

// ---- 16-, 32- and 64-bit integers, most significant byte first ----

/// The bytes of `x`, most significant first.
pub open spec fn be16(x: u16) -> Seq<u8> {
    seq![(x >> 8u16) as u8, x as u8]
}

/// The number that the first two bytes of `b` spell, most significant first.
pub open spec fn from_be16(b: Seq<u8>) -> u16 {
    ((b[0] as u16) << 8u16) | (b[1] as u16)
}

/// The bytes of `x`, most significant first.
pub open spec fn be32(x: u32) -> Seq<u8> {
    seq![(x >> 24u32) as u8, (x >> 16u32) as u8, (x >> 8u32) as u8, x as u8]
}

/// The number that the first four bytes of `b` spell, most significant first.
pub open spec fn from_be32(b: Seq<u8>) -> u32 {
    ((b[0] as u32) << 24u32) | ((b[1] as u32) << 16u32) | ((b[2] as u32) << 8u32) | (b[3] as u32)
}

/// The bytes of `x`, most significant first.
pub open spec fn be64(x: u64) -> Seq<u8> {
    seq![
        (x >> 56u64) as u8,
        (x >> 48u64) as u8,
        (x >> 40u64) as u8,
        (x >> 32u64) as u8,
        (x >> 24u64) as u8,
        (x >> 16u64) as u8,
        (x >> 8u64) as u8,
        x as u8,
    ]
}

/// The number that the first eight bytes of `b` spell, most significant first.
pub open spec fn from_be64(b: Seq<u8>) -> u64 {
    ((b[0] as u64) << 56u64) | ((b[1] as u64) << 48u64) | ((b[2] as u64) << 40u64) | ((
    b[3] as u64) << 32u64) | ((b[4] as u64) << 24u64) | ((b[5] as u64) << 16u64) | ((
    b[6] as u64) << 8u64) | (b[7] as u64)
}

/// Reading the two bytes written for `x` gives `x` back.
pub proof fn lemma_be16(x: u16)
    ensures
        from_be16(be16(x)) == x,
{
    let b0 = (x >> 8u16) as u8;
    let b1 = x as u8;
    assert(((b0 as u16) << 8u16) | (b1 as u16) == x) by (bit_vector)
        requires
            b0 == (x >> 8u16) as u8,
            b1 == x as u8,
    ;
}

/// Reading the four bytes written for `x` gives `x` back.
pub proof fn lemma_be32(x: u32)
    ensures
        from_be32(be32(x)) == x,
{
    let b0 = (x >> 24u32) as u8;
    let b1 = (x >> 16u32) as u8;
    let b2 = (x >> 8u32) as u8;
    let b3 = x as u8;
    assert(((b0 as u32) << 24u32) | ((b1 as u32) << 16u32) | ((b2 as u32) << 8u32) | (b3 as u32)
        == x) by (bit_vector)
        requires
            b0 == (x >> 24u32) as u8,
            b1 == (x >> 16u32) as u8,
            b2 == (x >> 8u32) as u8,
            b3 == x as u8,
    ;
}

/// Reading the eight bytes written for `x` gives `x` back.
pub proof fn lemma_be64(x: u64)
    ensures
        from_be64(be64(x)) == x,
{
    let b0 = (x >> 56u64) as u8;
    let b1 = (x >> 48u64) as u8;
    let b2 = (x >> 40u64) as u8;
    let b3 = (x >> 32u64) as u8;
    let b4 = (x >> 24u64) as u8;
    let b5 = (x >> 16u64) as u8;
    let b6 = (x >> 8u64) as u8;
    let b7 = x as u8;
    assert(((b0 as u64) << 56u64) | ((b1 as u64) << 48u64) | ((b2 as u64) << 40u64) | ((
    b3 as u64) << 32u64) | ((b4 as u64) << 24u64) | ((b5 as u64) << 16u64) | ((b6 as u64)
        << 8u64) | (b7 as u64) == x) by (bit_vector)
        requires
            b0 == (x >> 56u64) as u8,
            b1 == (x >> 48u64) as u8,
            b2 == (x >> 40u64) as u8,
            b3 == (x >> 32u64) as u8,
            b4 == (x >> 24u64) as u8,
            b5 == (x >> 16u64) as u8,
            b6 == (x >> 8u64) as u8,
            b7 == x as u8,
    ;
}

/// The four bytes that read as `from_be32(b)` are the first four of `b`.
pub proof fn lemma_from_be32(b: Seq<u8>)
    requires
        b.len() >= 4,
    ensures
        be32(from_be32(b)) == b.take(4),
{
    let (b0, b1, b2, b3) = (b[0], b[1], b[2], b[3]);
    let x = from_be32(b);
    assert((x >> 24u32) as u8 == b0 && (x >> 16u32) as u8 == b1 && (x >> 8u32) as u8 == b2
        && x as u8 == b3) by (bit_vector)
        requires
            x == ((b0 as u32) << 24u32) | ((b1 as u32) << 16u32) | ((b2 as u32) << 8u32) | (
            b3 as u32),
    ;
    assert(be32(x) =~= b.take(4));
}

/// Appends `bytes` to `w`.
pub fn write_bytes(w: &mut Vec<u8>, bytes: &[u8])
    ensures
        final(w)@ == old(w)@ + bytes@,
{
    let mut i: usize = 0;
    while i < bytes.len()
        invariant
            i <= bytes@.len(),
            w@ == old(w)@ + bytes@.take(i as int),
        decreases bytes@.len() - i,
    {
        w.push(bytes[i]);
        i = i + 1;
        assert(w@ =~= old(w)@ + bytes@.take(i as int));
    }
    assert(bytes@.take(i as int) =~= bytes@);
}

impl Serialize for u16 {
    open spec fn encodable(&self) -> bool {
        true
    }

    open spec fn encoding(&self) -> Seq<u8> {
        be16(*self)
    }

    open spec fn decoding(data: Seq<u8>) -> Result<(u16, int), ErrorView> {
        if data.len() < 2 {
            Err(ErrorView::UnexpectedEof)
        } else {
            Ok((from_be16(data), 2))
        }
    }

    proof fn lemma_round_trip(&self, rest: Seq<u8>) {
        lemma_be16(*self);
        let d = self.encoding() + rest;
        assert(d[0] == be16(*self)[0] && d[1] == be16(*self)[1]);
    }

    fn serialize(&self, w: &mut Vec<u8>) {
        w.push((*self >> 8u16) as u8);
        w.push(*self as u8);
        assert(w@ =~= old(w)@ + be16(*self));
    }

    fn deserialize(r: &mut Cursor) -> (res: Result<Self, Error>) {
        let b = r.read_exact(2)?;
        Ok(((b[0] as u16) << 8u16) | (b[1] as u16))
    }
}

impl Serialize for u32 {
    open spec fn encodable(&self) -> bool {
        true
    }

    open spec fn encoding(&self) -> Seq<u8> {
        be32(*self)
    }

    open spec fn decoding(data: Seq<u8>) -> Result<(u32, int), ErrorView> {
        if data.len() < 4 {
            Err(ErrorView::UnexpectedEof)
        } else {
            Ok((from_be32(data), 4))
        }
    }

    proof fn lemma_round_trip(&self, rest: Seq<u8>) {
        lemma_be32(*self);
        let d = self.encoding() + rest;
        assert(d[0] == be32(*self)[0] && d[1] == be32(*self)[1] && d[2] == be32(*self)[2] && d[3]
            == be32(*self)[3]);
    }

    fn serialize(&self, w: &mut Vec<u8>) {
        w.push((*self >> 24u32) as u8);
        w.push((*self >> 16u32) as u8);
        w.push((*self >> 8u32) as u8);
        w.push(*self as u8);
        assert(w@ =~= old(w)@ + be32(*self));
    }

    fn deserialize(r: &mut Cursor) -> (res: Result<Self, Error>) {
        let b = r.read_exact(4)?;
        Ok(((b[0] as u32) << 24u32) | ((b[1] as u32) << 16u32) | ((b[2] as u32) << 8u32) | (
        b[3] as u32))
    }
}

impl Serialize for u64 {
    open spec fn encodable(&self) -> bool {
        true
    }

    open spec fn encoding(&self) -> Seq<u8> {
        be64(*self)
    }

    open spec fn decoding(data: Seq<u8>) -> Result<(u64, int), ErrorView> {
        if data.len() < 8 {
            Err(ErrorView::UnexpectedEof)
        } else {
            Ok((from_be64(data), 8))
        }
    }

    proof fn lemma_round_trip(&self, rest: Seq<u8>) {
        lemma_be64(*self);
        let d = self.encoding() + rest;
        let e = be64(*self);
        assert(d[0] == e[0] && d[1] == e[1] && d[2] == e[2] && d[3] == e[3]);
        assert(d[4] == e[4] && d[5] == e[5] && d[6] == e[6] && d[7] == e[7]);
    }

    fn serialize(&self, w: &mut Vec<u8>) {
        let x = *self;
        w.push((x >> 56u64) as u8);
        w.push((x >> 48u64) as u8);
        w.push((x >> 40u64) as u8);
        w.push((x >> 32u64) as u8);
        w.push((x >> 24u64) as u8);
        w.push((x >> 16u64) as u8);
        w.push((x >> 8u64) as u8);
        w.push(x as u8);
        assert(w@ =~= old(w)@ + be64(x));
    }

    fn deserialize(r: &mut Cursor) -> (res: Result<Self, Error>) {
        let b = r.read_exact(8)?;
        Ok(((b[0] as u64) << 56u64) | ((b[1] as u64) << 48u64) | ((b[2] as u64) << 40u64) | ((
        b[3] as u64) << 32u64) | ((b[4] as u64) << 24u64) | ((b[5] as u64) << 16u64) | ((
        b[6] as u64) << 8u64) | (b[7] as u64))
    }
}

impl Serialize for i16 {
    open spec fn encodable(&self) -> bool {
        true
    }

    open spec fn encoding(&self) -> Seq<u8> {
        be16(*self as u16)
    }

    open spec fn decoding(data: Seq<u8>) -> Result<(i16, int), ErrorView> {
        if data.len() < 2 {
            Err(ErrorView::UnexpectedEof)
        } else {
            Ok((from_be16(data) as i16, 2))
        }
    }

    proof fn lemma_round_trip(&self, rest: Seq<u8>) {
        let x = *self;
        (x as u16).lemma_round_trip(rest);
        assert((x as u16) as i16 == x) by (bit_vector);
    }

    fn serialize(&self, w: &mut Vec<u8>) {
        (*self as u16).serialize(w);
    }

    fn deserialize(r: &mut Cursor) -> (res: Result<Self, Error>) {
        let v = u16::deserialize(r)?;
        Ok(v as i16)
    }
}

impl Serialize for i32 {
    open spec fn encodable(&self) -> bool {
        true
    }

    open spec fn encoding(&self) -> Seq<u8> {
        be32(*self as u32)
    }

    open spec fn decoding(data: Seq<u8>) -> Result<(i32, int), ErrorView> {
        if data.len() < 4 {
            Err(ErrorView::UnexpectedEof)
        } else {
            Ok((from_be32(data) as i32, 4))
        }
    }

    proof fn lemma_round_trip(&self, rest: Seq<u8>) {
        let x = *self;
        (x as u32).lemma_round_trip(rest);
        assert((x as u32) as i32 == x) by (bit_vector);
    }

    fn serialize(&self, w: &mut Vec<u8>) {
        (*self as u32).serialize(w);
    }

    fn deserialize(r: &mut Cursor) -> (res: Result<Self, Error>) {
        let v = u32::deserialize(r)?;
        Ok(v as i32)
    }
}

impl Serialize for i64 {
    open spec fn encodable(&self) -> bool {
        true
    }

    open spec fn encoding(&self) -> Seq<u8> {
        be64(*self as u64)
    }

    open spec fn decoding(data: Seq<u8>) -> Result<(i64, int), ErrorView> {
        if data.len() < 8 {
            Err(ErrorView::UnexpectedEof)
        } else {
            Ok((from_be64(data) as i64, 8))
        }
    }

    proof fn lemma_round_trip(&self, rest: Seq<u8>) {
        let x = *self;
        (x as u64).lemma_round_trip(rest);
        assert((x as u64) as i64 == x) by (bit_vector);
    }

    fn serialize(&self, w: &mut Vec<u8>) {
        (*self as u64).serialize(w);
    }

    fn deserialize(r: &mut Cursor) -> (res: Result<Self, Error>) {
        let v = u64::deserialize(r)?;
        Ok(v as i64)
    }
}


// ---- text: a 16-bit byte length, then the UTF-8 bytes ----

/// Relies on `String::from_utf8`: it accepts exactly the valid UTF-8 sequences,
/// and on failure `FromUtf8Error::into_bytes` hands back the bytes it was given.
#[verifier::external_body]
fn string_from_utf8(bytes: Vec<u8>) -> (r: Result<String, Vec<u8>>)
    ensures
        match r {
            Ok(s) => valid_utf8(bytes@) && s@ == decode_utf8(bytes@),
            Err(raw) => !valid_utf8(bytes@) && raw@ == bytes@,
        },
{
    String::from_utf8(bytes).map_err(|e| e.into_bytes())
}

/// Whether text `s` fits the 16-bit length prefix.
pub open spec fn text_encodable(s: Seq<char>) -> bool {
    encode_utf8(s).len() <= 0xFFFF
}

/// The bytes that text `s` is written as: its UTF-8 length, then its UTF-8 bytes.
pub open spec fn text_encoding(s: Seq<char>) -> Seq<u8> {
    be16(encode_utf8(s).len() as u16) + encode_utf8(s)
}

/// Text whose bytes are not valid UTF-8 is refused, and the error carries
/// exactly the bytes that were read.
pub proof fn lemma_non_unicode_text(data: Seq<u8>)
    requires
        data.len() >= 2,
        data.len() >= 2 + from_be16(data),
        !valid_utf8(data.subrange(2, 2 + from_be16(data))),
    ensures
        String::decoding(data) == Err::<(Seq<char>, int), ErrorView>(
            ErrorView::NonUnicodeString(data.subrange(2, 2 + from_be16(data))),
        ),
{
}

impl Serialize for String {
    open spec fn encodable(&self) -> bool {
        text_encodable(self@)
    }

    open spec fn encoding(&self) -> Seq<u8> {
        text_encoding(self@)
    }

    open spec fn decoding(data: Seq<u8>) -> Result<(Seq<char>, int), ErrorView> {
        if data.len() < 2 {
            Err(ErrorView::UnexpectedEof)
        } else {
            let len = from_be16(data) as int;
            if data.len() < 2 + len {
                Err(ErrorView::UnexpectedEof)
            } else {
                let raw = data.subrange(2, 2 + len);
                if valid_utf8(raw) {
                    Ok((decode_utf8(raw), 2 + len))
                } else {
                    Err(ErrorView::NonUnicodeString(raw))
                }
            }
        }
    }

    proof fn lemma_round_trip(&self, rest: Seq<u8>) {
        let bytes = encode_utf8(self@);
        let n = bytes.len() as u16;
        n.lemma_round_trip(bytes + rest);
        let d = self.encoding() + rest;
        assert(d =~= be16(n) + (bytes + rest));
        assert(d.subrange(2, 2 + bytes.len() as int) =~= bytes);
    }

    fn serialize(&self, w: &mut Vec<u8>) {
        let bytes = self.as_str().as_bytes();
        let n = bytes.len() as u16;
        n.serialize(w);
        write_bytes(w, bytes);
        assert(w@ =~= old(w)@ + self.encoding());
    }

    fn deserialize(r: &mut Cursor) -> (res: Result<Self, Error>) {
        let start = Ghost(r.rest());
        let n = u16::deserialize(r)?;
        let raw = r.read_exact(n as usize)?;
        proof {
            assert(raw@ =~= start@.subrange(2, 2 + n as int));
            assert(r.rest() =~= start@.skip(2 + n as int));
        }
        match string_from_utf8(raw) {
            Ok(s) => Ok(s),
            Err(raw) => Err(Error::NonUnicodeString(raw)),
        }
    }
}

} // verus!
