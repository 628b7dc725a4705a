//! The encoding of the kinds of field that frames are made of: numbers,
//! booleans, texts, byte buffers, optionals, pairs and sequences. All numbers
//! are big-endian and of fixed width; all lengths are numbers of eight bytes.
//!
//! Every type with a place in the format implements [`Wire`]: it says which
//! bytes stand for a value, what a decoder reads from given bytes, and that
//! the two agree.

use vstd::prelude::*;
use vstd::slice::slice_subrange;
use vstd::slice::slice_to_vec;
use vstd::utf8::decode_utf8;
use vstd::utf8::encode_utf8;
use vstd::utf8::valid_utf8;

verus! {

/// Why a byte sequence is not the encoding of a value.
#[derive(Debug, Clone, Copy, PartialEq, Eq, Structural)]
pub enum DecodeError {
    /// The input ends inside a value.
    UnexpectedEof,
    /// A tagged union carries a tag that no variant has.
    UnknownTag,
    /// A string's bytes are not UTF-8.
    InvalidUtf8,
    /// The presence byte of an optional is neither 0 nor 1.
    InvalidOption,
    /// The byte of a boolean is neither 0 nor 1.
    InvalidBool,
    /// Elements nest deeper than the decoder follows.
    DepthExceeded,
    /// Bytes are left over after the value.
    TrailingBytes,
}

/// What the format reads at a position: a value with the position behind
/// it, or the reason why there is none.
pub type Decoding<T> = Result<(T, int), DecodeError>;

/// What a decoder read at a position: a value with the position behind it,
/// or the reason why there is none.
pub type Decoded<T> = Result<(T, usize), DecodeError>;

/// `s` holds `bytes` from position `pos` on.
pub open spec fn holds_at(s: Seq<u8>, pos: int, bytes: Seq<u8>) -> bool {
    &&& 0 <= pos
    &&& pos + bytes.len() <= s.len()
    &&& s.subrange(pos, pos + bytes.len()) == bytes
}

/// Where `s` holds `a + b` it holds `a`, and `b` right behind it.
pub proof fn lemma_holds_at_concat(s: Seq<u8>, pos: int, a: Seq<u8>, b: Seq<u8>)
    requires
        holds_at(s, pos, a + b),
    ensures
        holds_at(s, pos, a),
        holds_at(s, pos + a.len(), b),
{
    let whole = s.subrange(pos, pos + (a + b).len());
    assert(s.subrange(pos, pos + a.len()) =~= whole.subrange(0, a.len() as int));
    assert(whole.subrange(0, a.len() as int) =~= a);
    assert(s.subrange(pos + a.len(), pos + a.len() + b.len()) =~= whole.subrange(
        a.len() as int,
        (a + b).len() as int,
    ));
    assert(whole.subrange(a.len() as int, (a + b).len() as int) =~= b);
}

/// A type with a place in the wire format.
pub trait Wire: DeepView + Sized {
    /// The bytes that stand for `v`.
    spec fn encoding(v: Self::V) -> Seq<u8>;

    /// The value that the format reads from `s` at `pos`, with the position
    /// behind it, or the reason why there is none.
    spec fn decoding(s: Seq<u8>, pos: int) -> Decoding<Self::V>;

    /// Every length inside `v` fits the width of its prefix, and elements
    /// nest no deeper than a decoder follows.
    spec fn wf(v: Self::V) -> bool;

    /// Appends the bytes that stand for the value to `out`.
    fn encode(&self, out: &mut Vec<u8>)
        ensures
            final(out)@ == old(out)@ + Self::encoding(self.deep_view()),
    ;

    /// Reads a value from `input` at `pos`, as the format says.
    fn decode(input: &[u8], pos: usize) -> (r: Decoded<Self>)
        ensures
            match r {
                Ok((value, end)) => Self::decoding(input@, pos as int) == Ok::<
                    (Self::V, int),
                    DecodeError,
                >((value.deep_view(), end as int)),
                Err(e) => Self::decoding(input@, pos as int) == Err::<
                    (Self::V, int),
                    DecodeError,
                >(e),
            },
    ;

    /// Decoding reads back what encoding wrote.
    proof fn lemma_roundtrip(v: Self::V, s: Seq<u8>, pos: int)
        requires
            Self::wf(v),
            holds_at(s, pos, Self::encoding(v)),
        ensures
            Self::decoding(s, pos) == Ok::<(Self::V, int), DecodeError>(
                (v, pos + Self::encoding(v).len()),
            ),
    ;
}

/// The four bytes of `v`, most significant first.
#[verifier::opaque]
pub open spec fn be32(v: u32) -> Seq<u8> {
    seq![
        (v / 0x100_0000) as u8,
        ((v / 0x1_0000) % 0x100) as u8,
        ((v / 0x100) % 0x100) as u8,
        (v % 0x100) as u8,
    ]
}

/// The number that four bytes stand for, most significant first.
#[verifier::opaque]
pub open spec fn from_be32(b0: u8, b1: u8, b2: u8, b3: u8) -> u32 {
    (b0 * 0x100_0000 + b1 * 0x1_0000 + b2 * 0x100 + b3) as u32
}

/// A number of 32 bits is four bytes long.
pub proof fn lemma_be32_len(v: u32)
    ensures
        be32(v).len() == 4,
{
    reveal(be32);
}

impl Wire for u32 {
    open spec fn encoding(v: u32) -> Seq<u8> {
        be32(v)
    }

    open spec fn decoding(s: Seq<u8>, pos: int) -> Decoding<u32> {
        if 0 <= pos && pos + 4 <= s.len() {
            Ok((from_be32(s[pos], s[pos + 1], s[pos + 2], s[pos + 3]), pos + 4))
        } else {
            Err(DecodeError::UnexpectedEof)
        }
    }

    open spec fn wf(v: u32) -> bool {
        true
    }

    fn encode(&self, out: &mut Vec<u8>) {
        reveal(be32);
        let v: u32 = *self;
        out.push((v / 0x100_0000) as u8);
        out.push(((v / 0x1_0000) % 0x100) as u8);
        out.push(((v / 0x100) % 0x100) as u8);
        out.push((v % 0x100) as u8);
        assert(out@ =~= old(out)@ + be32(v));
    }

    fn decode(input: &[u8], pos: usize) -> (r: Decoded<u32>) {
        if pos > input.len() || input.len() - pos < 4 {
            return Err(DecodeError::UnexpectedEof);
        }
        let b0: u32 = input[pos] as u32;
        let b1: u32 = input[pos + 1] as u32;
        let b2: u32 = input[pos + 2] as u32;
        let b3: u32 = input[pos + 3] as u32;
        reveal(from_be32);
        Ok((b0 * 0x100_0000 + b1 * 0x1_0000 + b2 * 0x100 + b3, pos + 4))
    }

    proof fn lemma_roundtrip(v: u32, s: Seq<u8>, pos: int) {
        reveal(be32);
        reveal(from_be32);
        let e = be32(v);
        assert(e.len() == 4);
        assert(s[pos] == s.subrange(pos, pos + 4)[0]);
        assert(s[pos + 1] == s.subrange(pos, pos + 4)[1]);
        assert(s[pos + 2] == s.subrange(pos, pos + 4)[2]);
        assert(s[pos + 3] == s.subrange(pos, pos + 4)[3]);
    }
}

/// The eight bytes of `v`, most significant first.
#[verifier::opaque]
pub open spec fn be64(v: u64) -> Seq<u8> {
    seq![
        (v / 0x100_0000_0000_0000) as u8,
        ((v / 0x1_0000_0000_0000) % 0x100) as u8,
        ((v / 0x100_0000_0000) % 0x100) as u8,
        ((v / 0x1_0000_0000) % 0x100) as u8,
        ((v / 0x100_0000) % 0x100) as u8,
        ((v / 0x1_0000) % 0x100) as u8,
        ((v / 0x100) % 0x100) as u8,
        (v % 0x100) as u8,
    ]
}

/// The number that eight bytes stand for, most significant first.
#[verifier::opaque]
pub open spec fn from_be64(b: Seq<u8>) -> u64
    recommends
        b.len() == 8,
{
    (b[0] * 0x100_0000_0000_0000 + b[1] * 0x1_0000_0000_0000 + b[2] * 0x100_0000_0000 + b[3]
        * 0x1_0000_0000 + b[4] * 0x100_0000 + b[5] * 0x1_0000 + b[6] * 0x100 + b[7]) as u64
}

/// Eight bytes, most significant first, stand for the number they were cut from.
pub proof fn lemma_be64_inverse(v: u64)
    ensures
        from_be64(be64(v)) == v,
        be64(v).len() == 8,
{
    reveal(be64);
    reveal(from_be64);
    let q1: u64 = v / 0x100;
    let q2: u64 = v / 0x1_0000;
    let q3: u64 = v / 0x100_0000;
    let q4: u64 = v / 0x1_0000_0000;
    let q5: u64 = v / 0x100_0000_0000;
    let q6: u64 = v / 0x1_0000_0000_0000;
    let q7: u64 = v / 0x100_0000_0000_0000;
    assert(q2 == q1 / 0x100) by (bit_vector)
        requires
            q1 == v / 0x100,
            q2 == v / 0x1_0000,
    ;
    assert(q3 == q2 / 0x100) by (bit_vector)
        requires
            q2 == v / 0x1_0000,
            q3 == v / 0x100_0000,
    ;
    assert(q4 == q3 / 0x100) by (bit_vector)
        requires
            q3 == v / 0x100_0000,
            q4 == v / 0x1_0000_0000,
    ;
    assert(q5 == q4 / 0x100) by (bit_vector)
        requires
            q4 == v / 0x1_0000_0000,
            q5 == v / 0x100_0000_0000,
    ;
    assert(q6 == q5 / 0x100) by (bit_vector)
        requires
            q5 == v / 0x100_0000_0000,
            q6 == v / 0x1_0000_0000_0000,
    ;
    assert(q7 == q6 / 0x100) by (bit_vector)
        requires
            q6 == v / 0x1_0000_0000_0000,
            q7 == v / 0x100_0000_0000_0000,
    ;
    assert(q7 < 0x100) by (bit_vector)
        requires
            q7 == v / 0x100_0000_0000_0000,
    ;
    assert(v == q1 * 0x100 + v % 0x100);
    assert(q1 == q2 * 0x100 + q1 % 0x100);
    assert(q2 == q3 * 0x100 + q2 % 0x100);
    assert(q3 == q4 * 0x100 + q3 % 0x100);
    assert(q4 == q5 * 0x100 + q4 % 0x100);
    assert(q5 == q6 * 0x100 + q5 % 0x100);
    assert(q6 == q7 * 0x100 + q6 % 0x100);
}

impl Wire for u64 {
    open spec fn encoding(v: u64) -> Seq<u8> {
        be64(v)
    }

    open spec fn decoding(s: Seq<u8>, pos: int) -> Decoding<u64> {
        if 0 <= pos && pos + 8 <= s.len() {
            Ok((from_be64(s.subrange(pos, pos + 8)), pos + 8))
        } else {
            Err(DecodeError::UnexpectedEof)
        }
    }

    open spec fn wf(v: u64) -> bool {
        true
    }

    fn encode(&self, out: &mut Vec<u8>) {
        reveal(be64);
        let v: u64 = *self;
        out.push((v / 0x100_0000_0000_0000) as u8);
        out.push(((v / 0x1_0000_0000_0000) % 0x100) as u8);
        out.push(((v / 0x100_0000_0000) % 0x100) as u8);
        out.push(((v / 0x1_0000_0000) % 0x100) as u8);
        out.push(((v / 0x100_0000) % 0x100) as u8);
        out.push(((v / 0x1_0000) % 0x100) as u8);
        out.push(((v / 0x100) % 0x100) as u8);
        out.push((v % 0x100) as u8);
        assert(out@ =~= old(out)@ + be64(v));
    }

    fn decode(input: &[u8], pos: usize) -> (r: Decoded<u64>) {
        if pos > input.len() || input.len() - pos < 8 {
            return Err(DecodeError::UnexpectedEof);
        }
        let b0: u64 = input[pos] as u64;
        let b1: u64 = input[pos + 1] as u64;
        let b2: u64 = input[pos + 2] as u64;
        let b3: u64 = input[pos + 3] as u64;
        let b4: u64 = input[pos + 4] as u64;
        let b5: u64 = input[pos + 5] as u64;
        let b6: u64 = input[pos + 6] as u64;
        let b7: u64 = input[pos + 7] as u64;
        reveal(from_be64);
        Ok(
            (
                b0 * 0x100_0000_0000_0000 + b1 * 0x1_0000_0000_0000 + b2 * 0x100_0000_0000 + b3
                    * 0x1_0000_0000 + b4 * 0x100_0000 + b5 * 0x1_0000 + b6 * 0x100 + b7,
                pos + 8,
            ),
        )
    }

    proof fn lemma_roundtrip(v: u64, s: Seq<u8>, pos: int) {
        lemma_be64_inverse(v);
        assert(s.subrange(pos, pos + 8) == be64(v));
    }
}

impl Wire for bool {
    open spec fn encoding(v: bool) -> Seq<u8> {
        if v {
            seq![1u8]
        } else {
            seq![0u8]
        }
    }

    open spec fn decoding(s: Seq<u8>, pos: int) -> Decoding<bool> {
        if !(0 <= pos && pos + 1 <= s.len()) {
            Err(DecodeError::UnexpectedEof)
        } else if s[pos] == 0 {
            Ok((false, pos + 1))
        } else if s[pos] == 1 {
            Ok((true, pos + 1))
        } else {
            Err(DecodeError::InvalidBool)
        }
    }

    open spec fn wf(v: bool) -> bool {
        true
    }

    fn encode(&self, out: &mut Vec<u8>) {
        if *self {
            out.push(1u8);
        } else {
            out.push(0u8);
        }
        assert(out@ =~= old(out)@ + Self::encoding(*self));
    }

    fn decode(input: &[u8], pos: usize) -> (r: Decoded<bool>) {
        if pos >= input.len() {
            return Err(DecodeError::UnexpectedEof);
        }
        let b: u8 = input[pos];
        if b == 0 {
            Ok((false, pos + 1))
        } else if b == 1 {
            Ok((true, pos + 1))
        } else {
            Err(DecodeError::InvalidBool)
        }
    }

    proof fn lemma_roundtrip(v: bool, s: Seq<u8>, pos: int) {
        assert(s[pos] == s.subrange(pos, pos + 1)[0]);
    }
}

/// The bytes that stand for a byte buffer: its length in eight bytes, then
/// the buffer.
#[verifier::opaque]
pub open spec fn bytes_encoding(b: Seq<u8>) -> Seq<u8> {
    be64(b.len() as u64) + b
}

/// The byte buffer that the format reads from `s` at `pos`.
#[verifier::opaque]
pub open spec fn bytes_decoding(s: Seq<u8>, pos: int) -> Decoding<Seq<u8>> {
    match u64::decoding(s, pos) {
        Ok((len, start)) => if start + len <= s.len() {
            Ok((s.subrange(start, start + len), start + len))
        } else {
            Err(DecodeError::UnexpectedEof)
        },
        Err(e) => Err(e),
    }
}

/// The length of `b` fits its eight-byte prefix.
pub open spec fn bytes_wf(b: Seq<u8>) -> bool {
    b.len() <= u64::MAX
}

/// Appends the encoding of the buffer `b` to `out`.
pub fn encode_bytes(b: &[u8], out: &mut Vec<u8>)
    ensures
        final(out)@ == old(out)@ + bytes_encoding(b@),
{
    reveal(bytes_encoding);
    let len: u64 = b.len() as u64;
    len.encode(out);
    out.extend_from_slice(b);
    assert(out@ =~= old(out)@ + bytes_encoding(b@));
}

/// Reads a byte buffer from `input` at `pos`.
pub fn decode_bytes(input: &[u8], pos: usize) -> (r: Decoded<Vec<u8>>)
    ensures
        match r {
            Ok((value, end)) => bytes_decoding(input@, pos as int) == Ok::<
                (Seq<u8>, int),
                DecodeError,
            >((value@, end as int)),
            Err(e) => bytes_decoding(input@, pos as int) == Err::<(Seq<u8>, int), DecodeError>(e),
        },
{
    reveal(bytes_decoding);
    let (len, start) = u64::decode(input, pos)?;
    if len > (input.len() - start) as u64 {
        return Err(DecodeError::UnexpectedEof);
    }
    let end: usize = start + len as usize;
    let value = slice_to_vec(slice_subrange(input, start, end));
    Ok((value, end))
}

/// Decoding a byte buffer reads back what encoding wrote.
pub proof fn lemma_bytes_roundtrip(b: Seq<u8>, s: Seq<u8>, pos: int)
    requires
        bytes_wf(b),
        holds_at(s, pos, bytes_encoding(b)),
    ensures
        bytes_decoding(s, pos) == Ok::<(Seq<u8>, int), DecodeError>(
            (b, pos + bytes_encoding(b).len()),
        ),
{
    reveal(bytes_encoding);
    reveal(bytes_decoding);
    lemma_holds_at_concat(s, pos, be64(b.len() as u64), b);
    u64::lemma_roundtrip(b.len() as u64, s, pos);
}

/// `String::from_utf8` of std, which accepts exactly the byte vectors that
/// are UTF-8 and then hands back a string made of those very bytes.
#[verifier::external_body]
fn string_from_utf8(bytes: Vec<u8>) -> (r: Option<String>)
    ensures
        r matches Some(s) ==> valid_utf8(bytes@) && encode_utf8(s@) == bytes@,
        r is None ==> !valid_utf8(bytes@),
{
    String::from_utf8(bytes).ok()
}

/// The bytes that stand for a text: the length of its UTF-8 form in eight
/// bytes, then the UTF-8 form.
#[verifier::opaque]
pub open spec fn text_encoding(v: Seq<char>) -> Seq<u8> {
    bytes_encoding(encode_utf8(v))
}

/// The text that the format reads from `s` at `pos`: a byte buffer that has
/// to be UTF-8.
#[verifier::opaque]
pub open spec fn text_decoding(s: Seq<u8>, pos: int) -> Decoding<Seq<char>> {
    match bytes_decoding(s, pos) {
        Ok((bytes, end)) => if valid_utf8(bytes) {
            Ok((decode_utf8(bytes), end))
        } else {
            Err(DecodeError::InvalidUtf8)
        },
        Err(e) => Err(e),
    }
}

/// The length of the UTF-8 form of `v` fits its eight-byte prefix.
#[verifier::opaque]
pub open spec fn text_wf(v: Seq<char>) -> bool {
    bytes_wf(encode_utf8(v))
}

impl Wire for String {
    open spec fn encoding(v: Seq<char>) -> Seq<u8> {
        text_encoding(v)
    }

    open spec fn decoding(s: Seq<u8>, pos: int) -> Decoding<Seq<char>> {
        text_decoding(s, pos)
    }

    open spec fn wf(v: Seq<char>) -> bool {
        text_wf(v)
    }

    fn encode(&self, out: &mut Vec<u8>) {
        reveal(text_encoding);
        encode_bytes(self.as_str().as_bytes(), out);
    }

    fn decode(input: &[u8], pos: usize) -> (r: Decoded<String>) {
        reveal(text_decoding);
        let (bytes, end) = decode_bytes(input, pos)?;
        match string_from_utf8(bytes) {
            Some(text) => {
                proof {
                    vstd::utf8::encode_utf8_decode_utf8(text@);
                }
                Ok((text, end))
            },
            None => Err(DecodeError::InvalidUtf8),
        }
    }

    proof fn lemma_roundtrip(v: Seq<char>, s: Seq<u8>, pos: int) {
        reveal(text_encoding);
        reveal(text_decoding);
        reveal(text_wf);
        lemma_bytes_roundtrip(encode_utf8(v), s, pos);
        vstd::utf8::encode_utf8_valid_utf8(v);
        vstd::utf8::encode_utf8_decode_utf8(v);
    }
}

impl<T: Wire> Wire for Option<T> {
    /// One byte, 0 for absent and 1 for present, then the value if present.
    open spec fn encoding(v: Option<T::V>) -> Seq<u8> {
        match v {
            Some(t) => seq![1u8] + T::encoding(t),
            None => seq![0u8],
        }
    }

    open spec fn decoding(s: Seq<u8>, pos: int) -> Decoding<Option<T::V>> {
        if !(0 <= pos && pos + 1 <= s.len()) {
            Err(DecodeError::UnexpectedEof)
        } else if s[pos] == 0 {
            Ok((None, pos + 1))
        } else if s[pos] == 1 {
            match T::decoding(s, pos + 1) {
                Ok((t, end)) => Ok((Some(t), end)),
                Err(e) => Err(e),
            }
        } else {
            Err(DecodeError::InvalidOption)
        }
    }

    open spec fn wf(v: Option<T::V>) -> bool {
        match v {
            Some(t) => T::wf(t),
            None => true,
        }
    }

    fn encode(&self, out: &mut Vec<u8>) {
        match self {
            Some(t) => {
                out.push(1u8);
                t.encode(out);
                assert(out@ =~= old(out)@ + Self::encoding(self.deep_view()));
            },
            None => {
                out.push(0u8);
                assert(out@ =~= old(out)@ + Self::encoding(self.deep_view()));
            },
        }
    }

    fn decode(input: &[u8], pos: usize) -> (r: Decoded<Option<T>>) {
        if pos >= input.len() {
            return Err(DecodeError::UnexpectedEof);
        }
        let b: u8 = input[pos];
        if b == 0 {
            Ok((None, pos + 1))
        } else if b == 1 {
            let (t, end) = T::decode(input, pos + 1)?;
            Ok((Some(t), end))
        } else {
            Err(DecodeError::InvalidOption)
        }
    }

    proof fn lemma_roundtrip(v: Option<T::V>, s: Seq<u8>, pos: int) {
        match v {
            Some(t) => {
                lemma_holds_at_concat(s, pos, seq![1u8], T::encoding(t));
                assert(s[pos] == s.subrange(pos, pos + 1)[0]);
                T::lemma_roundtrip(t, s, pos + 1);
            },
            None => {
                assert(s[pos] == s.subrange(pos, pos + 1)[0]);
            },
        }
    }
}

impl<A: Wire, B: Wire> Wire for (A, B) {
    /// The first, then the second.
    open spec fn encoding(v: (A::V, B::V)) -> Seq<u8> {
        A::encoding(v.0) + B::encoding(v.1)
    }

    open spec fn decoding(s: Seq<u8>, pos: int) -> Decoding<(A::V, B::V)> {
        match A::decoding(s, pos) {
            Ok((a, mid)) => match B::decoding(s, mid) {
                Ok((b, end)) => Ok(((a, b), end)),
                Err(e) => Err(e),
            },
            Err(e) => Err(e),
        }
    }

    open spec fn wf(v: (A::V, B::V)) -> bool {
        A::wf(v.0) && B::wf(v.1)
    }

    fn encode(&self, out: &mut Vec<u8>) {
        self.0.encode(out);
        self.1.encode(out);
        assert(out@ =~= old(out)@ + Self::encoding(self.deep_view()));
    }

    fn decode(input: &[u8], pos: usize) -> (r: Decoded<(A, B)>) {
        let (a, mid) = A::decode(input, pos)?;
        let (b, end) = B::decode(input, mid)?;
        Ok(((a, b), end))
    }

    proof fn lemma_roundtrip(v: (A::V, B::V), s: Seq<u8>, pos: int) {
        lemma_holds_at_concat(s, pos, A::encoding(v.0), B::encoding(v.1));
        A::lemma_roundtrip(v.0, s, pos);
        B::lemma_roundtrip(v.1, s, pos + A::encoding(v.0).len());
    }
}

/// The encodings of the items of `v`, one behind the other.
pub open spec fn items_encoding<T: Wire>(v: Seq<T::V>) -> Seq<u8>
    decreases v.len(),
{
    if v.len() == 0 {
        Seq::empty()
    } else {
        T::encoding(v[0]) + items_encoding::<T>(v.drop_first())
    }
}

/// The `n` items that the format reads from `s` at `pos`, one behind the
/// other, or the error of the first that cannot be read.
pub open spec fn items_decoding<T: Wire>(s: Seq<u8>, pos: int, n: nat) -> Decoding<Seq<T::V>>
    decreases n,
{
    if n == 0 {
        Ok((Seq::empty(), pos))
    } else {
        match T::decoding(s, pos) {
            Ok((first, mid)) => after(first, items_decoding::<T>(s, mid, (n - 1) as nat)),
            Err(e) => Err(e),
        }
    }
}

/// `first` put in front of the items of a decoded rest.
pub open spec fn after<M>(first: M, rest: Decoding<Seq<M>>) -> Decoding<Seq<M>> {
    match rest {
        Ok((items, end)) => Ok((seq![first] + items, end)),
        Err(e) => Err(e),
    }
}

/// `done` put in front of the items of a decoded rest.
pub open spec fn after_all<M>(done: Seq<M>, rest: Decoding<Seq<M>>) -> Decoding<Seq<M>> {
    match rest {
        Ok((items, end)) => Ok((done + items, end)),
        Err(e) => Err(e),
    }
}

/// Every item of `v` is well-formed.
pub open spec fn items_wf<T: Wire>(v: Seq<T::V>) -> bool {
    forall|i: int| 0 <= i < v.len() ==> T::wf(#[trigger] v[i])
}

/// Decoding as many items as were encoded reads them back.
pub proof fn lemma_items_roundtrip<T: Wire>(v: Seq<T::V>, s: Seq<u8>, pos: int)
    requires
        items_wf::<T>(v),
        holds_at(s, pos, items_encoding::<T>(v)),
    ensures
        items_decoding::<T>(s, pos, v.len()) == Ok::<(Seq<T::V>, int), DecodeError>(
            (v, pos + items_encoding::<T>(v).len()),
        ),
    decreases v.len(),
{
    if v.len() == 0 {
        assert(v =~= Seq::empty());
    } else {
        let rest = v.drop_first();
        lemma_holds_at_concat(s, pos, T::encoding(v[0]), items_encoding::<T>(rest));
        T::lemma_roundtrip(v[0], s, pos);
        assert forall|i: int| 0 <= i < rest.len() implies T::wf(#[trigger] rest[i]) by {
            assert(rest[i] == v[i + 1]);
        }
        lemma_items_roundtrip::<T>(rest, s, pos + T::encoding(v[0]).len());
        assert(seq![v[0]] + rest =~= v);
    }
}

impl<T: Wire> Wire for Vec<T> {
    /// The number of items in eight bytes, then the items in order.
    open spec fn encoding(v: Seq<T::V>) -> Seq<u8> {
        be64(v.len() as u64) + items_encoding::<T>(v)
    }

    open spec fn decoding(s: Seq<u8>, pos: int) -> Decoding<Seq<T::V>> {
        match u64::decoding(s, pos) {
            Ok((n, start)) => items_decoding::<T>(s, start, n as nat),
            Err(e) => Err(e),
        }
    }

    open spec fn wf(v: Seq<T::V>) -> bool {
        v.len() <= u64::MAX && items_wf::<T>(v)
    }

    fn encode(&self, out: &mut Vec<u8>) {
        let n: usize = self.len();
        (n as u64).encode(out);
        let ghost whole = old(out)@ + Self::encoding(self.deep_view());
        let ghost items = self.deep_view();
        assert(items.skip(0) =~= items);
        let mut i: usize = 0;
        while i < n
            invariant
                i <= n,
                n == self@.len(),
                items == self.deep_view(),
                out@ + items_encoding::<T>(items.skip(i as int)) == whole,
            decreases n - i,
        {
            let ghost before = out@;
            self[i].encode(out);
            proof {
                let tail = items.skip(i as int);
                assert(tail[0] == self@[i as int].deep_view());
                assert(tail.drop_first() =~= items.skip(i + 1));
                assert(out@ + items_encoding::<T>(items.skip(i + 1)) =~= before
                    + items_encoding::<T>(tail));
            }
            i += 1;
        }
        assert(out@ =~= whole);
    }

    fn decode(input: &[u8], pos: usize) -> (r: Decoded<Vec<T>>) {
        let (count, start) = u64::decode(input, pos)?;
        let mut items: Vec<T> = Vec::new();
        let mut cur: usize = start;
        let mut i: u64 = 0;
        assert(items.deep_view() =~= Seq::empty());
        while i < count
            invariant
                i <= count,
                Self::decoding(input@, pos as int) == after_all(
                    items.deep_view(),
                    items_decoding::<T>(input@, cur as int, (count - i) as nat),
                ),
            decreases count - i,
        {
            let ghost done = items.deep_view();
            match T::decode(input, cur) {
                Ok((item, next)) => {
                    items.push(item);
                    proof {
                        assert(items.deep_view() =~= done.push(item.deep_view()));
                        let rest = items_decoding::<T>(input@, next as int, (count - i - 1) as nat);
                        if let Ok((more, end)) = rest {
                            let read = seq![item.deep_view()];
                            assert(done + (read + more) =~= items.deep_view() + more);
                        }
                    }
                    cur = next;
                },
                Err(e) => {
                    return Err(e);
                },
            }
            i += 1;
        }
        proof {
            assert(items.deep_view() + Seq::empty() =~= items.deep_view());
        }
        Ok((items, cur))
    }

    proof fn lemma_roundtrip(v: Seq<T::V>, s: Seq<u8>, pos: int) {
        lemma_holds_at_concat(s, pos, be64(v.len() as u64), items_encoding::<T>(v));
        u64::lemma_roundtrip(v.len() as u64, s, pos);
        lemma_items_roundtrip::<T>(v, s, pos + 8);
    }
}

/// Where `s` holds a tag and, behind it, the encoding of `v`, a decoder
/// reads the tag and then `v`.
pub proof fn lemma_tagged_roundtrip<T: Wire>(tag: u32, v: T::V, s: Seq<u8>, pos: int)
    requires
        T::wf(v),
        holds_at(s, pos, be32(tag) + T::encoding(v)),
    ensures
        u32::decoding(s, pos) == Ok::<(u32, int), DecodeError>((tag, pos + 4)),
        T::decoding(s, pos + 4) == Ok::<(T::V, int), DecodeError>(
            (v, pos + (be32(tag) + T::encoding(v)).len()),
        ),
{
    lemma_holds_at_concat(s, pos, be32(tag), T::encoding(v));
    u32::lemma_roundtrip(tag, s, pos);
    T::lemma_roundtrip(v, s, pos + 4);
}

} // verus!
