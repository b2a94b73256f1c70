use vstd::prelude::*;

use crate::error::ParseError;
use crate::error::ParseResult;
use crate::model::FloatBits;
use crate::model::FormID;
use crate::model::IRef;
use crate::model::SysTime;

verus! {

/// The unsigned 16-bit value that two bytes hold in little-endian order.
pub open spec fn le16(b0: u8, b1: u8) -> u16 {
    (b0 + 0x100 * b1) as u16
}

/// The unsigned 32-bit value that four bytes hold in little-endian order.
pub open spec fn le32(b0: u8, b1: u8, b2: u8, b3: u8) -> u32 {
    (b0 + 0x100 * b1 + 0x10000 * b2 + 0x1000000 * b3) as u32
}

/// The little-endian 16-bit value at offset `i` of `s`.
pub open spec fn le16_at(s: Seq<u8>, i: int) -> u16 {
    le16(s[i], s[i + 1])
}

/// The little-endian 32-bit value at offset `i` of `s`.
pub open spec fn le32_at(s: Seq<u8>, i: int) -> u32 {
    le32(s[i], s[i + 1], s[i + 2], s[i + 3])
}

/// What reading one byte from the front of `s` yields: the value and the
/// bytes left after it, or nothing when the stream is exhausted.
pub open spec fn sp_u8(s: Seq<u8>) -> Option<(u8, Seq<u8>)> {
    if s.len() >= 1 {
        Some((s[0], s.skip(1)))
    } else {
        None
    }
}

/// What reading a little-endian 16-bit value from the front of `s` yields.
pub open spec fn sp_u16(s: Seq<u8>) -> Option<(u16, Seq<u8>)> {
    if s.len() >= 2 {
        Some((le16_at(s, 0), s.skip(2)))
    } else {
        None
    }
}

/// What reading a little-endian 32-bit value from the front of `s` yields.
pub open spec fn sp_u32(s: Seq<u8>) -> Option<(u32, Seq<u8>)> {
    if s.len() >= 4 {
        Some((le32_at(s, 0), s.skip(4)))
    } else {
        None
    }
}

/// What reading a 32-bit float word from the front of `s` yields: the bit
/// pattern, never interpreted.
pub open spec fn sp_float32(s: Seq<u8>) -> Option<(FloatBits, Seq<u8>)> {
    if s.len() >= 4 {
        Some((FloatBits(le32_at(s, 0)), s.skip(4)))
    } else {
        None
    }
}

/// What reading one byte as a boolean yields: any nonzero byte counts as
/// true, a deliberately lenient policy.
pub open spec fn sp_bool(s: Seq<u8>) -> Option<(bool, Seq<u8>)> {
    if s.len() >= 1 {
        Some((s[0] != 0, s.skip(1)))
    } else {
        None
    }
}

/// What reading `n` raw bytes from the front of `s` yields.
pub open spec fn sp_bytes(s: Seq<u8>, n: int) -> Option<(Seq<u8>, Seq<u8>)> {
    if 0 <= n <= s.len() {
        Some((s.take(n), s.skip(n)))
    } else {
        None
    }
}

/// What reading an eight-field time structure yields: sixteen bytes, eight
/// little-endian 16-bit fields in storage order.
pub open spec fn sp_systime(s: Seq<u8>) -> Option<(SysTime, Seq<u8>)> {
    if s.len() >= 16 {
        Some(
            (
                SysTime {
                    year: le16_at(s, 0),
                    month: le16_at(s, 2),
                    weekday: le16_at(s, 4),
                    day: le16_at(s, 6),
                    hour: le16_at(s, 8),
                    minute: le16_at(s, 10),
                    seconds: le16_at(s, 12),
                    milliseconds: le16_at(s, 14),
                },
                s.skip(16),
            ),
        )
    } else {
        None
    }
}

/// The text that the fixed single-byte Western code page assigns to a byte
/// sequence: one character for each byte, total on all byte values.
pub uninterp spec fn win1252_of(b: Seq<u8>) -> Seq<char>;

/// Decode bytes through the fixed single-byte Western code page.
///
/// Relies on `encoding_rs::Encoding::decode_without_bom_handling` on
/// `encoding_rs::WINDOWS_1252`: a single-byte code page whose table maps
/// every byte to exactly one character, bytes below 0x80 to the character
/// with the same code point.
#[verifier::external_body]
fn decode_windows_1252(bytes: &Vec<u8>) -> (r: String)
    ensures
        r@ == win1252_of(bytes@),
        r@.len() == bytes@.len(),
        forall|i: int|
            0 <= i < bytes@.len() && bytes@[i] < 0x80 ==> r@[i] as u32 == bytes@[i] as u32,
{
    let (text, _had_errors) = encoding_rs::WINDOWS_1252.decode_without_bom_handling(bytes);
    text.into_owned()
}

/// The prefix of `b` that comes before its first zero byte; all of `b` when
/// no zero occurs.
pub open spec fn zprefix(b: Seq<u8>) -> Seq<u8>
    decreases b.len(),
{
    if b.len() == 0 {
        b
    } else if b[0] == 0 {
        Seq::empty()
    } else {
        seq![b[0]] + zprefix(b.skip(1))
    }
}

/// When the first `k` bytes of `b` are nonzero and byte `k`, if any, is zero,
/// the pre-zero prefix is exactly the first `k` bytes.
pub proof fn lemma_zprefix_take(b: Seq<u8>, k: int)
    requires
        0 <= k <= b.len(),
        forall|j: int| 0 <= j < k ==> b[j] != 0,
        k == b.len() || b[k] == 0,
    ensures
        zprefix(b) == b.take(k),
    decreases k,
{
    if k == 0 {
        assert(zprefix(b) =~= b.take(0));
    } else {
        assert(b[0] != 0);
        assert forall|j: int| 0 <= j < k - 1 implies b.skip(1)[j] != 0 by {
            assert(b.skip(1)[j] == b[j + 1]);
        }
        lemma_zprefix_take(b.skip(1), k - 1);
        assert(seq![b[0]] + b.skip(1).take(k - 1) =~= b.take(k));
    }
}

/// What reading a raw length-prefixed string yields: one byte as the length
/// `n`, then `n` bytes of text, decoded whole. Total in the content: only a
/// short stream fails.
pub open spec fn sp_bstring(s: Seq<u8>) -> Option<(Seq<char>, Seq<u8>)> {
    if s.len() < 1 {
        None
    } else {
        let n = s[0] as int;
        if 1 + n <= s.len() {
            Some((win1252_of(s.subrange(1, 1 + n)), s.skip(1 + n)))
        } else {
            None
        }
    }
}

/// What reading a length-prefixed zero-terminated string yields: one byte as
/// the length `n`, then `n` bytes, of which only the prefix before the first
/// zero byte is decoded; trailing padding after the zero is discarded, and
/// all `n` bytes are consumed either way.
pub open spec fn sp_bzstring(s: Seq<u8>) -> Option<(Seq<char>, Seq<u8>)> {
    if s.len() < 1 {
        None
    } else {
        let n = s[0] as int;
        if 1 + n <= s.len() {
            Some((win1252_of(zprefix(s.subrange(1, 1 + n))), s.skip(1 + n)))
        } else {
            None
        }
    }
}

/// A raw string of declared length `n` consumes exactly `1 + n` bytes,
/// irrespective of the content of those bytes, and decodes them whole.
pub proof fn lemma_bstring_consumes(s: Seq<u8>)
    requires
        s.len() >= 1,
        s.len() >= 1 + s[0],
    ensures
        sp_bstring(s) matches Some(p) && p.1 == s.skip(1 + s[0]) && p.1.len() == s.len() - 1
            - s[0] && p.0 == win1252_of(s.subrange(1, 1 + s[0])),
{
}

/// A zero-terminated string of declared length `n` consumes exactly `1 + n`
/// bytes, irrespective of content, but decodes only the prefix before the
/// first zero byte.
pub proof fn lemma_bzstring_consumes(s: Seq<u8>)
    requires
        s.len() >= 1,
        s.len() >= 1 + s[0],
    ensures
        sp_bzstring(s) matches Some(p) && p.1 == s.skip(1 + s[0]) && p.1.len() == s.len() - 1
            - s[0] && p.0 == win1252_of(zprefix(s.subrange(1, 1 + s[0]))),
{
}

/// A forward-only cursor over an ordered byte source. Consumption is
/// monotonic: no rewinding, no revisiting. Tracking logical section
/// boundaries via declared lengths is the caller's responsibility.
pub struct Scanner<'a> {
    bytes: &'a [u8],
    pos: usize,
}

impl<'a> Scanner<'a> {
    /// The cursor never points past the end of its source.
    pub closed spec fn wf(&self) -> bool {
        self.pos <= self.bytes@.len()
    }

    /// The bytes not yet consumed.
    pub closed spec fn remaining(&self) -> Seq<u8> {
        self.bytes@.skip(self.pos as int)
    }

    /// A cursor at the start of `bytes`.
    pub fn new(bytes: &'a [u8]) -> (r: Scanner<'a>)
        ensures
            r.wf(),
            r.remaining() == bytes@,
    {
        let r = Scanner { bytes, pos: 0 };
        proof {
            assert(r.remaining() =~= bytes@);
        }
        r
    }

    /// How many bytes are left to read.
    pub fn remaining_len(&self) -> (r: usize)
        requires
            self.wf(),
        ensures
            r == self.remaining().len(),
    {
        self.bytes.len() - self.pos
    }

    /// Read one byte.
    pub fn u8(&mut self) -> (r: ParseResult<u8>)
        requires
            old(self).wf(),
        ensures
            final(self).wf(),
            match sp_u8(old(self).remaining()) {
                Some(p) => r == Ok::<u8, ParseError>(p.0) && final(self).remaining() == p.1,
                None => r == Err::<u8, ParseError>(ParseError::UnexpectedEOF),
            },
    {
        if self.bytes.len() - self.pos >= 1 {
            let b = self.bytes[self.pos];
            self.pos = self.pos + 1;
            proof {
                assert(self.remaining() =~= old(self).remaining().skip(1));
            }
            Ok(b)
        } else {
            Err(ParseError::UnexpectedEOF)
        }
    }

    /// Read a little-endian unsigned 16-bit value.
    pub fn u16(&mut self) -> (r: ParseResult<u16>)
        requires
            old(self).wf(),
        ensures
            final(self).wf(),
            match sp_u16(old(self).remaining()) {
                Some(p) => r == Ok::<u16, ParseError>(p.0) && final(self).remaining() == p.1,
                None => r == Err::<u16, ParseError>(ParseError::UnexpectedEOF),
            },
    {
        if self.bytes.len() - self.pos >= 2 {
            let b0 = self.bytes[self.pos];
            let b1 = self.bytes[self.pos + 1];
            self.pos = self.pos + 2;
            proof {
                assert(self.remaining() =~= old(self).remaining().skip(2));
            }
            Ok(b0 as u16 + (b1 as u16) * 0x100)
        } else {
            Err(ParseError::UnexpectedEOF)
        }
    }

    /// Read a little-endian unsigned 32-bit value.
    pub fn u32(&mut self) -> (r: ParseResult<u32>)
        requires
            old(self).wf(),
        ensures
            final(self).wf(),
            match sp_u32(old(self).remaining()) {
                Some(p) => r == Ok::<u32, ParseError>(p.0) && final(self).remaining() == p.1,
                None => r == Err::<u32, ParseError>(ParseError::UnexpectedEOF),
            },
    {
        if self.bytes.len() - self.pos >= 4 {
            let b0 = self.bytes[self.pos];
            let b1 = self.bytes[self.pos + 1];
            let b2 = self.bytes[self.pos + 2];
            let b3 = self.bytes[self.pos + 3];
            self.pos = self.pos + 4;
            proof {
                assert(self.remaining() =~= old(self).remaining().skip(4));
            }
            Ok(b0 as u32 + (b1 as u32) * 0x100 + (b2 as u32) * 0x10000 + (b3 as u32) * 0x1000000)
        } else {
            Err(ParseError::UnexpectedEOF)
        }
    }

    /// Read a little-endian 32-bit float word, kept as its bit pattern.
    pub fn float32(&mut self) -> (r: ParseResult<FloatBits>)
        requires
            old(self).wf(),
        ensures
            final(self).wf(),
            match sp_float32(old(self).remaining()) {
                Some(p) => r == Ok::<FloatBits, ParseError>(p.0) && final(self).remaining() == p.1,
                None => r == Err::<FloatBits, ParseError>(ParseError::UnexpectedEOF),
            },
    {
        let w = self.u32()?;
        Ok(FloatBits(w))
    }

    /// Read one byte as a boolean: any nonzero byte counts as true.
    pub fn bool(&mut self) -> (r: ParseResult<bool>)
        requires
            old(self).wf(),
        ensures
            final(self).wf(),
            match sp_bool(old(self).remaining()) {
                Some(p) => r == Ok::<bool, ParseError>(p.0) && final(self).remaining() == p.1,
                None => r == Err::<bool, ParseError>(ParseError::UnexpectedEOF),
            },
    {
        let b = self.u8()?;
        Ok(b != 0)
    }

    /// Read `n` raw bytes.
    pub fn read_bytes(&mut self, n: usize) -> (r: ParseResult<Vec<u8>>)
        requires
            old(self).wf(),
        ensures
            final(self).wf(),
            match sp_bytes(old(self).remaining(), n as int) {
                Some(p) => r matches Ok(v) && v@ == p.0 && final(self).remaining() == p.1,
                None => r == Err::<Vec<u8>, ParseError>(ParseError::UnexpectedEOF),
            },
    {
        if self.bytes.len() - self.pos >= n {
            let taken = vstd::slice::slice_subrange(self.bytes, self.pos, self.pos + n);
            let v = vstd::slice::slice_to_vec(taken);
            self.pos = self.pos + n;
            proof {
                assert(v@ =~= old(self).remaining().take(n as int));
                assert(self.remaining() =~= old(self).remaining().skip(n as int));
            }
            Ok(v)
        } else {
            Err(ParseError::UnexpectedEOF)
        }
    }

    /// Read an eight-field time structure: eight little-endian 16-bit fields.
    pub fn systime(&mut self) -> (r: ParseResult<SysTime>)
        requires
            old(self).wf(),
        ensures
            final(self).wf(),
            match sp_systime(old(self).remaining()) {
                Some(p) => r == Ok::<SysTime, ParseError>(p.0) && final(self).remaining() == p.1,
                None => r == Err::<SysTime, ParseError>(ParseError::UnexpectedEOF),
            },
    {
        if self.bytes.len() - self.pos >= 16 {
            let year = self.u16()?;
            let month = self.u16()?;
            let weekday = self.u16()?;
            let day = self.u16()?;
            let hour = self.u16()?;
            let minute = self.u16()?;
            let seconds = self.u16()?;
            let milliseconds = self.u16()?;
            proof {
                assert(self.remaining() =~= old(self).remaining().skip(16));
            }
            Ok(SysTime { year, month, weekday, day, hour, minute, seconds, milliseconds })
        } else {
            Err(ParseError::UnexpectedEOF)
        }
    }

    /// Read a raw length-prefixed string: one byte as the length `n`, then
    /// `n` bytes of text, decoded whole through the Western code page.
    pub fn bstring(&mut self) -> (r: ParseResult<String>)
        requires
            old(self).wf(),
        ensures
            final(self).wf(),
            match sp_bstring(old(self).remaining()) {
                Some(p) => r matches Ok(t) && t@ == p.0 && final(self).remaining() == p.1,
                None => r == Err::<String, ParseError>(ParseError::UnexpectedEOF),
            },
    {
        let ghost s = old(self).remaining();
        let len = self.u8()?;
        let bytes = self.read_bytes(len as usize)?;
        let text = decode_windows_1252(&bytes);
        proof {
            assert(s.skip(1).take(len as int) =~= s.subrange(1, 1 + len as int));
            assert(s.skip(1).skip(len as int) =~= s.skip(1 + len as int));
        }
        Ok(text)
    }

    /// Read a length-prefixed zero-terminated string: one byte as the length
    /// `n`, then `n` bytes, of which only the prefix before the first zero
    /// byte is decoded; the cursor moves past all `n` bytes either way.
    pub fn bzstring(&mut self) -> (r: ParseResult<String>)
        requires
            old(self).wf(),
        ensures
            final(self).wf(),
            match sp_bzstring(old(self).remaining()) {
                Some(p) => r matches Ok(t) && t@ == p.0 && final(self).remaining() == p.1,
                None => r == Err::<String, ParseError>(ParseError::UnexpectedEOF),
            },
    {
        let ghost s = old(self).remaining();
        let len = self.u8()?;
        let bytes = self.read_bytes(len as usize)?;
        let mut k: usize = 0;
        while k < bytes.len() && bytes[k] != 0
            invariant
                k <= bytes@.len(),
                forall|j: int| 0 <= j < k ==> bytes@[j] != 0,
            decreases bytes@.len() - k,
        {
            k = k + 1;
        }
        let prefix = vstd::slice::slice_to_vec(
            vstd::slice::slice_subrange(bytes.as_slice(), 0, k),
        );
        let text = decode_windows_1252(&prefix);
        proof {
            lemma_zprefix_take(bytes@, k as int);
            assert(prefix@ =~= bytes@.take(k as int));
            assert(bytes@ =~= s.subrange(1, 1 + len as int));
            assert(s.skip(1).skip(len as int) =~= s.skip(1 + len as int));
        }
        Ok(text)
    }

    /// Read a content identifier: one little-endian 32-bit value.
    pub fn form_id(&mut self) -> (r: ParseResult<FormID>)
        requires
            old(self).wf(),
        ensures
            final(self).wf(),
            match sp_u32(old(self).remaining()) {
                Some(p) => r == Ok::<FormID, ParseError>(FormID(p.0)) && final(self).remaining() == p.1,
                None => r == Err::<FormID, ParseError>(ParseError::UnexpectedEOF),
            },
    {
        let w = self.u32()?;
        Ok(FormID(w))
    }

    /// Read a save-local reference: one little-endian 32-bit value.
    pub fn iref(&mut self) -> (r: ParseResult<IRef>)
        requires
            old(self).wf(),
        ensures
            final(self).wf(),
            match sp_u32(old(self).remaining()) {
                Some(p) => r == Ok::<IRef, ParseError>(IRef(p.0)) && final(self).remaining() == p.1,
                None => r == Err::<IRef, ParseError>(ParseError::UnexpectedEOF),
            },
    {
        let w = self.u32()?;
        Ok(IRef(w))
    }
}

} // verus!
