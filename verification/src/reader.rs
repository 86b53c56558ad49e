//! A cursor over bytes in memory and the fixed-width little-endian reads that
//! every structure decoder is built from.

use vstd::prelude::*;
use vstd::slice::slice_subrange;

verus! {

/// What a [`ByteSource`] stands for: the bytes and the offset of the next read.
pub struct Cursor {
    pub bytes: Seq<u8>,
    pub pos: nat,
}

/// Number of bytes of `bytes` that lie at or behind offset `at`.
pub open spec fn avail(bytes: Seq<u8>, at: int) -> nat {
    if 0 <= at <= bytes.len() {
        (bytes.len() - at) as nat
    } else {
        0
    }
}

/// The `size` bytes of `bytes` that start at `at`, where that many are there.
/// Nothing is always there, wherever `at` points.
pub open spec fn region(bytes: Seq<u8>, at: int, size: int) -> Option<Seq<u8>> {
    if size == 0 {
        Some(Seq::empty())
    } else if 0 <= at && 0 < size && at + size <= bytes.len() {
        Some(bytes.subrange(at, at + size))
    } else {
        None
    }
}

/// The byte at `at`.
pub open spec fn le_u8(s: Seq<u8>, at: int) -> u8 {
    s[at]
}

/// The two bytes at `at`, least significant first.
pub open spec fn le_u16(s: Seq<u8>, at: int) -> u16 {
    (s[at] + 0x100 * s[at + 1]) as u16
}

/// The four bytes at `at`, least significant first.
pub open spec fn le_u32(s: Seq<u8>, at: int) -> u32 {
    (le_u16(s, at) + 0x1_0000 * le_u16(s, at + 2)) as u32
}

/// The eight bytes at `at`, least significant first.
pub open spec fn le_u64(s: Seq<u8>, at: int) -> u64 {
    (le_u32(s, at) + 0x1_0000_0000 * le_u32(s, at + 4)) as u64
}

/// The one byte that stands for `v`.
pub open spec fn u8_le(v: u8) -> Seq<u8> {
    seq![v]
}

/// The two bytes that stand for `v`, least significant first.
pub open spec fn u16_le(v: u16) -> Seq<u8> {
    seq![(v % 0x100) as u8, (v / 0x100) as u8]
}

/// The four bytes that stand for `v`, least significant first.
pub open spec fn u32_le(v: u32) -> Seq<u8> {
    u16_le((v % 0x1_0000) as u16) + u16_le((v / 0x1_0000) as u16)
}

/// The eight bytes that stand for `v`, least significant first.
pub open spec fn u64_le(v: u64) -> Seq<u8> {
    u32_le((v % 0x1_0000_0000) as u32) + u32_le((v / 0x1_0000_0000) as u32)
}

/// Where a stretch of `s` is `a` followed by `b`, its front is `a` and its
/// back is `b`.
pub proof fn lemma_split(s: Seq<u8>, at: int, a: Seq<u8>, b: Seq<u8>)
    requires
        0 <= at,
        at + a.len() + b.len() <= s.len(),
        s.subrange(at, at + a.len() + b.len()) == a + b,
    ensures
        s.subrange(at, at + a.len()) == a,
        s.subrange(at + a.len(), at + a.len() + b.len()) == b,
{
    let whole = s.subrange(at, at + a.len() + b.len());
    assert forall|k: int| 0 <= k < a.len() implies s[at + k] == a[k] by {
        assert(whole[k] == s[at + k]);
        assert((a + b)[k] == a[k]);
    }
    assert forall|k: int| 0 <= k < b.len() implies s[at + a.len() + k] == b[k] by {
        assert(whole[a.len() + k] == s[at + a.len() + k]);
        assert((a + b)[a.len() + k] == b[k]);
    }
    assert(s.subrange(at, at + a.len()) =~= a);
    assert(s.subrange(at + a.len(), at + a.len() + b.len()) =~= b);
}

/// Reading gives back the byte that was written.
pub proof fn lemma_le_u8_of_encoding(v: u8, s: Seq<u8>, at: int)
    requires
        0 <= at,
        at + 1 <= s.len(),
        s.subrange(at, at + 1) == u8_le(v),
    ensures
        le_u8(s, at) == v,
{
    assert(s.subrange(at, at + 1)[0] == s[at]);
}

/// Reading gives back the 16-bit integer that was written.
pub proof fn lemma_le_u16_of_encoding(v: u16, s: Seq<u8>, at: int)
    requires
        0 <= at,
        at + 2 <= s.len(),
        s.subrange(at, at + 2) == u16_le(v),
    ensures
        le_u16(s, at) == v,
{
    assert(s.subrange(at, at + 2)[0] == s[at]);
    assert(s.subrange(at, at + 2)[1] == s[at + 1]);
}

/// Reading gives back the 32-bit integer that was written.
pub proof fn lemma_le_u32_of_encoding(v: u32, s: Seq<u8>, at: int)
    requires
        0 <= at,
        at + 4 <= s.len(),
        s.subrange(at, at + 4) == u32_le(v),
    ensures
        le_u32(s, at) == v,
{
    let lo = (v % 0x1_0000) as u16;
    let hi = (v / 0x1_0000) as u16;
    lemma_split(s, at, u16_le(lo), u16_le(hi));
    lemma_le_u16_of_encoding(lo, s, at);
    lemma_le_u16_of_encoding(hi, s, at + 2);
}

/// Reading gives back the 64-bit integer that was written.
pub proof fn lemma_le_u64_of_encoding(v: u64, s: Seq<u8>, at: int)
    requires
        0 <= at,
        at + 8 <= s.len(),
        s.subrange(at, at + 8) == u64_le(v),
    ensures
        le_u64(s, at) == v,
{
    let lo = (v % 0x1_0000_0000) as u32;
    let hi = (v / 0x1_0000_0000) as u32;
    lemma_split(s, at, u32_le(lo), u32_le(hi));
    lemma_le_u32_of_encoding(lo, s, at);
    lemma_le_u32_of_encoding(hi, s, at + 4);
}

/// A read position over a borrowed run of bytes.
///
/// The position may lie anywhere, also behind the last byte: a read from there
/// finds nothing left.
#[derive(Clone, Copy, Debug)]
pub struct ByteSource<'a> {
    data: &'a [u8],
    pos: u64,
}

impl<'a> View for ByteSource<'a> {
    type V = Cursor;

    closed spec fn view(&self) -> Cursor {
        Cursor { bytes: self.data@, pos: self.pos as nat }
    }
}

impl<'a> ByteSource<'a> {
    /// A source over `data`, positioned at its first byte.
    pub fn new(data: &'a [u8]) -> (io: Self)
        ensures
            io@.bytes == data@,
            io@.pos == 0,
    {
        ByteSource { data, pos: 0 }
    }

    /// The offset of the next read.
    pub fn position(&self) -> (p: u64)
        ensures
            p == self@.pos,
    {
        self.pos
    }

    /// The number of bytes a read can still deliver.
    pub fn remaining(&self) -> (n: usize)
        ensures
            n == avail(self@.bytes, self@.pos as int),
    {
        let len = self.data.len();
        if self.pos <= len as u64 {
            len - self.pos as usize
        } else {
            0
        }
    }

    /// Moves to `offset`, counted from the first byte. Any offset is accepted.
    pub fn seek(&mut self, offset: u64)
        ensures
            final(self)@.bytes == old(self)@.bytes,
            final(self)@.pos == offset,
    {
        self.pos = offset;
    }

    /// Hands out the next `n` bytes and moves behind them, or leaves the
    /// source as it is when fewer than `n` are left.
    pub fn read_bytes(&mut self, n: u64) -> (r: Option<&'a [u8]>)
        ensures
            final(self)@.bytes == old(self)@.bytes,
            match r {
                Some(b) => {
                    &&& n <= avail(old(self)@.bytes, old(self)@.pos as int)
                    &&& Some(b@) == region(old(self)@.bytes, old(self)@.pos as int, n as int)
                    &&& final(self)@.pos == old(self)@.pos + n
                },
                None => {
                    &&& n > avail(old(self)@.bytes, old(self)@.pos as int)
                    &&& final(self)@.pos == old(self)@.pos
                },
            },
    {
        let len = self.data.len();
        if n == 0 {
            let b = slice_subrange(self.data, 0, 0);
            assert(b@ =~= Seq::<u8>::empty());
            return Some(b);
        }
        if self.pos > len as u64 || n > (len as u64) - self.pos {
            return None;
        }
        let start = self.pos as usize;
        let b = slice_subrange(self.data, start, start + n as usize);
        self.pos = self.pos + n;
        Some(b)
    }
}

/// Reads one byte.
pub fn read_u8(io: &mut ByteSource) -> (r: Option<u8>)
    ensures
        final(io)@.bytes == old(io)@.bytes,
        match r {
            Some(v) => {
                &&& avail(old(io)@.bytes, old(io)@.pos as int) >= 1
                &&& v == le_u8(old(io)@.bytes, old(io)@.pos as int)
                &&& final(io)@.pos == old(io)@.pos + 1
            },
            None => {
                &&& avail(old(io)@.bytes, old(io)@.pos as int) < 1
                &&& final(io)@.pos == old(io)@.pos
            },
        },
{
    match io.read_bytes(1) {
        Some(b) => Some(b[0]),
        None => None,
    }
}

/// Reads two bytes as an unsigned little-endian integer.
pub fn read_u16(io: &mut ByteSource) -> (r: Option<u16>)
    ensures
        final(io)@.bytes == old(io)@.bytes,
        match r {
            Some(v) => {
                &&& avail(old(io)@.bytes, old(io)@.pos as int) >= 2
                &&& v == le_u16(old(io)@.bytes, old(io)@.pos as int)
                &&& final(io)@.pos == old(io)@.pos + 2
            },
            None => {
                &&& avail(old(io)@.bytes, old(io)@.pos as int) < 2
                &&& final(io)@.pos == old(io)@.pos
            },
        },
{
    match io.read_bytes(2) {
        Some(b) => {
            let lo: u16 = b[0] as u16;
            let hi: u16 = b[1] as u16;
            Some(lo + 0x100 * hi)
        },
        None => None,
    }
}

/// Reads four bytes as an unsigned little-endian integer.
pub fn read_u32(io: &mut ByteSource) -> (r: Option<u32>)
    ensures
        final(io)@.bytes == old(io)@.bytes,
        match r {
            Some(v) => {
                &&& avail(old(io)@.bytes, old(io)@.pos as int) >= 4
                &&& v == le_u32(old(io)@.bytes, old(io)@.pos as int)
                &&& final(io)@.pos == old(io)@.pos + 4
            },
            None => {
                &&& avail(old(io)@.bytes, old(io)@.pos as int) < 4
                &&& final(io)@.pos == old(io)@.pos
            },
        },
{
    match io.read_bytes(4) {
        Some(b) => {
            let b0: u32 = b[0] as u32;
            let b1: u32 = b[1] as u32;
            let b2: u32 = b[2] as u32;
            let b3: u32 = b[3] as u32;
            Some((b0 + 0x100 * b1) + 0x1_0000 * (b2 + 0x100 * b3))
        },
        None => None,
    }
}

/// Reads eight bytes as an unsigned little-endian integer.
pub fn read_u64(io: &mut ByteSource) -> (r: Option<u64>)
    ensures
        final(io)@.bytes == old(io)@.bytes,
        match r {
            Some(v) => {
                &&& avail(old(io)@.bytes, old(io)@.pos as int) >= 8
                &&& v == le_u64(old(io)@.bytes, old(io)@.pos as int)
                &&& final(io)@.pos == old(io)@.pos + 8
            },
            None => {
                &&& avail(old(io)@.bytes, old(io)@.pos as int) < 8
                &&& final(io)@.pos == old(io)@.pos
            },
        },
{
    match io.read_bytes(8) {
        Some(b) => {
            let b0: u64 = b[0] as u64;
            let b1: u64 = b[1] as u64;
            let b2: u64 = b[2] as u64;
            let b3: u64 = b[3] as u64;
            let b4: u64 = b[4] as u64;
            let b5: u64 = b[5] as u64;
            let b6: u64 = b[6] as u64;
            let b7: u64 = b[7] as u64;
            let lo: u64 = (b0 + 0x100 * b1) + 0x1_0000 * (b2 + 0x100 * b3);
            let hi: u64 = (b4 + 0x100 * b5) + 0x1_0000 * (b6 + 0x100 * b7);
            Some(lo + 0x1_0000_0000 * hi)
        },
        None => None,
    }
}

} // verus!
