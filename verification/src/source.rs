//! An in-memory byte source and the fixed-width readers on it.
//!
//! Floating-point fields are carried as the 64-bit pattern of their
//! IEEE-754 encoding: a reader hands the pattern out unchanged, and the
//! caller turns it into a number.

use vstd::prelude::*;
use crate::error::ShapefileError;

verus! {

/// The four bytes at `at` as one unsigned number, most significant first.
pub open spec fn spec_u32_be(bytes: Seq<u8>, at: int) -> int {
    bytes[at] * 0x100_0000 + bytes[at + 1] * 0x1_0000 + bytes[at + 2] * 0x100 + bytes[at + 3]
}

/// The four bytes at `at` as one unsigned number, least significant first.
pub open spec fn spec_u32_le(bytes: Seq<u8>, at: int) -> int {
    bytes[at] + bytes[at + 1] * 0x100 + bytes[at + 2] * 0x1_0000 + bytes[at + 3] * 0x100_0000
}

/// The two's complement reading of a 32-bit pattern.
pub open spec fn spec_as_signed(pattern: int) -> int {
    if pattern >= 0x8000_0000 {
        pattern - 0x1_0000_0000
    } else {
        pattern
    }
}

/// The signed big-endian 32-bit integer at `at`.
pub open spec fn spec_i32_be(bytes: Seq<u8>, at: int) -> i32 {
    spec_as_signed(spec_u32_be(bytes, at)) as i32
}

/// The signed little-endian 32-bit integer at `at`.
pub open spec fn spec_i32_le(bytes: Seq<u8>, at: int) -> i32 {
    spec_as_signed(spec_u32_le(bytes, at)) as i32
}

/// The 64-bit pattern of the eight bytes at `at`, least significant first.
pub open spec fn spec_u64_le(bytes: Seq<u8>, at: int) -> u64 {
    (spec_u32_le(bytes, at) + spec_u32_le(bytes, at + 4) * 0x1_0000_0000) as u64
}

/// A sequence of bytes with a read position.
#[derive(Debug)]
pub struct ByteSource {
    data: Vec<u8>,
    pos: usize,
}

impl ByteSource {
    #[verifier::type_invariant]
    spec fn inv(&self) -> bool {
        self.pos <= self.data.len()
    }

    /// All the bytes of the source, read or not.
    pub closed spec fn bytes(&self) -> Seq<u8> {
        self.data@
    }

    /// The number of bytes read so far.
    pub closed spec fn position(&self) -> nat {
        self.pos as nat
    }

    /// The position is a number that fits a `usize`.
    pub proof fn lemma_in_range(&self)
        ensures
            self.position() <= usize::MAX,
    {
    }

    /// A source positioned at the first byte of `data`.
    pub fn new(data: Vec<u8>) -> (source: ByteSource)
        ensures
            source.bytes() == data@,
            source.position() == 0,
    {
        ByteSource { data, pos: 0 }
    }

    /// The number of bytes read so far.
    pub fn offset(&self) -> (n: usize)
        ensures
            n == self.position(),
            n <= self.bytes().len(),
    {
        proof {
            use_type_invariant(self);
        }
        self.pos
    }

    /// The number of bytes not read yet.
    pub fn remaining(&self) -> (n: usize)
        ensures
            n == self.bytes().len() - self.position(),
    {
        proof {
            use_type_invariant(self);
        }
        self.data.len() - self.pos
    }

    /// Moves the position to the end: what a failed read leaves behind.
    pub(crate) fn exhaust(&mut self)
        ensures
            final(self).bytes() == old(self).bytes(),
            final(self).position() == old(self).bytes().len(),
    {
        self.pos = self.data.len();
    }

    /// Reads four bytes and returns their pattern, first byte first.
    fn take4(&mut self) -> (r: Option<(u8, u8, u8, u8)>)
        ensures
            final(self).bytes() == old(self).bytes(),
            match r {
                Some(q) => {
                    let at = old(self).position() as int;
                    &&& at + 4 <= old(self).bytes().len()
                    &&& final(self).position() == at + 4
                    &&& q.0 == old(self).bytes()[at]
                    &&& q.1 == old(self).bytes()[at + 1]
                    &&& q.2 == old(self).bytes()[at + 2]
                    &&& q.3 == old(self).bytes()[at + 3]
                },
                None => {
                    &&& old(self).position() + 4 > old(self).bytes().len()
                    &&& final(self).position() == old(self).bytes().len()
                },
            },
    {
        proof {
            use_type_invariant(&*self);
        }
        if self.data.len() - self.pos < 4 {
            self.exhaust();
            None
        } else {
            let at: usize = self.pos;
            let q = (self.data[at], self.data[at + 1], self.data[at + 2], self.data[at + 3]);
            self.pos = at + 4;
            Some(q)
        }
    }
}

impl Clone for ByteSource {
    /// A source with the same bytes at the same position.
    fn clone(&self) -> (copy: ByteSource)
        ensures
            copy.bytes() == self.bytes(),
            copy.position() == self.position(),
    {
        proof {
            use_type_invariant(self);
        }
        let data: Vec<u8> = self.data.clone();
        assert(data@ =~= self.data@);
        ByteSource { data, pos: self.pos }
    }
}

/// Reads a signed 32-bit integer, most significant byte first.
///
/// With fewer than four bytes left the read fails and the source is left
/// exhausted.
pub fn load_i32_be(source: &mut ByteSource) -> (r: Result<i32, ShapefileError>)
    ensures
        final(source).bytes() == old(source).bytes(),
        match r {
            Ok(v) => {
                &&& old(source).position() + 4 <= old(source).bytes().len()
                &&& final(source).position() == old(source).position() + 4
                &&& v == spec_i32_be(old(source).bytes(), old(source).position() as int)
            },
            Err(e) => {
                &&& e == ShapefileError::UnexpectedEof
                &&& old(source).position() + 4 > old(source).bytes().len()
                &&& final(source).position() == old(source).bytes().len()
            },
        },
{
    match source.take4() {
        Some(q) => Ok(signed(compose(q.0, q.1, q.2, q.3))),
        None => Err(ShapefileError::UnexpectedEof),
    }
}

/// Reads a signed 32-bit integer, least significant byte first.
///
/// With fewer than four bytes left the read fails and the source is left
/// exhausted.
pub fn load_i32_le(source: &mut ByteSource) -> (r: Result<i32, ShapefileError>)
    ensures
        final(source).bytes() == old(source).bytes(),
        match r {
            Ok(v) => {
                &&& old(source).position() + 4 <= old(source).bytes().len()
                &&& final(source).position() == old(source).position() + 4
                &&& v == spec_i32_le(old(source).bytes(), old(source).position() as int)
            },
            Err(e) => {
                &&& e == ShapefileError::UnexpectedEof
                &&& old(source).position() + 4 > old(source).bytes().len()
                &&& final(source).position() == old(source).bytes().len()
            },
        },
{
    match source.take4() {
        Some(q) => Ok(signed(compose(q.3, q.2, q.1, q.0))),
        None => Err(ShapefileError::UnexpectedEof),
    }
}

/// Reads the 64-bit pattern of a floating-point number, least significant
/// byte first.
///
/// With fewer than eight bytes left the read fails and the source is left
/// exhausted.
pub fn load_f64_bits(source: &mut ByteSource) -> (r: Result<u64, ShapefileError>)
    ensures
        final(source).bytes() == old(source).bytes(),
        match r {
            Ok(v) => {
                &&& old(source).position() + 8 <= old(source).bytes().len()
                &&& final(source).position() == old(source).position() + 8
                &&& v == spec_u64_le(old(source).bytes(), old(source).position() as int)
            },
            Err(e) => {
                &&& e == ShapefileError::UnexpectedEof
                &&& old(source).position() + 8 > old(source).bytes().len()
                &&& final(source).position() == old(source).bytes().len()
            },
        },
{
    if source.remaining() < 8 {
        source.exhaust();
        return Err(ShapefileError::UnexpectedEof);
    }
    let lo: Option<(u8, u8, u8, u8)> = source.take4();
    let hi: Option<(u8, u8, u8, u8)> = source.take4();
    match (lo, hi) {
        (Some(l), Some(h)) => {
            let low: u32 = compose(l.3, l.2, l.1, l.0);
            let high: u32 = compose(h.3, h.2, h.1, h.0);
            Ok((high as u64) * 0x1_0000_0000 + (low as u64))
        },
        _ => Err(ShapefileError::UnexpectedEof),
    }
}

/// The 32-bit pattern whose bytes are `b3 b2 b1 b0`, most significant first.
fn compose(b3: u8, b2: u8, b1: u8, b0: u8) -> (v: u32)
    ensures
        v == b3 * 0x100_0000 + b2 * 0x1_0000 + b1 * 0x100 + b0,
{
    let hi: u32 = (b3 as u32) * 0x100_0000 + (b2 as u32) * 0x1_0000;
    let lo: u32 = (b1 as u32) * 0x100 + (b0 as u32);
    hi + lo
}

/// The two's complement reading of a 32-bit pattern.
fn signed(pattern: u32) -> (v: i32)
    ensures
        v == spec_as_signed(pattern as int),
{
    if pattern >= 0x8000_0000 {
        ((pattern as i64) - 0x1_0000_0000) as i32
    } else {
        pattern as i32
    }
}

} // verus!
