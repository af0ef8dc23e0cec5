//! Byte-order aware conversions between integers and wire bytes.

use vstd::prelude::*;

verus! {

/// The byte order a client picks for its connection.
#[derive(Clone, Copy, Debug, PartialEq, Eq, Structural)]
pub enum Endianness {
    Big,
    Little,
}

/// The unsigned 16-bit value stored in the first two bytes of `b`.
pub open spec fn spec_card16(e: Endianness, b: Seq<u8>) -> u16
    recommends
        b.len() >= 2,
{
    match e {
        Endianness::Little => (b[0] as int + 256 * (b[1] as int)) as u16,
        Endianness::Big => (b[1] as int + 256 * (b[0] as int)) as u16,
    }
}

/// The unsigned 32-bit value stored in the first four bytes of `b`.
pub open spec fn spec_card32(e: Endianness, b: Seq<u8>) -> u32
    recommends
        b.len() >= 4,
{
    match e {
        Endianness::Little => (b[0] as int + 0x100 * (b[1] as int) + 0x1_0000 * (b[2] as int)
            + 0x100_0000 * (b[3] as int)) as u32,
        Endianness::Big => (b[3] as int + 0x100 * (b[2] as int) + 0x1_0000 * (b[1] as int)
            + 0x100_0000 * (b[0] as int)) as u32,
    }
}

/// The two's complement reading of a 16-bit value.
pub open spec fn spec_signed16(v: u16) -> i16 {
    if v < 0x8000 {
        v as i16
    } else {
        (v - 0x1_0000) as i16
    }
}

/// The signed 16-bit value stored in the first two bytes of `b`.
pub open spec fn spec_int16(e: Endianness, b: Seq<u8>) -> i16 {
    spec_signed16(spec_card16(e, b))
}

/// The two bytes that carry `v`.
pub open spec fn spec_bytes16(e: Endianness, v: u16) -> Seq<u8> {
    let lo = (v % 0x100) as u8;
    let hi = (v / 0x100) as u8;
    match e {
        Endianness::Little => seq![lo, hi],
        Endianness::Big => seq![hi, lo],
    }
}

/// The four bytes that carry `v`.
pub open spec fn spec_bytes32(e: Endianness, v: u32) -> Seq<u8> {
    let b0 = (v % 0x100) as u8;
    let b1 = (v / 0x100 % 0x100) as u8;
    let b2 = (v / 0x1_0000 % 0x100) as u8;
    let b3 = (v / 0x100_0000) as u8;
    match e {
        Endianness::Little => seq![b0, b1, b2, b3],
        Endianness::Big => seq![b3, b2, b1, b0],
    }
}

/// The sequence of 32-bit words that `b` holds, four bytes per word.
pub open spec fn spec_words(e: Endianness, b: Seq<u8>) -> Seq<u32> {
    Seq::new(b.len() / 4, |i: int| spec_card32(e, b.subrange(4 * i, 4 * i + 4)))
}

/// The number of filler bytes that bring a field of `s` bytes to a 4-byte boundary.
pub open spec fn spec_pad(s: int) -> int {
    (4 - s % 4) % 4
}

/// Number of filler bytes after a field of `s` bytes.
pub fn pad(s: usize) -> (r: usize)
    ensures
        r == spec_pad(s as int),
        r < 4,
        (s + r) % 4 == 0,
{
    (4 - s % 4) % 4
}

impl Endianness {
    /// Reads an unsigned 32-bit value from the front of `bytes`.
    pub fn card32(&self, bytes: &[u8]) -> (r: u32)
        requires
            bytes@.len() >= 4,
        ensures
            r == spec_card32(*self, bytes@),
    {
        let b0 = bytes[0] as u32;
        let b1 = bytes[1] as u32;
        let b2 = bytes[2] as u32;
        let b3 = bytes[3] as u32;
        match self {
            Endianness::Little => b0 + 0x100 * b1 + 0x1_0000 * b2 + 0x100_0000 * b3,
            Endianness::Big => b3 + 0x100 * b2 + 0x1_0000 * b1 + 0x100_0000 * b0,
        }
    }

    /// Reads an unsigned 16-bit value from the front of `bytes`.
    pub fn card16(&self, bytes: &[u8]) -> (r: u16)
        requires
            bytes@.len() >= 2,
        ensures
            r == spec_card16(*self, bytes@),
    {
        let b0 = bytes[0] as u16;
        let b1 = bytes[1] as u16;
        match self {
            Endianness::Little => b0 + 0x100 * b1,
            Endianness::Big => b1 + 0x100 * b0,
        }
    }

    /// Reads a signed 16-bit value from the front of `bytes`.
    pub fn int16(&self, bytes: &[u8]) -> (r: i16)
        requires
            bytes@.len() >= 2,
        ensures
            r == spec_int16(*self, bytes@),
    {
        let v = self.card16(bytes);
        if v < 0x8000 {
            v as i16
        } else {
            (v as i32 - 0x1_0000) as i16
        }
    }

    /// Splits `source` into 32-bit words, four bytes each, in order.
    pub fn copy8to32(&self, source: &[u8]) -> (r: Vec<u32>)
        requires
            source@.len() % 4 == 0,
        ensures
            r@ == spec_words(*self, source@),
    {
        let mut target: Vec<u32> = Vec::new();
        let len = source.len();
        let mut pos: usize = 0;
        while pos < len
            invariant
                len == source@.len(),
                len % 4 == 0,
                pos % 4 == 0,
                pos <= len,
                target@ == spec_words(*self, source@).subrange(0, pos as int / 4),
            decreases len - pos,
        {
            let w = self.card32(&source[pos..pos + 4]);
            target.push(w);
            pos = pos + 4;
            assert(target@ =~= spec_words(*self, source@).subrange(0, pos as int / 4));
        }
        assert(target@ =~= spec_words(*self, source@));
        target
    }

    /// The wire bytes of a 32-bit value.
    pub fn to_bytes_32(&self, val: u32) -> (r: [u8; 4])
        ensures
            r@ == spec_bytes32(*self, val),
    {
        let b0 = (val % 0x100) as u8;
        let b1 = (val / 0x100 % 0x100) as u8;
        let b2 = (val / 0x1_0000 % 0x100) as u8;
        let b3 = (val / 0x100_0000) as u8;
        let r = match self {
            Endianness::Little => [b0, b1, b2, b3],
            Endianness::Big => [b3, b2, b1, b0],
        };
        assert(r@ =~= spec_bytes32(*self, val));
        r
    }

    /// The wire bytes of a 16-bit value.
    pub fn to_bytes_16(&self, val: u16) -> (r: [u8; 2])
        ensures
            r@ == spec_bytes16(*self, val),
    {
        let lo = (val % 0x100) as u8;
        let hi = (val / 0x100) as u8;
        let r = match self {
            Endianness::Little => [lo, hi],
            Endianness::Big => [hi, lo],
        };
        assert(r@ =~= spec_bytes16(*self, val));
        r
    }
}

/// `n` zero bytes.
pub open spec fn zeros(n: int) -> Seq<u8> {
    Seq::new(n as nat, |i: int| 0u8)
}

/// Appends `n` zero bytes to `v`.
pub(crate) fn push_zeros(v: &mut Vec<u8>, n: u64)
    ensures
        final(v)@ == old(v)@ + zeros(n as int),
{
    let mut i: u64 = 0;
    while i < n
        invariant
            i <= n,
            v@ == old(v)@ + zeros(i as int),
        decreases n - i,
    {
        v.push(0);
        i = i + 1;
        assert(v@ =~= old(v)@ + zeros(i as int));
    }
}

/// Appends the bytes of `b` to `v`.
pub(crate) fn push_bytes(v: &mut Vec<u8>, b: &[u8])
    ensures
        final(v)@ == old(v)@ + b@,
{
    let mut i: usize = 0;
    while i < b.len()
        invariant
            i <= b@.len(),
            v@ == old(v)@ + b@.subrange(0, i as int),
        decreases b@.len() - i,
    {
        v.push(b[i]);
        i = i + 1;
        assert(v@ =~= old(v)@ + b@.subrange(0, i as int));
    }
    assert(b@.subrange(0, b@.len() as int) =~= b@);
}

impl Endianness {
    /// Appends the wire bytes of a 16-bit value to `v`.
    pub(crate) fn push16(&self, v: &mut Vec<u8>, val: u16)
        ensures
            final(v)@ == old(v)@ + spec_bytes16(*self, val),
    {
        push_bytes(v, self.to_bytes_16(val).as_slice());
    }

    /// Appends the wire bytes of a 32-bit value to `v`.
    pub(crate) fn push32(&self, v: &mut Vec<u8>, val: u32)
        ensures
            final(v)@ == old(v)@ + spec_bytes32(*self, val),
    {
        push_bytes(v, self.to_bytes_32(val).as_slice());
    }
}

/// Reading back the bytes written for a 16-bit value gives the value.
pub proof fn lemma_round_trip16(e: Endianness, v: u16)
    ensures
        spec_card16(e, spec_bytes16(e, v)) == v,
{
    let x = v as int;
    assert(x % 0x100 + 0x100 * (x / 0x100) == x) by (nonlinear_arith)
        requires
            0 <= x < 0x1_0000,
    ;
}

/// Reading back the bytes written for a 32-bit value gives the value.
pub proof fn lemma_round_trip32(e: Endianness, v: u32)
    ensures
        spec_card32(e, spec_bytes32(e, v)) == v,
{
    let x = v as int;
    assert(x % 0x100 + 0x100 * (x / 0x100 % 0x100) + 0x1_0000 * (x / 0x1_0000 % 0x100) + 0x100_0000
        * (x / 0x100_0000) == x) by (nonlinear_arith)
        requires
            0 <= x < 0x1_0000_0000,
    ;
}

} // verus!
