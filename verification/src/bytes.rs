//! Little-endian byte layouts of the integers that appear in signed
//! messages and in oracle accounts.

use vstd::prelude::*;

verus! {

/// The two bytes of a 16-bit value, least significant first.
pub open spec fn u16_le(x: u16) -> Seq<u8> {
    seq![(x % 256) as u8, (x / 256) as u8]
}

/// The value of two little-endian bytes.
pub open spec fn le_u16(lo: u8, hi: u8) -> u16 {
    (lo + 256 * hi) as u16
}

/// The eight bytes of a 64-bit value, least significant first.
pub open spec fn u64_le(x: u64) -> Seq<u8> {
    seq![
        (x % 0x100) as u8,
        ((x / 0x100) % 0x100) as u8,
        ((x / 0x1_0000) % 0x100) as u8,
        ((x / 0x100_0000) % 0x100) as u8,
        ((x / 0x1_0000_0000) % 0x100) as u8,
        ((x / 0x100_0000_0000) % 0x100) as u8,
        ((x / 0x1_0000_0000_0000) % 0x100) as u8,
        ((x / 0x100_0000_0000_0000) % 0x100) as u8,
    ]
}

/// The value of eight little-endian bytes.
pub open spec fn le_u64(s: Seq<u8>) -> u64
    recommends
        s.len() == 8,
{
    (s[0] + 0x100 * s[1] + 0x1_0000 * s[2] + 0x100_0000 * s[3] + 0x1_0000_0000 * s[4]
        + 0x100_0000_0000 * s[5] + 0x1_0000_0000_0000 * s[6] + 0x100_0000_0000_0000 * s[7]) as u64
}

/// The unsigned 64-bit pattern of a signed value in two's complement.
pub open spec fn twos_complement(x: i64) -> u64 {
    if x >= 0 {
        x as u64
    } else {
        (x + 0x1_0000_0000_0000_0000) as u64
    }
}

/// The signed value of an unsigned 64-bit pattern in two's complement.
pub open spec fn from_twos_complement(u: u64) -> i64 {
    if u < 0x8000_0000_0000_0000 {
        u as i64
    } else {
        (u - 0x1_0000_0000_0000_0000) as i64
    }
}

/// The eight bytes of a signed 64-bit value, least significant first.
pub open spec fn i64_le(x: i64) -> Seq<u8> {
    u64_le(twos_complement(x))
}

/// The signed value of eight little-endian bytes.
pub open spec fn le_i64(s: Seq<u8>) -> i64
    recommends
        s.len() == 8,
{
    from_twos_complement(le_u64(s))
}

/// Decoding the bytes of a 64-bit value gives the value back.
pub proof fn lemma_u64_le_round_trip(x: u64)
    ensures
        u64_le(x).len() == 8,
        le_u64(u64_le(x)) == x,
{
    let x = x as int;
    let q1 = x / 0x100;
    let q2 = q1 / 0x100;
    let q3 = q2 / 0x100;
    let q4 = q3 / 0x100;
    let q5 = q4 / 0x100;
    let q6 = q5 / 0x100;
    let q7 = q6 / 0x100;
    vstd::arithmetic::div_mod::lemma_div_denominator(x, 0x100, 0x100);
    vstd::arithmetic::div_mod::lemma_div_denominator(x, 0x1_0000, 0x100);
    vstd::arithmetic::div_mod::lemma_div_denominator(x, 0x100_0000, 0x100);
    vstd::arithmetic::div_mod::lemma_div_denominator(x, 0x1_0000_0000, 0x100);
    vstd::arithmetic::div_mod::lemma_div_denominator(x, 0x100_0000_0000, 0x100);
    vstd::arithmetic::div_mod::lemma_div_denominator(x, 0x1_0000_0000_0000, 0x100);
    assert(q2 == x / 0x1_0000);
    assert(q3 == x / 0x100_0000);
    assert(q4 == x / 0x1_0000_0000);
    assert(q5 == x / 0x100_0000_0000);
    assert(q6 == x / 0x1_0000_0000_0000);
    assert(q7 == x / 0x100_0000_0000_0000);
    assert(q7 < 0x100);
    let s = u64_le(x as u64);
    assert(s[0] == x % 0x100);
    assert(s[1] == q1 % 0x100);
    assert(s[2] == q2 % 0x100);
    assert(s[3] == q3 % 0x100);
    assert(s[4] == q4 % 0x100);
    assert(s[5] == q5 % 0x100);
    assert(s[6] == q6 % 0x100);
    assert(s[7] == q7);
}

/// Decoding the bytes of a signed 64-bit value gives the value back.
pub proof fn lemma_i64_le_round_trip(x: i64)
    ensures
        i64_le(x).len() == 8,
        le_i64(i64_le(x)) == x,
{
    lemma_u64_le_round_trip(twos_complement(x));
}

/// Decoding the bytes of a 16-bit value gives the value back.
pub proof fn lemma_u16_le_round_trip(x: u16)
    ensures
        u16_le(x).len() == 2,
        le_u16(u16_le(x)[0], u16_le(x)[1]) == x,
{
}

/// Appends the little-endian bytes of `x`.
pub fn push_u64_le(out: &mut Vec<u8>, x: u64)
    ensures
        final(out)@ == old(out)@ + u64_le(x),
{
    let ghost before = out@;
    out.push((x % 0x100) as u8);
    out.push(((x / 0x100) % 0x100) as u8);
    out.push(((x / 0x1_0000) % 0x100) as u8);
    out.push(((x / 0x100_0000) % 0x100) as u8);
    out.push(((x / 0x1_0000_0000) % 0x100) as u8);
    out.push(((x / 0x100_0000_0000) % 0x100) as u8);
    out.push(((x / 0x1_0000_0000_0000) % 0x100) as u8);
    out.push(((x / 0x100_0000_0000_0000) % 0x100) as u8);
    assert(out@ =~= before + u64_le(x));
}

/// Appends the little-endian two's-complement bytes of `x`.
pub fn push_i64_le(out: &mut Vec<u8>, x: i64)
    ensures
        final(out)@ == old(out)@ + i64_le(x),
{
    let pattern: u64 = if x >= 0 {
        x as u64
    } else {
        (0x8000_0000_0000_0000u64 - ((-(x + 1)) as u64 + 1)) + 0x8000_0000_0000_0000u64
    };
    push_u64_le(out, pattern);
}

/// Appends the little-endian bytes of `x`.
pub fn push_u16_le(out: &mut Vec<u8>, x: u16)
    ensures
        final(out)@ == old(out)@ + u16_le(x),
{
    let ghost before = out@;
    out.push((x % 256) as u8);
    out.push((x / 256) as u8);
    assert(out@ =~= before + u16_le(x));
}

/// Appends every byte of `bytes`.
pub fn push_all(out: &mut Vec<u8>, bytes: &[u8])
    ensures
        final(out)@ == old(out)@ + bytes@,
{
    let ghost before = out@;
    let mut i: usize = 0;
    while i < bytes.len()
        invariant
            0 <= i <= bytes.len(),
            out@ == before + bytes@.take(i as int),
        decreases bytes.len() - i,
    {
        out.push(bytes[i]);
        assert(out@ =~= before + bytes@.take(i + 1));
        i += 1;
    }
    assert(bytes@.take(bytes.len() as int) =~= bytes@);
}

/// Reads a little-endian 16-bit value at `at`.
pub fn read_u16_le(data: &[u8], at: usize) -> (x: u16)
    requires
        at + 2 <= data.len(),
    ensures
        x == le_u16(data@[at as int], data@[at + 1]),
{
    (data[at] as u16) + 256 * (data[at + 1] as u16)
}

/// Reads a little-endian 64-bit value at `at`.
pub fn read_u64_le(data: &[u8], at: usize) -> (x: u64)
    requires
        at + 8 <= data.len(),
    ensures
        x == le_u64(data@.subrange(at as int, at + 8)),
{
    (data[at] as u64) + 0x100 * (data[at + 1] as u64) + 0x1_0000 * (data[at + 2] as u64)
        + 0x100_0000 * (data[at + 3] as u64) + 0x1_0000_0000 * (data[at + 4] as u64)
        + 0x100_0000_0000 * (data[at + 5] as u64) + 0x1_0000_0000_0000 * (data[at + 6] as u64)
        + 0x100_0000_0000_0000 * (data[at + 7] as u64)
}

/// Reads a little-endian signed 64-bit value at `at`.
pub fn read_i64_le(data: &[u8], at: usize) -> (x: i64)
    requires
        at + 8 <= data.len(),
    ensures
        x == le_i64(data@.subrange(at as int, at + 8)),
{
    let pattern = read_u64_le(data, at);
    if pattern < 0x8000_0000_0000_0000 {
        pattern as i64
    } else {
        ((pattern - 0x8000_0000_0000_0000) as i64) + i64::MIN
    }
}

/// Copies the 32 bytes that start at `at`.
pub fn read_array_32(data: &[u8], at: usize) -> (out: [u8; 32])
    requires
        at + 32 <= data.len(),
    ensures
        out@ == data@.subrange(at as int, at + 32),
{
    let mut out = [0u8; 32];
    let mut i: usize = 0;
    while i < 32
        invariant
            0 <= i <= 32,
            at + 32 <= data.len(),
            forall|j: int| 0 <= j < i ==> out@[j] == data@[at + j],
        decreases 32 - i,
    {
        out[i] = data[at + i];
        i += 1;
    }
    assert(out@ =~= data@.subrange(at as int, at + 32));
    out
}

/// Whether `data[at .. at + expected.len()]` equals `expected`.
pub fn range_equals(data: &[u8], at: usize, expected: &[u8]) -> (r: bool)
    requires
        at + expected.len() <= data.len(),
    ensures
        r == (data@.subrange(at as int, at + expected.len()) == expected@),
{
    let mut i: usize = 0;
    while i < expected.len()
        invariant
            0 <= i <= expected.len(),
            at + expected.len() <= data.len(),
            forall|j: int| 0 <= j < i ==> data@[at + j] == expected@[j],
        decreases expected.len() - i,
    {
        if data[at + i] != expected[i] {
            assert(data@.subrange(at as int, at + expected.len())[i as int] != expected@[i as int]);
            return false;
        }
        i += 1;
    }
    assert(data@.subrange(at as int, at + expected.len()) =~= expected@);
    true
}

} // verus!
