//! Little-endian byte arithmetic: the mathematical model of the wire byte
//! layouts, the verified loops that build and read them, and the trusted
//! wrappers around the byteorder crate's fixed-width reads.

use vstd::prelude::*;

verus! {

/// The unsigned integer that a byte sequence denotes when read
/// little-endian: the first byte is the least significant.
pub open spec fn le_value(s: Seq<u8>) -> int
    decreases s.len(),
{
    if s.len() == 0 {
        0
    } else {
        s[0] + 256 * le_value(s.drop_first())
    }
}

/// `256^n`: one more than the largest value `n` bytes can denote.
pub open spec fn byte_pow(n: nat) -> int
    decreases n,
{
    if n == 0 {
        1
    } else {
        256 * byte_pow((n - 1) as nat)
    }
}

/// The `n` low-order bytes of `x`, least significant first.
pub open spec fn le_bytes(x: int, n: nat) -> Seq<u8>
    decreases n,
{
    if n == 0 {
        Seq::empty()
    } else {
        seq![(x % 256) as u8] + le_bytes(x / 256, (n - 1) as nat)
    }
}

/// `10^n`: the denominator a fixed-point scale of `n` digits stands for.
pub open spec fn pow10(n: nat) -> int
    decreases n,
{
    if n == 0 {
        1
    } else {
        10 * pow10((n - 1) as nat)
    }
}

pub proof fn lemma_le_value_bound(s: Seq<u8>)
    ensures
        0 <= le_value(s) < byte_pow(s.len()),
    decreases s.len(),
{
    if s.len() > 0 {
        lemma_le_value_bound(s.drop_first());
    }
}

pub proof fn lemma_byte_pow_monotone(a: nat, b: nat)
    requires
        a <= b,
    ensures
        0 < byte_pow(a) <= byte_pow(b),
    decreases b,
{
    if a < b {
        lemma_byte_pow_monotone(a, (b - 1) as nat);
    } else if b > 0 {
        lemma_byte_pow_monotone((a - 1) as nat, (b - 1) as nat);
    }
}

pub proof fn lemma_le_bytes_len(x: int, n: nat)
    ensures
        le_bytes(x, n).len() == n,
    decreases n,
{
    if n > 0 {
        lemma_le_bytes_len(x / 256, (n - 1) as nat);
    }
}

/// Reading back the `n` low-order bytes of a value below `256^n` recovers
/// the value exactly.
pub proof fn lemma_le_bytes_value(x: int, n: nat)
    requires
        0 <= x < byte_pow(n),
    ensures
        le_value(le_bytes(x, n)) == x,
    decreases n,
{
    if n > 0 {
        vstd::arithmetic::div_mod::lemma_fundamental_div_mod(x, 256);
        assert(256 * (x / 256) < 256 * byte_pow((n - 1) as nat));
        lemma_le_bytes_value(x / 256, (n - 1) as nat);
        let s = le_bytes(x, n);
        lemma_le_bytes_len(x / 256, (n - 1) as nat);
        assert(s.drop_first() =~= le_bytes(x / 256, (n - 1) as nat));
    }
}

pub proof fn lemma_pow10_monotone(a: nat, b: nat)
    requires
        a <= b,
    ensures
        0 < pow10(a) <= pow10(b),
    decreases b,
{
    if a < b {
        lemma_pow10_monotone(a, (b - 1) as nat);
    } else if b > 0 {
        lemma_pow10_monotone((a - 1) as nat, (b - 1) as nat);
    }
}

/// Relies on byteorder's `LittleEndian::read_u32`: reads the first four
/// bytes of `buf` as a little-endian unsigned 32-bit integer; panics only
/// when fewer than four bytes are present.
#[verifier::external_body]
pub(crate) fn read_u32_le(buf: &[u8]) -> (r: u32)
    requires
        buf@.len() >= 4,
    ensures
        r as int == le_value(buf@.subrange(0, 4)),
{
    <byteorder::LittleEndian as byteorder::ByteOrder>::read_u32(buf)
}

/// Relies on byteorder's `LittleEndian::read_u64`: reads the first eight
/// bytes of `buf` as a little-endian unsigned 64-bit integer; panics only
/// when fewer than eight bytes are present.
#[verifier::external_body]
pub(crate) fn read_u64_le(buf: &[u8]) -> (r: u64)
    requires
        buf@.len() >= 8,
    ensures
        r as int == le_value(buf@.subrange(0, 8)),
{
    <byteorder::LittleEndian as byteorder::ByteOrder>::read_u64(buf)
}

/// Appends the `count` low-order bytes of `x` to `buf`, least significant
/// first.
pub fn push_le(x: u64, count: usize, buf: &mut Vec<u8>)
    ensures
        final(buf)@ == old(buf)@ + le_bytes(x as int, count as nat),
{
    let ghost x0: int = x as int;
    let mut v: u64 = x;
    let mut i: usize = 0;
    while i < count
        invariant
            i <= count,
            buf@ + le_bytes(v as int, (count - i) as nat) == old(buf)@ + le_bytes(
                x0,
                count as nat,
            ),
        decreases count - i,
    {
        let ghost pre = buf@;
        let ghost k: nat = (count - i) as nat;
        buf.push((v % 256) as u8);
        proof {
            assert(le_bytes(v as int, k) == seq![(v as int % 256) as u8] + le_bytes(
                v as int / 256,
                (k - 1) as nat,
            ));
            assert(buf@ + le_bytes(v as int / 256, (k - 1) as nat) =~= pre + le_bytes(
                v as int,
                k,
            ));
        }
        v = v / 256;
        i = i + 1;
    }
    proof {
        assert(buf@ + le_bytes(v as int, 0) =~= buf@);
    }
}

/// Reads `bytes[start..]` as a little-endian unsigned magnitude,
/// zero-extended into 128 bits; at most 16 bytes may remain after `start`.
pub fn le_magnitude(bytes: &[u8], start: usize) -> (m: u128)
    requires
        start <= bytes@.len(),
        bytes@.len() - start <= 16,
    ensures
        m as int == le_value(bytes@.subrange(start as int, bytes@.len() as int)),
{
    let n: usize = bytes.len();
    let mut m: u128 = 0;
    let mut i: usize = n;
    while i > start
        invariant
            start <= i <= n,
            n == bytes@.len(),
            n - start <= 16,
            m as int == le_value(bytes@.subrange(i as int, n as int)),
        decreases i,
    {
        proof {
            lemma_le_value_bound(bytes@.subrange(i as int, n as int));
            lemma_byte_pow_monotone((n - i) as nat, 15);
            assert(byte_pow(16) == 0x1_0000_0000_0000_0000_0000_0000_0000_0000) by {
                reveal_with_fuel(byte_pow, 17);
            }
        }
        i = i - 1;
        let b: u8 = *vstd::slice::slice_index_get(bytes, i);
        m = m * 256 + (b as u128);
        proof {
            assert(bytes@.subrange(i as int, n as int).drop_first() =~= bytes@.subrange(
                i as int + 1,
                n as int,
            ));
        }
    }
    proof {
        assert(bytes@.subrange(start as int, n as int) == bytes@.subrange(
            start as int,
            bytes@.len() as int,
        ));
    }
    m
}

/// Computes `10^scale` exactly; `scale` may not exceed 19, the largest
/// power of ten a 64-bit unsigned integer can hold.
pub fn pow10_u64(scale: u8) -> (d: u64)
    requires
        scale <= 19,
    ensures
        d as int == pow10(scale as nat),
{
    let mut d: u64 = 1;
    let mut i: u8 = 0;
    while i < scale
        invariant
            i <= scale <= 19,
            d as int == pow10(i as nat),
        decreases scale - i,
    {
        proof {
            lemma_pow10_monotone((i + 1) as nat, 19);
            assert(pow10(19) == 10_000_000_000_000_000_000) by {
                reveal_with_fuel(pow10, 20);
            }
            assert(pow10((i + 1) as nat) == 10 * pow10(i as nat));
        }
        d = d * 10;
        i = i + 1;
    }
    d
}

} // verus!
