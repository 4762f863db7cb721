//! Big-endian integers over byte sequences.
//!
//! The model is arithmetic: a byte sequence spells a natural number in base
//! 256, most significant digit first. The fixed-width reads and writes are
//! done by the `byteorder` crate and tied to that model by the contracts of
//! the private wrappers at the end of this file.

use byteorder::{BigEndian, ByteOrder};
use vstd::arithmetic::div_mod::{lemma_breakdown, lemma_small_mod};
use vstd::prelude::*;

verus! {

/// `256^n`.
pub open spec fn pow256(n: nat) -> nat
    decreases n,
{
    if n == 0 {
        1
    } else {
        256 * pow256((n - 1) as nat)
    }
}

/// The number that `s` spells in base 256, most significant byte first.
pub open spec fn be_value(s: Seq<u8>) -> nat
    decreases s.len(),
{
    if s.len() == 0 {
        0
    } else {
        be_value(s.drop_last()) * 256 + s.last() as nat
    }
}

/// The `n` least significant base-256 digits of `v`, most significant first.
/// A value of `256^n` or more loses its upper digits.
pub open spec fn be_bytes(v: nat, n: nat) -> Seq<u8>
    decreases n,
{
    if n == 0 {
        Seq::empty()
    } else {
        be_bytes(v / 256, (n - 1) as nat).push((v % 256) as u8)
    }
}

/// The 16-bit big-endian integer at `off`.
pub open spec fn u16_at(b: Seq<u8>, off: int) -> u16 {
    be_value(b.subrange(off, off + 2)) as u16
}

/// The 32-bit big-endian integer at `off`.
pub open spec fn u32_at(b: Seq<u8>, off: int) -> u32 {
    be_value(b.subrange(off, off + 4)) as u32
}

/// The 48-bit big-endian integer at `off`, widened to 64 bits.
pub open spec fn u48_at(b: Seq<u8>, off: int) -> u64 {
    be_value(b.subrange(off, off + 6)) as u64
}

/// The 64-bit big-endian integer at `off`.
pub open spec fn u64_at(b: Seq<u8>, off: int) -> u64 {
    be_value(b.subrange(off, off + 8)) as u64
}

/// The two bytes at `off`, as an array.
pub open spec fn array2_at(b: Seq<u8>, off: int) -> [u8; 2] {
    [b[off], b[off + 1]]
}

/// The four bytes at `off`, as an array.
pub open spec fn array4_at(b: Seq<u8>, off: int) -> [u8; 4] {
    [b[off], b[off + 1], b[off + 2], b[off + 3]]
}

/// The six bytes at `off`, as an array.
pub open spec fn array6_at(b: Seq<u8>, off: int) -> [u8; 6] {
    [b[off], b[off + 1], b[off + 2], b[off + 3], b[off + 4], b[off + 5]]
}

/// The eight bytes at `off`, as an array.
pub open spec fn array8_at(b: Seq<u8>, off: int) -> [u8; 8] {
    [b[off], b[off + 1], b[off + 2], b[off + 3], b[off + 4], b[off + 5], b[off + 6], b[off + 7]]
}

/// The ten bytes at `off`, as an array.
pub open spec fn array10_at(b: Seq<u8>, off: int) -> [u8; 10] {
    [
        b[off],
        b[off + 1],
        b[off + 2],
        b[off + 3],
        b[off + 4],
        b[off + 5],
        b[off + 6],
        b[off + 7],
        b[off + 8],
        b[off + 9],
    ]
}

/// The twenty bytes at `off`, as an array.
pub open spec fn array20_at(b: Seq<u8>, off: int) -> [u8; 20] {
    [
        b[off],
        b[off + 1],
        b[off + 2],
        b[off + 3],
        b[off + 4],
        b[off + 5],
        b[off + 6],
        b[off + 7],
        b[off + 8],
        b[off + 9],
        b[off + 10],
        b[off + 11],
        b[off + 12],
        b[off + 13],
        b[off + 14],
        b[off + 15],
        b[off + 16],
        b[off + 17],
        b[off + 18],
        b[off + 19],
    ]
}

/// The powers of 256 at the widths this crate uses.
pub proof fn lemma_pow256_values()
    ensures
        pow256(0) == 1,
        pow256(1) == 0x100,
        pow256(2) == 0x1_0000,
        pow256(4) == 0x1_0000_0000,
        pow256(6) == 0x1_0000_0000_0000,
        pow256(8) == 0x1_0000_0000_0000_0000,
{
    reveal_with_fuel(pow256, 9);
}

/// No power of 256 is zero.
pub proof fn lemma_pow256_positive(n: nat)
    ensures
        pow256(n) > 0,
    decreases n,
{
    if n > 0 {
        lemma_pow256_positive((n - 1) as nat);
    }
}

/// Two bytes spell the first times 256 plus the second.
pub proof fn lemma_be_value_pair(s: Seq<u8>)
    requires
        s.len() == 2,
    ensures
        be_value(s) == s[0] as nat * 256 + s[1] as nat,
{
    let head = s.drop_last();
    assert(be_value(head.drop_last()) == 0);
    assert(be_value(head) == s[0] as nat);
}

/// `be_bytes(v, n)` has exactly `n` bytes.
pub proof fn lemma_be_bytes_len(v: nat, n: nat)
    ensures
        be_bytes(v, n).len() == n,
    decreases n,
{
    if n > 0 {
        lemma_be_bytes_len(v / 256, (n - 1) as nat);
    }
}

/// A sequence of `n` bytes spells a number below `256^n`.
pub proof fn lemma_be_value_bound(s: Seq<u8>)
    ensures
        be_value(s) < pow256(s.len()),
    decreases s.len(),
{
    if s.len() > 0 {
        lemma_be_value_bound(s.drop_last());
    }
}

/// Reading back what `be_bytes` wrote gives the value modulo `256^n`.
pub proof fn lemma_value_of_bytes(v: nat, n: nat)
    ensures
        be_value(be_bytes(v, n)) == v % pow256(n),
    decreases n,
{
    if n > 0 {
        let m = (n - 1) as nat;
        let upper = be_bytes(v / 256, m);
        lemma_value_of_bytes(v / 256, m);
        lemma_pow256_positive(m);
        assert(be_bytes(v, n).drop_last() =~= upper);
        assert(be_bytes(v, n).last() == (v % 256) as u8);
        lemma_breakdown(v as int, 256, pow256(m) as int);
    }
}

/// A value that fits in `n` bytes survives the round trip unchanged.
pub proof fn lemma_value_of_bytes_exact(v: nat, n: nat)
    requires
        v < pow256(n),
    ensures
        be_value(be_bytes(v, n)) == v,
{
    lemma_value_of_bytes(v, n);
    lemma_small_mod(v, pow256(n));
}

/// Writing the number a sequence spells, at the sequence's own width, gives
/// the sequence back.
pub proof fn lemma_bytes_of_value(s: Seq<u8>)
    ensures
        be_bytes(be_value(s), s.len()) == s,
    decreases s.len(),
{
    if s.len() > 0 {
        let v = be_value(s);
        lemma_bytes_of_value(s.drop_last());
        assert(v / 256 == be_value(s.drop_last()));
        assert(v % 256 == s.last() as nat);
        assert(s.drop_last().push(s.last()) =~= s);
    } else {
        assert(be_bytes(0, 0) =~= s);
    }
}

/// The last `n` bytes of a wider encoding are the encoding at width `n`.
pub proof fn lemma_be_bytes_skip(v: nat, k: nat, n: nat)
    ensures
        be_bytes(v, k + n).skip(k as int) == be_bytes(v, n),
    decreases n,
{
    lemma_be_bytes_len(v, k + n);
    if n == 0 {
        assert(be_bytes(v, k).skip(k as int) =~= be_bytes(v, 0));
    } else {
        let m = (n - 1) as nat;
        lemma_be_bytes_skip(v / 256, k, m);
        lemma_be_bytes_len(v / 256, k + m);
        assert(be_bytes(v, k + n) == be_bytes(v / 256, k + m).push((v % 256) as u8));
        assert(be_bytes(v, k + n).skip(k as int) =~= be_bytes(v / 256, k + m).skip(k as int).push(
            (v % 256) as u8,
        ));
    }
}

/// Reads the 16-bit big-endian integer at `off`.
pub fn read_u16_at(bytes: &[u8], off: usize) -> (r: u16)
    requires
        off + 2 <= bytes@.len(),
    ensures
        r == u16_at(bytes@, off as int),
{
    assert(bytes@.len() == bytes.len());
    let part = &bytes[off..off + 2];
    assert(part@.subrange(0, 2) =~= part@);
    be_read_u16(part)
}

/// Reads the 32-bit big-endian integer at `off`.
pub fn read_u32_at(bytes: &[u8], off: usize) -> (r: u32)
    requires
        off + 4 <= bytes@.len(),
    ensures
        r == u32_at(bytes@, off as int),
{
    assert(bytes@.len() == bytes.len());
    let part = &bytes[off..off + 4];
    assert(part@.subrange(0, 4) =~= part@);
    be_read_u32(part)
}

/// Reads the 64-bit big-endian integer at `off`.
pub fn read_u64_at(bytes: &[u8], off: usize) -> (r: u64)
    requires
        off + 8 <= bytes@.len(),
    ensures
        r == u64_at(bytes@, off as int),
{
    assert(bytes@.len() == bytes.len());
    let part = &bytes[off..off + 8];
    assert(part@.subrange(0, 8) =~= part@);
    be_read_u64(part)
}

/// Copies the two bytes at `off`.
pub fn read_array2_at(bytes: &[u8], off: usize) -> (r: [u8; 2])
    requires
        off + 2 <= bytes@.len(),
    ensures
        r == array2_at(bytes@, off as int),
{
    [bytes[off], bytes[off + 1]]
}

/// Copies the four bytes at `off`.
pub fn read_array4_at(bytes: &[u8], off: usize) -> (r: [u8; 4])
    requires
        off + 4 <= bytes@.len(),
    ensures
        r == array4_at(bytes@, off as int),
{
    [bytes[off], bytes[off + 1], bytes[off + 2], bytes[off + 3]]
}

/// Copies the six bytes at `off`.
pub fn read_array6_at(bytes: &[u8], off: usize) -> (r: [u8; 6])
    requires
        off + 6 <= bytes@.len(),
    ensures
        r == array6_at(bytes@, off as int),
{
    [bytes[off], bytes[off + 1], bytes[off + 2], bytes[off + 3], bytes[off + 4], bytes[off + 5]]
}

/// Copies the eight bytes at `off`.
pub fn read_array8_at(bytes: &[u8], off: usize) -> (r: [u8; 8])
    requires
        off + 8 <= bytes@.len(),
    ensures
        r == array8_at(bytes@, off as int),
{
    [
        bytes[off],
        bytes[off + 1],
        bytes[off + 2],
        bytes[off + 3],
        bytes[off + 4],
        bytes[off + 5],
        bytes[off + 6],
        bytes[off + 7],
    ]
}

/// Copies the ten bytes at `off`.
pub fn read_array10_at(bytes: &[u8], off: usize) -> (r: [u8; 10])
    requires
        off + 10 <= bytes@.len(),
    ensures
        r == array10_at(bytes@, off as int),
{
    [
        bytes[off],
        bytes[off + 1],
        bytes[off + 2],
        bytes[off + 3],
        bytes[off + 4],
        bytes[off + 5],
        bytes[off + 6],
        bytes[off + 7],
        bytes[off + 8],
        bytes[off + 9],
    ]
}

/// Copies the twenty bytes at `off`.
pub fn read_array20_at(bytes: &[u8], off: usize) -> (r: [u8; 20])
    requires
        off + 20 <= bytes@.len(),
    ensures
        r == array20_at(bytes@, off as int),
{
    [
        bytes[off],
        bytes[off + 1],
        bytes[off + 2],
        bytes[off + 3],
        bytes[off + 4],
        bytes[off + 5],
        bytes[off + 6],
        bytes[off + 7],
        bytes[off + 8],
        bytes[off + 9],
        bytes[off + 10],
        bytes[off + 11],
        bytes[off + 12],
        bytes[off + 13],
        bytes[off + 14],
        bytes[off + 15],
        bytes[off + 16],
        bytes[off + 17],
        bytes[off + 18],
        bytes[off + 19],
    ]
}

/// The two bytes of `n`, most significant first.
pub fn u16_to_be(n: u16) -> (r: [u8; 2])
    ensures
        r@ == be_bytes(n as nat, 2),
{
    let mut out = [0u8; 2];
    be_write_u16(&mut out, n);
    proof {
        lemma_be_bytes_len(n as nat, 2);
        assert(out@ =~= be_bytes(n as nat, 2));
    }
    out
}

/// The four bytes of `n`, most significant first.
pub fn u32_to_be(n: u32) -> (r: [u8; 4])
    ensures
        r@ == be_bytes(n as nat, 4),
{
    let mut out = [0u8; 4];
    be_write_u32(&mut out, n);
    proof {
        lemma_be_bytes_len(n as nat, 4);
        assert(out@ =~= be_bytes(n as nat, 4));
    }
    out
}

/// The eight bytes of `n`, most significant first.
pub fn u64_to_be(n: u64) -> (r: [u8; 8])
    ensures
        r@ == be_bytes(n as nat, 8),
{
    let mut out = [0u8; 8];
    be_write_u64(&mut out, n);
    proof {
        lemma_be_bytes_len(n as nat, 8);
        assert(out@ =~= be_bytes(n as nat, 8));
    }
    out
}

/// `byteorder::BigEndian::read_u16`: the first two bytes of `buf` read as a
/// big-endian number. The outside function panics on a shorter buffer.
#[verifier::external_body]
fn be_read_u16(buf: &[u8]) -> (r: u16)
    requires
        buf@.len() >= 2,
    ensures
        r as nat == be_value(buf@.subrange(0, 2)),
{
    BigEndian::read_u16(buf)
}

/// `byteorder::BigEndian::read_u32`: the first four bytes of `buf` read as a
/// big-endian number. The outside function panics on a shorter buffer.
#[verifier::external_body]
fn be_read_u32(buf: &[u8]) -> (r: u32)
    requires
        buf@.len() >= 4,
    ensures
        r as nat == be_value(buf@.subrange(0, 4)),
{
    BigEndian::read_u32(buf)
}

/// `byteorder::BigEndian::read_u64`: the first eight bytes of `buf` read as
/// a big-endian number. The outside function panics on a shorter buffer.
#[verifier::external_body]
fn be_read_u64(buf: &[u8]) -> (r: u64)
    requires
        buf@.len() >= 8,
    ensures
        r as nat == be_value(buf@.subrange(0, 8)),
{
    BigEndian::read_u64(buf)
}

/// `byteorder::BigEndian::write_u16`: overwrites the first two bytes of
/// `buf` with `n`, most significant byte first, and leaves the rest alone.
/// The outside function panics on a shorter buffer.
#[verifier::external_body]
fn be_write_u16(buf: &mut [u8], n: u16)
    requires
        old(buf)@.len() >= 2,
    ensures
        final(buf)@ == be_bytes(n as nat, 2) + old(buf)@.skip(2),
{
    BigEndian::write_u16(buf, n)
}

/// `byteorder::BigEndian::write_u32`: overwrites the first four bytes of
/// `buf` with `n`, most significant byte first, and leaves the rest alone.
/// The outside function panics on a shorter buffer.
#[verifier::external_body]
fn be_write_u32(buf: &mut [u8], n: u32)
    requires
        old(buf)@.len() >= 4,
    ensures
        final(buf)@ == be_bytes(n as nat, 4) + old(buf)@.skip(4),
{
    BigEndian::write_u32(buf, n)
}

/// `byteorder::BigEndian::write_u64`: overwrites the first eight bytes of
/// `buf` with `n`, most significant byte first, and leaves the rest alone.
/// The outside function panics on a shorter buffer.
#[verifier::external_body]
fn be_write_u64(buf: &mut [u8], n: u64)
    requires
        old(buf)@.len() >= 8,
    ensures
        final(buf)@ == be_bytes(n as nat, 8) + old(buf)@.skip(8),
{
    BigEndian::write_u64(buf, n)
}

} // verus!
