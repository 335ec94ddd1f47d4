//! Little-endian encoding of integers, the byte order of all account fields.
use vstd::prelude::*;
use vstd::arithmetic::div_mod::{
    lemma_div_denominator,
    lemma_fundamental_div_mod,
    lemma_fundamental_div_mod_converse,
};

verus! {

/// The number that a little-endian byte sequence denotes.
pub open spec fn le_value(bytes: Seq<u8>) -> nat
    decreases bytes.len(),
{
    if bytes.len() == 0 {
        0
    } else {
        bytes[0] as nat + 256 * le_value(bytes.drop_first())
    }
}

/// The `n` least significant bytes of `value`, least significant first.
pub open spec fn le_bytes(value: nat, n: nat) -> Seq<u8>
    decreases n,
{
    if n == 0 {
        Seq::empty()
    } else {
        seq![(value % 256) as u8] + le_bytes(value / 256, (n - 1) as nat)
    }
}

/// `256` to the power `n`.
pub open spec fn pow256(n: nat) -> nat
    decreases n,
{
    if n == 0 {
        1
    } else {
        256 * pow256((n - 1) as nat)
    }
}

/// The bit pattern of a signed 64-bit integer, read as an unsigned number.
pub open spec fn i64_bits(x: i64) -> nat {
    if x >= 0 {
        x as nat
    } else {
        (x + 0x1_0000_0000_0000_0000) as nat
    }
}

/// The signed 64-bit integer (two's complement) whose bit pattern is `u`.
pub open spec fn i64_from_bits(u: nat) -> int {
    if u < 0x8000_0000_0000_0000 {
        u as int
    } else {
        u - 0x1_0000_0000_0000_0000
    }
}

pub proof fn lemma_pow256_facts()
    ensures
        pow256(7) == 0x100_0000_0000_0000,
        pow256(8) == 0x1_0000_0000_0000_0000,
{
    reveal_with_fuel(pow256, 9);
}

pub proof fn lemma_pow256_monotonic(a: nat, b: nat)
    requires
        a <= b,
    ensures
        1 <= pow256(a) <= pow256(b),
    decreases b,
{
    if b > 0 {
        if a < b {
            lemma_pow256_monotonic(a, (b - 1) as nat);
        } else {
            lemma_pow256_monotonic((a - 1) as nat, (b - 1) as nat);
        }
    }
}

pub proof fn lemma_le_bytes_len(value: nat, n: nat)
    ensures
        le_bytes(value, n).len() == n,
    decreases n,
{
    if n > 0 {
        lemma_le_bytes_len(value / 256, (n - 1) as nat);
    }
}

/// A sequence of `n` bytes denotes a number below `256^n`.
pub proof fn lemma_le_value_bound(bytes: Seq<u8>)
    ensures
        le_value(bytes) < pow256(bytes.len()),
    decreases bytes.len(),
{
    if bytes.len() > 0 {
        let rest = bytes.drop_first();
        lemma_le_value_bound(rest);
        let r = le_value(rest);
        let p = pow256(rest.len());
        assert(256 * r + 256 <= 256 * p) by (nonlinear_arith)
            requires
                r < p,
        ;
    }
}

/// Encoding a number below `256^n` in `n` bytes and decoding it gives the
/// number back.
pub proof fn lemma_le_value_of_bytes(value: nat, n: nat)
    requires
        value < pow256(n),
    ensures
        le_value(le_bytes(value, n)) == value,
    decreases n,
{
    if n > 0 {
        let q = value / 256;
        let p = pow256((n - 1) as nat);
        lemma_fundamental_div_mod(value as int, 256);
        assert(q < p) by (nonlinear_arith)
            requires
                value < 256 * p,
                value == 256 * q + value % 256,
                0 <= value % 256 < 256,
        ;
        lemma_le_value_of_bytes(q, (n - 1) as nat);
        assert(le_bytes(value, n).drop_first() =~= le_bytes(q, (n - 1) as nat));
    }
}

/// Decoding a byte sequence and encoding the number in as many bytes gives
/// the sequence back.
pub proof fn lemma_le_bytes_of_value(bytes: Seq<u8>)
    ensures
        le_bytes(le_value(bytes), bytes.len()) == bytes,
    decreases bytes.len(),
{
    if bytes.len() > 0 {
        let rest = bytes.drop_first();
        let v = le_value(bytes);
        let r = le_value(rest);
        lemma_le_bytes_of_value(rest);
        lemma_fundamental_div_mod_converse(v as int, 256, r as int, bytes[0] as int);
        assert(le_bytes(v, bytes.len()) =~= bytes);
    }
}

/// Splitting an encoding after its first `i` bytes.
pub proof fn lemma_le_bytes_split(value: nat, i: nat, n: nat)
    requires
        i <= n,
    ensures
        le_bytes(value, n) == le_bytes(value, i) + le_bytes(value / pow256(i), (n - i) as nat),
    decreases i,
{
    if i == 0 {
        assert(le_bytes(value, 0) + le_bytes(value, n) =~= le_bytes(value, n));
    } else {
        lemma_le_bytes_split(value / 256, (i - 1) as nat, (n - 1) as nat);
        lemma_pow256_monotonic(0, (i - 1) as nat);
        lemma_div_denominator(value as int, 256, pow256((i - 1) as nat) as int);
        assert(le_bytes(value, n) =~= le_bytes(value, i) + le_bytes(
            value / pow256(i),
            (n - i) as nat,
        ));
    }
}

/// The bit pattern of a signed integer determines it.
pub proof fn lemma_i64_bits_roundtrip(x: i64)
    ensures
        i64_bits(x) < 0x1_0000_0000_0000_0000,
        i64_from_bits(i64_bits(x)) == x,
{
}

/// Every 64-bit pattern is the pattern of exactly one signed integer.
pub proof fn lemma_i64_from_bits_roundtrip(u: nat)
    requires
        u < 0x1_0000_0000_0000_0000,
    ensures
        i64::MIN <= i64_from_bits(u) <= i64::MAX,
        i64_bits(i64_from_bits(u) as i64) == u,
{
}

/// Reads the unsigned 64-bit integer stored little-endian at `offset`.
pub fn read_u64_le(data: &[u8], offset: usize) -> (value: u64)
    requires
        offset + 8 <= data.len(),
    ensures
        value == le_value(data@.subrange(offset as int, offset + 8)),
{
    let mut value: u64 = 0;
    let mut i: usize = 8;
    proof {
        lemma_pow256_facts();
    }
    while i > 0
        invariant
            i <= 8,
            offset + 8 <= data.len(),
            value == le_value(data@.subrange(offset + i, offset + 8)),
            value < pow256((8 - i) as nat),
            pow256(7) == 0x100_0000_0000_0000,
        decreases i,
    {
        i = i - 1;
        proof {
            let s = data@.subrange(offset + i, offset + 8);
            assert(s.drop_first() =~= data@.subrange(offset + i + 1, offset + 8));
            lemma_pow256_monotonic((7 - i) as nat, 7);
        }
        value = data[offset + i] as u64 + 256 * value;
    }
    value
}

/// Reads the signed 64-bit integer stored little-endian at `offset`.
pub fn read_i64_le(data: &[u8], offset: usize) -> (value: i64)
    requires
        offset + 8 <= data.len(),
    ensures
        value == i64_from_bits(le_value(data@.subrange(offset as int, offset + 8))),
{
    let bits = read_u64_le(data, offset);
    if bits < 0x8000_0000_0000_0000 {
        bits as i64
    } else {
        ((bits - 0x8000_0000_0000_0000) as i64) + i64::MIN
    }
}

/// The eight little-endian bytes of an unsigned 64-bit integer.
pub fn u64_to_le(value: u64) -> (bytes: [u8; 8])
    ensures
        bytes@ == le_bytes(value as nat, 8),
{
    let mut bytes = [0u8; 8];
    let mut rest = value;
    let mut i: usize = 0;
    assert(bytes@.subrange(0, 0) =~= le_bytes(value as nat, 0));
    assert(value as nat / 1 == value) by (nonlinear_arith);
    while i < 8
        invariant
            i <= 8,
            bytes@.len() == 8,
            rest == value as nat / pow256(i as nat),
            bytes@.subrange(0, i as int) == le_bytes(value as nat, i as nat),
        decreases 8 - i,
    {
        proof {
            lemma_le_bytes_split(value as nat, i as nat, (i + 1) as nat);
            lemma_pow256_monotonic(0, i as nat);
            lemma_div_denominator(value as int, pow256(i as nat) as int, 256);
            assert(pow256(i as nat) * 256 == pow256((i + 1) as nat));
        }
        bytes[i] = (rest % 256) as u8;
        rest = rest / 256;
        i = i + 1;
        proof {
            reveal_with_fuel(le_bytes, 2);
            assert(le_bytes(value as nat / pow256((i - 1) as nat), 1) =~= seq![
                ((value as nat / pow256((i - 1) as nat)) % 256) as u8,
            ]);
            assert(bytes@.subrange(0, i as int) =~= le_bytes(value as nat, i as nat));
        }
    }
    assert(bytes@ =~= bytes@.subrange(0, 8));
    bytes
}

/// The eight little-endian bytes of a signed 64-bit integer (two's complement).
pub fn i64_to_le(value: i64) -> (bytes: [u8; 8])
    ensures
        bytes@ == le_bytes(i64_bits(value), 8),
{
    let bits: u64 = if value >= 0 {
        value as u64
    } else {
        ((value - i64::MIN) as u64) + 0x8000_0000_0000_0000
    };
    u64_to_le(bits)
}

/// Decodes eight little-endian bytes as an unsigned 64-bit integer.
pub fn u64_from_le(bytes: [u8; 8]) -> (value: u64)
    ensures
        value == le_value(bytes@),
{
    let ghost s = bytes@;
    let slice = bytes.as_slice();
    assert(slice@.subrange(0, 8) =~= s);
    read_u64_le(slice, 0)
}

/// Copies the 32 bytes stored at `offset`.
pub fn read_bytes32(data: &[u8], offset: usize) -> (bytes: [u8; 32])
    requires
        offset + 32 <= data.len(),
    ensures
        bytes@ == data@.subrange(offset as int, offset + 32),
{
    let mut bytes = [0u8; 32];
    let mut i: usize = 0;
    while i < 32
        invariant
            i <= 32,
            offset + 32 <= data.len(),
            bytes@.len() == 32,
            forall|j: int| 0 <= j < i ==> bytes@[j] == data@[offset + j],
        decreases 32 - i,
    {
        bytes[i] = data[offset + i];
        i = i + 1;
    }
    assert(bytes@ =~= data@.subrange(offset as int, offset + 32));
    bytes
}

/// Copies eight bytes stored at `offset`.
pub fn read_bytes8(data: &[u8], offset: usize) -> (bytes: [u8; 8])
    requires
        offset + 8 <= data.len(),
    ensures
        bytes@ == data@.subrange(offset as int, offset + 8),
{
    let mut bytes = [0u8; 8];
    let mut i: usize = 0;
    while i < 8
        invariant
            i <= 8,
            offset + 8 <= data.len(),
            bytes@.len() == 8,
            forall|j: int| 0 <= j < i ==> bytes@[j] == data@[offset + j],
        decreases 8 - i,
    {
        bytes[i] = data[offset + i];
        i = i + 1;
    }
    assert(bytes@ =~= data@.subrange(offset as int, offset + 8));
    bytes
}

} // verus!
