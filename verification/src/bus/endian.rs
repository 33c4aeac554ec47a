//! Little endian encoding of integers, as used on the bus.
use vstd::prelude::*;

verus! {

/// `256` to the power `n`.
pub open spec fn pow256(n: nat) -> nat
    decreases n,
{
    if n == 0 {
        1
    } else {
        256 * pow256((n - 1) as nat)
    }
}

/// The unsigned integer that the bytes `s` encode in little endian order.
pub open spec fn spec_le_value(s: Seq<u8>) -> nat
    decreases s.len(),
{
    if s.len() == 0 {
        0
    } else {
        s[0] as nat + 256 * spec_le_value(s.drop_first())
    }
}

/// The `n` lowest bytes of `v` in little endian order.
pub open spec fn spec_le_bytes(v: nat, n: nat) -> Seq<u8>
    decreases n,
{
    if n == 0 {
        Seq::empty()
    } else {
        seq![(v % 256) as u8] + spec_le_bytes(v / 256, (n - 1) as nat)
    }
}

/// Encoding in `n` bytes has `n` bytes.
pub proof fn lemma_le_bytes_len(v: nat, n: nat)
    ensures
        spec_le_bytes(v, n).len() == n,
    decreases n,
{
    if n > 0 {
        lemma_le_bytes_len(v / 256, (n - 1) as nat);
    }
}

/// Decoding the `n`-byte encoding of `v` gives `v` modulo `256^n`.
pub proof fn lemma_le_value_bytes(v: nat, n: nat)
    ensures
        spec_le_value(spec_le_bytes(v, n)) == v % pow256(n),
        pow256(n) > 0,
    decreases n,
{
    if n == 0 {
    } else {
        let rest = spec_le_bytes(v / 256, (n - 1) as nat);
        lemma_le_value_bytes(v / 256, (n - 1) as nat);
        assert((seq![(v % 256) as u8] + rest).drop_first() =~= rest);
        vstd::arithmetic::div_mod::lemma_mod_breakdown(v as int, 256, pow256((n - 1) as nat) as int);
    }
}

/// An encoding of `n` bytes holds a value below `256^n`.
pub proof fn lemma_le_value_bound(s: Seq<u8>)
    ensures
        spec_le_value(s) < pow256(s.len()),
    decreases s.len(),
{
    if s.len() > 0 {
        lemma_le_value_bound(s.drop_first());
    }
}

/// Encoding the value of a sequence gives the sequence back.
pub proof fn lemma_le_bytes_value(s: Seq<u8>)
    ensures
        spec_le_bytes(spec_le_value(s), s.len()) == s,
    decreases s.len(),
{
    if s.len() > 0 {
        let r = s.drop_first();
        lemma_le_bytes_value(r);
        let v = spec_le_value(s);
        assert(v % 256 == s[0]);
        assert(v / 256 == spec_le_value(r));
        assert(seq![s[0]] + r =~= s);
    }
}

/// A `u16` is read back from its two byte encoding.
pub proof fn lemma_le_u16_roundtrip(v: u16)
    ensures
        spec_le_bytes(v as nat, 2).len() == 2,
        spec_le_value(spec_le_bytes(v as nat, 2)) == v,
{
    lemma_le_bytes_len(v as nat, 2);
    lemma_le_value_bytes(v as nat, 2);
    reveal_with_fuel(pow256, 3);
    vstd::arithmetic::div_mod::lemma_small_mod(v as nat, 0x10000);
}

/// Encoding in two bytes, spelled out.
pub proof fn lemma_le_bytes_2(v: nat)
    ensures
        spec_le_bytes(v, 2) == seq![(v % 256) as u8, ((v / 256) % 256) as u8],
{
    reveal_with_fuel(spec_le_bytes, 3);
    assert(spec_le_bytes(v, 2) =~= seq![(v % 256) as u8, ((v / 256) % 256) as u8]);
}

/// Write `n` bytes of `value` in little endian order at the front of `buffer`.
pub fn encode_le(value: u128, n: usize, buffer: &mut [u8])
    requires
        n <= old(buffer)@.len(),
    ensures
        final(buffer)@ == spec_le_bytes(value as nat, n as nat) + old(buffer)@.skip(n as int),
{
    let ghost original = buffer@;
    let mut x: u128 = value;
    let mut i: usize = 0;
    proof {
        lemma_le_bytes_len(value as nat, n as nat);
    }
    while i < n
        invariant
            i <= n <= original.len(),
            buffer@.len() == original.len(),
            buffer@.take(i as int) + spec_le_bytes(x as nat, (n - i) as nat) == spec_le_bytes(value as nat, n as nat),
            spec_le_bytes(x as nat, (n - i) as nat).len() == n - i,
            buffer@.skip(n as int) == original.skip(n as int),
        decreases n - i,
    {
        let ghost before = buffer@;
        let byte = (x % 256) as u8;
        buffer[i] = byte;
        proof {
            let tail = spec_le_bytes(x as nat / 256, (n - i - 1) as nat);
            lemma_le_bytes_len(x as nat / 256, (n - i - 1) as nat);
            assert(spec_le_bytes(x as nat, (n - i) as nat) == seq![byte] + tail);
            assert(buffer@.take(i + 1) =~= before.take(i as int).push(byte));
            assert(buffer@.take(i + 1) + tail =~= before.take(i as int) + (seq![byte] + tail));
            assert(buffer@.skip(n as int) =~= before.skip(n as int));
        }
        x = x / 256;
        i = i + 1;
    }
    assert(buffer@ =~= buffer@.take(n as int) + buffer@.skip(n as int));
    assert(spec_le_bytes(x as nat, 0) =~= Seq::<u8>::empty());
    assert(buffer@.take(n as int) + Seq::<u8>::empty() =~= buffer@.take(n as int));
}

/// The unsigned value of the bytes in `buffer`, read in little endian order.
pub fn decode_le(buffer: &[u8]) -> (r: u128)
    requires
        buffer@.len() <= 16,
    ensures
        r == spec_le_value(buffer@),
{
    let n = buffer.len();
    let mut acc: u128 = 0;
    let mut i: usize = n;
    while i > 0
        invariant
            n == buffer@.len() <= 16,
            i <= n,
            acc == spec_le_value(buffer@.skip(i as int)),
        decreases i,
    {
        proof {
            lemma_le_value_bound(buffer@.skip(i as int));
            assert(buffer@.skip(i - 1).drop_first() =~= buffer@.skip(i as int));
            lemma_pow256_16();
            lemma_pow256_mono((n - i) as nat, 15);
        }
        acc = acc * 256 + buffer[i - 1] as u128;
        i = i - 1;
    }
    assert(buffer@.skip(0) =~= buffer@);
    acc
}

proof fn lemma_pow256_16()
    ensures
        pow256(16) == 0x1_0000_0000_0000_0000_0000_0000_0000_0000nat,
{
    reveal_with_fuel(pow256, 17);
}

proof fn lemma_pow256_mono(a: nat, b: nat)
    requires
        a <= b,
    ensures
        pow256(a) <= pow256(b),
    decreases b,
{
    if a < b {
        lemma_pow256_mono(a, (b - 1) as nat);
    }
}

/// Write a u8 to a buffer in little endian format.
///
/// Although endianness has no meaning for single-byte values,
/// having this function keeps the code consistent and easier to read.
pub fn write_u8_le(buffer: &mut [u8], value: u8)
    requires
        old(buffer)@.len() >= 1,
    ensures
        final(buffer)@ == old(buffer)@.update(0, value),
{
    buffer[0] = value;
}

/// Read a u8 from a buffer in little endian format.
///
/// Although endianness has no meaning for single-byte values,
/// having this function keeps the code consistent and easier to read.
pub fn read_u8_le(buffer: &[u8]) -> (r: u8)
    requires
        buffer@.len() >= 1,
    ensures
        r == buffer@[0],
{
    buffer[0]
}

/// Write a u16 to a buffer in little endian format.
pub fn write_u16_le(buffer: &mut [u8], value: u16)
    requires
        old(buffer)@.len() >= 2,
    ensures
        final(buffer)@ == spec_le_bytes(value as nat, 2) + old(buffer)@.skip(2),
{
    let ghost original = buffer@;
    assert((value & 0xFFu16) as u8 == value % 256) by (bit_vector);
    assert((value >> 8u16 & 0xFFu16) as u8 == (value / 256) % 256) by (bit_vector);
    buffer[0] = (value & 0xFF) as u8;
    buffer[1] = (value >> 8 & 0xFF) as u8;
    proof {
        lemma_le_bytes_2(value as nat);
    }
    assert(buffer@ =~= spec_le_bytes(value as nat, 2) + original.skip(2));
}

/// The value of two bytes read in little endian order, computed with the bit operations of the protocol.
proof fn lemma_combine_u16(low: u8, high: u8)
    ensures
        (low as u16 | (high as u16) << 8u16) == low + 256 * high,
{
    assert((low as u16 | (high as u16) << 8u16) == low + 256 * high) by (bit_vector);
}

/// Read a u16 in little endian format from a buffer.
pub fn read_u16_le(buffer: &[u8]) -> (r: u16)
    requires
        buffer@.len() >= 2,
    ensures
        r == spec_le_value(buffer@.take(2)),
{
    let low = buffer[0] as u16;
    let high = buffer[1] as u16;
    proof {
        lemma_combine_u16(buffer@[0], buffer@[1]);
        reveal_with_fuel(spec_le_value, 3);
        let t = buffer@.take(2);
        assert(t.drop_first().drop_first() =~= Seq::<u8>::empty());
    }
    low | high << 8
}

/// Read a u32 in little endian format from a buffer.
pub fn read_u32_le(buffer: &[u8]) -> (r: u32)
    requires
        buffer@.len() >= 4,
    ensures
        r == spec_le_value(buffer@.take(4)),
{
    let low = read_u16_le(vstd::slice::slice_subrange(buffer, 0, 2)) as u32;
    let high = read_u16_le(vstd::slice::slice_subrange(buffer, 2, 4)) as u32;
    proof {
        let t = buffer@.take(4);
        assert(buffer@.subrange(0, 2).take(2) =~= t.take(2));
        assert(buffer@.subrange(2, 4).take(2) =~= t.skip(2));
        lemma_le_value_split(t, 2);
        reveal_with_fuel(pow256, 3);
        assert((low | high << 16u32) == low + 65536 * high) by (bit_vector)
            requires
                low < 65536,
                high < 65536,
        ;
    }
    low | high << 16
}

/// The value of a sequence splits at any position into the value of the front and of the back.
pub proof fn lemma_le_value_split(s: Seq<u8>, k: int)
    requires
        0 <= k <= s.len(),
    ensures
        spec_le_value(s) == spec_le_value(s.take(k)) + pow256(k as nat) * spec_le_value(s.skip(k)),
    decreases k,
{
    if k == 0 {
        assert(s.skip(0) =~= s);
        assert(s.take(0) =~= Seq::<u8>::empty());
        assert(spec_le_value(s.take(0)) == 0);
        let v = spec_le_value(s);
        let q = pow256(k as nat);
        assert(q == 1);
        assert(q * v == v) by (nonlinear_arith)
            requires
                q == 1,
        ;
    } else {
        let r = s.drop_first();
        lemma_le_value_split(r, k - 1);
        assert(s.take(k).drop_first() =~= r.take(k - 1));
        assert(s.skip(k) =~= r.skip(k - 1));
        let a = spec_le_value(r.take(k - 1));
        let b = spec_le_value(r.skip(k - 1));
        let p = pow256((k - 1) as nat);
        assert(256 * (a + p * b) == 256 * a + (256 * p) * b) by (nonlinear_arith);
        assert(s.take(k)[0] == s[0]);
        assert(spec_le_value(s.take(k)) == s[0] as nat + 256 * a);
        assert(spec_le_value(s) == s[0] as nat + 256 * spec_le_value(r));
        assert(pow256(k as nat) == 256 * p);
        assert(spec_le_value(r) == a + p * b);
        assert(spec_le_value(s.skip(k)) == b);
        assert(pow256(k as nat) * spec_le_value(s.skip(k)) == (256 * p) * b);
        assert(spec_le_value(s) == s[0] as nat + 256 * (a + p * b));
        assert(spec_le_value(s) == spec_le_value(s.take(k)) + pow256(k as nat) * spec_le_value(s.skip(k)));
    }
}

/// Write a u32 to a buffer in little endian format.
pub fn write_u32_le(buffer: &mut [u8], value: u32)
    requires
        old(buffer)@.len() >= 4,
    ensures
        final(buffer)@ == spec_le_bytes(value as nat % 65536, 2) + spec_le_bytes(value as nat / 65536, 2)
            + old(buffer)@.skip(4),
{
    let ghost original = buffer@;
    let high = (value >> 16 & 0xFFFF) as u16;
    let low = (value & 0xFFFF) as u16;
    assert((value >> 16u32 & 0xFFFFu32) as u16 == value / 65536) by (bit_vector);
    assert((value & 0xFFFFu32) as u16 == value % 65536) by (bit_vector);
    assert((high & 0xFFu16) as u8 == high % 256) by (bit_vector);
    assert((high >> 8u16 & 0xFFu16) as u8 == (high / 256) % 256) by (bit_vector);
    assert((low & 0xFFu16) as u8 == low % 256) by (bit_vector);
    assert((low >> 8u16 & 0xFFu16) as u8 == (low / 256) % 256) by (bit_vector);
    buffer[0] = (low & 0xFF) as u8;
    buffer[1] = (low >> 8 & 0xFF) as u8;
    buffer[2] = (high & 0xFF) as u8;
    buffer[3] = (high >> 8 & 0xFF) as u8;
    proof {
        lemma_le_bytes_2(high as nat);
        lemma_le_bytes_2(low as nat);
    }
    assert(buffer@ =~= spec_le_bytes(value as nat % 65536, 2) + spec_le_bytes(value as nat / 65536, 2) + original.skip(4));
}

} // verus!
