//! The CRC-32 checksum used as the Ethernet frame check sequence
//! (reflected polynomial `0xEDB88320`, initial register and final xor
//! `0xFFFFFFFF`).

use vstd::prelude::*;

verus! {

/// The reflected generator polynomial.
pub const CRC32_POLY: u32 = 0xEDB8_8320;

/// One step of the shift register: shift right, folding the polynomial in
/// when a one falls off.
pub open spec fn crc_shift(c: u32) -> u32 {
    if c & 1 == 1 {
        (c >> 1) ^ CRC32_POLY
    } else {
        c >> 1
    }
}

/// `n` steps of the shift register.
pub open spec fn crc_shift_n(c: u32, n: nat) -> u32
    decreases n,
{
    if n == 0 {
        c
    } else {
        crc_shift(crc_shift_n(c, (n - 1) as nat))
    }
}

/// The register after taking in one byte.
pub open spec fn crc_byte(c: u32, b: u8) -> u32 {
    crc_shift_n(c ^ (b as u32), 8)
}

/// The register after taking in a whole byte sequence, from all ones.
pub open spec fn crc_register(s: Seq<u8>) -> u32
    decreases s.len(),
{
    if s.len() == 0 {
        0xFFFF_FFFFu32
    } else {
        crc_byte(crc_register(s.drop_last()), s.last())
    }
}

/// The CRC-32 checksum of a byte sequence.
pub open spec fn crc32_of(s: Seq<u8>) -> u32 {
    crc_register(s) ^ 0xFFFF_FFFFu32
}

/// A 32-bit value as four bytes, most significant first.
pub open spec fn be32(v: u32) -> Seq<u8> {
    seq![(v >> 24) as u8, (v >> 16) as u8, (v >> 8) as u8, v as u8]
}

fn shift(c: u32) -> (r: u32)
    ensures
        r == crc_shift(c),
{
    if c & 1 == 1 {
        (c >> 1) ^ CRC32_POLY
    } else {
        c >> 1
    }
}

fn update(c: u32, b: u8) -> (r: u32)
    ensures
        r == crc_byte(c, b),
{
    let mut x: u32 = c ^ (b as u32);
    let mut k: u32 = 0;
    while k < 8
        invariant
            0 <= k <= 8,
            x == crc_shift_n(c ^ (b as u32), k as nat),
        decreases 8 - k,
    {
        x = shift(x);
        k = k + 1;
    }
    x
}

/// The CRC-32 of `data`, as four bytes, most significant first.
pub fn crc32(data: &[u8]) -> (r: [u8; 4])
    ensures
        r@ == be32(crc32_of(data@)),
{
    let mut reg: u32 = 0xFFFF_FFFF;
    let mut i: usize = 0;
    while i < data.len()
        invariant
            0 <= i <= data@.len(),
            reg == crc_register(data@.subrange(0, i as int)),
        decreases data@.len() - i,
    {
        proof {
            let next = data@.subrange(0, i + 1);
            assert(next.drop_last() =~= data@.subrange(0, i as int));
        }
        reg = update(reg, data[i]);
        i = i + 1;
    }
    assert(data@.subrange(0, data@.len() as int) =~= data@);
    let v = reg ^ 0xFFFF_FFFF;
    let r = [(v >> 24) as u8, (v >> 16) as u8, (v >> 8) as u8, v as u8];
    assert(r@ =~= be32(crc32_of(data@)));
    r
}

proof fn lemma_shift_injective(a: u32, b: u32)
    requires
        crc_shift(a) == crc_shift(b),
    ensures
        a == b,
{
    assert(((if a & 1 == 1 { (a >> 1) ^ 0xEDB8_8320u32 } else { a >> 1 }) == (if b & 1 == 1 {
        (b >> 1) ^ 0xEDB8_8320u32
    } else {
        b >> 1
    })) ==> a == b) by (bit_vector);
}

proof fn lemma_shift_n_injective(a: u32, b: u32, n: nat)
    requires
        crc_shift_n(a, n) == crc_shift_n(b, n),
    ensures
        a == b,
    decreases n,
{
    if n > 0 {
        lemma_shift_injective(crc_shift_n(a, (n - 1) as nat), crc_shift_n(b, (n - 1) as nat));
        lemma_shift_n_injective(a, b, (n - 1) as nat);
    }
}

proof fn lemma_byte_injective(c: u32, d: u32, x: u8, y: u8)
    requires
        crc_byte(c, x) == crc_byte(d, y),
    ensures
        c ^ (x as u32) == d ^ (y as u32),
{
    lemma_shift_n_injective(c ^ (x as u32), d ^ (y as u32), 8);
}

/// Once two registers differ, taking in the same bytes keeps them apart.
proof fn lemma_register_apart(s: Seq<u8>, t: Seq<u8>, k: int)
    requires
        s.len() == t.len(),
        0 <= k <= s.len(),
        crc_register(s.subrange(0, k)) != crc_register(t.subrange(0, k)),
        forall|j: int| k <= j < s.len() ==> s[j] == t[j],
    ensures
        crc_register(s) != crc_register(t),
    decreases s.len() - k,
{
    if k < s.len() {
        let s1 = s.subrange(0, k + 1);
        let t1 = t.subrange(0, k + 1);
        assert(s1.drop_last() =~= s.subrange(0, k));
        assert(t1.drop_last() =~= t.subrange(0, k));
        if crc_register(s1) == crc_register(t1) {
            lemma_byte_injective(
                crc_register(s.subrange(0, k)),
                crc_register(t.subrange(0, k)),
                s[k],
                t[k],
            );
            let c = crc_register(s.subrange(0, k));
            let d = crc_register(t.subrange(0, k));
            let x = s[k];
            assert(c ^ (x as u32) == d ^ (x as u32) ==> c == d) by (bit_vector);
        }
        lemma_register_apart(s, t, k + 1);
    } else {
        assert(s.subrange(0, k) =~= s);
        assert(t.subrange(0, k) =~= t);
    }
}

/// The checksum is a function of the bytes alone: equal inputs give equal
/// checksums.
pub proof fn lemma_crc32_deterministic(s: Seq<u8>, t: Seq<u8>)
    requires
        s == t,
    ensures
        crc32_of(s) == crc32_of(t),
{
}

/// Changing any single byte of the input changes the checksum.
pub proof fn lemma_crc32_single_byte_change(s: Seq<u8>, i: int, b: u8)
    requires
        0 <= i < s.len(),
        s[i] != b,
    ensures
        crc32_of(s.update(i, b)) != crc32_of(s),
{
    let t = s.update(i, b);
    let s1 = s.subrange(0, i + 1);
    let t1 = t.subrange(0, i + 1);
    assert(s1.drop_last() =~= s.subrange(0, i));
    assert(t1.drop_last() =~= t.subrange(0, i));
    assert(s.subrange(0, i) =~= t.subrange(0, i));
    let c = crc_register(s.subrange(0, i));
    if crc_register(s1) == crc_register(t1) {
        lemma_byte_injective(c, c, s[i], b);
        let x = s[i];
        assert(c ^ (x as u32) == c ^ (b as u32) ==> x == b) by (bit_vector);
    }
    lemma_register_apart(s, t, i + 1);
    let p = crc_register(s);
    let q = crc_register(t);
    assert(p != q ==> p ^ 0xFFFF_FFFFu32 != q ^ 0xFFFF_FFFFu32) by (bit_vector);
}

} // verus!
