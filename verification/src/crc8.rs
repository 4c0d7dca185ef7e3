//! CRC-8 as used by Sensirion sensors.
//!
//! width=8 poly=0x31 init=0xff refin=false refout=false xorout=0x00
//! check=0xf7 residue=0x00 name="CRC-8/NRSC-5"

use vstd::prelude::*;

verus! {

/// Value the CRC register starts from.
pub const INITIAL: u8 = 0xFF;

/// Generator polynomial (x^8 + x^5 + x^4 + 1, the leading term implicit).
pub const XOR: u8 = 0x31;

/// One bit of polynomial division: shift the register left and, when the
/// bit that falls out is set, subtract (xor) the polynomial.
pub open spec fn crc8_bit_step(crc: u8) -> u8 {
    if crc & 0x80 != 0 {
        (crc << 1u8) ^ XOR
    } else {
        crc << 1u8
    }
}

/// `n` bit steps applied to `crc`.
pub open spec fn crc8_bit_steps(crc: u8, n: nat) -> u8
    decreases n,
{
    if n == 0 {
        crc
    } else {
        crc8_bit_step(crc8_bit_steps(crc, (n - 1) as nat))
    }
}

/// The register after feeding one byte into it.
pub open spec fn crc8_byte_step(crc: u8, byte: u8) -> u8 {
    crc8_bit_steps(crc ^ byte, 8)
}

/// The CRC-8 of a byte sequence: the bytes fed one by one, first to last,
/// into a register that starts at `INITIAL`.
pub open spec fn crc8(data: Seq<u8>) -> u8
    decreases data.len(),
{
    if data.len() == 0 {
        INITIAL
    } else {
        crc8_byte_step(crc8(data.drop_last()), data.last())
    }
}

/// Computes a CRC-8 according to NRSC-5
/// width=8 poly=0x31 init=0xff refin=false refout=false xorout=0x00 check=0xf7 residue=0x00 name="CRC-8/NRSC-5"
pub fn compute_crc8(data: &[u8]) -> (crc: u8)
    ensures
        crc == crc8(data@),
{
    let mut crc: u8 = INITIAL;
    let n: usize = data.len();
    for i in 0..n
        invariant
            n == data@.len(),
            crc == crc8(data@.take(i as int)),
    {
        assert(data@.take(i + 1).drop_last() =~= data@.take(i as int));
        let byte: u8 = data[i];
        crc = crc ^ byte;
        let ghost start: u8 = crc;
        let mut bit: u8 = 0;
        while bit < 8
            invariant
                bit <= 8,
                crc == crc8_bit_steps(start, bit as nat),
            decreases 8 - bit,
        {
            if (crc & 0x80) != 0 {
                crc = (crc << 1u8) ^ XOR;
            } else {
                crc = crc << 1u8;
            }
            bit = bit + 1;
        }
    }
    assert(data@.take(n as int) =~= data@);
    crc
}

/// Whether `crc` is the CRC-8 of `data`.
pub fn crc8_matches(data: &[u8], crc: u8) -> (matches: bool)
    ensures
        matches == (crc8(data@) == crc),
{
    compute_crc8(data) == crc
}

/// Feeding one more byte extends the computation by one byte step.
pub proof fn lemma_crc8_push(data: Seq<u8>, byte: u8)
    ensures
        crc8(data.push(byte)) == crc8_byte_step(crc8(data), byte),
{
    assert(data.push(byte).drop_last() =~= data);
}

/// A register holding zero stays zero however many bit steps follow.
proof fn lemma_bit_steps_of_zero(n: nat)
    ensures
        crc8_bit_steps(0, n) == 0,
    decreases n,
{
    if n > 0 {
        lemma_bit_steps_of_zero((n - 1) as nat);
        assert(crc8_bit_step(0) == 0) by (bit_vector);
    }
}

/// Residue law of CRC-8/NRSC-5: a message followed by its own CRC has a
/// CRC of zero, which is how a receiver checks a word and its checksum in
/// one pass.
pub proof fn crc8_residue_is_zero(data: Seq<u8>)
    ensures
        crc8(data.push(crc8(data))) == 0,
{
    lemma_crc8_push(data, crc8(data));
    let c = crc8(data);
    assert(c ^ c == 0) by (bit_vector);
    lemma_bit_steps_of_zero(8);
}

/// A bit step maps different registers to different registers.
proof fn lemma_bit_step_injective(x: u8, y: u8)
    requires
        x != y,
    ensures
        crc8_bit_step(x) != crc8_bit_step(y),
{
    assert(((if x & 0x80 != 0 { (x << 1u8) ^ 0x31u8 } else { x << 1u8 }) != (if y & 0x80
        != 0 {
        (y << 1u8) ^ 0x31u8
    } else {
        y << 1u8
    }))) by (bit_vector)
        requires
            x != y,
    ;
}

/// Different registers stay different through any number of bit steps:
/// a step loses the top bit, but the polynomial's low bit records it.
proof fn lemma_bit_steps_injective(x: u8, y: u8, n: nat)
    requires
        x != y,
    ensures
        crc8_bit_steps(x, n) != crc8_bit_steps(y, n),
    decreases n,
{
    if n > 0 {
        lemma_bit_steps_injective(x, y, (n - 1) as nat);
        let px = crc8_bit_steps(x, (n - 1) as nat);
        let py = crc8_bit_steps(y, (n - 1) as nat);
        lemma_bit_step_injective(px, py);
    }
}

/// Feeding the same byte into two different registers gives different
/// registers.
proof fn lemma_byte_step_injective(x: u8, y: u8, byte: u8)
    requires
        x != y,
    ensures
        crc8_byte_step(x, byte) != crc8_byte_step(y, byte),
{
    assert(x ^ byte != y ^ byte) by (bit_vector)
        requires
            x != y,
    ;
    lemma_bit_steps_injective(x ^ byte, y ^ byte, 8);
}

/// Once the registers of two messages differ after their first `k` bytes,
/// they differ after every longer prefix on which the messages agree.
proof fn lemma_prefixes_keep_differing(a: Seq<u8>, b: Seq<u8>, k: int)
    requires
        a.len() == b.len(),
        0 < k <= a.len(),
        crc8(a.take(k)) != crc8(b.take(k)),
        forall|j: int| k <= j < a.len() ==> a[j] == b[j],
    ensures
        crc8(a) != crc8(b),
    decreases a.len() - k,
{
    if k == a.len() {
        assert(a.take(k) =~= a);
        assert(b.take(k) =~= b);
    } else {
        lemma_crc8_push(a.take(k), a[k]);
        lemma_crc8_push(b.take(k), b[k]);
        assert(a.take(k).push(a[k]) =~= a.take(k + 1));
        assert(b.take(k).push(b[k]) =~= b.take(k + 1));
        lemma_byte_step_injective(crc8(a.take(k)), crc8(b.take(k)), a[k]);
        lemma_prefixes_keep_differing(a, b, k + 1);
    }
}

/// The CRC detects every error confined to one byte: two messages of the
/// same length that differ in exactly one byte have different CRCs.
pub proof fn crc8_detects_single_byte_errors(a: Seq<u8>, b: Seq<u8>, i: int)
    requires
        a.len() == b.len(),
        0 <= i < a.len(),
        a[i] != b[i],
        forall|j: int| 0 <= j < a.len() && j != i ==> a[j] == b[j],
    ensures
        crc8(a) != crc8(b),
{
    assert(a.take(i) =~= b.take(i));
    lemma_crc8_push(a.take(i), a[i]);
    lemma_crc8_push(b.take(i), b[i]);
    assert(a.take(i).push(a[i]) =~= a.take(i + 1));
    assert(b.take(i).push(b[i]) =~= b.take(i + 1));
    let c = crc8(a.take(i));
    let x = a[i];
    let y = b[i];
    assert(c ^ x != c ^ y) by (bit_vector)
        requires
            x != y,
    ;
    lemma_bit_steps_injective(c ^ x, c ^ y, 8);
    lemma_prefixes_keep_differing(a, b, i + 1);
}

/// Multiplication by x^8 modulo the generator x^8 + x^5 + x^4 + 1, written
/// as the linear map it is on the register: the xor of the images of the set
/// bits, bit `k` going to x^(k+8) mod the generator (0x31, 0x62, 0xC4, 0xB9,
/// 0x43, 0x86, 0x3D, 0x7A for k = 0 to 7).
pub open spec fn times_x8_mod_generator(x: u8) -> u8 {
    (if x & 0x01u8 != 0 { 0x31u8 } else { 0u8 }) ^ (if x & 0x02u8 != 0 { 0x62u8 } else { 0u8 })
        ^ (if x & 0x04u8 != 0 { 0xC4u8 } else { 0u8 }) ^ (if x & 0x08u8 != 0 { 0xB9u8 } else {
        0u8
    }) ^ (if x & 0x10u8 != 0 { 0x43u8 } else { 0u8 }) ^ (if x & 0x20u8 != 0 { 0x86u8 } else {
        0u8
    }) ^ (if x & 0x40u8 != 0 { 0x3Du8 } else { 0u8 }) ^ (if x & 0x80u8 != 0 { 0x7Au8 } else {
        0u8
    })
}

/// Eight bit steps, one after the other, are the multiplication by x^8.
proof fn lemma_eight_bit_steps(x0: u8, x1: u8, x2: u8, x3: u8, x4: u8, x5: u8, x6: u8, x7: u8, x8: u8)
    by (bit_vector)
    requires
        x1 == crc8_bit_step(x0),
        x2 == crc8_bit_step(x1),
        x3 == crc8_bit_step(x2),
        x4 == crc8_bit_step(x3),
        x5 == crc8_bit_step(x4),
        x6 == crc8_bit_step(x5),
        x7 == crc8_bit_step(x6),
        x8 == crc8_bit_step(x7),
    ensures
        x8 == times_x8_mod_generator(x0),
{
}

/// The multiplication by x^8 is linear over GF(2).
proof fn lemma_times_x8_is_linear(u: u8, v: u8)
    by (bit_vector)
    ensures
        times_x8_mod_generator(u) ^ times_x8_mod_generator(v) == times_x8_mod_generator(u ^ v),
{
}

/// The byte step is the multiplication by x^8 of the register xor the byte.
proof fn lemma_byte_step_is_times_x8(crc: u8, byte: u8)
    ensures
        crc8_byte_step(crc, byte) == times_x8_mod_generator(crc ^ byte),
{
    let x0 = crc ^ byte;
    let x1 = crc8_bit_steps(x0, 1);
    let x2 = crc8_bit_steps(x0, 2);
    let x3 = crc8_bit_steps(x0, 3);
    let x4 = crc8_bit_steps(x0, 4);
    let x5 = crc8_bit_steps(x0, 5);
    let x6 = crc8_bit_steps(x0, 6);
    let x7 = crc8_bit_steps(x0, 7);
    let x8 = crc8_bit_steps(x0, 8);
    assert(crc8_bit_steps(x0, 0) == x0);
    lemma_eight_bit_steps(x0, x1, x2, x3, x4, x5, x6, x7, x8);
}

/// CRC-8/NRSC-5 as polynomial division: the register starts at 0xFF, and
/// each byte of the message is xor-ed into it, the sum then multiplied by
/// x^8 modulo the generator x^8 + x^5 + x^4 + 1 (0x31).
pub proof fn crc8_is_polynomial_division(data: Seq<u8>, byte: u8)
    ensures
        crc8(Seq::<u8>::empty()) == 0xFF,
        crc8(data.push(byte)) == times_x8_mod_generator(crc8(data) ^ byte),
{
    lemma_crc8_push(data, byte);
    lemma_byte_step_is_times_x8(crc8(data), byte);
}

/// The byte-wise xor of two messages of the same length.
pub open spec fn xor_bytes(a: Seq<u8>, b: Seq<u8>) -> Seq<u8> {
    Seq::new(a.len(), |i: int| a[i] ^ b[i])
}

/// `n` zero bytes.
pub open spec fn zero_bytes(n: nat) -> Seq<u8> {
    Seq::new(n, |i: int| 0u8)
}

/// Rearranging the four xor-ed registers of the linearity step.
proof fn lemma_xor_rearrange(ca: u8, cb: u8, cx: u8, cz: u8, x: u8, y: u8)
    by (bit_vector)
    requires
        ca ^ cb == cx ^ cz,
    ensures
        (ca ^ x) ^ (cb ^ y) == (cx ^ (x ^ y)) ^ (cz ^ 0u8),
{
}

/// The CRC is affine: for messages of the same length, the CRCs of two
/// messages xor-ed together equal the CRC of their byte-wise xor xor-ed with
/// the CRC of as many zero bytes.
pub proof fn crc8_is_affine(a: Seq<u8>, b: Seq<u8>)
    requires
        a.len() == b.len(),
    ensures
        crc8(a) ^ crc8(b) == crc8(xor_bytes(a, b)) ^ crc8(zero_bytes(a.len())),
    decreases a.len(),
{
    let n = a.len();
    if n == 0 {
        assert(xor_bytes(a, b) =~= Seq::<u8>::empty());
        assert(zero_bytes(0) =~= Seq::<u8>::empty());
        assert(a =~= Seq::<u8>::empty());
        assert(b =~= Seq::<u8>::empty());
        let c = crc8(a);
        assert(c ^ c == 0u8) by (bit_vector);
    } else {
        let a0 = a.drop_last();
        let b0 = b.drop_last();
        let x = a.last();
        let y = b.last();
        crc8_is_affine(a0, b0);
        assert(a0.push(x) =~= a);
        assert(b0.push(y) =~= b);
        assert(xor_bytes(a0, b0).push(x ^ y) =~= xor_bytes(a, b));
        assert(zero_bytes((n - 1) as nat).push(0u8) =~= zero_bytes(n));
        crc8_is_polynomial_division(a0, x);
        crc8_is_polynomial_division(b0, y);
        crc8_is_polynomial_division(xor_bytes(a0, b0), x ^ y);
        crc8_is_polynomial_division(zero_bytes((n - 1) as nat), 0u8);
        let ca = crc8(a0);
        let cb = crc8(b0);
        let cx = crc8(xor_bytes(a0, b0));
        let cz = crc8(zero_bytes((n - 1) as nat));
        lemma_xor_rearrange(ca, cb, cx, cz, x, y);
        lemma_times_x8_is_linear(ca ^ x, cb ^ y);
        lemma_times_x8_is_linear(cx ^ (x ^ y), cz ^ 0u8);
    }
}

} // verus!
