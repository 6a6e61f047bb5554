use vstd::prelude::*;
use vstd::arithmetic::power2::{pow2, lemma2_to64};

verus! {

/// The `width`-bit field of `word` whose lowest bit is bit `start`, read as an unsigned number.
pub open spec fn bits(word: u32, start: nat, width: nat) -> nat {
    (word as nat / pow2(start)) % pow2(width)
}

/// The two's-complement value of the `width`-bit pattern `v`.
pub open spec fn sign_extend(v: nat, width: nat) -> int {
    if width > 0 && v >= pow2((width - 1) as nat) {
        v - pow2(width)
    } else {
        v as int
    }
}

/// The I-type immediate of a low word: bits 31..20, sign-extended.
pub open spec fn spec_i_imm(lo: u32) -> int {
    sign_extend(bits(lo, 20, 12), 12)
}

/// The S-type immediate of a low word: bits 31..25 above bits 11..7, sign-extended from 12
/// bits.
pub open spec fn spec_s_imm(lo: u32) -> int {
    sign_extend(bits(lo, 25, 7) * 32 + bits(lo, 7, 5), 12)
}

/// The B-type immediate of a low word, sign-extended from 13 bits.
pub open spec fn spec_b_imm(lo: u32) -> int {
    sign_extend(b_imm_bits(lo), 13)
}

/// The J-type immediate of a low word, sign-extended from 21 bits.
pub open spec fn spec_j_imm(lo: u32) -> int {
    sign_extend(j_imm_bits(lo), 21)
}

/// The U-type immediate of a low word: its upper 20 bits, kept in place.
pub open spec fn spec_u_imm(lo: u32) -> int {
    (bits(lo, 12, 20) * 4096) as int
}

/// Every shift-and-mask of a 32-bit word that the decoder performs, as division and remainder.
pub proof fn lemma_shift_mask(x: u32)
    by (bit_vector)
    ensures
        (x >> 7u32) & 0x1f == (x / 0x80) % 0x20,
        (x >> 7u32) & 1 == (x / 0x80) % 2,
        (x >> 8u32) & 0xf == (x / 0x100) % 0x10,
        (x >> 10u32) & 0x7f == (x / 0x400) % 0x80,
        (x >> 12u32) & 0x7 == (x / 0x1000) % 8,
        (x >> 12u32) & 0xff == (x / 0x1000) % 0x100,
        (x >> 12u32) & 0xfffff == (x / 0x1000) % 0x10_0000,
        (x >> 15u32) & 0x1f == (x / 0x8000) % 0x20,
        (x >> 17u32) & 0x1f == (x / 0x2_0000) % 0x20,
        (x >> 20u32) & 0x1f == (x / 0x10_0000) % 0x20,
        (x >> 20u32) & 1 == (x / 0x10_0000) % 2,
        (x >> 21u32) & 0x3ff == (x / 0x20_0000) % 0x400,
        (x >> 22u32) & 0x1f == (x / 0x40_0000) % 0x20,
        (x >> 25u32) & 0x3f == (x / 0x200_0000) % 0x40,
        (x >> 25u32) & 0x7f == (x / 0x200_0000) % 0x80,
        (x >> 27u32) & 0x1f == (x / 0x800_0000) % 0x20,
        (x >> 30u32) & 1 == (x / 0x4000_0000) % 2,
        (x >> 31u32) & 1 == (x / 0x8000_0000) % 2,
        x & 0x7f == x % 0x80,
        x & 0xffff_f000 == (x / 0x1000) * 0x1000,
        (x >> 12u32) & 0xfffff == x / 0x1000,
{
}

/// Sign-extended 12-bit I-type immediate, held in bits 31..20 of the low word.
pub fn i_imm(lo: u32) -> (r: i32)
    ensures
        r == spec_i_imm(lo),
        -2048 <= r < 2048,
{
    let r = (lo as i32) >> 20;
    proof {
        lemma2_to64();
        assert(r == if lo >= 0x8000_0000u32 { ((lo >> 20u32) as int) - 4096 } else { (lo >> 20u32) as int }) by (bit_vector)
            requires r == (lo as i32) >> 20i32;
        assert((lo >> 20u32) == lo / 0x10_0000u32) by (bit_vector);
    }
    r
}

/// Sign-extended 12-bit S-type immediate: bits 31..25 of the low word above bits 11..7.
pub fn s_imm(lo: u32) -> (r: i32)
    ensures
        r == spec_s_imm(lo),
        -2048 <= r < 2048,
{
    let lo5 = ((lo >> 7) & 0x1F) as i32;
    // Arithmetic shift: bits 31..25, sign-extended
    let hi7 = (lo as i32) >> 25;
    proof {
        lemma2_to64();
        lemma_shift_mask(lo);
        assert(hi7 == if lo >= 0x8000_0000u32 { ((lo >> 25u32) as int) - 128 } else {
            (lo >> 25u32) as int
        }) by (bit_vector)
            requires hi7 == (lo as i32) >> 25i32;
        assert((lo >> 25u32) == lo / 0x200_0000u32) by (bit_vector);
    }
    hi7 * 32 + lo5
}

/// The unsigned 13-bit pattern of a B-type immediate: bits 4..1 from bits 11..8, bits 10..5 from
/// bits 30..25, bit 11 from bit 7 and bit 12 from bit 31 of the low word.
pub open spec fn b_imm_bits(lo: u32) -> nat {
    bits(lo, 8, 4) * 2 + bits(lo, 25, 6) * 32 + bits(lo, 7, 1) * 2048 + bits(lo, 31, 1) * 4096
}

/// The unsigned 21-bit pattern of a J-type immediate: bits 10..1 from bits 30..21, bit 11 from
/// bit 20, bits 19..12 from bits 19..12 and bit 20 from bit 31 of the low word.
pub open spec fn j_imm_bits(lo: u32) -> nat {
    bits(lo, 21, 10) * 2 + bits(lo, 20, 1) * 2048 + bits(lo, 12, 8) * 4096 + bits(lo, 31, 1)
        * 0x10_0000
}

/// Sign-extended 13-bit B-type immediate of the low word.
pub fn b_imm(lo: u32) -> (r: i32)
    ensures
        r == spec_b_imm(lo),
        -4096 <= r < 4096,
        r % 2 == 0,
{
    let imm11 = (lo >> 7) & 1;
    let imm4_1 = (lo >> 8) & 0xF;
    let imm10_5 = (lo >> 25) & 0x3F;
    let imm12 = (lo >> 31) & 1;
    let raw = (imm4_1 << 1) | (imm10_5 << 5) | (imm11 << 11) | (imm12 << 12);
    proof {
        assert(imm4_1 < 16 && imm10_5 < 64 && imm11 < 2 && imm12 < 2) by (bit_vector)
            requires
                imm11 == (lo >> 7u32) & 1, imm4_1 == (lo >> 8u32) & 0xf,
                imm10_5 == (lo >> 25u32) & 0x3f, imm12 == (lo >> 31u32) & 1;
        assert(raw == imm4_1 * 2 + imm10_5 * 32 + imm11 * 2048 + imm12 * 4096 && raw == b_imm_bits(lo)) by {
            lemma2_to64();
            lemma_shift_mask(lo);
            assert(raw == imm4_1 * 2 + imm10_5 * 32 + imm11 * 2048 + imm12 * 4096) by (bit_vector)
                requires
                    imm4_1 < 16, imm10_5 < 64, imm11 < 2, imm12 < 2,
                    raw == (imm4_1 << 1u32) | (imm10_5 << 5u32) | (imm11 << 11u32) | (imm12 << 12u32);
        }
        assert(pow2(12) == 4096 && pow2(13) == 8192) by { lemma2_to64(); }
    }
    let imm = raw as i32;
    if imm12 != 0 {
        imm - 0x2000
    } else {
        imm
    }
}

/// Sign-extended 21-bit J-type immediate of the low word.
pub fn j_imm(lo: u32) -> (r: i32)
    ensures
        r == spec_j_imm(lo),
        -0x10_0000 <= r < 0x10_0000,
        r % 2 == 0,
{
    let imm19_12 = (lo >> 12) & 0xFF;
    let imm11 = (lo >> 20) & 1;
    let imm10_1 = (lo >> 21) & 0x3FF;
    let imm20 = (lo >> 31) & 1;
    let raw = (imm10_1 << 1) | (imm11 << 11) | (imm19_12 << 12) | (imm20 << 20);
    proof {
        assert(imm19_12 < 256 && imm11 < 2 && imm10_1 < 1024 && imm20 < 2) by (bit_vector)
            requires
                imm19_12 == (lo >> 12u32) & 0xff, imm11 == (lo >> 20u32) & 1,
                imm10_1 == (lo >> 21u32) & 0x3ff, imm20 == (lo >> 31u32) & 1;
        assert(raw == imm10_1 * 2 + imm11 * 2048 + imm19_12 * 4096 + imm20 * 0x10_0000 && raw == j_imm_bits(lo)) by {
            lemma2_to64();
            lemma_shift_mask(lo);
            assert(raw == imm10_1 * 2 + imm11 * 2048 + imm19_12 * 4096 + imm20 * 0x10_0000) by (bit_vector)
                requires
                    imm10_1 < 1024, imm11 < 2, imm19_12 < 256, imm20 < 2,
                    raw == (imm10_1 << 1u32) | (imm11 << 11u32) | (imm19_12 << 12u32) | (imm20 << 20u32);
        }
        assert(pow2(20) == 0x10_0000 && pow2(21) == 0x20_0000) by { lemma2_to64(); }
    }
    let imm = raw as i32;
    if imm20 != 0 {
        imm - 0x20_0000
    } else {
        imm
    }
}

/// U-type immediate: the upper 20 bits of the low word, kept in place.
pub fn u_imm(lo: u32) -> (r: u32)
    ensures
        r == spec_u_imm(lo),
        r % 4096 == 0,
{
    proof {
        lemma2_to64();
        lemma_shift_mask(lo);
    }
    lo & 0xFFFFF000
}

/// Halving an even number rounds neither way: toward zero it gives the same as toward minus
/// infinity.
pub proof fn lemma_half_of_even(x: int)
    requires
        x % 2 == 0,
    ensures
        -((-x) / 2) == x / 2,
{
    let k = x / 2;
    assert(x == 2 * k);
    assert((-x) / 2 == -k);
}

/// The low 8, 16 and 24 bits of the two's-complement pattern of `x` are `x` modulo 2^8, 2^16
/// and 2^24.
pub proof fn lemma_low_bits(x: i32)
    ensures
        (x as u32) & 0xff == x as int % 0x100,
        (x as u32) & 0xffff == x as int % 0x1_0000,
        (x as u32) & 0xff_ffff == x as int % 0x100_0000,
{
    let u = x as u32;
    assert(u & 0xff == u % 0x100 && u & 0xffff == u % 0x1_0000 && u & 0xff_ffff == u % 0x100_0000)
        by (bit_vector);
    assert(u == if x >= 0 { x as int } else { x + 0x1_0000_0000 }) by (bit_vector)
        requires u == x as u32;
    if x < 0 {
        vstd::arithmetic::div_mod::lemma_mod_multiples_vanish(0x100_0000, x as int, 0x100);
        vstd::arithmetic::div_mod::lemma_mod_multiples_vanish(0x1_0000, x as int, 0x1_0000);
        vstd::arithmetic::div_mod::lemma_mod_multiples_vanish(0x100, x as int, 0x100_0000);
    }
}

/// The 24-bit two's-complement encoding of a signed immediate: `imm` modulo 2^24.
pub fn i12_to_u24(imm: i32) -> (r: u32)
    ensures
        r == imm as int % 0x100_0000,
{
    proof {
        lemma_low_bits(imm);
    }
    (imm as u32) & 0xffffff
}

} // verus!
