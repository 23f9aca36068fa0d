//! Bit fields of a 32-bit instruction word, and sign extension.

use vstd::prelude::*;

verus! {

/// Bits 6..=0 of `word`: the primary operation family.
pub open spec fn opcode_of(word: u32) -> u32 {
    word & 0x7f
}

/// Bits 11..=7 of `word`: the destination register index.
pub open spec fn rd_of(word: u32) -> u32 {
    (word >> 7) & 0x1f
}

/// Bits 14..=12 of `word`: the function-select field.
pub open spec fn funct3_of(word: u32) -> u32 {
    (word >> 12) & 0x7
}

/// Bits 19..=15 of `word`: the first source register index.
pub open spec fn rs1_of(word: u32) -> u32 {
    (word >> 15) & 0x1f
}

/// Bits 24..=20 of `word`: the second source register index.
pub open spec fn rs2_of(word: u32) -> u32 {
    (word >> 20) & 0x1f
}

/// Bits 31..=20 of `word`: the raw 12-bit immediate field.
pub open spec fn imm12_of(word: u32) -> u32 {
    (word >> 20) & 0xfff
}

/// Whether bit `bit - 1` of `x` is set, that is the sign bit of a field that
/// is `bit` bits wide.
pub open spec fn sign_bit_set(x: u32, bit: u32) -> bool {
    (x >> ((bit - 1) as u32)) & 1 == 1
}

/// `x`, read as a field `bit` bits wide, widened to 32 bits: every bit from
/// position `bit` upwards is set when the field's sign bit is set, and `x` is
/// left as it is otherwise.
pub open spec fn sign_extend_spec(x: u32, bit: u32) -> u32 {
    if sign_bit_set(x, bit) {
        (0xffff_ffffu32 << bit) | x
    } else {
        x
    }
}

/// The fields of an instruction word are bounded by their widths.
pub proof fn lemma_field_bounds(word: u32)
    ensures
        opcode_of(word) < 128,
        rd_of(word) < 32,
        funct3_of(word) < 8,
        rs1_of(word) < 32,
        rs2_of(word) < 32,
        imm12_of(word) < 0x1000,
{
    assert(word & 0x7f < 128) by (bit_vector);
    assert((word >> 7) & 0x1f < 32) by (bit_vector);
    assert((word >> 12) & 0x7 < 8) by (bit_vector);
    assert((word >> 15) & 0x1f < 32) by (bit_vector);
    assert((word >> 20) & 0x1f < 32) by (bit_vector);
    assert((word >> 20) & 0xfff < 0x1000) by (bit_vector);
}

/// Sign extension never disturbs the low `bit` bits of the field.
pub proof fn lemma_sign_extend_keeps_field(x: u32, bit: u32)
    requires
        1 <= bit < 32,
    ensures
        sign_extend_spec(x, bit) & (((1u32 << bit) - 1) as u32) == x & (((1u32 << bit) - 1) as u32),
{
    assert(1 <= bit < 32 ==> ((0xffff_ffffu32 << bit) | x) & (((1u32 << bit) - 1) as u32) == x & (((
    1u32 << bit) - 1) as u32)) by (bit_vector);
}

/// Sign extension computes the two's-complement value of the field: a field
/// below `2^(bit-1)` is unchanged, and a field `x` at or above it becomes the
/// 32-bit word that stands for `x - 2^bit`.
pub proof fn lemma_sign_extend_value(x: u32, bit: u32)
    requires
        1 <= bit < 32,
        x < (1u32 << bit),
    ensures
        x < (1u32 << ((bit - 1) as u32)) ==> sign_extend_spec(x, bit) == x,
        x >= (1u32 << ((bit - 1) as u32)) ==> sign_extend_spec(x, bit) as int == x
            + 0x1_0000_0000 - (1u32 << bit),
{
    assert(1 <= bit < 32 && x < (1u32 << bit) ==> (x < (1u32 << ((bit - 1) as u32)) <==> !((x >> ((
    bit - 1) as u32)) & 1 == 1))) by (bit_vector);
    assert(1 <= bit < 32 && x < (1u32 << bit) ==> ((0xffff_ffffu32 << bit) | x) as int == x
        + 0x1_0000_0000 - (1u32 << bit)) by (bit_vector);
}

/// Sign extension of the 12-bit immediate field, the width that the
/// instruction set uses: fields up to `0x7ff` are unchanged, and a field `x`
/// from `0x800` on becomes `x + 0xffff_f000`, the word that stands for
/// `x - 4096`.
pub proof fn lemma_sign_extend_imm12(x: u32)
    requires
        x < 0x1000,
    ensures
        x < 0x800 ==> sign_extend_spec(x, 12) == x,
        x >= 0x800 ==> sign_extend_spec(x, 12) == x + 0xffff_f000,
        sign_extend_spec(0x7ff, 12) == 0x0000_07ff,
        sign_extend_spec(0x800, 12) == 0xffff_f800,
{
    assert(x < 0x1000 ==> (x < 0x800 <==> !((x >> 11) & 1 == 1))) by (bit_vector);
    assert(x < 0x1000 && x >= 0x800 ==> ((0xffff_ffffu32 << 12) | x) == x + 0xffff_f000)
        by (bit_vector);
    assert(!((0x7ffu32 >> 11) & 1 == 1)) by (bit_vector);
    assert((0x800u32 >> 11) & 1 == 1) by (bit_vector);
    assert((0xffff_ffffu32 << 12) | 0x800u32 == 0xffff_f800u32) by (bit_vector);
}

/// Extracts the operation family of `word`.
pub fn opcode(word: u32) -> (r: u32)
    ensures
        r == opcode_of(word),
        r < 128,
{
    proof {
        lemma_field_bounds(word);
    }
    word & 0x7f
}

/// Extracts the destination register index of `word`.
pub fn rd(word: u32) -> (r: u32)
    ensures
        r == rd_of(word),
        r < 32,
{
    proof {
        lemma_field_bounds(word);
    }
    (word >> 7) & 0x1f
}

/// Extracts the function-select field of `word`.
pub fn funct3(word: u32) -> (r: u32)
    ensures
        r == funct3_of(word),
        r < 8,
{
    proof {
        lemma_field_bounds(word);
    }
    (word >> 12) & 0x7
}

/// Extracts the first source register index of `word`.
pub fn rs1(word: u32) -> (r: u32)
    ensures
        r == rs1_of(word),
        r < 32,
{
    proof {
        lemma_field_bounds(word);
    }
    (word >> 15) & 0x1f
}

/// Extracts the second source register index of `word`.
pub fn rs2(word: u32) -> (r: u32)
    ensures
        r == rs2_of(word),
        r < 32,
{
    proof {
        lemma_field_bounds(word);
    }
    (word >> 20) & 0x1f
}

/// Extracts the raw 12-bit immediate field of `word`.
pub fn imm12(word: u32) -> (r: u32)
    ensures
        r == imm12_of(word),
        r < 0x1000,
{
    proof {
        lemma_field_bounds(word);
    }
    (word >> 20) & 0xfff
}

/// Widens the `bit`-wide field `x` to 32 bits by copying its sign bit into
/// every higher position. Where `x` fits the field, the result is `x` itself
/// for a field below `2^(bit-1)`, and the word that stands for `x - 2^bit`
/// otherwise.
pub fn sign_extend(x: u32, bit: u32) -> (r: u32)
    requires
        1 <= bit < 32,
    ensures
        r == sign_extend_spec(x, bit),
        x < (1u32 << bit) && x < (1u32 << ((bit - 1) as u32)) ==> r == x,
        x < (1u32 << bit) && x >= (1u32 << ((bit - 1) as u32)) ==> r as int == x + 0x1_0000_0000
            - (1u32 << bit),
{
    proof {
        if x < (1u32 << bit) {
            lemma_sign_extend_value(x, bit);
        }
    }
    if (x >> (bit - 1)) & 1 == 1 {
        (0xffff_ffffu32 << bit) | x
    } else {
        x
    }
}

} // verus!
