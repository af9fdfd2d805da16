use vstd::prelude::*;
use crate::flags::{Flags, has_bit, with_bit, FLAG_CF, FLAG_PF, FLAG_AF, FLAG_ZF, FLAG_SF, FLAG_OF};
use crate::value::Value;

verus! {

#[derive(Clone, Copy, Debug, PartialEq, Eq, Structural)]
pub enum BinaryOp {
    Add,
    Adc,
    Sub,
    Sbb,
    And,
    Or,
    Xor,
}

#[derive(Clone, Copy, Debug, PartialEq, Eq, Structural)]
pub enum MultiplyOp {
    Unsigned,
    Signed,
}

#[derive(Clone, Copy, Debug, PartialEq, Eq, Structural)]
pub enum DivideOp {
    Unsigned,
    Signed,
}

#[derive(Clone, Copy, Debug, PartialEq, Eq, Structural)]
pub enum UnaryOp {
    Neg,
    Inc,
    Dec,
    Not,
}

#[derive(Clone, Copy, Debug, PartialEq, Eq, Structural)]
pub enum ShiftOp {
    Shl,
    Shr,
    Sar,
    Rol,
}

// ---------------------------------------------------------------------------
// Mathematical model
// ---------------------------------------------------------------------------

/// `2^w` for the operand widths 8 and 16.
pub open spec fn modulus(w: nat) -> int {
    if w == 8 {
        0x100
    } else {
        0x10000
    }
}

/// `2^(w-1)`: the weight of the sign bit.
pub open spec fn half(w: nat) -> int {
    if w == 8 {
        0x80
    } else {
        0x8000
    }
}

/// The two's-complement value of the `w`-bit pattern `x`.
pub open spec fn signed(x: int, w: nat) -> int {
    if x >= half(w) {
        x - modulus(w)
    } else {
        x
    }
}

/// The number of one bits among the low `n` bits of `x`.
pub open spec fn popcount(x: nat, n: nat) -> nat
    decreases n,
{
    if n == 0 {
        0
    } else {
        (x % 2) + popcount(x / 2, (n - 1) as nat)
    }
}

/// The parity flag: the low byte of `r` holds an even number of one bits.
pub open spec fn parity_even(r: int) -> bool {
    popcount((r % 0x100) as nat, 8) % 2 == 0
}

/// The width in bits of a byte or word operand.
pub open spec fn width(v: Value) -> nat {
    match v {
        Value::U8(_) => 8,
        Value::U16(_) => 16,
        Value::U32(_) => 32,
    }
}

/// The unsigned number an operand holds.
pub open spec fn raw(v: Value) -> int {
    match v {
        Value::U8(x) => x as int,
        Value::U16(x) => x as int,
        Value::U32(x) => x as int,
    }
}

/// Whether an operand is a byte or a word.
pub open spec fn byte_or_word(v: Value) -> bool {
    v is U8 || v is U16
}

/// Two operands of the same width, byte or word.
pub open spec fn same_width(a: Value, b: Value) -> bool {
    (a is U8 && b is U8) || (a is U16 && b is U16)
}

/// The operand of width `w` holding `x`.
pub open spec fn pack(w: nat, x: int) -> Value {
    if w == 8 {
        Value::U8(x as u8)
    } else {
        Value::U16(x as u16)
    }
}

/// The carry flag as a number.
pub open spec fn carry_in(f: u16) -> int {
    if has_bit(f, FLAG_CF) {
        1
    } else {
        0
    }
}

/// `a + b + c` reduced to `w` bits.
pub open spec fn add_result(w: nat, a: int, b: int, c: int) -> int {
    (a + b + c) % modulus(w)
}

/// `a - b - c` reduced to `w` bits.
pub open spec fn sub_result(w: nat, a: int, b: int, c: int) -> int {
    (a - b - c) % modulus(w)
}

/// FLAGS after an addition `a + b + c` of width `w`; CF is only written when
/// `update_cf` holds.
pub open spec fn add_flags(f: u16, w: nat, a: int, b: int, c: int, update_cf: bool) -> u16 {
    let r = add_result(w, a, b, c);
    let f1 = if update_cf {
        with_bit(f, FLAG_CF, a + b + c >= modulus(w))
    } else {
        f
    };
    let f2 = with_bit(f1, FLAG_ZF, r == 0);
    let f3 = with_bit(f2, FLAG_SF, r >= half(w));
    let f4 = with_bit(f3, FLAG_PF, parity_even(r));
    let f5 = with_bit(f4, FLAG_AF, a % 16 + b % 16 + c >= 16);
    with_bit(f5, FLAG_OF, signed(a, w) + signed(b, w) + c != signed(r, w))
}

/// FLAGS after a subtraction `a - b - c` of width `w`; CF is only written
/// when `update_cf` holds.
pub open spec fn sub_flags(f: u16, w: nat, a: int, b: int, c: int, update_cf: bool) -> u16 {
    let r = sub_result(w, a, b, c);
    let f1 = if update_cf {
        with_bit(f, FLAG_CF, a < b + c)
    } else {
        f
    };
    let f2 = with_bit(f1, FLAG_ZF, r == 0);
    let f3 = with_bit(f2, FLAG_SF, r >= half(w));
    let f4 = with_bit(f3, FLAG_PF, parity_even(r));
    let f5 = with_bit(f4, FLAG_AF, a % 16 < b % 16 + c);
    with_bit(f5, FLAG_OF, signed(a, w) - signed(b, w) - c != signed(r, w))
}

/// FLAGS after a logical operation with result `r`: CF and OF cleared, AF
/// untouched.
pub open spec fn logic_flags(f: u16, w: nat, r: int) -> u16 {
    let f1 = with_bit(f, FLAG_CF, false);
    let f2 = with_bit(f1, FLAG_ZF, r == 0);
    let f3 = with_bit(f2, FLAG_SF, r >= half(w));
    let f4 = with_bit(f3, FLAG_OF, false);
    with_bit(f4, FLAG_PF, parity_even(r))
}

// ---------------------------------------------------------------------------
// Bit-level facts
// ---------------------------------------------------------------------------

proof fn lemma_popcount_step(x: u32, k: nat)
    requires
        k > 0,
    ensures
        popcount(x as nat, k) == (x & 1) + popcount((x >> 1u32) as nat, (k - 1) as nat),
{
    assert((x & 1) == x % 2 && (x >> 1u32) == x / 2) by (bit_vector);
}

/// The number of one bits of `x`.
fn count_ones_u32(x: u32) -> (r: u32)
    ensures
        r == popcount(x as nat, 32),
{
    let mut v = x;
    let mut c: u32 = 0;
    let mut i: u32 = 0;
    while i < 32
        invariant
            i <= 32,
            c <= i,
            c + popcount(v as nat, (32 - i) as nat) == popcount(x as nat, 32),
        decreases 32 - i,
    {
        proof {
            lemma_popcount_step(v, (32 - i) as nat);
        }
        assert((v & 1) <= 1) by (bit_vector);
        c = c + (v & 1);
        v = v >> 1u32;
        i = i + 1;
    }
    c
}

proof fn lemma_popcount_low_byte(x: nat)
    requires
        x < 0x100,
    ensures
        popcount(x, 32) == popcount(x, 8),
{
    reveal_with_fuel(popcount, 9);
    assert(x / 2 / 2 / 2 / 2 / 2 / 2 / 2 / 2 == 0);
    lemma_popcount_zero(0, 24);
    assert(popcount(x, 32) == popcount(x, 8) + popcount(x / 2 / 2 / 2 / 2 / 2 / 2 / 2 / 2, 24));
}

proof fn lemma_popcount_zero(x: nat, n: nat)
    requires
        x == 0,
    ensures
        popcount(x, n) == 0,
    decreases n,
{
    if n > 0 {
        lemma_popcount_zero(x / 2, (n - 1) as nat);
    }
}

/// The parity flag of a result: its low byte has an even number of one bits.
fn flag_generic_pf(r: u16) -> (b: bool)
    ensures
        b == parity_even(r as int),
{
    let low = (r & 0xff) as u32;
    assert((r & 0xff) == r % 0x100) by (bit_vector);
    let n = count_ones_u32(low);
    proof {
        lemma_popcount_low_byte(low as nat);
    }
    n % 2 == 0
}

fn flag_generic_sf(r: u16, sign_mask: u16) -> (b: bool)
    ensures
        b == has_bit(r, sign_mask),
{
    (r & sign_mask) != 0
}

fn flag_generic_zf(r: u16, value_mask: u16) -> (b: bool)
    ensures
        b == (r & value_mask == 0),
{
    (r & value_mask) == 0
}

/// Byte and word widths: the masks of the sign bit and of the value bits.
pub open spec fn masks_of(w: nat, sign_mask: u16, value_mask: u16) -> bool {
    (w == 8 && sign_mask == 0x80 && value_mask == 0xff) || (w == 16 && sign_mask == 0x8000
        && value_mask == 0xffff)
}

proof fn lemma_result_bits(w: nat, r: u16, x: int, sign_mask: u16, value_mask: u16)
    requires
        masks_of(w, sign_mask, value_mask),
        0 <= x,
        r as int % modulus(w) == x % modulus(w),
    ensures
        (r & value_mask == 0) == (x % modulus(w) == 0),
        has_bit(r, sign_mask) == (x % modulus(w) >= half(w)),
        parity_even(r as int) == parity_even(x % modulus(w)),
{
    if w == 8 {
        assert((r & 0xff) == r % 0x100 && ((r & 0x80) != 0) == (r % 0x100 >= 0x80)) by (bit_vector);
    } else {
        assert(((r & 0x8000) != 0) == (r >= 0x8000) && (r & 0xffff) == r) by (bit_vector);
        assert(r as int % 0x10000 == r);
        assert(r as int % 0x100 == (x % 0x10000) % 0x100) by {
            vstd::arithmetic::div_mod::lemma_mod_mod(x, 0x100, 0x100);
        }
    }
}

proof fn lemma_low_nibble(a: u16)
    ensures
        (a & 0x0f) == a % 16,
{
    assert((a & 0x0f) == a % 16) by (bit_vector);
}

/// Sign-overflow of a sum: the operands agree in sign and the result does not.
proof fn lemma_add_overflow(w: nat, a: int, b: int, c: int)
    requires
        w == 8 || w == 16,
        0 <= a < modulus(w),
        0 <= b < modulus(w),
        0 <= c <= 1,
    ensures
        (signed(a, w) + signed(b, w) + c != signed(add_result(w, a, b, c), w)) == ((a >= half(w))
            == (b >= half(w)) && (add_result(w, a, b, c) >= half(w)) != (a >= half(w))),
{
    let m = modulus(w);
    let s = a + b + c;
    assert(0 <= s < 2 * m);
    if s >= m {
        assert(add_result(w, a, b, c) == s - m);
    } else {
        assert(add_result(w, a, b, c) == s);
    }
}

/// Sign-overflow of a difference: the operands differ in sign and the
/// result's sign differs from the minuend's.
proof fn lemma_sub_overflow(w: nat, a: int, b: int, c: int)
    requires
        w == 8 || w == 16,
        0 <= a < modulus(w),
        0 <= b < modulus(w),
        0 <= c <= 1,
    ensures
        (signed(a, w) - signed(b, w) - c != signed(sub_result(w, a, b, c), w)) == ((a >= half(w))
            != (b >= half(w)) && (sub_result(w, a, b, c) >= half(w)) != (a >= half(w))),
{
    let m = modulus(w);
    let s = a - b - c;
    assert(-m <= s < m);
    if s < 0 {
        assert(sub_result(w, a, b, c) == s + m);
    } else {
        assert(sub_result(w, a, b, c) == s);
    }
}

fn update_flags_add(
    f: &mut Flags,
    a: u16,
    b: u16,
    carry_in: u16,
    r32: u32,
    sign_mask: u16,
    value_mask: u16,
    update_cf: bool,
)
    requires
        masks_of(8, sign_mask, value_mask) || masks_of(16, sign_mask, value_mask),
        a <= value_mask,
        b <= value_mask,
        carry_in <= 1,
        r32 == a + b + carry_in,
    ensures
        final(f).0 == add_flags(
            old(f).0,
            if sign_mask == 0x80 { 8 } else { 16 },
            a as int,
            b as int,
            carry_in as int,
            update_cf,
        ),
{
    let ghost w: nat = if sign_mask == 0x80 { 8 } else { 16 };
    let r = r32 as u16;
    let cf = ((r32 >> 1u32) & (sign_mask as u32)) != 0;
    proof {
        let x = add_result(w, a as int, b as int, carry_in as int);
        if w == 8 {
            assert(r as int % 0x100 == r32 as int % 0x100 && (((r32 >> 1u32) & 0x80) != 0) == (
            r32 >= 0x100) && (((a ^ r) & (b ^ r) & 0x80) != 0) == ((a >= 0x80) == (b >= 0x80) && (
            r32 % 0x100 >= 0x80) != (a >= 0x80))) by (bit_vector)
                requires r == r32 as u16, r32 < 0x200, a < 0x100, b < 0x100;
        } else {
            assert(r as int % 0x10000 == r32 as int % 0x10000 && (((r32 >> 1u32) & 0x8000) != 0)
                == (r32 >= 0x10000) && (((a ^ r) & (b ^ r) & 0x8000) != 0) == ((a >= 0x8000) == (b
                >= 0x8000) && (r32 % 0x10000 >= 0x8000) != (a >= 0x8000))) by (bit_vector)
                requires r == r32 as u16, r32 < 0x20000;
        }
        lemma_result_bits(w, r, r32 as int, sign_mask, value_mask);
        lemma_add_overflow(w, a as int, b as int, carry_in as int);
        lemma_low_nibble(a);
        lemma_low_nibble(b);
    }
    if update_cf {
        f.set(FLAG_CF, cf);
    }
    f.set(FLAG_ZF, flag_generic_zf(r, value_mask));
    f.set(FLAG_SF, flag_generic_sf(r, sign_mask));
    f.set(FLAG_PF, flag_generic_pf(r));
    f.set(FLAG_AF, (a & 0x0F) + (b & 0x0F) + carry_in > 0x0F);
    f.set(FLAG_OF, ((a ^ r) & (b ^ r) & sign_mask) != 0);
}

fn update_flags_sub(
    f: &mut Flags,
    a: u16,
    b: u16,
    carry_in: u16,
    r: u16,
    sign_mask: u16,
    value_mask: u16,
    update_cf: bool,
)
    requires
        masks_of(8, sign_mask, value_mask) || masks_of(16, sign_mask, value_mask),
        a <= value_mask,
        b <= value_mask,
        carry_in <= 1,
        r as int % 0x10000 == (a - b - carry_in) % 0x10000,
    ensures
        final(f).0 == sub_flags(
            old(f).0,
            if sign_mask == 0x80 { 8 } else { 16 },
            a as int,
            b as int,
            carry_in as int,
            update_cf,
        ),
{
    let ghost w: nat = if sign_mask == 0x80 { 8 } else { 16 };
    let cf = (a as u32) < (b as u32) + (carry_in as u32);
    proof {
        let d = a - b - carry_in;
        assert(r as int % modulus(w) == d % modulus(w)) by {
            if w == 8 {
                vstd::arithmetic::div_mod::lemma_mod_mod(d, 0x100, 0x100);
                vstd::arithmetic::div_mod::lemma_mod_mod(r as int, 0x100, 0x100);
            }
        }
        let dn = d + 2 * modulus(w);
        assert(dn % modulus(w) == d % modulus(w)) by {
            vstd::arithmetic::div_mod::lemma_mod_add_multiples_vanish(d, modulus(w));
            vstd::arithmetic::div_mod::lemma_mod_add_multiples_vanish(d + modulus(w), modulus(w));
        }
        lemma_result_bits(w, r, dn, sign_mask, value_mask);
        lemma_sub_overflow(w, a as int, b as int, carry_in as int);
        let x = sub_result(w, a as int, b as int, carry_in as int);
        if w == 8 {
            assert(r as int % 0x100 == x);
            assert((((a ^ b) & (a ^ r) & 0x80) != 0) == ((a >= 0x80) != (b >= 0x80) && (r % 0x100
                >= 0x80) != (a >= 0x80))) by (bit_vector)
                requires a < 0x100, b < 0x100;
        } else {
            assert(r as int == x);
            assert((((a ^ b) & (a ^ r) & 0x8000) != 0) == ((a >= 0x8000) != (b >= 0x8000) && (r
                >= 0x8000) != (a >= 0x8000))) by (bit_vector);
        }
        lemma_low_nibble(a);
        lemma_low_nibble(b);
    }
    if update_cf {
        f.set(FLAG_CF, cf);
    }
    f.set(FLAG_ZF, flag_generic_zf(r, value_mask));
    f.set(FLAG_SF, flag_generic_sf(r, sign_mask));
    f.set(FLAG_PF, flag_generic_pf(r));
    f.set(FLAG_AF, ((a as u32) & 0x0F) < ((b as u32) & 0x0F) + (carry_in as u32));
    f.set(FLAG_OF, ((a ^ b) & (a ^ r) & sign_mask) != 0);
}

fn update_flags_bitwise(f: &mut Flags, r: u16, sign_mask: u16, value_mask: u16)
    requires
        masks_of(8, sign_mask, value_mask) || masks_of(16, sign_mask, value_mask),
        r <= value_mask,
    ensures
        final(f).0 == logic_flags(old(f).0, if sign_mask == 0x80 { 8 } else { 16 }, r as int),
{
    let ghost w: nat = if sign_mask == 0x80 { 8 } else { 16 };
    proof {
        lemma_result_bits(w, r, r as int, sign_mask, value_mask);
    }
    f.set(FLAG_CF, false);
    f.set(FLAG_ZF, flag_generic_zf(r, value_mask));
    f.set(FLAG_SF, flag_generic_sf(r, sign_mask));
    f.set(FLAG_OF, false);
    f.set(FLAG_PF, flag_generic_pf(r));
}


/// The value a binary operation computes on `w`-bit operands.
pub open spec fn binary_result(op: BinaryOp, w: nat, a: u16, b: u16, f: u16) -> int {
    match op {
        BinaryOp::Add => add_result(w, a as int, b as int, 0),
        BinaryOp::Adc => add_result(w, a as int, b as int, carry_in(f)),
        BinaryOp::Sub => sub_result(w, a as int, b as int, 0),
        BinaryOp::Sbb => sub_result(w, a as int, b as int, carry_in(f)),
        BinaryOp::And => (a & b) as int,
        BinaryOp::Or => (a | b) as int,
        BinaryOp::Xor => (a ^ b) as int,
    }
}

/// FLAGS after a binary operation on `w`-bit operands.
pub open spec fn binary_flags(op: BinaryOp, w: nat, a: u16, b: u16, f: u16) -> u16 {
    match op {
        BinaryOp::Add => add_flags(f, w, a as int, b as int, 0, true),
        BinaryOp::Adc => add_flags(f, w, a as int, b as int, carry_in(f), true),
        BinaryOp::Sub => sub_flags(f, w, a as int, b as int, 0, true),
        BinaryOp::Sbb => sub_flags(f, w, a as int, b as int, carry_in(f), true),
        _ => logic_flags(f, w, binary_result(op, w, a, b, f)),
    }
}

/// The operand's bits as a word.
pub open spec fn raw16(v: Value) -> u16 {
    match v {
        Value::U8(x) => x as u16,
        Value::U16(x) => x,
        Value::U32(x) => x as u16,
    }
}

proof fn lemma_pack_u8(r: u16, x: int)
    requires
        r as int % 0x100 == x,
    ensures
        r as u8 == x as u8,
        0 <= x < 0x100,
{
    assert((r as u8) as int == r as int % 0x100) by (bit_vector);
}

proof fn lemma_logic_bounds(a: u16, b: u16, m: u16)
    requires
        m == 0xff || m == 0xffff,
        a <= m,
        b <= m,
    ensures
        a & b <= m,
        a | b <= m,
        a ^ b <= m,
{
    assert(a & b <= m && a | b <= m && a ^ b <= m) by (bit_vector)
        requires m == 0xff || m == 0xffff, a <= m, b <= m;
}

/// `a + b + carry_in` in `w` bits, with FLAGS updated for the addition.
fn alu_add(
    f: &mut Flags,
    a: u16,
    b: u16,
    carry_in: u16,
    sign_mask: u16,
    value_mask: u16,
    update_cf: bool,
) -> (r: u16)
    requires
        masks_of(8, sign_mask, value_mask) || masks_of(16, sign_mask, value_mask),
        a <= value_mask,
        b <= value_mask,
        carry_in <= 1,
    ensures
        r as int % modulus(if sign_mask == 0x80 { 8 } else { 16 }) == add_result(
            if sign_mask == 0x80 { 8 } else { 16 },
            a as int,
            b as int,
            carry_in as int,
        ),
        final(f).0 == add_flags(
            old(f).0,
            if sign_mask == 0x80 { 8 } else { 16 },
            a as int,
            b as int,
            carry_in as int,
            update_cf,
        ),
{
    let ghost w: nat = if sign_mask == 0x80 { 8 } else { 16 };
    let r32 = (a as u32) + (b as u32) + (carry_in as u32);
    let r = r32 as u16;
    update_flags_add(f, a, b, carry_in, r32, sign_mask, value_mask, update_cf);
    proof {
        lemma_trunc16(r32);
        if w == 8 {
            vstd::arithmetic::div_mod::lemma_mod_mod(r32 as int, 0x100, 0x100);
        }
    }
    r
}

/// `a - b - carry_in` in `w` bits, with FLAGS updated for the subtraction.
fn alu_sub(
    f: &mut Flags,
    a: u16,
    b: u16,
    carry_in: u16,
    sign_mask: u16,
    value_mask: u16,
    update_cf: bool,
) -> (r: u16)
    requires
        masks_of(8, sign_mask, value_mask) || masks_of(16, sign_mask, value_mask),
        a <= value_mask,
        b <= value_mask,
        carry_in <= 1,
    ensures
        r as int % modulus(if sign_mask == 0x80 { 8 } else { 16 }) == sub_result(
            if sign_mask == 0x80 { 8 } else { 16 },
            a as int,
            b as int,
            carry_in as int,
        ),
        final(f).0 == sub_flags(
            old(f).0,
            if sign_mask == 0x80 { 8 } else { 16 },
            a as int,
            b as int,
            carry_in as int,
            update_cf,
        ),
{
    let ghost w: nat = if sign_mask == 0x80 { 8 } else { 16 };
    let r = a.wrapping_sub(b).wrapping_sub(carry_in);
    update_flags_sub(f, a, b, carry_in, r, sign_mask, value_mask, update_cf);
    proof {
        lemma_wrapped_mod(w, r as int, a - b - carry_in);
    }
    r
}

/// A logical operation's result, with FLAGS updated for it.
fn alu_logic(f: &mut Flags, op: BinaryOp, a: u16, b: u16, sign_mask: u16, value_mask: u16) -> (r: u16)
    requires
        masks_of(8, sign_mask, value_mask) || masks_of(16, sign_mask, value_mask),
        a <= value_mask,
        b <= value_mask,
        op is And || op is Or || op is Xor,
    ensures
        r as int == binary_result(op, if sign_mask == 0x80 { 8 } else { 16 }, a, b, old(f).0),
        r <= value_mask,
        final(f).0 == logic_flags(old(f).0, if sign_mask == 0x80 { 8 } else { 16 }, r as int),
{
    proof {
        lemma_logic_bounds(a, b, value_mask);
    }
    let r = match op {
        BinaryOp::And => a & b,
        BinaryOp::Or => a | b,
        _ => a ^ b,
    };
    update_flags_bitwise(f, r, sign_mask, value_mask);
    r
}

/// Adds, subtracts or combines two operands of the same width, updating
/// FLAGS as the 80286 does.
pub fn binary(op: BinaryOp, a: Value, b: Value, f: Flags) -> (res: (Value, Flags))
    requires
        same_width(a, b),
    ensures
        res.0 == pack(width(a), binary_result(op, width(a), raw16(a), raw16(b), f.0)),
        res.1.0 == binary_flags(op, width(a), raw16(a), raw16(b), f.0),
{
    let mut f = f;
    let ghost f0 = f.0;
    let (size, sign_mask, value_mask, a, b): (u8, u16, u16, u16, u16) = match (a, b) {
        (Value::U8(a), Value::U8(b)) => (1, 0x80, 0xff, a as u16, b as u16),
        (Value::U16(a), Value::U16(b)) => (2, 0x8000, 0xffff, a, b),
        _ => {
            proof {
                assert(false);
            }
            (2, 0x8000, 0xffff, 0, 0)
        },
    };
    let ghost w: nat = if size == 1 { 8 } else { 16 };
    let carry: u16 = if f.get(FLAG_CF) {
        1
    } else {
        0
    };
    let result: u16 = match op {
        BinaryOp::Add => alu_add(&mut f, a, b, 0, sign_mask, value_mask, true),
        BinaryOp::Adc => alu_add(&mut f, a, b, carry, sign_mask, value_mask, true),
        BinaryOp::Sub => alu_sub(&mut f, a, b, 0, sign_mask, value_mask, true),
        BinaryOp::Sbb => alu_sub(&mut f, a, b, carry, sign_mask, value_mask, true),
        _ => alu_logic(&mut f, op, a, b, sign_mask, value_mask),
    };
    assert(result as int % modulus(w) == binary_result(op, w, a, b, f0)) by {
        if op is And || op is Or || op is Xor {
            assert(result as int % modulus(w) == result) by {
                vstd::arithmetic::div_mod::lemma_small_mod(result as nat, modulus(w) as nat);
            }
        }
    }
    let result_value = if size == 1 {
        proof {
            lemma_pack_u8(result, binary_result(op, w, a, b, f0));
        }
        Value::U8(result as u8)
    } else {
        Value::U16(result)
    };
    (result_value, f)
}

proof fn lemma_trunc16(x: u32)
    ensures
        (x as u16) as int == x as int % 0x10000,
{
    assert((x as u16) as int == x as int % 0x10000) by (bit_vector);
}

/// `r` is `x` wrapped into 16 bits, so it agrees with `x` modulo `2^w`.
proof fn lemma_wrapped_mod(w: nat, r: int, x: int)
    requires
        w == 8 || w == 16,
        0 <= r < 0x10000,
        -0x20000 < x < 0x10000,
        r == x % 0x10000,
    ensures
        r % modulus(w) == x % modulus(w),
{
    if w == 8 {
        vstd::arithmetic::div_mod::lemma_mod_mod(x, 0x100, 0x100);
    }
}

/// The value a unary operation computes on a `w`-bit operand.
pub open spec fn unary_result(op: UnaryOp, w: nat, a: int) -> int {
    match op {
        UnaryOp::Neg => sub_result(w, 0, a, 0),
        UnaryOp::Inc => add_result(w, a, 1, 0),
        UnaryOp::Dec => sub_result(w, a, 1, 0),
        UnaryOp::Not => modulus(w) - 1 - a,
    }
}

/// FLAGS after a unary operation: INC and DEC keep CF, NOT changes nothing.
pub open spec fn unary_flags(op: UnaryOp, w: nat, a: int, f: u16) -> u16 {
    match op {
        UnaryOp::Neg => sub_flags(f, w, 0, a, 0, true),
        UnaryOp::Inc => add_flags(f, w, a, 1, 0, false),
        UnaryOp::Dec => sub_flags(f, w, a, 1, 0, false),
        UnaryOp::Not => f,
    }
}

/// Negates, increments, decrements or complements a byte or word.
pub fn unary(op: UnaryOp, a: Value, f: Flags) -> (res: (Value, Flags))
    requires
        byte_or_word(a),
    ensures
        res.0 == pack(width(a), unary_result(op, width(a), raw(a))),
        res.1.0 == unary_flags(op, width(a), raw(a), f.0),
{
    let mut f = f;
    let (size, sign_mask, value_mask, a): (u8, u16, u16, u16) = match a {
        Value::U8(a) => (1, 0x80, 0xff, a as u16),
        Value::U16(a) => (2, 0x8000, 0xffff, a),
        _ => {
            proof {
                assert(false);
            }
            (2, 0x8000, 0xffff, 0)
        },
    };
    let ghost w: nat = if size == 1 { 8 } else { 16 };
    let result: u16 = match op {
        UnaryOp::Neg => alu_sub(&mut f, 0, a, 0, sign_mask, value_mask, true),
        UnaryOp::Inc => alu_add(&mut f, a, 1, 0, sign_mask, value_mask, false),
        UnaryOp::Dec => alu_sub(&mut f, a, 1, 0, sign_mask, value_mask, false),
        UnaryOp::Not => {
            let r = !a;
            proof {
                lemma_not_low(w, a);
            }
            r
        },
    };
    let result_value = if size == 1 {
        proof {
            lemma_pack_u8(result, unary_result(op, w, a as int));
        }
        Value::U8(result as u8)
    } else {
        proof {
            vstd::arithmetic::div_mod::lemma_small_mod(result as nat, 0x10000);
        }
        Value::U16(result)
    };
    (result_value, f)
}

proof fn lemma_not_low(w: nat, a: u16)
    requires
        w == 8 || w == 16,
        a < modulus(w),
    ensures
        (!a) as int % modulus(w) == modulus(w) - 1 - a,
{
    if w == 8 {
        assert((!a) as int % 0x100 == 0xff - a) by (bit_vector)
            requires a < 0x100;
    } else {
        assert(!a == 0xffff - a) by (bit_vector);
    }
}

// ---------------------------------------------------------------------------
// Multiplication
// ---------------------------------------------------------------------------

/// The full-width product pattern (`2w` bits) of a multiplication.
pub open spec fn multiply_result(op: MultiplyOp, w: nat, a: int, b: int) -> int {
    match op {
        MultiplyOp::Unsigned => a * b,
        MultiplyOp::Signed => (signed(a, w) * signed(b, w)) % (modulus(w) * modulus(w)),
    }
}

/// Whether the product does not fit the low half (`w` bits) of the result:
/// unsigned, the high half is not zero; signed, the product is not the sign
/// extension of its low half.
pub open spec fn multiply_overflow(op: MultiplyOp, w: nat, a: int, b: int) -> bool {
    match op {
        MultiplyOp::Unsigned => a * b >= modulus(w),
        MultiplyOp::Signed => !(-half(w) <= signed(a, w) * signed(b, w) < half(w)),
    }
}

/// FLAGS after a multiplication: CF and OF report overflow; the unsigned
/// form also sets ZF for a zero product.
pub open spec fn multiply_flags(op: MultiplyOp, w: nat, a: int, b: int, f: u16) -> u16 {
    let ovf = multiply_overflow(op, w, a, b);
    let f1 = with_bit(with_bit(f, FLAG_CF, ovf), FLAG_OF, ovf);
    match op {
        MultiplyOp::Unsigned => with_bit(f1, FLAG_ZF, a * b == 0),
        MultiplyOp::Signed => f1,
    }
}

/// The double-width operand holding a product: a word for bytes, a double
/// word for words.
pub open spec fn pack_wide(w: nat, x: int) -> Value {
    if w == 8 {
        Value::U16(x as u16)
    } else {
        Value::U32(x as u32)
    }
}

/// The magnitude and sign of a `w`-bit pattern read as two's complement.
fn sign_magnitude(x: u16, half: u16) -> (r: (u32, bool))
    requires
        half == 0x80 || half == 0x8000,
        x < 2 * half,
    ensures
        r.1 == (x >= half),
        r.0 == if x >= half { 2 * half - x } else { x as int },
        r.0 <= half,
{
    if x >= half {
        ((2 * (half as u32)) - (x as u32), true)
    } else {
        (x as u32, false)
    }
}

/// Multiplies two bytes into a word or two words into a double word.
#[verifier::spinoff_prover]
#[verifier::rlimit(40)]
pub fn multiply(op: MultiplyOp, a: Value, b: Value, f: Flags) -> (res: (Value, Flags))
    requires
        same_width(a, b),
    ensures
        res.0 == pack_wide(width(a), multiply_result(op, width(a), raw(a), raw(b))),
        res.1.0 == multiply_flags(op, width(a), raw(a), raw(b), f.0),
{
    let mut f = f;
    let (size, sign_mask, value_mask, a, b): (u8, u16, u16, u16, u16) = match (a, b) {
        (Value::U8(a), Value::U8(b)) => (1, 0x80, 0xff, a as u16, b as u16),
        (Value::U16(a), Value::U16(b)) => (2, 0x8000, 0xffff, a, b),
        _ => {
            proof {
                assert(false);
            }
            (2, 0x8000, 0xffff, 0, 0)
        },
    };
    let ghost w: nat = if size == 1 { 8 } else { 16 };
    let ghost m = modulus(w);
    let result: u32;
    match op {
        MultiplyOp::Unsigned => {
            assert((a as u32) * (b as u32) <= 0xffff * 0xffff) by (nonlinear_arith)
                requires a <= 0xffff, b <= 0xffff;
            result = (a as u32) * (b as u32);
            let ovf = result > value_mask as u32;
            f.set(FLAG_CF, ovf);
            f.set(FLAG_OF, ovf);
            f.set(FLAG_ZF, result == 0);
            if size == 1 {
                assert(result < 0x10000) by (nonlinear_arith)
                    requires a <= 0xff, b <= 0xff, result == a * b;
            }
        },
        MultiplyOp::Signed => {
            let (ma, na) = sign_magnitude(a, sign_mask);
            let (mb, nb) = sign_magnitude(b, sign_mask);
            let ghost sa = signed(a as int, w);
            let ghost sb = signed(b as int, w);
            assert(ma * mb <= (sign_mask as int) * (sign_mask as int)) by (nonlinear_arith)
                requires ma <= sign_mask, mb <= sign_mask, 0 <= ma, 0 <= mb;
            let mag = ma * mb;
            let neg = na != nb;
            proof {
                if neg {
                    assert(sa * sb == -(ma * mb)) by (nonlinear_arith)
                        requires
                            (sa == ma && sb == -mb) || (sa == -ma && sb == mb);
                } else {
                    assert(sa * sb == ma * mb) by (nonlinear_arith)
                        requires
                            (sa == ma && sb == mb) || (sa == -ma && sb == -mb);
                }
            }
            let ovf = if neg {
                mag > sign_mask as u32
            } else {
                mag >= sign_mask as u32
            };
            if size == 1 {
                let r16: u16 = if neg {
                    0u16.wrapping_sub(mag as u16)
                } else {
                    mag as u16
                };
                result = r16 as u32;
                proof {
                    if neg && mag > 0 {
                        assert((sa * sb) % 0x10000 == 0x10000 - mag) by {
                            vstd::arithmetic::div_mod::lemma_mod_add_multiples_vanish(
                                -(mag as int),
                                0x10000,
                            );
                        }
                    }
                }
            } else {
                result = if neg {
                    0u32.wrapping_sub(mag)
                } else {
                    mag
                };
                proof {
                    if neg && mag > 0 {
                        assert((sa * sb) % 0x100000000 == 0x100000000 - mag) by {
                            vstd::arithmetic::div_mod::lemma_mod_add_multiples_vanish(
                                -(mag as int),
                                0x100000000,
                            );
                        }
                    }
                }
            }
            f.set(FLAG_CF, ovf);
            f.set(FLAG_OF, ovf);
        },
    }
    let val = if size == 1 {
        Value::U16(result as u16)
    } else {
        Value::U32(result)
    };
    (val, f)
}

// ---------------------------------------------------------------------------
// Division
// ---------------------------------------------------------------------------

/// The two's-complement value of a 32-bit pattern.
pub open spec fn signed32(x: int) -> int {
    if x >= 0x80000000 {
        x - 0x100000000
    } else {
        x
    }
}

pub open spec fn abs(x: int) -> int {
    if x < 0 {
        -x
    } else {
        x
    }
}

/// Division truncating toward zero.
pub open spec fn tdiv(x: int, y: int) -> int {
    let q = abs(x) / abs(y);
    if (x < 0) != (y < 0) {
        -q
    } else {
        q
    }
}

/// The remainder of `tdiv`: it takes the sign of the dividend.
pub open spec fn trem(x: int, y: int) -> int {
    let r = abs(x) % abs(y);
    if x < 0 {
        -r
    } else {
        r
    }
}

/// Whether the division completes: the divisor is not zero and the quotient
/// fits 16 bits (unsigned) or signed 16 bits. Otherwise the processor raises
/// a divide error.
pub open spec fn divide_ok(op: DivideOp, a: u32, b: u16) -> bool {
    match op {
        DivideOp::Unsigned => b != 0 && (a as int) / (b as int) <= 0xffff,
        DivideOp::Signed => b != 0 && -0x8000 <= tdiv(signed32(a as int), signed(b as int, 16))
            <= 0x7fff,
    }
}

/// The 32-bit quotient pattern.
pub open spec fn div_quotient(op: DivideOp, a: u32, b: u16) -> int {
    match op {
        DivideOp::Unsigned => (a as int) / (b as int),
        DivideOp::Signed => tdiv(signed32(a as int), signed(b as int, 16)) % 0x100000000,
    }
}

/// The 32-bit remainder pattern.
pub open spec fn div_remainder(op: DivideOp, a: u32, b: u16) -> int {
    match op {
        DivideOp::Unsigned => (a as int) % (b as int),
        DivideOp::Signed => trem(signed32(a as int), signed(b as int, 16)) % 0x100000000,
    }
}

/// FLAGS after a division, as dosbox-x leaves them: CF when the remainder's
/// low two bits are 01 or 10, ZF when the remainder is zero and the quotient
/// odd, SF OF AF cleared, PF when quotient and remainder have the same
/// parity of one bits.
pub open spec fn div_flags(q: int, r: int, f: u16) -> u16 {
    let f1 = with_bit(f, FLAG_CF, r % 4 == 1 || r % 4 == 2);
    let f2 = with_bit(f1, FLAG_ZF, r == 0 && q % 2 == 1);
    let f3 = with_bit(f2, FLAG_SF, false);
    let f4 = with_bit(f3, FLAG_OF, false);
    let f5 = with_bit(f4, FLAG_AF, false);
    with_bit(
        f5,
        FLAG_PF,
        (popcount(r as nat, 32) % 2 != 0) == (popcount(q as nat, 32) % 2 != 0),
    )
}

proof fn lemma_mod_neg(x: int, m: int)
    requires
        0 < x < m,
    ensures
        (-x) % m == m - x,
{
    vstd::arithmetic::div_mod::lemma_mod_add_multiples_vanish(-x, m);
    vstd::arithmetic::div_mod::lemma_small_mod((m - x) as nat, m as nat);
}

/// Whether dividing `a` by `b` completes without a divide error.
pub fn divide_fits(op: DivideOp, a: u32, b: u16) -> (r: bool)
    ensures
        r == divide_ok(op, a, b),
{
    if b == 0 {
        return false;
    }
    match op {
        DivideOp::Unsigned => a / (b as u32) <= 0xffff,
        DivideOp::Signed => {
            let ghost x = signed32(a as int);
            let ghost y = signed(b as int, 16);
            let neg_a = a >= 0x80000000;
            let ma: u32 = if neg_a {
                0u32.wrapping_sub(a)
            } else {
                a
            };
            let (mb, neg_b) = sign_magnitude(b, 0x8000);
            assert(ma == abs(x) && mb == abs(y));
            let mq = ma / mb;
            if neg_a != neg_b {
                mq <= 0x8000
            } else {
                mq <= 0x7fff
            }
        },
    }
}

/// Divides the double word `a` by the word `b`, giving quotient and
/// remainder words.
pub fn divmod(op: DivideOp, a: Value, b: Value, f: Flags) -> (res: (Value, Value, Flags))
    requires
        a is U32,
        b is U16,
        divide_ok(op, a->U32_0, b->U16_0),
    ensures
        res.0 == Value::U16(div_quotient(op, a->U32_0, b->U16_0) as u16),
        res.1 == Value::U16(div_remainder(op, a->U32_0, b->U16_0) as u16),
        res.2.0 == div_flags(
            div_quotient(op, a->U32_0, b->U16_0),
            div_remainder(op, a->U32_0, b->U16_0),
            f.0,
        ),
{
    let mut f = f;
    let a = match a {
        Value::U32(a) => a,
        _ => 0,
    };
    let b = match b {
        Value::U16(b) => b,
        _ => 1,
    };
    let quotient: u32;
    let remainder: u32;
    match op {
        DivideOp::Unsigned => {
            let b = b as u32;
            quotient = a / b;
            remainder = a % b;
        },
        DivideOp::Signed => {
            let ghost x = signed32(a as int);
            let ghost y = signed(b as int, 16);
            let neg_a = a >= 0x80000000;
            let ma: u32 = if neg_a {
                0u32.wrapping_sub(a)
            } else {
                a
            };
            let (mb, neg_b) = sign_magnitude(b, 0x8000);
            assert(ma == abs(x) && mb == abs(y));
            let mq = ma / mb;
            let mr = ma % mb;
            quotient = if neg_a != neg_b {
                0u32.wrapping_sub(mq)
            } else {
                mq
            };
            remainder = if neg_a {
                0u32.wrapping_sub(mr)
            } else {
                mr
            };
            proof {
                if neg_a != neg_b && mq > 0 {
                    vstd::arithmetic::div_mod::lemma_div_pos_is_pos(ma as int, mb as int);
                    lemma_mod_neg(mq as int, 0x100000000);
                } else {
                    vstd::arithmetic::div_mod::lemma_small_mod(mq as nat, 0x100000000);
                }
                if neg_a && mr > 0 {
                    lemma_mod_neg(mr as int, 0x100000000);
                } else {
                    vstd::arithmetic::div_mod::lemma_small_mod(mr as nat, 0x100000000);
                }
            }
        },
    }
    assert((remainder & 3) == remainder % 4 && (quotient & 1) == quotient % 2) by (bit_vector);
    f.set(FLAG_CF, (remainder & 3) >= 1 && (remainder & 3) <= 2);
    f.set(FLAG_ZF, remainder == 0 && (quotient & 1) != 0);
    f.set(FLAG_SF, false);
    f.set(FLAG_OF, false);
    f.set(FLAG_AF, false);
    let rem_parity = count_ones_u32(remainder) % 2 != 0;
    let quo_parity = count_ones_u32(quotient) % 2 != 0;
    f.set(FLAG_PF, rem_parity == quo_parity);
    (Value::U16(quotient as u16), Value::U16(remainder as u16), f)
}

// ---------------------------------------------------------------------------
// Shifts and rotates
// ---------------------------------------------------------------------------

/// The count a shift uses: the low five bits of the count operand.
pub open spec fn shift_count(n: u8) -> u32 {
    (n & 0x1f) as u32
}

/// The `w`-bit pattern of `a` sign-extended to 32 bits.
pub open spec fn sign_extend32(a: u32, w: u32) -> u32 {
    if w == 8 {
        if a & 0x80 != 0 {
            a | 0xffffff00
        } else {
            a
        }
    } else {
        if a & 0x8000 != 0 {
            a | 0xffff0000
        } else {
            a
        }
    }
}

/// Arithmetic shift right of a 32-bit pattern: the sign bit is shifted in.
pub open spec fn asr32(x: u32, k: u32) -> u32 {
    if x & 0x80000000 != 0 {
        !((!x) >> k)
    } else {
        x >> k
    }
}

/// The low `w` bits of a 32-bit pattern.
pub open spec fn low_w(x: u32, w: u32) -> u32 {
    if w == 8 {
        x & 0xff
    } else {
        x & 0xffff
    }
}

/// Bit `i` of `x`.
pub open spec fn bit(x: u32, i: u32) -> bool {
    (x >> i) & 1 == 1
}

/// The `w`-bit value a shift or rotate by `k` (`1 <= k <= 31`) produces.
pub open spec fn shift_value(op: ShiftOp, w: u32, a: u32, k: u32) -> u32 {
    match op {
        ShiftOp::Shl => low_w(a << k, w),
        ShiftOp::Shr => a >> k,
        ShiftOp::Sar => low_w(asr32(sign_extend32(a, w), k), w),
        ShiftOp::Rol => {
            let j = k % w;
            if j == 0 {
                a
            } else {
                low_w((a << j) | (a >> ((w - j) as u32)), w)
            }
        },
    }
}

/// The last bit shifted or rotated out, which becomes CF.
pub open spec fn shift_carry(op: ShiftOp, w: u32, a: u32, k: u32) -> bool {
    match op {
        ShiftOp::Shl => k <= w && bit(a, (w - k) as u32),
        ShiftOp::Shr => bit(a, (k - 1) as u32),
        ShiftOp::Sar => bit(asr32(sign_extend32(a, w), (k - 1) as u32), 0),
        ShiftOp::Rol => bit(a, ((w - (k % w) as int) % (w as int)) as u32),
    }
}

/// OF for a count of one: SHL, the new sign differs from CF; SHR, the
/// original sign; SAR, clear; ROL, CF differs from the new sign.
pub open spec fn shift_overflow(op: ShiftOp, w: u32, a: u32, k: u32) -> bool {
    let r = shift_value(op, w, a, k);
    let sign = if w == 8 { 0x80u32 } else { 0x8000u32 };
    match op {
        ShiftOp::Shl => shift_carry(op, w, a, k) != (r & sign != 0),
        ShiftOp::Shr => a & sign != 0,
        ShiftOp::Sar => false,
        ShiftOp::Rol => shift_carry(op, w, a, k) != (r & sign != 0),
    }
}

/// The value after shifting `a` by the count operand `n`: a count of zero
/// (after masking) leaves it unchanged.
pub open spec fn shift_result(op: ShiftOp, w: u32, a: u32, n: u8) -> u32 {
    if shift_count(n) == 0 {
        a
    } else {
        shift_value(op, w, a, shift_count(n))
    }
}

/// FLAGS after a shift or rotate by the count operand `n`. A zero count
/// changes nothing. SHL/SHR/SAR set CF ZF SF PF from the result; ROL sets
/// only CF; OF is written only for a count of one; AF is never written.
pub open spec fn shift_flags(op: ShiftOp, w: u32, a: u32, n: u8, f: u16) -> u16 {
    let k = shift_count(n);
    let r = shift_value(op, w, a, k) as int;
    let cf = shift_carry(op, w, a, k);
    let f1 = with_bit(f, FLAG_CF, cf);
    let f2 = if op is Rol {
        f1
    } else {
        with_bit(
            with_bit(with_bit(f1, FLAG_ZF, r == 0), FLAG_SF, r >= half(w as nat)),
            FLAG_PF,
            parity_even(r),
        )
    };
    if k == 0 {
        f
    } else if k == 1 {
        with_bit(f2, FLAG_OF, shift_overflow(op, w, a, k))
    } else {
        f2
    }
}

fn update_flags_shift_result(f: &mut Flags, cf: bool, r: u16, sign_mask: u16, value_mask: u16)
    requires
        masks_of(8, sign_mask, value_mask) || masks_of(16, sign_mask, value_mask),
        r <= value_mask,
    ensures
        final(f).0 == with_bit(
            with_bit(
                with_bit(with_bit(old(f).0, FLAG_CF, cf), FLAG_ZF, r == 0),
                FLAG_SF,
                r >= half(if sign_mask == 0x80 { 8 } else { 16 }),
            ),
            FLAG_PF,
            parity_even(r as int),
        ),
{
    let ghost w: nat = if sign_mask == 0x80 { 8 } else { 16 };
    proof {
        lemma_result_bits(w, r, r as int, sign_mask, value_mask);
        vstd::arithmetic::div_mod::lemma_small_mod(r as nat, modulus(w) as nat);
    }
    f.set(FLAG_CF, cf);
    f.set(FLAG_ZF, flag_generic_zf(r, value_mask));
    f.set(FLAG_SF, flag_generic_sf(r, sign_mask));
    f.set(FLAG_PF, flag_generic_pf(r));
}

/// A count of one to thirty-one is its own masked count.
proof fn lemma_shift_count_small(k: u8)
    requires
        1 <= k <= 31,
    ensures
        shift_count(k) == k as u32,
{
    assert(shift_count(k) == k as u32) by (bit_vector)
        requires 1 <= k <= 31;
}

/// Testing bit `i` of `x` against zero or against one is the same test.
proof fn lemma_bit_test(x: u32, i: u32)
    ensures
        (((x >> i) & 1) != 0) == (((x >> i) & 1) == 1),
        (x >> 0u32) == x,
{
    assert((((x >> i) & 1) != 0) == (((x >> i) & 1) == 1) && (x >> 0u32) == x) by (bit_vector);
}

/// The value and flags of a SHL by `k` (`1 <= k <= 31`).
fn alu_shl(f: &mut Flags, a: u16, k: u8, sign_mask: u16, value_mask: u16) -> (r: u16)
    requires
        masks_of(8, sign_mask, value_mask) || masks_of(16, sign_mask, value_mask),
        a <= value_mask,
        1 <= k <= 31,
    ensures
        r as u32 == shift_value(ShiftOp::Shl, if sign_mask == 0x80 { 8 } else { 16 }, a as u32, k as u32),
        r <= value_mask,
        final(f).0 == shift_flags(
            ShiftOp::Shl,
            if sign_mask == 0x80 { 8 } else { 16 },
            a as u32,
            k,
            old(f).0,
        ),
{
    let ghost w: u32 = if sign_mask == 0x80 { 8 } else { 16 };
    let ghost f0 = f.0;
    let a32 = a as u32;
    let k32 = k as u32;
    let r32 = a32 << k32;
    let cf = ((r32 >> 1u32) & (sign_mask as u32)) != 0;
    let r = (r32 as u16) & value_mask;
    proof {
        lemma_shift_count_small(k);
        if w == 8 {
            assert(r as u32 == (r32 & 0xff) && r <= 0xff && cf == (k32 <= 8 && ((a32 >> ((8 - k32)
                as u32)) & 1 == 1))) by (bit_vector)
                requires
                    a32 < 0x100,
                    1 <= k32 <= 31,
                    r32 == a32 << k32,
                    r == (r32 as u16) & 0xff,
                    cf == (((r32 >> 1u32) & 0x80) != 0);
        } else {
            assert(r as u32 == (r32 & 0xffff) && cf == (k32 <= 16 && ((a32 >> ((16 - k32) as u32))
                & 1 == 1))) by (bit_vector)
                requires
                    a32 < 0x10000,
                    1 <= k32 <= 31,
                    r32 == a32 << k32,
                    r == (r32 as u16) & 0xffff,
                    cf == (((r32 >> 1u32) & 0x8000) != 0);
        }
        assert(r as u32 == shift_value(ShiftOp::Shl, w, a32, k32));
        assert(cf == shift_carry(ShiftOp::Shl, w, a32, k32));
        assert(has_bit(r, sign_mask) == ((r as u32) & (if w == 8 { 0x80u32 } else { 0x8000u32 })
            != 0)) by (bit_vector)
            requires sign_mask == 0x80 || sign_mask == 0x8000,
                w == 8 ==> sign_mask == 0x80,
                w != 8 ==> sign_mask == 0x8000;
    }
    update_flags_shift_result(f, cf, r, sign_mask, value_mask);
    if k == 1 {
        let sf = flag_generic_sf(r, sign_mask);
        f.set(FLAG_OF, cf ^ sf);
    }
    r
}

/// The value and flags of a SHR by `k` (`1 <= k <= 31`).
fn alu_shr(f: &mut Flags, a: u16, k: u8, sign_mask: u16, value_mask: u16) -> (r: u16)
    requires
        masks_of(8, sign_mask, value_mask) || masks_of(16, sign_mask, value_mask),
        a <= value_mask,
        1 <= k <= 31,
    ensures
        r as u32 == shift_value(ShiftOp::Shr, if sign_mask == 0x80 { 8 } else { 16 }, a as u32, k as u32),
        r <= value_mask,
        final(f).0 == shift_flags(
            ShiftOp::Shr,
            if sign_mask == 0x80 { 8 } else { 16 },
            a as u32,
            k,
            old(f).0,
        ),
{
    let ghost w: u32 = if sign_mask == 0x80 { 8 } else { 16 };
    let a32 = a as u32;
    let k32 = k as u32;
    let r32 = a32 >> k32;
    let r = r32 as u16;
    let cf = ((a32 >> (k32 - 1)) & 1) != 0;
    let of = (a & sign_mask) != 0;
    proof {
        lemma_shift_count_small(k);
        assert(r32 <= a32 && r as u32 == r32) by (bit_vector)
            requires r32 == a32 >> k32, a32 < 0x10000, r == r32 as u16;
        assert(r as u32 == shift_value(ShiftOp::Shr, w, a32, k32));
        lemma_bit_test(a32, (k32 - 1) as u32);
        assert(cf == shift_carry(ShiftOp::Shr, w, a32, k32));
        assert(of == ((a32 & (if w == 8 { 0x80u32 } else { 0x8000u32 })) != 0)) by (bit_vector)
            requires
                of == ((a & sign_mask) != 0),
                a32 == a as u32,
                w == 8 ==> sign_mask == 0x80,
                w != 8 ==> sign_mask == 0x8000;
    }
    update_flags_shift_result(f, cf, r, sign_mask, value_mask);
    if k == 1 {
        f.set(FLAG_OF, of);
    }
    r
}

/// The value and flags of a SAR by `k` (`1 <= k <= 31`).
fn alu_sar(f: &mut Flags, a: u16, k: u8, sign_mask: u16, value_mask: u16) -> (r: u16)
    requires
        masks_of(8, sign_mask, value_mask) || masks_of(16, sign_mask, value_mask),
        a <= value_mask,
        1 <= k <= 31,
    ensures
        r as u32 == shift_value(ShiftOp::Sar, if sign_mask == 0x80 { 8 } else { 16 }, a as u32, k as u32),
        r <= value_mask,
        final(f).0 == shift_flags(
            ShiftOp::Sar,
            if sign_mask == 0x80 { 8 } else { 16 },
            a as u32,
            k,
            old(f).0,
        ),
{
    let ghost w: u32 = if sign_mask == 0x80 { 8 } else { 16 };
    let a32 = a as u32;
    let k32 = k as u32;
    let signed: u32 = if (a & sign_mask) != 0 {
        a32 | !(value_mask as u32)
    } else {
        a32
    };
    let shifted: u32 = if signed & 0x80000000 != 0 {
        !((!signed) >> k32)
    } else {
        signed >> k32
    };
    let prev: u32 = if signed & 0x80000000 != 0 {
        !((!signed) >> (k32 - 1))
    } else {
        signed >> (k32 - 1)
    };
    let r = (shifted as u16) & value_mask;
    let cf = (prev & 1) != 0;
    proof {
        lemma_shift_count_small(k);
        if w == 8 {
            assert(signed == sign_extend32(a32, 8) && r as u32 == (shifted & 0xff) && r <= 0xff)
                by (bit_vector)
                requires
                    a32 == a as u32,
                    sign_mask == 0x80,
                    value_mask == 0xff,
                    signed == (if (a & sign_mask) != 0 { a32 | !(value_mask as u32) } else { a32 }),
                    r == (shifted as u16) & 0xff;
        } else {
            assert(signed == sign_extend32(a32, 16) && r as u32 == (shifted & 0xffff))
                by (bit_vector)
                requires
                    a32 == a as u32,
                    sign_mask == 0x8000,
                    value_mask == 0xffff,
                    signed == (if (a & sign_mask) != 0 { a32 | !(value_mask as u32) } else { a32 }),
                    r == (shifted as u16) & 0xffff;
        }
        assert(shifted == asr32(signed, k32));
        assert(prev == asr32(signed, (k32 - 1) as u32));
        lemma_bit_test(prev, 0);
        assert(r as u32 == shift_value(ShiftOp::Sar, w, a32, k32));
        assert(cf == shift_carry(ShiftOp::Sar, w, a32, k32));
    }
    update_flags_shift_result(f, cf, r, sign_mask, value_mask);
    if k == 1 {
        f.set(FLAG_OF, false);
    }
    r
}

/// The value and flags of a ROL by the masked count `k` (`1 <= k <= 31`).
fn alu_rol(f: &mut Flags, a: u16, k: u8, sign_mask: u16, value_mask: u16) -> (r: u16)
    requires
        masks_of(8, sign_mask, value_mask) || masks_of(16, sign_mask, value_mask),
        a <= value_mask,
        1 <= k <= 31,
    ensures
        r as u32 == shift_value(ShiftOp::Rol, if sign_mask == 0x80 { 8 } else { 16 }, a as u32, k as u32),
        r <= value_mask,
        final(f).0 == shift_flags(
            ShiftOp::Rol,
            if sign_mask == 0x80 { 8 } else { 16 },
            a as u32,
            k,
            old(f).0,
        ),
{
    let ghost w: u32 = if sign_mask == 0x80 { 8 } else { 16 };
    let width: u32 = if sign_mask == 0x80 { 8 } else { 16 };
    let a32 = a as u32;
    let k32 = k as u32;
    let n_mod = k32 % width;
    let r32: u32 = if n_mod == 0 {
        a32
    } else {
        ((a32 << n_mod) | (a32 >> (width - n_mod))) & (value_mask as u32)
    };
    let r = r32 as u16;
    let cf = ((a32 >> ((width - n_mod) % width)) & 1) != 0;
    proof {
        lemma_shift_count_small(k);
        if n_mod == 0 {
            assert(r as u32 == r32 && r <= value_mask) by (bit_vector)
                requires r == r32 as u16, r32 == a32, a32 == a as u32, a <= value_mask;
        } else if w == 8 {
            assert(r as u32 == r32 && r <= value_mask && r32 == ((a32 << n_mod) | (a32 >> ((8
                - n_mod) as u32))) & 0xff) by (bit_vector)
                requires
                    r == r32 as u16,
                    r32 == ((a32 << n_mod) | (a32 >> ((width - n_mod) as u32))) & (value_mask as u32),
                    width == 8,
                    value_mask == 0xff;
        } else {
            assert(r as u32 == r32 && r <= value_mask && r32 == ((a32 << n_mod) | (a32 >> ((16
                - n_mod) as u32))) & 0xffff) by (bit_vector)
                requires
                    r == r32 as u16,
                    r32 == ((a32 << n_mod) | (a32 >> ((width - n_mod) as u32))) & (value_mask as u32),
                    width == 16,
                    value_mask == 0xffff;
        }
        assert(r as u32 == shift_value(ShiftOp::Rol, w, a32, k32));
        let idx = ((width - n_mod) as u32) % width;
        assert(idx == ((w - (k32 % w) as int) % (w as int)) as u32);
        lemma_bit_test(a32, idx);
        assert(cf == shift_carry(ShiftOp::Rol, w, a32, k32));
    }
    f.set(FLAG_CF, cf);
    if k == 1 {
        let new_msb = (r & sign_mask) != 0;
        proof {
            assert(new_msb == ((r32 & (if w == 8 { 0x80u32 } else { 0x8000u32 })) != 0)) by (bit_vector)
                requires
                    new_msb == ((r & sign_mask) != 0),
                    r == r32 as u16,
                    r32 <= 0xffff,
                    w == 8 ==> sign_mask == 0x80,
                    w != 8 ==> sign_mask == 0x8000;
        }
        f.set(FLAG_OF, cf ^ new_msb);
    }
    r
}

/// Shifts or rotates a byte or word by the count operand `n`, of which only
/// the low five bits count.
pub fn shift(op: ShiftOp, a: Value, n: u8, f: Flags) -> (res: (Value, Flags))
    requires
        byte_or_word(a),
    ensures
        res.0 == pack(width(a), shift_result(op, width(a) as u32, raw(a) as u32, n) as int),
        res.1.0 == shift_flags(op, width(a) as u32, raw(a) as u32, n, f.0),
{
    let mut f = f;
    let (size, sign_mask, value_mask, a): (u8, u16, u16, u16) = match a {
        Value::U8(a) => (1, 0x80, 0xff, a as u16),
        Value::U16(a) => (2, 0x8000, 0xffff, a),
        _ => {
            proof {
                assert(false);
            }
            (2, 0x8000, 0xffff, 0)
        },
    };
    let k = n & 0x1f;
    let result: u16 = if k == 0 {
        proof {
            assert(shift_count(n) == 0) by (bit_vector)
                requires k == n & 0x1f, k == 0;
        }
        a
    } else {
        proof {
            assert(shift_count(n) == k as u32 && 1 <= k <= 31 && shift_count(k) == k as u32)
                by (bit_vector)
                requires k == n & 0x1f, k != 0;
        }
        match op {
            ShiftOp::Shl => alu_shl(&mut f, a, k, sign_mask, value_mask),
            ShiftOp::Shr => alu_shr(&mut f, a, k, sign_mask, value_mask),
            ShiftOp::Sar => alu_sar(&mut f, a, k, sign_mask, value_mask),
            ShiftOp::Rol => alu_rol(&mut f, a, k, sign_mask, value_mask),
        }
    };
    let result_value = if size == 1 {
        proof {
            assert(result as u8 == (result as int) as u8);
        }
        Value::U8(result as u8)
    } else {
        Value::U16(result)
    };
    (result_value, f)
}


/// Reading back the flags an arithmetic update wrote (CF, ZF, SF, PF, AF,
/// OF, in that order).
proof fn lemma_arith_flag_bits(f: u16, c: bool, z: bool, s: bool, p: bool, a: bool, o: bool)
    by (bit_vector)
    ensures
        ({
            let g = with_bit(
                with_bit(with_bit(with_bit(with_bit(with_bit(f, FLAG_CF, c), FLAG_ZF, z), FLAG_SF, s), FLAG_PF, p), FLAG_AF, a),
                FLAG_OF,
                o,
            );
            &&& has_bit(g, FLAG_CF) == c
            &&& has_bit(g, FLAG_ZF) == z
            &&& has_bit(g, FLAG_SF) == s
            &&& has_bit(g, FLAG_PF) == p
            &&& has_bit(g, FLAG_AF) == a
            &&& has_bit(g, FLAG_OF) == o
        }),
{
}

/// Reading back the flags a logical update wrote (CF, ZF, SF, OF, PF, in
/// that order).
proof fn lemma_logic_flag_bits(f: u16, z: bool, s: bool, p: bool)
    by (bit_vector)
    ensures
        ({
            let g = with_bit(with_bit(with_bit(with_bit(with_bit(f, FLAG_CF, false), FLAG_ZF, z), FLAG_SF, s), FLAG_OF, false), FLAG_PF, p);
            &&& !has_bit(g, FLAG_CF)
            &&& has_bit(g, FLAG_ZF) == z
            &&& has_bit(g, FLAG_SF) == s
            &&& has_bit(g, FLAG_PF) == p
            &&& has_bit(g, FLAG_AF) == has_bit(f, FLAG_AF)
            &&& !has_bit(g, FLAG_OF)
        }),
{
}

/// What `binary` computes, in plain arithmetic on the operands' numbers
/// (`m` is 2 to the operand width, `c` the incoming carry flag, bit 0 of
/// FLAGS): ADD gives `(a + b) mod m` and ADC `(a + b + c) mod m`, carrying
/// out when the sum reaches `m`; SUB gives `(a - b) mod m` and SBB
/// `(a - b - c) mod m`, borrowing when `a < b (+ c)`, and both set AF on
/// a carry out of (or borrow into) the low nibble; AND, OR and XOR give the
/// bitwise result, clear CF and OF and keep AF. Every operation sets ZF when
/// the result is zero, SF when its top bit is set and PF when its low byte
/// has even parity, and the add and subtract family set OF exactly when the
/// signed result falls outside the width.
#[verifier::spinoff_prover]
pub proof fn lemma_binary_arithmetic(op: BinaryOp, a: Value, b: Value, f: u16)
    requires
        same_width(a, b),
    ensures
        ({
            let m: int = if a is U8 { 0x100 } else { 0x10000 };
            let c: int = if f & 1 != 0 { 1 } else { 0 };
            let x = raw(a);
            let y = raw(b);
            let sx = if x >= m / 2 { x - m } else { x };
            let sy = if y >= m / 2 { y - m } else { y };
            let r = pack(width(a), binary_result(op, width(a), raw16(a), raw16(b), f));
            let g = binary_flags(op, width(a), raw16(a), raw16(b), f);
            &&& same_width(r, a)
            &&& (op == BinaryOp::Add ==> raw(r) == (x + y) % m && has_bit(g, FLAG_CF) == (x + y >= m)
                && has_bit(g, FLAG_OF) == !(-(m / 2) <= sx + sy < m / 2))
            &&& (op == BinaryOp::Adc ==> raw(r) == (x + y + c) % m && has_bit(g, FLAG_CF) == (x + y + c >= m)
                && has_bit(g, FLAG_OF) == !(-(m / 2) <= sx + sy + c < m / 2))
            &&& (op == BinaryOp::Sub ==> raw(r) == (x - y) % m && has_bit(g, FLAG_CF) == (x < y) && has_bit(
                g,
                FLAG_OF,
            ) == !(-(m / 2) <= sx - sy < m / 2))
            &&& (op == BinaryOp::Sbb ==> raw(r) == (x - y - c) % m && has_bit(g, FLAG_CF) == (x < y + c)
                && has_bit(g, FLAG_OF) == !(-(m / 2) <= sx - sy - c < m / 2))
            &&& (op == BinaryOp::Add || op == BinaryOp::Adc ==> has_bit(g, FLAG_AF) == (x % 16 + y % 16 + (if op
                == BinaryOp::Adc { c } else { 0 }) >= 16))
            &&& (op == BinaryOp::Sub || op == BinaryOp::Sbb ==> has_bit(g, FLAG_AF) == (x % 16 < y % 16 + (if op
                == BinaryOp::Sbb { c } else { 0 })))
            &&& (op == BinaryOp::And ==> raw(r) == (raw16(a) & raw16(b)) as int)
            &&& (op == BinaryOp::Or ==> raw(r) == (raw16(a) | raw16(b)) as int)
            &&& (op == BinaryOp::Xor ==> raw(r) == (raw16(a) ^ raw16(b)) as int)
            &&& (op == BinaryOp::And || op == BinaryOp::Or || op == BinaryOp::Xor ==> !has_bit(g, FLAG_CF)
                && !has_bit(g, FLAG_OF) && has_bit(g, FLAG_AF) == has_bit(f, FLAG_AF))
            &&& has_bit(g, FLAG_ZF) == (raw(r) == 0)
            &&& has_bit(g, FLAG_SF) == (raw(r) >= m / 2)
            &&& has_bit(g, FLAG_PF) == parity_even(raw(r))
        }),
{
    let w = width(a);
    let m: int = if a is U8 { 0x100 } else { 0x10000 };
    let x = raw(a);
    let y = raw(b);
    let p = raw16(a);
    let q = raw16(b);
    assert(modulus(w) == m && half(w) == m / 2);
    assert(p as int == x && q as int == y && 0 <= x < m && 0 <= y < m);
    assert(carry_in(f) == (if f & 1 != 0 { 1int } else { 0int })) by {
        assert(has_bit(f, FLAG_CF) == (f & 1 != 0));
    }
    let c = carry_in(f);
    match op {
        BinaryOp::Add => lemma_add_law(f, w, x, y, 0),
        BinaryOp::Adc => lemma_add_law(f, w, x, y, c),
        BinaryOp::Sub => lemma_sub_law(f, w, x, y, 0),
        BinaryOp::Sbb => lemma_sub_law(f, w, x, y, c),
        _ => {
            lemma_small_bitwise(p, q);
            let v = binary_result(op, w, p, q, f);
            assert(0 <= v < m);
            lemma_logic_flag_bits(f, v == 0, v >= half(w), parity_even(v));
        },
    }
}

/// An addition with carry-in `cc`, in plain arithmetic.
#[verifier::spinoff_prover]
proof fn lemma_add_law(f: u16, w: nat, x: int, y: int, cc: int)
    requires
        w == 8 || w == 16,
        0 <= x < modulus(w),
        0 <= y < modulus(w),
        cc == 0 || cc == 1,
    ensures
        ({
            let m = modulus(w);
            let v = add_result(w, x, y, cc);
            let g = add_flags(f, w, x, y, cc, true);
            let sx = if x >= m / 2 { x - m } else { x };
            let sy = if y >= m / 2 { y - m } else { y };
            &&& v == (x + y + cc) % m
            &&& 0 <= v < m
            &&& has_bit(g, FLAG_CF) == (x + y + cc >= m)
            &&& has_bit(g, FLAG_ZF) == (v == 0)
            &&& has_bit(g, FLAG_SF) == (v >= m / 2)
            &&& has_bit(g, FLAG_PF) == parity_even(v)
            &&& has_bit(g, FLAG_AF) == (x % 16 + y % 16 + cc >= 16)
            &&& has_bit(g, FLAG_OF) == !(-(m / 2) <= sx + sy + cc < m / 2)
        }),
{
    let m = modulus(w);
    let v = add_result(w, x, y, cc);
    assert(half(w) == m / 2);
    assert(v == x + y + cc || v == x + y + cc - m);
    lemma_arith_flag_bits(
        f,
        x + y + cc >= m,
        v == 0,
        v >= half(w),
        parity_even(v),
        x % 16 + y % 16 + cc >= 16,
        signed(x, w) + signed(y, w) + cc != signed(v, w),
    );
}

/// A subtraction with borrow-in `cc`, in plain arithmetic.
#[verifier::spinoff_prover]
proof fn lemma_sub_law(f: u16, w: nat, x: int, y: int, cc: int)
    requires
        w == 8 || w == 16,
        0 <= x < modulus(w),
        0 <= y < modulus(w),
        cc == 0 || cc == 1,
    ensures
        ({
            let m = modulus(w);
            let v = sub_result(w, x, y, cc);
            let g = sub_flags(f, w, x, y, cc, true);
            let sx = if x >= m / 2 { x - m } else { x };
            let sy = if y >= m / 2 { y - m } else { y };
            &&& v == (x - y - cc) % m
            &&& 0 <= v < m
            &&& has_bit(g, FLAG_CF) == (x < y + cc)
            &&& has_bit(g, FLAG_ZF) == (v == 0)
            &&& has_bit(g, FLAG_SF) == (v >= m / 2)
            &&& has_bit(g, FLAG_PF) == parity_even(v)
            &&& has_bit(g, FLAG_AF) == (x % 16 < y % 16 + cc)
            &&& has_bit(g, FLAG_OF) == !(-(m / 2) <= sx - sy - cc < m / 2)
        }),
{
    let m = modulus(w);
    let v = sub_result(w, x, y, cc);
    assert(half(w) == m / 2);
    assert(v == x - y - cc || v == x - y - cc + m);
    lemma_arith_flag_bits(
        f,
        x < y + cc,
        v == 0,
        v >= half(w),
        parity_even(v),
        x % 16 < y % 16 + cc,
        signed(x, w) - signed(y, w) - cc != signed(v, w),
    );
}

/// The logical operations keep byte operands within a byte.
proof fn lemma_small_bitwise(p: u16, q: u16)
    by (bit_vector)
    ensures
        p < 0x100 && q < 0x100 ==> (p & q) < 0x100 && (p | q) < 0x100 && (p ^ q) < 0x100,
{
}

} // verus!
