use vstd::prelude::*;
use crate::bits::{lemma_byte_ops, lemma_rotate_carry};
use crate::bits::bit;
use crate::register::{lemma_flag_after_set, Registers};

verus! {

/// The register file with Z, N, H and C set in that order.
pub open spec fn with_znhc(reg: Registers, z: bool, n: bool, h: bool, c: bool) -> Registers {
    reg.set_flag_spec(7, z).set_flag_spec(6, n).set_flag_spec(5, h).set_flag_spec(4, c)
}

/// The carry flag as a number.
pub open spec fn carry_in(reg: Registers) -> int {
    if reg.flag(4) { 1 } else { 0 }
}

/// 8-bit addition of `n` (plus the carry flag for ADC) to A: returns the sum and the flags.
/// H is the carry out of the low nibbles of A and `n` (the carry in is left out of it).
pub open spec fn add_spec(reg: Registers, n: u8, add_carry: bool) -> (Registers, u8) {
    let cin = if add_carry { carry_in(reg) } else { 0 };
    let sum = reg.a + n + cin;
    let r = (sum % 256) as u8;
    (with_znhc(reg, r == 0, false, reg.a % 16 + n % 16 > 15, sum > 255), r)
}

/// 8-bit subtraction of `n` (plus the carry flag for SBC, added to `n` modulo 256) from A.
pub open spec fn sub_spec(reg: Registers, n: u8, add_carry: bool) -> (Registers, u8) {
    let cin = if add_carry { carry_in(reg) } else { 0 };
    let rhs = ((n + cin) % 256) as u8;
    let r = ((reg.a - rhs + 256) % 256) as u8;
    (with_znhc(reg, r == 0, true, reg.a % 16 < rhs % 16, reg.a < rhs), r)
}

/// AND with A: Z from the result, H set, N and C clear.
pub open spec fn and_spec(reg: Registers, n: u8) -> (Registers, u8) {
    let r = reg.a & n;
    (with_znhc(reg, r == 0, false, true, false), r)
}

/// OR with A: Z from the result, N, H and C clear.
pub open spec fn or_spec(reg: Registers, n: u8) -> (Registers, u8) {
    let r = reg.a | n;
    (with_znhc(reg, r == 0, false, false, false), r)
}

/// XOR with A: Z from the result, N, H and C clear.
pub open spec fn xor_spec(reg: Registers, n: u8) -> (Registers, u8) {
    let r = reg.a ^ n;
    (with_znhc(reg, r == 0, false, false, false), r)
}

/// Rotate and shift operations on a byte, all with the carry flag.
#[derive(Debug, Clone, Copy, PartialEq, Eq, Structural)]
pub enum RotOp {
    /// Rotate left, bit 7 into C.
    RotateLeftIntoCarry,
    /// Rotate left through C.
    RotateLeftThroughCarry,
    /// Rotate right, bit 0 into C.
    RotateRightIntoCarry,
    /// Rotate right through C.
    RotateRightThroughCarry,
    /// Shift left, bit 7 into C.
    ShiftLeftIntoCarry,
    /// Shift right, bit 0 into C.
    ShiftRightIntoCarry,
    /// Shift right keeping bit 7, bit 0 into C.
    ShiftRightIntoCarryKeepMsb,
}

/// Result of a rotate or shift of `a`, with `cin` the carry flag before it.
pub open spec fn rot_value(op: RotOp, a: u8, cin: int) -> u8 {
    match op {
        RotOp::RotateLeftIntoCarry => ((a * 2) % 256 + a / 128) as u8,
        RotOp::RotateLeftThroughCarry => ((a * 2) % 256 + cin) as u8,
        RotOp::RotateRightIntoCarry => (a / 2 + (a % 2) * 128) as u8,
        RotOp::RotateRightThroughCarry => (a / 2 + cin * 128) as u8,
        RotOp::ShiftLeftIntoCarry => ((a * 2) % 256) as u8,
        RotOp::ShiftRightIntoCarry => (a / 2) as u8,
        RotOp::ShiftRightIntoCarryKeepMsb => (a / 2 + (a / 128) * 128) as u8,
    }
}

/// Whether the bit shifted out of `a` (bit 7 for left, bit 0 for right) is set.
pub open spec fn rot_carry_out(op: RotOp, a: u8) -> bool {
    match op {
        RotOp::RotateLeftIntoCarry | RotOp::RotateLeftThroughCarry | RotOp::ShiftLeftIntoCarry => a >= 128,
        _ => a % 2 == 1,
    }
}

/// A rotate or shift: the new value, and flags N = H = 0, C = the bit shifted out, Z set on a zero
/// result by every operation but RotateLeftIntoCarry, which leaves Z alone.
pub open spec fn rot_spec(op: RotOp, a: u8, reg: Registers) -> (Registers, u8) {
    let r = rot_value(op, a, carry_in(reg));
    let reg1 = if op == RotOp::RotateLeftIntoCarry { reg } else { reg.set_flag_spec(7, r == 0) };
    (reg1.set_flag_spec(6, false).set_flag_spec(5, false).set_flag_spec(4, rot_carry_out(op, a)), r)
}

/// Decimal adjustment of A after a BCD addition or subtraction.
pub open spec fn daa_spec(reg: Registers) -> Registers {
    let c = reg.flag(4);
    let h = reg.flag(5);
    let n = reg.flag(6);
    let a = reg.a;
    let low_fix = (!n && a % 16 > 9) || h;
    let high_fix = (!n && a > 0x99) || c;
    let offset: int = (if low_fix { 0x06int } else { 0 }) + (if high_fix { 0x60int } else { 0 });
    let r = if !n { ((a + offset) % 256) as u8 } else { ((a - offset + 256) % 256) as u8 };
    Registers { a: r, ..reg }.set_flag_spec(7, r == 0).set_flag_spec(5, false).set_flag_spec(4, high_fix)
}

/// Adds with flags (ADD, ADC).
pub fn add_flags(reg: &mut Registers, n: u8, add_carry: bool) -> (r: u8)
    ensures
        (*final(reg), r) == add_spec(*old(reg), n, add_carry),
{
    let a = reg.a;
    let cin: u16 = if add_carry && reg.get_flag(4) { 1 } else { 0 };
    let sum: u16 = a as u16 + n as u16 + cin;
    assert((a & 0x0Fu8) == a % 16 && (n & 0x0Fu8) == n % 16) by {
        lemma_byte_ops(a);
        lemma_byte_ops(n);
    }
    let h = (a & 0x0F) + (n & 0x0F) > 0x0F;
    let c = sum > 0xFF;
    let r = (sum % 256) as u8;
    reg.set_flag(7, r == 0);
    reg.set_flag(6, false);
    reg.set_flag(5, h);
    reg.set_flag(4, c);
    r
}

/// Subtracts with flags (SUB, SBC, CP).
pub fn sub_flags(reg: &mut Registers, n: u8, add_carry: bool) -> (r: u8)
    ensures
        (*final(reg), r) == sub_spec(*old(reg), n, add_carry),
{
    let a = reg.a;
    let cin: u8 = if add_carry && reg.get_flag(4) { 1 } else { 0 };
    let rhs = n.wrapping_add(cin);
    let r = a.wrapping_sub(rhs);
    let c = a < rhs;
    let h = (a & 0x0F) < (rhs & 0x0F);
    assert((a & 0x0Fu8) == a % 16 && (rhs & 0x0Fu8) == rhs % 16) by {
        lemma_byte_ops(a);
        lemma_byte_ops(rhs);
    }
    reg.set_flag(7, r == 0);
    reg.set_flag(6, true);
    reg.set_flag(5, h);
    reg.set_flag(4, c);
    r
}

/// ANDs `n` into A's value and sets the flags (see `and_spec`); A itself is left to the caller.
pub fn and_flags(reg: &mut Registers, n: u8) -> (r: u8)
    ensures
        (*final(reg), r) == and_spec(*old(reg), n),
{
    let r = reg.a & n;
    reg.set_flag(7, r == 0);
    reg.set_flag(6, false);
    reg.set_flag(5, true);
    reg.set_flag(4, false);
    r
}

/// ORs `n` into A's value and sets the flags (see `or_spec`); A itself is left to the caller.
pub fn or_flags(reg: &mut Registers, n: u8) -> (r: u8)
    ensures
        (*final(reg), r) == or_spec(*old(reg), n),
{
    let r = reg.a | n;
    reg.set_flag(7, r == 0);
    reg.set_flag(6, false);
    reg.set_flag(5, false);
    reg.set_flag(4, false);
    r
}

/// XORs `n` into A's value and sets the flags (see `xor_spec`); A itself is left to the caller.
pub fn xor_flags(reg: &mut Registers, n: u8) -> (r: u8)
    ensures
        (*final(reg), r) == xor_spec(*old(reg), n),
{
    let r = reg.a ^ n;
    reg.set_flag(7, r == 0);
    reg.set_flag(6, false);
    reg.set_flag(5, false);
    reg.set_flag(4, false);
    r
}

fn carry_bit(reg: &Registers) -> (c: u8)
    ensures
        c == carry_in(*reg),
{
    if reg.get_flag(4) { 1 } else { 0 }
}

/// Rotate left, old bit 7 into C and into bit 0 (Z is left alone).
pub fn rotate_left_into_carry(a_old: u8, reg: &mut Registers) -> (a: u8)
    ensures
        (*final(reg), a) == rot_spec(RotOp::RotateLeftIntoCarry, a_old, *old(reg)),
{
    let a = (a_old << 1u8) | (a_old >> 7u8);
    proof {
        lemma_byte_ops(a_old);
    }
    reg.set_flag(6, false);
    reg.set_flag(5, false);
    reg.set_flag(4, (a_old & 0x80) != 0);
    a
}

/// Rotate left through C.
pub fn rotate_left_through_carry(a_old: u8, reg: &mut Registers) -> (a: u8)
    ensures
        (*final(reg), a) == rot_spec(RotOp::RotateLeftThroughCarry, a_old, *old(reg)),
{
    let c = carry_bit(reg);
    let a = (a_old << 1u8) | c;
    proof {
        lemma_byte_ops(a_old);
        lemma_rotate_carry(a_old, c);
    }
    reg.set_flag(7, a == 0);
    reg.set_flag(6, false);
    reg.set_flag(5, false);
    reg.set_flag(4, (a_old & 0x80) != 0);
    a
}

/// Rotate right, old bit 0 into C and into bit 7.
pub fn rotate_right_into_carry(a_old: u8, reg: &mut Registers) -> (a: u8)
    ensures
        (*final(reg), a) == rot_spec(RotOp::RotateRightIntoCarry, a_old, *old(reg)),
{
    let a = (a_old >> 1u8) | (a_old << 7u8);
    proof {
        lemma_byte_ops(a_old);
    }
    reg.set_flag(7, a == 0);
    reg.set_flag(6, false);
    reg.set_flag(5, false);
    reg.set_flag(4, (a_old & 0x01) != 0);
    a
}

/// Rotate right through C.
pub fn rotate_right_through_carry(a_old: u8, reg: &mut Registers) -> (a: u8)
    ensures
        (*final(reg), a) == rot_spec(RotOp::RotateRightThroughCarry, a_old, *old(reg)),
{
    let c = carry_bit(reg);
    let a = (a_old >> 1u8) | (c << 7u8);
    proof {
        lemma_byte_ops(a_old);
        lemma_rotate_carry(a_old, c);
    }
    reg.set_flag(7, a == 0);
    reg.set_flag(6, false);
    reg.set_flag(5, false);
    reg.set_flag(4, (a_old & 0x01) != 0);
    a
}

/// Shift left, old bit 7 into C.
pub fn shift_left_into_carry(a_old: u8, reg: &mut Registers) -> (a: u8)
    ensures
        (*final(reg), a) == rot_spec(RotOp::ShiftLeftIntoCarry, a_old, *old(reg)),
{
    let a = a_old << 1u8;
    proof {
        lemma_byte_ops(a_old);
    }
    reg.set_flag(7, a == 0);
    reg.set_flag(6, false);
    reg.set_flag(5, false);
    reg.set_flag(4, (a_old & 0x80) != 0);
    a
}

/// Shift right, old bit 0 into C.
pub fn shift_right_into_carry(a_old: u8, reg: &mut Registers) -> (a: u8)
    ensures
        (*final(reg), a) == rot_spec(RotOp::ShiftRightIntoCarry, a_old, *old(reg)),
{
    let a = a_old >> 1u8;
    proof {
        lemma_byte_ops(a_old);
    }
    reg.set_flag(7, a == 0);
    reg.set_flag(6, false);
    reg.set_flag(5, false);
    reg.set_flag(4, (a_old & 0x01) != 0);
    a
}

/// Shift right keeping bit 7, old bit 0 into C.
pub fn shift_right_into_carry_keep_msb(a_old: u8, reg: &mut Registers) -> (a: u8)
    ensures
        (*final(reg), a) == rot_spec(RotOp::ShiftRightIntoCarryKeepMsb, a_old, *old(reg)),
{
    let a = (a_old >> 1u8) | (a_old & 0x80u8);
    proof {
        lemma_byte_ops(a_old);
    }
    reg.set_flag(7, a == 0);
    reg.set_flag(6, false);
    reg.set_flag(5, false);
    reg.set_flag(4, (a_old & 0x01) != 0);
    a
}

/// Applies a rotate or shift operation.
pub fn rotate(op: RotOp, a_old: u8, reg: &mut Registers) -> (a: u8)
    ensures
        (*final(reg), a) == rot_spec(op, a_old, *old(reg)),
{
    match op {
        RotOp::RotateLeftIntoCarry => rotate_left_into_carry(a_old, reg),
        RotOp::RotateLeftThroughCarry => rotate_left_through_carry(a_old, reg),
        RotOp::RotateRightIntoCarry => rotate_right_into_carry(a_old, reg),
        RotOp::RotateRightThroughCarry => rotate_right_through_carry(a_old, reg),
        RotOp::ShiftLeftIntoCarry => shift_left_into_carry(a_old, reg),
        RotOp::ShiftRightIntoCarry => shift_right_into_carry(a_old, reg),
        RotOp::ShiftRightIntoCarryKeepMsb => shift_right_into_carry_keep_msb(a_old, reg),
    }
}

/// Decimal adjust of A (DAA).
pub fn daa(reg: &mut Registers)
    ensures
        *final(reg) == daa_spec(*old(reg)),
{
    let c = reg.get_flag(4);
    let h = reg.get_flag(5);
    let n = reg.get_flag(6);
    let a = reg.a;
    let lo = a & 0xF;
    assert(a & 0xFu8 == a % 16) by {
        lemma_byte_ops(a);
    }

    let mut offset = 0u8;
    let mut c_after = false;
    if (!n && lo > 0x09) || h {
        offset = offset + 0x06;
    }
    if (!n && a > 0x99) || c {
        offset = offset + 0x60;
        c_after = true;
    }

    reg.a = if !n { a.wrapping_add(offset) } else { a.wrapping_sub(offset) };

    let z = reg.a == 0;
    reg.set_flag(7, z);
    reg.set_flag(5, false);
    reg.set_flag(4, c_after);
}

/// XOR is the bitwise exclusive or: each bit of the result is set exactly where A and the
/// operand differ. Z is set exactly when A equals the operand (so XOR A always clears A and sets
/// Z), N, H and C are cleared, and no other register changes.
pub proof fn lemma_xor_is_exclusive_or(reg: Registers, n: u8)
    ensures
        forall|i: u8| i < 8 ==> #[trigger] bit(xor_spec(reg, n).1, i) == (bit(reg.a, i) != bit(n, i)),
        xor_spec(reg, n).0.flag(7) == (reg.a == n),
        !xor_spec(reg, n).0.flag(6),
        !xor_spec(reg, n).0.flag(5),
        !xor_spec(reg, n).0.flag(4),
        xor_spec(reg, n).0 == (Registers { f: xor_spec(reg, n).0.f, ..reg }),
        xor_spec(reg, reg.a).1 == 0,
{
    let a = reg.a;
    let r = xor_spec(reg, n).1;
    assert forall|i: u8| i < 8 implies #[trigger] bit(r, i) == (bit(a, i) != bit(n, i)) by {
        assert(i < 8 ==> ((((a ^ n) >> i) & 1u8 == 1u8) == (((a >> i) & 1u8 == 1u8) != ((n >> i) & 1u8 == 1u8)))) by (bit_vector);
    }
    assert(((a ^ n) == 0) == (a == n)) by (bit_vector);
    assert(a ^ a == 0) by (bit_vector);
    let r0 = reg.set_flag_spec(7, r == 0);
    let r1 = r0.set_flag_spec(6, false);
    let r2 = r1.set_flag_spec(5, false);
    lemma_flag_after_set(reg, 7, 7, r == 0);
    lemma_flag_after_set(r0, 6, 7, false);
    lemma_flag_after_set(r1, 5, 7, false);
    lemma_flag_after_set(r2, 4, 7, false);
    lemma_flag_after_set(r0, 6, 6, false);
    lemma_flag_after_set(r1, 5, 6, false);
    lemma_flag_after_set(r2, 4, 6, false);
    lemma_flag_after_set(r1, 5, 5, false);
    lemma_flag_after_set(r2, 4, 5, false);
    lemma_flag_after_set(r2, 4, 4, false);
}

/// Setting Z, N, H and C gives exactly those four flags, keeps bits 3 to 0 of F, and changes no
/// other register.
proof fn lemma_znhc(reg: Registers, z: bool, n: bool, h: bool, c: bool)
    ensures
        with_znhc(reg, z, n, h, c).flag(7) == z,
        with_znhc(reg, z, n, h, c).flag(6) == n,
        with_znhc(reg, z, n, h, c).flag(5) == h,
        with_znhc(reg, z, n, h, c).flag(4) == c,
        with_znhc(reg, z, n, h, c) == (Registers { f: with_znhc(reg, z, n, h, c).f, ..reg }),
{
    let r0 = reg.set_flag_spec(7, z);
    let r1 = r0.set_flag_spec(6, n);
    let r2 = r1.set_flag_spec(5, h);
    lemma_flag_after_set(reg, 7, 7, z);
    lemma_flag_after_set(r0, 6, 7, n);
    lemma_flag_after_set(r1, 5, 7, h);
    lemma_flag_after_set(r2, 4, 7, c);
    lemma_flag_after_set(r0, 6, 6, n);
    lemma_flag_after_set(r1, 5, 6, h);
    lemma_flag_after_set(r2, 4, 6, c);
    lemma_flag_after_set(r1, 5, 5, h);
    lemma_flag_after_set(r2, 4, 5, c);
    lemma_flag_after_set(r2, 4, 4, c);
}

/// AND is the bitwise and: a bit of the result is set exactly where it is set in both A and the
/// operand. Z is set exactly when the result is 0, H is set, N and C are cleared.
pub proof fn lemma_and_is_bitwise_and(reg: Registers, n: u8)
    ensures
        forall|i: u8| i < 8 ==> #[trigger] bit(and_spec(reg, n).1, i) == (bit(reg.a, i) && bit(n, i)),
        and_spec(reg, n).0.flag(7) == (and_spec(reg, n).1 == 0),
        !and_spec(reg, n).0.flag(6),
        and_spec(reg, n).0.flag(5),
        !and_spec(reg, n).0.flag(4),
        and_spec(reg, n).0 == (Registers { f: and_spec(reg, n).0.f, ..reg }),
        and_spec(reg, 0xFF).1 == reg.a,
{
    let a = reg.a;
    assert forall|i: u8| i < 8 implies #[trigger] bit(and_spec(reg, n).1, i) == (bit(a, i) && bit(n, i)) by {
        assert(i < 8 ==> ((((a & n) >> i) & 1u8 == 1u8) == (((a >> i) & 1u8 == 1u8) && ((n >> i) & 1u8 == 1u8)))) by (bit_vector);
    }
    assert(a & 0xFFu8 == a) by (bit_vector);
    lemma_znhc(reg, a & n == 0, false, true, false);
}

/// OR is the bitwise or: a bit of the result is set exactly where it is set in A or in the
/// operand. Z is set exactly when both are 0, N, H and C are cleared.
pub proof fn lemma_or_is_bitwise_or(reg: Registers, n: u8)
    ensures
        forall|i: u8| i < 8 ==> #[trigger] bit(or_spec(reg, n).1, i) == (bit(reg.a, i) || bit(n, i)),
        or_spec(reg, n).0.flag(7) == (reg.a == 0 && n == 0),
        !or_spec(reg, n).0.flag(6),
        !or_spec(reg, n).0.flag(5),
        !or_spec(reg, n).0.flag(4),
        or_spec(reg, n).0 == (Registers { f: or_spec(reg, n).0.f, ..reg }),
        or_spec(reg, 0).1 == reg.a,
{
    let a = reg.a;
    assert forall|i: u8| i < 8 implies #[trigger] bit(or_spec(reg, n).1, i) == (bit(a, i) || bit(n, i)) by {
        assert(i < 8 ==> ((((a | n) >> i) & 1u8 == 1u8) == (((a >> i) & 1u8 == 1u8) || ((n >> i) & 1u8 == 1u8)))) by (bit_vector);
    }
    assert(((a | n) == 0) == (a == 0 && n == 0)) by (bit_vector);
    assert(a | 0u8 == a) by (bit_vector);
    lemma_znhc(reg, a | n == 0, false, false, false);
}

/// ADD (ADC with the carry flag as carry in) is 8-bit addition: the result plus 256 for a set C
/// flag is exactly A + operand + carry in; Z is set exactly when the result is 0, N is cleared,
/// and H is the carry out of the low nibbles.
pub proof fn lemma_add_is_addition(reg: Registers, n: u8, add_carry: bool)
    ensures
        ({
            let cin: int = if add_carry && reg.flag(4) { 1 } else { 0 };
            let (r1, r) = add_spec(reg, n, add_carry);
            &&& r + (if r1.flag(4) { 256int } else { 0 }) == reg.a + n + cin
            &&& r1.flag(7) == (r == 0)
            &&& !r1.flag(6)
            &&& r1.flag(5) == (reg.a % 16 + n % 16 > 15)
            &&& r1 == (Registers { f: r1.f, ..reg })
        }),
{
    let cin = if add_carry { carry_in(reg) } else { 0 };
    let sum = reg.a + n + cin;
    lemma_znhc(reg, (sum % 256) as u8 == 0, false, reg.a % 16 + n % 16 > 15, sum > 255);
}

/// SUB (and CP, which keeps A) is 8-bit subtraction: the result plus the operand is A, plus
/// 256 when C is set (a borrow); Z is set exactly when A equals the operand, N is set, and H is
/// the borrow out of the low nibble. Subtracting what was added gives A back.
pub proof fn lemma_sub_is_subtraction(reg: Registers, n: u8)
    ensures
        ({
            let (r1, r) = sub_spec(reg, n, false);
            &&& r + n == reg.a + (if r1.flag(4) { 256int } else { 0 })
            &&& r1.flag(4) == (reg.a < n)
            &&& r1.flag(7) == (reg.a == n)
            &&& r1.flag(6)
            &&& r1.flag(5) == (reg.a % 16 < n % 16)
            &&& r1 == (Registers { f: r1.f, ..reg })
            &&& sub_spec(Registers { a: add_spec(reg, n, false).1, ..reg }, n, false).1 == reg.a
        }),
{
    let rhs = ((n + 0int) % 256) as u8;
    assert(rhs == n);
    let r = ((reg.a - rhs + 256) % 256) as u8;
    lemma_znhc(reg, r == 0, true, reg.a % 16 < rhs % 16, reg.a < rhs);
}

} // verus!
