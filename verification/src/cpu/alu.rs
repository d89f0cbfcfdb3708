use vstd::prelude::*;

verus! {

/// 1 for a set carry, 0 for a clear one.
pub open spec fn carry_in(carry: bool) -> int {
    if carry {
        1
    } else {
        0
    }
}

/// Result of the adder: the new accumulator, the carry and the overflow flag.
pub struct Sum {
    pub value: u8,
    pub carry: bool,
    pub overflow: bool,
}

/// Result of a shift or rotate: the new byte and the bit shifted out.
pub struct Shifted {
    pub value: u8,
    pub carry: bool,
}

/// Bit 7 of a byte, the sign in two's complement.
pub open spec fn sign(value: u8) -> bool {
    value >= 0x80
}

/// The byte read as a two's complement number.
pub open spec fn signed(value: u8) -> int {
    if value >= 0x80 {
        value - 256
    } else {
        value as int
    }
}

/// Binary addition with carry: `a + m + carry` modulo 256, the carry out of
/// bit 7, and the overflow flag `((a ^ r) & (m ^ r) & 0x80) != 0`.
pub open spec fn add_binary(a: u8, m: u8, carry: bool) -> Sum {
    let sum = a + m + carry_in(carry);
    let r = (sum % 256) as u8;
    Sum { value: r, carry: sum >= 256, overflow: ((a ^ r) & (m ^ r) & 0x80) != 0 }
}

/// Binary subtraction with borrow: the addition of the complement of `m`.
pub open spec fn subtract_binary(a: u8, m: u8, carry: bool) -> Sum {
    add_binary(a, !m, carry)
}

/// Decimal addition, nibble by nibble. A nibble sum above 9 is reduced by 10
/// and carries into the next nibble. The overflow flag compares the signs of
/// the operands with bit 3 of the high nibble's sum before its reduction.
pub open spec fn add_decimal(a: u8, m: u8, carry: bool) -> Sum {
    let low = a % 16 + m % 16 + carry_in(carry);
    let half_carry = low > 9;
    let low_digit = if half_carry {
        (low - 10) % 16
    } else {
        low
    };
    let high = a / 16 + m / 16 + carry_in(half_carry);
    let carry_out = high > 9;
    let high_digit = if carry_out {
        (high - 10) % 16
    } else {
        high
    };
    let high_sign = (high / 8) % 2 == 1;
    Sum {
        value: (high_digit * 16 + low_digit) as u8,
        carry: carry_out,
        overflow: sign(a) != high_sign && sign(m) != high_sign,
    }
}

/// Decimal subtraction, nibble by nibble, with a clear carry as borrow. A
/// negative nibble difference is raised by 10 and borrows from the next
/// nibble; a low nibble that stays negative takes one more from the high
/// nibble. The carry is set when the high nibble did not borrow.
pub open spec fn subtract_decimal(a: u8, m: u8, carry: bool) -> Sum {
    let low = a % 16 - m % 16 - carry_in(!carry);
    let half_borrow = low < 0;
    let low_fixed = if half_borrow {
        low + 10
    } else {
        low
    };
    let high = a / 16 - m / 16 - carry_in(half_borrow);
    let borrow = high < 0;
    let high_fixed = (if borrow {
        high + 10
    } else {
        high
    }) - carry_in(low_fixed < 0);
    let high_sign = ((high % 16) / 8) == 1;
    Sum {
        value: ((high_fixed % 16) * 16 + low_fixed % 16) as u8,
        carry: !borrow,
        overflow: sign(a) != high_sign && !sign(m) != high_sign,
    }
}

/// Shift left by one: bit 7 leaves into the carry, `fill` enters bit 0.
pub open spec fn shift_left(m: u8, fill: bool) -> Shifted {
    Shifted { value: ((m * 2) % 256 + carry_in(fill)) as u8, carry: m >= 0x80 }
}

/// Shift right by one: bit 0 leaves into the carry, `fill` enters bit 7.
pub open spec fn shift_right(m: u8, fill: bool) -> Shifted {
    Shifted { value: (m / 2 + 128 * carry_in(fill)) as u8, carry: m % 2 == 1 }
}

/// `pc + offset`, the offset read as a two's complement byte, modulo 65536.
pub open spec fn relative_target(pc: u16, offset: u8) -> u16 {
    ((pc + signed(offset)) % 65536) as u16
}

/// The page of an address: its high byte.
pub open spec fn page(address: u16) -> int {
    address as int / 256
}

/// `base + index` modulo 65536.
pub open spec fn indexed(base: u16, index: u8) -> u16 {
    ((base + index) % 65536) as u16
}

/// `value + 1` modulo 256.
pub open spec fn increment(value: u8) -> u8 {
    if value == 0xFF {
        0
    } else {
        (value + 1) as u8
    }
}

/// `value - 1` modulo 256.
pub open spec fn decrement(value: u8) -> u8 {
    if value == 0 {
        0xFF
    } else {
        (value - 1) as u8
    }
}

/// `a - m` modulo 256.
pub open spec fn difference(a: u8, m: u8) -> u8 {
    ((a - m) % 256) as u8
}

proof fn lemma_nibbles(x: u8)
    by (bit_vector)
    ensures
        x & 0xf == x % 16,
        x >> 4 == x / 16,
        (x & 0x80 != 0) == (x >= 0x80),
        (x & 0x01 != 0) == (x % 2 == 1),
        x >> 1 == x / 2,
{
}

proof fn lemma_shift_left(x: u8)
    by (bit_vector)
    ensures
        x << 1 == (x * 2) % 256,
        (x << 1) | 1 == (x * 2) % 256 + 1,
{
}

proof fn lemma_shift_right(x: u8)
    by (bit_vector)
    ensures
        (x >> 1) | 0x80 == x / 2 + 128,
{
}

proof fn lemma_join_nibbles(low: u8, high: u8)
    by (bit_vector)
    requires
        low < 16,
        high < 16,
    ensures
        low | (high << 4) == high * 16 + low,
{
}

proof fn lemma_high_sign(high: u8)
    by (bit_vector)
    ensures
        (high & 0x8) << 4 == if (high % 16) / 8 == 1 { 0x80u8 } else { 0u8 },
        high < 32 ==> (high % 16) / 8 == (high / 8) % 2,
{
}

proof fn lemma_sign_disagreement(a: u8, m: u8, s: u8)
    by (bit_vector)
    requires
        s == 0x80 || s == 0,
    ensures
        (((a ^ s) & (m ^ s) & 0x80) != 0) == ((a >= 0x80) != (s == 0x80) && (m >= 0x80) != (s == 0x80)),
        (!m >= 0x80) == !(m >= 0x80),
{
}

/// The sum of two bytes and a carry, computed as the processor does in
/// binary mode.
pub fn compute_add_binary(a: u8, m: u8, carry: bool) -> (sum: Sum)
    ensures
        sum == add_binary(a, m, carry),
{
    let c: u8 = if carry {
        1
    } else {
        0
    };
    let r = a.wrapping_add(m).wrapping_add(c);
    Sum {
        value: r,
        carry: if carry {
            r <= a
        } else {
            r < a
        },
        overflow: ((a ^ r) & (m ^ r) & 0x80) != 0,
    }
}

/// The difference of two bytes with borrow, computed as the processor does
/// in binary mode.
pub fn compute_subtract_binary(a: u8, m: u8, carry: bool) -> (sum: Sum)
    ensures
        sum == subtract_binary(a, m, carry),
{
    compute_add_binary(a, !m, carry)
}

/// The sum of two packed decimal bytes and a carry.
pub fn compute_add_decimal(a: u8, m: u8, carry: bool) -> (sum: Sum)
    ensures
        sum == add_decimal(a, m, carry),
{
    proof {
        lemma_nibbles(a);
        lemma_nibbles(m);
    }
    let mut c: u8 = if carry {
        1
    } else {
        0
    };
    let mut lo: u8 = (a & 0xf).wrapping_add(m & 0xf).wrapping_add(c);
    c = if lo > 9 {
        1
    } else {
        0
    };
    if c != 0 {
        proof {
            lemma_nibbles((lo - 10) as u8);
        }
        lo = (lo - 10) & 0xf;
    }
    let mut hi: u8 = (a >> 4).wrapping_add(m >> 4).wrapping_add(c);
    proof {
        lemma_high_sign(hi);
    }
    let overflow_flag_pre: u8 = (hi & 0x8) << 4;
    c = if hi > 9 {
        1
    } else {
        0
    };
    if c != 0 {
        proof {
            lemma_nibbles((hi - 10) as u8);
        }
        hi = (hi - 10) & 0xf;
    }
    proof {
        lemma_join_nibbles(lo, hi);
        lemma_sign_disagreement(a, m, overflow_flag_pre);
    }
    let r: u8 = lo | (hi << 4);
    Sum {
        value: r,
        carry: c != 0,
        overflow: ((a ^ overflow_flag_pre) & (m ^ overflow_flag_pre) & 0x80) != 0,
    }
}

/// The difference of two packed decimal bytes with borrow.
pub fn compute_subtract_decimal(a: u8, m: u8, carry: bool) -> (sum: Sum)
    ensures
        sum == subtract_decimal(a, m, carry),
{
    proof {
        lemma_nibbles(a);
        lemma_nibbles(m);
    }
    let ghost low: int = a % 16 - m % 16 - carry_in(!carry);
    let mut b: u8 = if carry {
        0
    } else {
        1
    };
    let mut lo: u8 = (a & 0xf).wrapping_sub(m & 0xf).wrapping_sub(b);
    assert(lo as int == if low < 0 { low + 256 } else { low });
    proof {
        lemma_nibbles(lo);
    }
    b = if (lo & 0x80) != 0 {
        1
    } else {
        0
    };
    if b != 0 {
        lo = lo.wrapping_add(10);
    }
    let ghost low_fixed: int = if low < 0 {
        low + 10
    } else {
        low
    };
    assert(lo as int == if low_fixed < 0 { low_fixed + 256 } else { low_fixed });
    proof {
        lemma_nibbles(lo);
    }
    let negative_lo = (lo & 0x80) != 0;
    lo = lo & 0xf;
    assert(lo as int == low_fixed % 16);
    let ghost high: int = a / 16 - m / 16 - carry_in(low < 0);
    let mut hi: u8 = (a >> 4).wrapping_sub(m >> 4).wrapping_sub(b);
    assert(hi as int == if high < 0 { high + 256 } else { high });
    proof {
        lemma_high_sign(hi);
        lemma_nibbles(hi);
    }
    let overflow_flag_pre: u8 = (hi & 0x8) << 4;
    assert((hi as int % 16) == high % 16);
    b = if (hi & 0x80) != 0 {
        1
    } else {
        0
    };
    if b != 0 {
        hi = hi.wrapping_add(10);
    }
    let n: u8 = if negative_lo {
        1
    } else {
        0
    };
    hi = hi.wrapping_sub(n);
    let ghost high_fixed: int = (if high < 0 {
        high + 10
    } else {
        high
    }) - carry_in(low_fixed < 0);
    assert(hi as int == if high_fixed < 0 { high_fixed + 256 } else { high_fixed });
    proof {
        lemma_nibbles(hi);
    }
    hi = hi & 0xf;
    assert(hi as int == high_fixed % 16);
    proof {
        lemma_join_nibbles(lo, hi);
        lemma_sign_disagreement(a, !m, overflow_flag_pre);
        lemma_sign_disagreement(a, m, overflow_flag_pre);
    }
    let r: u8 = lo | (hi << 4);
    Sum {
        value: r,
        carry: b == 0,
        overflow: ((a ^ overflow_flag_pre) & (!m ^ overflow_flag_pre) & 0x80) != 0,
    }
}

/// Shifts left by one, `fill` entering at bit 0.
pub fn compute_shift_left(m: u8, fill: bool) -> (shifted: Shifted)
    ensures
        shifted == shift_left(m, fill),
{
    proof {
        lemma_shift_left(m);
    }
    let value: u8 = if fill {
        (m << 1) | 1
    } else {
        m << 1
    };
    Shifted { value, carry: m >= 0x80 }
}

/// Shifts right by one, `fill` entering at bit 7.
pub fn compute_shift_right(m: u8, fill: bool) -> (shifted: Shifted)
    ensures
        shifted == shift_right(m, fill),
{
    proof {
        lemma_shift_right(m);
        lemma_nibbles(m);
    }
    let value: u8 = if fill {
        (m >> 1) | 0x80
    } else {
        m >> 1
    };
    Shifted { value, carry: (m & 0x01) != 0 }
}

/// The target of a relative branch taken at `pc`.
pub fn compute_relative_target(pc: u16, offset: u8) -> (target: u16)
    ensures
        target == relative_target(pc, offset),
{
    if offset < 0x80 {
        pc.wrapping_add(offset as u16)
    } else {
        pc.wrapping_sub(256 - offset as u16)
    }
}

/// Whether two addresses lie in different pages.
pub fn crosses_page(from: u16, to: u16) -> (crossed: bool)
    ensures
        crossed == (page(from) != page(to)),
{
    from / 256 != to / 256
}

/// Adds an index register to a base address, wrapping around the address
/// space.
pub fn compute_indexed(base: u16, index: u8) -> (address: u16)
    ensures
        address == indexed(base, index),
{
    base.wrapping_add(index as u16)
}

} // verus!
