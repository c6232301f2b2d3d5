//! The condition codes, the barrel shifter and the adder of the ARM7TDMI, as
//! mathematical functions.
use vstd::prelude::*;

verus! {

/// Bit `i` of `x`.
pub open spec fn bit(x: u32, i: u32) -> bool {
    (x >> i) & 1 == 1
}

/// Arithmetic shift right by `n` (0 to 31): the sign bit fills the top.
pub open spec fn asr(x: u32, n: u32) -> u32 {
    if bit(x, 31) {
        !((!x) >> n)
    } else {
        x >> n
    }
}

/// Rotation right by `n` modulo 32.
pub open spec fn ror(x: u32, n: u32) -> u32 {
    let n = n % 32;
    if n == 0 {
        x
    } else {
        (x >> n) | (x << ((32 - n) as u32))
    }
}

/// `x` read as a two's complement number.
pub open spec fn sint(x: u32) -> int {
    if x < 0x8000_0000 {
        x as int
    } else {
        x as int - 0x1_0000_0000
    }
}

pub open spec fn b2i(b: bool) -> int {
    if b {
        1
    } else {
        0
    }
}

/// The low word of `a + b + c`.
pub open spec fn add_value(a: u32, b: u32, c: bool) -> u32 {
    let s = a + b + b2i(c);
    if s > u32::MAX {
        (s - 0x1_0000_0000) as u32
    } else {
        s as u32
    }
}

/// The carry out of `a + b + c`: the sum does not fit in a word.
pub open spec fn add_carry(a: u32, b: u32, c: bool) -> bool {
    a + b + b2i(c) > u32::MAX
}

/// The overflow flag that the adder reports for `a + b + c`: the signed sum
/// `a + b` does not fit, or adding the carry takes it past the largest value.
pub open spec fn add_overflow(a: u32, b: u32, c: bool) -> bool {
    sint(a) + sint(b) + b2i(c) > i32::MAX || sint(a) + sint(b) < i32::MIN
}

/// Whether condition field `cond` holds for the flags `n`, `z`, `c`, `v`.
pub open spec fn condition_holds(cond: u32, n: bool, z: bool, c: bool, v: bool) -> bool {
    if cond == 0x0 {
        z
    } else if cond == 0x1 {
        !z
    } else if cond == 0x2 {
        c
    } else if cond == 0x3 {
        !c
    } else if cond == 0x4 {
        n
    } else if cond == 0x5 {
        !n
    } else if cond == 0x6 {
        v
    } else if cond == 0x7 {
        !v
    } else if cond == 0x8 {
        c && !z
    } else if cond == 0x9 {
        !c || z
    } else if cond == 0xA {
        n == v
    } else if cond == 0xB {
        n != v
    } else if cond == 0xC {
        !z && n == v
    } else if cond == 0xD {
        z || n != v
    } else if cond == 0xE {
        true
    } else {
        false
    }
}

/// The value that the barrel shifter produces. `ty` is the shift type (0 LSL,
/// 1 LSR, 2 ASR, 3 ROR), `n` the amount, `imm` whether the amount came from
/// the instruction, `c` the carry flag before the shift.
/// Amounts above 31 shift as the hardware's shift unit of the host does:
/// `x >> n` takes `n` modulo 32.
pub open spec fn shift_value(c: bool, ty: u32, x: u32, n: u32, imm: bool) -> u32 {
    if imm && n == 0 {
        if ty == 0 {
            x
        } else if ty == 1 {
            0
        } else if ty == 2 {
            if bit(x, 31) {
                0xFFFF_FFFF
            } else {
                0
            }
        } else {
            (if c {
                0x8000_0000u32
            } else {
                0u32
            }) | (x >> 1u32)
        }
    } else if n > 31 {
        if ty == 0 {
            0
        } else if ty == 1 {
            x >> (n % 32)
        } else if ty == 2 {
            if bit(x, 31) {
                0xFFFF_FFFF
            } else {
                0
            }
        } else {
            ror(x, n)
        }
    } else {
        if ty == 0 {
            x << n
        } else if ty == 1 {
            x >> n
        } else if ty == 2 {
            asr(x, n)
        } else {
            ror(x, n)
        }
    }
}

/// Whether the shift produces a carry out (otherwise the carry flag stays).
pub open spec fn shift_sets_carry(ty: u32, n: u32, imm: bool) -> bool {
    if imm && n == 0 {
        ty != 0
    } else if n > 31 {
        true
    } else {
        n != 0
    }
}

/// The carry out of the shift, where `shift_sets_carry` holds.
pub open spec fn shift_carry(ty: u32, x: u32, n: u32, imm: bool) -> bool {
    if imm && n == 0 {
        if ty == 3 {
            bit(x, 0)
        } else {
            bit(x, 31)
        }
    } else if n > 31 {
        if ty == 0 {
            n == 32 && bit(x, 0)
        } else if ty == 1 {
            n == 32 && bit(x, 31)
        } else if ty == 2 {
            bit(x, 31)
        } else {
            bit(x, ((n - 1) % 32) as u32)
        }
    } else {
        if ty == 0 {
            bit(x, (32 - n) as u32)
        } else {
            bit(x, (n - 1) as u32)
        }
    }
}


/// A masked value is at most the mask.
pub broadcast proof fn lemma_and_le_u32(x: u32, m: u32)
    ensures
        #[trigger] (x & m) <= m,
{
    assert(x & m <= m) by (bit_vector);
}

pub broadcast proof fn lemma_and_le_u16(x: u16, m: u16)
    ensures
        #[trigger] (x & m) <= m,
{
    assert(x & m <= m) by (bit_vector);
}

pub broadcast proof fn lemma_and_le_u8(x: u8, m: u8)
    ensures
        #[trigger] (x & m) <= m,
{
    assert(x & m <= m) by (bit_vector);
}

/// An odd number is at least one.
pub proof fn lemma_odd_pos(x: u32)
    requires
        x & 1 != 0,
    ensures
        x >= 1,
{
    assert(x & 1 != 0 ==> x >= 1) by (bit_vector);
}

pub broadcast group group_masks {
    lemma_and_le_u32,
    lemma_and_le_u16,
    lemma_and_le_u8,
}

/// Rotation right by `n` modulo 32.
pub fn ror32(x: u32, n: u32) -> (r: u32)
    ensures
        r == ror(x, n),
{
    let n = n % 32;
    if n == 0 {
        x
    } else {
        (x >> n) | (x << (32 - n))
    }
}

pub fn asr32(x: u32, n: u32) -> (r: u32)
    requires
        n < 32,
    ensures
        r == asr(x, n),
{
    if (x >> 31u32) & 1 == 1 {
        !((!x) >> n)
    } else {
        x >> n
    }
}

fn bit_of(x: u32, i: u32) -> (r: bool)
    requires
        i < 32,
    ensures
        r == bit(x, i),
{
    (x >> i) & 1 == 1
}

/// The barrel shifter: the shifted value and, where the shift produces one,
/// the carry out.
pub fn barrel_shift(c: bool, ty: u32, x: u32, n: u32, imm: bool) -> (r: (u32, Option<bool>))
    requires
        ty < 4,
    ensures
        r.0 == shift_value(c, ty, x, n, imm),
        r.1 == (if shift_sets_carry(ty, n, imm) {
            Some(shift_carry(ty, x, n, imm))
        } else {
            None
        }),
{
    if imm && n == 0 {
        if ty == 0 {
            (x, None)
        } else if ty == 1 {
            (0, Some(bit_of(x, 31)))
        } else if ty == 2 {
            let b = bit_of(x, 31);
            (if b {
                0xFFFF_FFFF
            } else {
                0
            }, Some(b))
        } else {
            let top: u32 = if c {
                0x8000_0000
            } else {
                0
            };
            (top | (x >> 1u32), Some(bit_of(x, 0)))
        }
    } else if n > 31 {
        if ty == 0 {
            (0, Some(n == 32 && bit_of(x, 0)))
        } else if ty == 1 {
            (x >> (n % 32), Some(n == 32 && bit_of(x, 31)))
        } else if ty == 2 {
            let b = bit_of(x, 31);
            (if b {
                0xFFFF_FFFF
            } else {
                0
            }, Some(b))
        } else {
            (ror32(x, n), Some(bit_of(x, (n - 1) % 32)))
        }
    } else {
        let carry = if n == 0 {
            None
        } else if ty == 0 {
            Some(bit_of(x, 32 - n))
        } else {
            Some(bit_of(x, n - 1))
        };
        let value = if ty == 0 {
            x << n
        } else if ty == 1 {
            x >> n
        } else if ty == 2 {
            asr32(x, n)
        } else {
            ror32(x, n)
        };
        (value, carry)
    }
}

/// The adder: `a + b + c` with its carry and overflow.
pub fn add_with_carry(a: u32, b: u32, c: bool) -> (r: (u32, bool, bool))
    ensures
        r.0 == add_value(a, b, c),
        r.1 == add_carry(a, b, c),
        r.2 == add_overflow(a, b, c),
{
    let cin: u64 = if c {
        1
    } else {
        0
    };
    let sum: u64 = a as u64 + b as u64 + cin;
    let value: u32 = if sum > 0xFFFF_FFFF {
        (sum - 0x1_0000_0000) as u32
    } else {
        sum as u32
    };
    let sa: i64 = if a < 0x8000_0000 {
        a as i64
    } else {
        a as i64 - 0x1_0000_0000
    };
    let sb: i64 = if b < 0x8000_0000 {
        b as i64
    } else {
        b as i64 - 0x1_0000_0000
    };
    let overflow = sa + sb + cin as i64 > 0x7FFF_FFFF || sa + sb < -0x8000_0000;
    (value, sum > 0xFFFF_FFFF, overflow)
}

/// Laws of the adder: with no overflow of the signed sum of the operands, the
/// overflow flag says exactly that the signed sum with carry does not fit, and
/// the carry says exactly that the unsigned sum does not fit; the value is the
/// sum modulo 2^32.
pub proof fn lemma_adder_laws(a: u32, b: u32, c: bool)
    ensures
        add_value(a, b, c) as int == (a + b + b2i(c)) % 0x1_0000_0000,
        add_carry(a, b, c) <==> a + b + b2i(c) >= 0x1_0000_0000,
        sint(a) + sint(b) >= i32::MIN ==> (add_overflow(a, b, c) <==> !(i32::MIN <= sint(a)
            + sint(b) + b2i(c) <= i32::MAX)),
        !c ==> (add_overflow(a, b, c) <==> !(i32::MIN <= sint(a) + sint(b) <= i32::MAX)),
{
}

/// Subtraction is addition of the complement with carry in: the carry out is
/// set exactly when no borrow occurs, and the value is the difference modulo
/// 2^32.
pub proof fn lemma_subtract_laws(a: u32, b: u32)
    ensures
        !b == 0xFFFF_FFFF - b,
        add_value(a, !b, true) as int == (a - b) % 0x1_0000_0000,
        add_carry(a, !b, true) <==> a >= b,
{
    assert(!b == 0xFFFF_FFFF - b) by (bit_vector);
}

} // verus!
