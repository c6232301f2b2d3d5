//! Laws that say what the operations of the processor and the devices are
//! for, over all their inputs: the arithmetic and logic results of
//! instructions, the layout and mirroring of tiles, the rate of the timers
//! and the condition of the keypad interrupt.
use vstd::prelude::*;
use crate::cpu::alu::{bit, lemma_adder_laws, lemma_subtract_laws, shift_value};
use crate::cpu::arm::{dp_alu, mul_mula_ok, mul_mula_step};
use crate::cpu::registers::FLAG_C;
use crate::cpu::thumb::{add_sub_step, immediate_step};
use crate::cpu::processor::CpuView;
use crate::cpu::registers::RegsView;
use crate::cpu::thumb::alu_step;
use crate::io::keypad::keypad_irq;
use crate::io::ppu::tile_color;
use crate::io::timers::Timer;

verus! {

broadcast use crate::cpu::alu::group_masks;

/// A register written then read gives what was written.
proof fn lemma_reg_read_after_write(regs: RegsView, i: int, v: u32)
    requires
        regs.gprs.len() == 30,
        0 <= i < 16,
    ensures
        regs.with_reg(i, v).reg(i) == v,
{
}

/// MUL leaves in Rd the low 32 bits of Rm * Rs, and MLA those of
/// Rm * Rs + Rn.
pub proof fn law_mul_mula_result(s: CpuView, instr: u32, resp: Seq<u32>)
    requires
        s.wf(),
        mul_mula_ok(instr),
    ensures
        ({
            let rd = ((instr >> 16u32) & 0xF) as int;
            let rn = s.regs.reg(((instr >> 12u32) & 0xF) as int);
            let rs = s.regs.reg(((instr >> 8u32) & 0xF) as int);
            let rm = s.regs.reg((instr & 0xF) as int);
            let acc = (instr >> 21u32) & 1 == 1;
            mul_mula_step(s, instr, resp).0.regs.reg(rd) == (rm * rs + (if acc { rn as int } else { 0 }))
                % 0x1_0000_0000
        }),
{
    let rd = ((instr >> 16u32) & 0xF) as int;
    let rn = s.regs.reg(((instr >> 12u32) & 0xF) as int);
    let rs = s.regs.reg(((instr >> 8u32) & 0xF) as int);
    let rm = s.regs.reg((instr & 0xF) as int);
    let m: int = 0x1_0000_0000;
    let acc = (instr >> 21u32) & 1 == 1;
    let cs = (instr >> 20u32) & 1 == 1;
    let product = rs.wrapping_mul(rm);
    let result = if acc { product.wrapping_add(rn) } else { product };
    let r1 = if cs {
        s.regs.with_flag(crate::cpu::registers::FLAG_N, bit(result, 31)).with_flag(
            crate::cpu::registers::FLAG_Z,
            result == 0,
        )
    } else {
        s.regs
    };
    lemma_reg_read_after_write(r1, rd, result);
    assert(mul_mula_step(s, instr, resp).0.regs == r1.with_reg(rd, result));
    let p = (rs as nat * rm as nat) % (m as nat);
    assert(rs as nat * rm as nat == rm * rs) by (nonlinear_arith);
    vstd::arithmetic::div_mod::lemma_add_mod_noop(rm * rs, rn as int, m);
    vstd::arithmetic::div_mod::lemma_mod_bound(rm * rs, m);
    vstd::arithmetic::div_mod::lemma_small_mod(rn as nat, m as nat);
    if p + rn < m {
        vstd::arithmetic::div_mod::lemma_small_mod((p + rn) as nat, m as nat);
    } else {
        vstd::arithmetic::div_mod::lemma_mod_sub_multiples_vanish((p + rn) as int, m);
        vstd::arithmetic::div_mod::lemma_small_mod((p + rn - m) as nat, m as nat);
    }
}

/// THUMB's logical operations work bit by bit: bit `b` of Rd afterwards
/// is, from bit `b` of Rd and Rs before, their AND (AND), their exclusive
/// OR (EOR), their OR (ORR), Rd's and not Rs's (BIC), or the inverse of
/// Rs's (MVN).
pub proof fn law_thumb_logical_bits(s: CpuView, instr: u16, resp: Seq<u32>, b: u32)
    requires
        s.wf(),
        b < 32,
    ensures
        ({
            let i = instr as u32;
            let opcode = (i >> 6u32) & 0xF;
            let rd = (i & 0x7) as int;
            let x = s.regs.reg(rd);
            let y = s.regs.reg(((i >> 3u32) & 0x7) as int);
            let r = alu_step(s, instr, resp).0.regs.reg(rd);
            &&& opcode == 0x0 ==> (bit(r, b) <==> bit(x, b) && bit(y, b))
            &&& opcode == 0x1 ==> (bit(r, b) <==> bit(x, b) != bit(y, b))
            &&& opcode == 0xC ==> (bit(r, b) <==> bit(x, b) || bit(y, b))
            &&& opcode == 0xE ==> (bit(r, b) <==> bit(x, b) && !bit(y, b))
            &&& opcode == 0xF ==> (bit(r, b) <==> !bit(y, b))
        }),
{
    let i = instr as u32;
    let rd = (i & 0x7) as int;
    let x = s.regs.reg(rd);
    let y = s.regs.reg(((i >> 3u32) & 0x7) as int);
    let opcode = (i >> 6u32) & 0xF;
    let st = alu_step(s, instr, resp).0;
    if opcode == 0x0 || opcode == 0x1 || opcode == 0xC || opcode == 0xE || opcode == 0xF {
        let result = if opcode == 0x0 { x & y } else if opcode == 0x1 { x ^ y } else if opcode == 0xC { x | y } else if opcode
            == 0xE { x & !y } else { !y };
        let r1 = s.regs.with_flag(crate::cpu::registers::FLAG_N, bit(result, 31)).with_flag(
            crate::cpu::registers::FLAG_Z,
            result == 0,
        );
        lemma_reg_read_after_write(r1, rd, result);
        assert(st.regs == r1.with_reg(rd, result));
        assert(st.regs.reg(rd) == result);
    }
    lemma_logic_bits(x, y, b);
}

/// The bitwise operations, bit by bit.
proof fn lemma_logic_bits(x: u32, y: u32, b: u32)
    requires
        b < 32,
    ensures
        bit(x & y, b) <==> bit(x, b) && bit(y, b),
        bit(x ^ y, b) <==> bit(x, b) != bit(y, b),
        bit(x | y, b) <==> bit(x, b) || bit(y, b),
        bit(x & !y, b) <==> bit(x, b) && !bit(y, b),
        bit(!y, b) <==> !bit(y, b),
{
    assert({
        &&& (((x & y) >> b) & 1 == 1 <==> (x >> b) & 1 == 1 && (y >> b) & 1 == 1)
        &&& (((x ^ y) >> b) & 1 == 1 <==> ((x >> b) & 1 == 1) != ((y >> b) & 1 == 1))
        &&& (((x | y) >> b) & 1 == 1 <==> (x >> b) & 1 == 1 || (y >> b) & 1 == 1)
        &&& (((x & !y) >> b) & 1 == 1 <==> (x >> b) & 1 == 1 && !((y >> b) & 1 == 1))
        &&& ((!y >> b) & 1 == 1 <==> !((y >> b) & 1 == 1))
    }) by (bit_vector)
        requires
            b < 32,
    ;
}

/// The ALU of the ARM data processing instructions: the arithmetic ones
/// give their sum or difference modulo 2^32 (with the carry flag for ADC,
/// SBC and RSC), MOV gives its operand, and the logical ones work bit by
/// bit.
pub proof fn law_arm_alu_result(r: RegsView, opcode: u32, a: u32, b: u32, cs: bool, k: u32)
    requires
        k < 32,
    ensures
        ({
            let res = dp_alu(r, opcode, a, b, cs).0;
            let c: int = if r.flag(FLAG_C) { 1 } else { 0 };
            let m: int = 0x1_0000_0000;
            &&& (opcode == 0x4 || opcode == 0xB) ==> res == (a + b) % m
            &&& (opcode == 0x2 || opcode == 0xA) ==> res == (a - b) % m
            &&& opcode == 0x3 ==> res == (b - a) % m
            &&& opcode == 0x5 ==> res == (a + b + c) % m
            &&& opcode == 0x6 ==> res == (a - b - 1 + c) % m
            &&& opcode == 0x7 ==> res == (b - a - 1 + c) % m
            &&& opcode == 0xD ==> res == b
            &&& (opcode == 0x0 || opcode == 0x8) ==> (bit(res, k) <==> bit(a, k) && bit(b, k))
            &&& (opcode == 0x1 || opcode == 0x9) ==> (bit(res, k) <==> bit(a, k) != bit(b, k))
            &&& opcode == 0xC ==> (bit(res, k) <==> bit(a, k) || bit(b, k))
            &&& opcode == 0xE ==> (bit(res, k) <==> bit(a, k) && !bit(b, k))
            &&& opcode == 0xF ==> (bit(res, k) <==> !bit(b, k))
        }),
{
    let cf = r.flag(FLAG_C);
    lemma_adder_laws(a, b, false);
    lemma_adder_laws(a, b, cf);
    lemma_subtract_laws(a, b);
    lemma_subtract_laws(b, a);
    lemma_adder_laws(a, !b, cf);
    lemma_adder_laws(b, !a, cf);
    lemma_logic_bits(a, b, k);
}

/// THUMB's arithmetic ALU operations: ADC gives Rd + Rs + carry, SBC
/// Rd - Rs - 1 + carry, NEG 0 - Rs and MUL Rd * Rs, all modulo 2^32, in Rd.
pub proof fn law_thumb_alu_arith(s: CpuView, instr: u16, resp: Seq<u32>)
    requires
        s.wf(),
    ensures
        ({
            let i = instr as u32;
            let opcode = (i >> 6u32) & 0xF;
            let rd = (i & 0x7) as int;
            let x = s.regs.reg(rd);
            let y = s.regs.reg(((i >> 3u32) & 0x7) as int);
            let c: int = if s.regs.flag(FLAG_C) { 1 } else { 0 };
            let r = alu_step(s, instr, resp).0.regs.reg(rd);
            let m: int = 0x1_0000_0000;
            &&& opcode == 0x5 ==> r == (x + y + c) % m
            &&& opcode == 0x6 ==> r == (x - y - 1 + c) % m
            &&& opcode == 0x9 ==> r == (0 - y) % m
            &&& opcode == 0xD ==> r == (x * y) % m
        }),
{
    let i = instr as u32;
    let rd = (i & 0x7) as int;
    let x = s.regs.reg(rd);
    let y = s.regs.reg(((i >> 3u32) & 0x7) as int);
    let cf = s.regs.flag(FLAG_C);
    lemma_adder_laws(x, y, cf);
    lemma_subtract_laws(x, y);
    lemma_subtract_laws(0, y);
    lemma_adder_laws(x, !y, cf);
    assert(x as nat * y as nat == x * y) by (nonlinear_arith);
}

/// THUMB.2: ADD and SUB leave in Rd the sum or difference of Rs and the
/// operand (a register, or the 3-bit immediate) modulo 2^32.
pub proof fn law_thumb_add_sub(s: CpuView, instr: u16, resp: Seq<u32>)
    requires
        s.wf(),
    ensures
        ({
            let i = instr as u32;
            let operand = if (i >> 10u32) & 1 == 1 { (i >> 6u32) & 0x7 } else { s.regs.reg(((i >> 6u32) & 0x7) as int) };
            let src = s.regs.reg(((i >> 3u32) & 0x7) as int);
            let r = add_sub_step(s, instr, resp).0.regs.reg((i & 0x7) as int);
            if (i >> 9u32) & 1 == 1 {
                r == (src - operand) % 0x1_0000_0000
            } else {
                r == (src + operand) % 0x1_0000_0000
            }
        }),
{
    let i = instr as u32;
    let operand = if (i >> 10u32) & 1 == 1 { (i >> 6u32) & 0x7 } else { s.regs.reg(((i >> 6u32) & 0x7) as int) };
    let src = s.regs.reg(((i >> 3u32) & 0x7) as int);
    lemma_adder_laws(src, operand, false);
    lemma_subtract_laws(src, operand);
}

/// THUMB.3: MOV puts the 8-bit immediate in Rd, ADD and SUB add it to or
/// subtract it from Rd modulo 2^32, and CMP leaves Rd as it was.
pub proof fn law_thumb_immediate(s: CpuView, instr: u16, resp: Seq<u32>)
    requires
        s.wf(),
    ensures
        ({
            let i = instr as u32;
            let opcode = (i >> 11u32) & 0x3;
            let rd = ((i >> 8u32) & 0x7) as int;
            let imm = i & 0xFF;
            let x = s.regs.reg(rd);
            let r = immediate_step(s, instr, resp).0.regs.reg(rd);
            &&& opcode == 0 ==> r == imm
            &&& opcode == 1 ==> r == x
            &&& opcode == 2 ==> r == (x + imm) % 0x1_0000_0000
            &&& opcode == 3 ==> r == (x - imm) % 0x1_0000_0000
        }),
{
    let i = instr as u32;
    let rd = ((i >> 8u32) & 0x7) as int;
    let imm = i & 0xFF;
    let x = s.regs.reg(rd);
    lemma_adder_laws(x, imm, false);
    lemma_subtract_laws(x, imm);
}

/// The barrel shifter by 1 to 31 places: LSL moves every bit up by `n`,
/// bringing in zeros; LSR moves them down, bringing in zeros; ASR moves
/// them down, bringing in copies of the sign bit; ROR rotates them.
pub proof fn law_shift_bits(c: bool, x: u32, n: u32, imm: bool, k: u32)
    requires
        0 < n < 32,
        k < 32,
    ensures
        k < n ==> !bit(shift_value(c, 0, x, n, imm), k),
        k + n < 32 ==> (bit(shift_value(c, 0, x, n, imm), (k + n) as u32) <==> bit(x, k)),
        bit(shift_value(c, 1, x, n, imm), k) <==> k + n < 32 && bit(x, (k + n) as u32),
        bit(shift_value(c, 2, x, n, imm), k) <==> if k + n < 32 { bit(x, (k + n) as u32) } else { bit(x, 31) },
        bit(shift_value(c, 3, x, n, imm), k) <==> bit(x, ((k + n) % 32) as u32),
{
    let kn = (k + n) as u32;
    let kr = ((k + n) % 32) as u32;
    assert({
        &&& (k < n ==> ((x << n) >> k) & 1 != 1)
        &&& (k + n < 32 ==> (((x << n) >> kn) & 1 == 1 <==> (x >> k) & 1 == 1))
        &&& (((x >> n) >> k) & 1 == 1 <==> k + n < 32 && (x >> kn) & 1 == 1)
        &&& ((x >> 31u32) & 1 == 1 ==> (((!((!x) >> n)) >> k) & 1 == 1 <==> if k + n < 32 {
            (x >> kn) & 1 == 1
        } else {
            (x >> 31u32) & 1 == 1
        }))
        &&& ((x >> 31u32) & 1 != 1 ==> (((x >> n) >> k) & 1 == 1 <==> if k + n < 32 {
            (x >> kn) & 1 == 1
        } else {
            (x >> 31u32) & 1 == 1
        }))
        &&& ((((x >> n) | (x << ((32 - n) as u32))) >> k) & 1 == 1 <==> (x >> kr) & 1 == 1)
    }) by (bit_vector)
        requires
            0 < n < 32,
            k < 32,
            kn == (k + n) as u32,
            kr == ((k + n) % 32) as u32,
    ;
}

/// A tile drawn mirrored left to right shows at column `x` what it shows
/// unmirrored at column 7 - x of the same row; mirrored top to bottom, it
/// shows at row `y` what it shows at row 7 - y of the same column.
pub proof fn law_tile_flip(
    vram: Seq<u8>,
    tile_start: int,
    tile_num: int,
    flip_x: bool,
    flip_y: bool,
    bit_depth: int,
    x: int,
    y: int,
    palette: int,
)
    requires
        0 <= x < 8,
        0 <= y < 8,
    ensures
        tile_color(vram, tile_start, tile_num, true, flip_y, bit_depth, x, y, palette) == tile_color(
            vram,
            tile_start,
            tile_num,
            false,
            flip_y,
            bit_depth,
            7 - x,
            y,
            palette,
        ),
        tile_color(vram, tile_start, tile_num, flip_x, true, bit_depth, x, y, palette) == tile_color(
            vram,
            tile_start,
            tile_num,
            flip_x,
            false,
            bit_depth,
            x,
            7 - y,
            palette,
        ),
{
}

/// An unmirrored tile holds its 64 pixels row by row, pixel `k` = 8y + x:
/// with 8 bits per pixel, pixel `k` is byte `k` of the tile; with 4 bits,
/// it is the low (`k` even) or high (`k` odd) half of byte `k` / 2.
pub proof fn law_tile_layout(vram: Seq<u8>, tile_start: int, tile_num: int, x: int, y: int, palette: int)
    requires
        0 <= x < 8,
        0 <= y < 8,
        0 <= tile_start,
        0 <= tile_num,
    ensures
        ({
            let k = 8 * y + x;
            let base8 = tile_start + 64 * tile_num;
            let base4 = tile_start + 32 * tile_num;
            &&& base8 + 64 <= vram.len() ==> tile_color(vram, tile_start, tile_num, false, false, 8, x, y, palette)
                == (0int, vram[base8 + k] as int)
            &&& base4 + 32 <= vram.len() ==> tile_color(vram, tile_start, tile_num, false, false, 4, x, y, palette)
                == (palette, (if k % 2 == 0 { vram[base4 + k / 2] % 16 } else { vram[base4 + k / 2] / 16 }) as int)
        }),
{
    let k = 8 * y + x;
    assert(k / 2 == y * 4 + x / 2 && k % 2 == x % 2) by {
        vstd::arithmetic::div_mod::lemma_fundamental_div_mod(x, 2);
        vstd::arithmetic::div_mod::lemma_fundamental_div_mod(k, 2);
    }
}

/// The number of cycles per tick of a timer's prescaler setting `p`: 1, 64,
/// 256 or 1024.
pub open spec fn cycles_per_tick(p: u8) -> int {
    if p == 0 {
        1
    } else if p == 1 {
        64
    } else if p == 2 {
        256
    } else {
        1024
    }
}

/// A running timer on the prescaled clock counts one more every 1, 64,
/// 256 or 1024 cycles (prescaler setting 0, 1, 2 or 3) once it has
/// started ticking, while its count is defined.
pub proof fn law_timer_rate(t: Timer, g: int)
    requires
        !t.cnt.count_up,
        t.cnt.start,
        t.cnt.prescaler < 4,
        g - t.start_cycle >= t.time_till_first_clock,
        t.count_defined(g + cycles_per_tick(t.cnt.prescaler)),
    ensures
        t.count_read(g + cycles_per_tick(t.cnt.prescaler)) == t.count_read(g) + 1,
{
    let n = cycles_per_tick(t.cnt.prescaler);
    let a = g - t.start_cycle - t.time_till_first_clock;
    vstd::arithmetic::div_mod::lemma_div_plus_one(a, n);
    assert(a + n == n + a);
    vstd::arithmetic::div_mod::lemma_div_pos_is_pos(a, n);
}

/// A timer scheduled at cycle `g` first ticks within one period of its
/// prescaler, then overflows after one period per count from its reload
/// value up to 0xFFFF.
pub proof fn law_timer_overflow(t: Timer, g: int)
    requires
        0 <= g <= usize::MAX,
        t.cnt.prescaler < 4,
    ensures
        ({
            let u = t.scheduled(g);
            let n = cycles_per_tick(t.cnt.prescaler);
            &&& u.start_cycle == g
            &&& 1 <= u.time_till_first_clock <= n
            &&& u.timer_len == n * (0xFFFF - t.reload)
        }),
{
    let n = cycles_per_tick(t.cnt.prescaler);
    vstd::arithmetic::div_mod::lemma_mod_bound(g + 1, n);
    assert(0 <= n * (0xFFFF - t.reload) <= 1024 * 0xFFFF) by (nonlinear_arith)
        requires
            1 <= n <= 1024,
            0 <= t.reload <= 0xFFFF,
    ;
}

/// Whether bit `b` of `v` is set.
pub open spec fn key_bit(v: u16, b: u16) -> bool {
    (v >> b) & 1 == 1
}

/// The keypad interrupt, when enabled, asks for the selected buttons (bits
/// 0 to 9 of KEYCNT) against KEYINPUT, where a pressed button reads 0: with
/// bit 15 set it is raised exactly when every selected button is pressed,
/// and with bit 15 clear exactly when some selected button is pressed.
pub proof fn law_keypad_condition(keycnt: u16, keyinput: u16)
    requires
        keycnt & 0x4000 != 0,
    ensures
        keycnt & 0x8000 != 0 ==> (keypad_irq(keycnt, keyinput) <==> forall|b: u16|
            b < 10 && #[trigger] key_bit(keycnt, b) ==> !key_bit(keyinput, b)),
        keycnt & 0x8000 == 0 ==> (keypad_irq(keycnt, keyinput) <==> exists|b: u16|
            b < 10 && #[trigger] key_bit(keycnt, b) && !key_bit(keyinput, b)),
{
    let c = keycnt;
    let i = keyinput;
    assert({
        &&& ((c & 0x3FF) & !i == (c & 0x3FF) <==> {
            &&& ((c >> 0u16) & 1 == 1 ==> (i >> 0u16) & 1 != 1)
            &&& ((c >> 1u16) & 1 == 1 ==> (i >> 1u16) & 1 != 1)
            &&& ((c >> 2u16) & 1 == 1 ==> (i >> 2u16) & 1 != 1)
            &&& ((c >> 3u16) & 1 == 1 ==> (i >> 3u16) & 1 != 1)
            &&& ((c >> 4u16) & 1 == 1 ==> (i >> 4u16) & 1 != 1)
            &&& ((c >> 5u16) & 1 == 1 ==> (i >> 5u16) & 1 != 1)
            &&& ((c >> 6u16) & 1 == 1 ==> (i >> 6u16) & 1 != 1)
            &&& ((c >> 7u16) & 1 == 1 ==> (i >> 7u16) & 1 != 1)
            &&& ((c >> 8u16) & 1 == 1 ==> (i >> 8u16) & 1 != 1)
            &&& ((c >> 9u16) & 1 == 1 ==> (i >> 9u16) & 1 != 1)
        })
        &&& ((c & 0x3FF) & !i != 0 <==> {
            ||| ((c >> 0u16) & 1 == 1 && (i >> 0u16) & 1 != 1)
            ||| ((c >> 1u16) & 1 == 1 && (i >> 1u16) & 1 != 1)
            ||| ((c >> 2u16) & 1 == 1 && (i >> 2u16) & 1 != 1)
            ||| ((c >> 3u16) & 1 == 1 && (i >> 3u16) & 1 != 1)
            ||| ((c >> 4u16) & 1 == 1 && (i >> 4u16) & 1 != 1)
            ||| ((c >> 5u16) & 1 == 1 && (i >> 5u16) & 1 != 1)
            ||| ((c >> 6u16) & 1 == 1 && (i >> 6u16) & 1 != 1)
            ||| ((c >> 7u16) & 1 == 1 && (i >> 7u16) & 1 != 1)
            ||| ((c >> 8u16) & 1 == 1 && (i >> 8u16) & 1 != 1)
            ||| ((c >> 9u16) & 1 == 1 && (i >> 9u16) & 1 != 1)
        })
    }) by (bit_vector);
    assert(key_bit(c, 0) == ((c >> 0u16) & 1 == 1) && key_bit(i, 0) == ((i >> 0u16) & 1 == 1));
    assert(key_bit(c, 1) == ((c >> 1u16) & 1 == 1) && key_bit(i, 1) == ((i >> 1u16) & 1 == 1));
    assert(key_bit(c, 2) == ((c >> 2u16) & 1 == 1) && key_bit(i, 2) == ((i >> 2u16) & 1 == 1));
    assert(key_bit(c, 3) == ((c >> 3u16) & 1 == 1) && key_bit(i, 3) == ((i >> 3u16) & 1 == 1));
    assert(key_bit(c, 4) == ((c >> 4u16) & 1 == 1) && key_bit(i, 4) == ((i >> 4u16) & 1 == 1));
    assert(key_bit(c, 5) == ((c >> 5u16) & 1 == 1) && key_bit(i, 5) == ((i >> 5u16) & 1 == 1));
    assert(key_bit(c, 6) == ((c >> 6u16) & 1 == 1) && key_bit(i, 6) == ((i >> 6u16) & 1 == 1));
    assert(key_bit(c, 7) == ((c >> 7u16) & 1 == 1) && key_bit(i, 7) == ((i >> 7u16) & 1 == 1));
    assert(key_bit(c, 8) == ((c >> 8u16) & 1 == 1) && key_bit(i, 8) == ((i >> 8u16) & 1 == 1));
    assert(key_bit(c, 9) == ((c >> 9u16) & 1 == 1) && key_bit(i, 9) == ((i >> 9u16) & 1 == 1));
}

} // verus!
