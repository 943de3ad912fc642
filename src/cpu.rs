//! The instruction interpreter: registers, operand resolution, and the effect
//! of each operation, stated over the bus model and carried out through the
//! bus.
use vstd::prelude::*;

use crate::memory::mem_read_spec;
use crate::opcode::{decode, descriptor, operand_width, Addressing, Opcode, Operation};
use crate::vmem::{
    bus_read, bus_read_word, bus_write, high_byte, low_byte, word, BusView, Vmem,
};

verus! {

#[derive(Clone, Copy, PartialEq, Eq, Structural, Debug)]
pub struct Cpu {
    pub reg_a: u8,
    pub reg_x: u8,
    pub reg_y: u8,
    pub reg_s: u8,
    pub reg_p: u8,
    pub reg_pc: u16,
    pub cycle: i16,
}

/// The fatal condition of the interpreter.
#[derive(Clone, Copy, PartialEq, Eq, Structural, Debug)]
pub enum CpuError {
    /// The opcode byte has no descriptor.
    Unimplemented(u8),
}

pub const FLAG_N: u8 = 0x80;

pub const FLAG_V: u8 = 0x40;

pub const FLAG_R: u8 = 0x20;

pub const FLAG_B: u8 = 0x10;

pub const FLAG_D: u8 = 0x08;

pub const FLAG_I: u8 = 0x04;

pub const FLAG_Z: u8 = 0x02;

pub const FLAG_C: u8 = 0x01;

pub const RESET_VECTOR: u16 = 0xFFFC;

pub const BREAK_VECTOR: u16 = 0xFFFE;

// ---------------------------------------------------------------------------
// Flags

/// Whether the flag bit `f` is set in `p`.
pub open spec fn flag(p: u8, f: u8) -> bool {
    p & f != 0
}

/// `p` with the flag bit `f` set or cleared.
pub open spec fn with_flag(p: u8, f: u8, on: bool) -> u8 {
    if on {
        p | f
    } else {
        p & !f
    }
}

/// `p` with N and Z describing the result byte `v`.
pub open spec fn set_nz(p: u8, v: u8) -> u8 {
    (p & 0x7D) | (v & FLAG_N) | (if v == 0 { FLAG_Z } else { 0u8 })
}

/// Addition with carry: the result byte, the carry out and the signed
/// overflow.
pub open spec fn adc(a: u8, m: u8, carry: bool) -> (u8, bool, bool) {
    let sum = a as int + m as int + (if carry { 1int } else { 0 });
    let r = if sum > 0xFF { (sum - 0x100) as u8 } else { sum as u8 };
    (r, sum > 0xFF, (!(a ^ m)) & (a ^ r) & 0x80 != 0)
}

/// Subtraction with borrow (`carry` clear means borrow): the result byte,
/// the carry out ("no borrow") and the signed overflow.
pub open spec fn sbc(a: u8, m: u8, carry: bool) -> (u8, bool, bool) {
    let diff = a as int - m as int - (if carry { 0int } else { 1 });
    let r = if diff < 0 { (diff + 0x100) as u8 } else { diff as u8 };
    (r, diff >= 0, (a ^ m) & (a ^ r) & 0x80 != 0)
}

/// The status after an addition or subtraction with result `r`, carry out
/// `c` and overflow `v`.
pub open spec fn arith_flags(p: u8, r: u8, c: bool, v: bool) -> u8 {
    with_flag(with_flag(set_nz(p, r), FLAG_C, c), FLAG_V, v)
}

/// The status after comparing register value `reg` with `m`.
pub open spec fn compare_flags(p: u8, reg: u8, m: u8) -> u8 {
    with_flag(set_nz(p, reg.wrapping_sub(m)), FLAG_C, reg >= m)
}

/// `cpu` after an addition with carry of `m` to A.
pub open spec fn add_to_a(c: Cpu, m: u8, carry: bool) -> Cpu {
    let (r, co, v) = adc(c.reg_a, m, carry);
    Cpu { reg_a: r, reg_p: arith_flags(c.reg_p, r, co, v), ..c }
}

/// `cpu` after a subtraction with borrow of `m` from A.
pub open spec fn sub_from_a(c: Cpu, m: u8) -> Cpu {
    let (r, co, v) = sbc(c.reg_a, m, flag(c.reg_p, FLAG_C));
    Cpu { reg_a: r, reg_p: arith_flags(c.reg_p, r, co, v), ..c }
}

// ---------------------------------------------------------------------------
// Fetching and the stack

/// Reads the byte at PC and advances PC by one.
pub open spec fn fetch_byte(c: Cpu, b: BusView) -> (Cpu, BusView, u8) {
    let (b1, v) = bus_read(b, c.reg_pc);
    (Cpu { reg_pc: c.reg_pc.wrapping_add(1), ..c }, b1, v)
}

/// Reads the word at PC and advances PC by two.
pub open spec fn fetch_word(c: Cpu, b: BusView) -> (Cpu, BusView, u16) {
    let (b1, w) = bus_read_word(b, c.reg_pc);
    (Cpu { reg_pc: c.reg_pc.wrapping_add(2), ..c }, b1, w)
}

/// The address of stack slot `s`, in page `0x01xx`.
pub open spec fn stack_addr(s: u8) -> u16 {
    (0x0100 + s as int) as u16
}

/// Writes `v` at the top of the stack, then moves S down.
pub open spec fn push(c: Cpu, b: BusView, v: u8) -> (Cpu, BusView) {
    (Cpu { reg_s: c.reg_s.wrapping_sub(1), ..c }, bus_write(b, stack_addr(c.reg_s), v))
}

/// Moves S up, then reads the byte there.
pub open spec fn pop(c: Cpu, b: BusView) -> (Cpu, BusView, u8) {
    let s = c.reg_s.wrapping_add(1);
    let (b1, v) = bus_read(b, stack_addr(s));
    (Cpu { reg_s: s, ..c }, b1, v)
}

/// Pushes the high byte of `w`, then the low byte.
pub open spec fn push_word(c: Cpu, b: BusView, w: u16) -> (Cpu, BusView) {
    let (c1, b1) = push(c, b, high_byte(w));
    push(c1, b1, low_byte(w))
}

/// Pops the low byte, then the high byte.
pub open spec fn pop_word(c: Cpu, b: BusView) -> (Cpu, BusView, u16) {
    let (c1, b1, lo) = pop(c, b);
    let (c2, b2, hi) = pop(c1, b1);
    (c2, b2, word(lo, hi))
}

// ---------------------------------------------------------------------------
// Operand resolution

/// Advances PC over the operand of `mode` and yields the operand: a byte
/// value (immediate, relative, accumulator) or an effective address.
pub open spec fn resolve(c: Cpu, b: BusView, mode: Addressing) -> (Cpu, BusView, u16) {
    match mode {
        Addressing::Implied => (c, b, 0),
        Addressing::Immediate | Addressing::ZeroPage | Addressing::Relative => {
            let (c1, b1, v) = fetch_byte(c, b);
            (c1, b1, v as u16)
        },
        Addressing::ZeroPageX => {
            let (c1, b1, v) = fetch_byte(c, b);
            (c1, b1, v.wrapping_add(c.reg_x) as u16)
        },
        Addressing::ZeroPageY => {
            let (c1, b1, v) = fetch_byte(c, b);
            (c1, b1, v.wrapping_add(c.reg_y) as u16)
        },
        Addressing::Absolute => fetch_word(c, b),
        Addressing::AbsoluteX => {
            let (c1, b1, w) = fetch_word(c, b);
            (c1, b1, w.wrapping_add(c.reg_x as u16))
        },
        Addressing::AbsoluteY => {
            let (c1, b1, w) = fetch_word(c, b);
            (c1, b1, w.wrapping_add(c.reg_y as u16))
        },
        Addressing::IndirectX => {
            let (c1, b1, v) = fetch_byte(c, b);
            let ptr = v.wrapping_add(c.reg_x);
            let (b2, lo) = bus_read(b1, ptr as u16);
            let (b3, hi) = bus_read(b2, ptr.wrapping_add(1) as u16);
            (c1, b3, word(lo, hi))
        },
        Addressing::IndirectY => {
            let (c1, b1, v) = fetch_byte(c, b);
            let (b2, hi) = bus_read(b1, v.wrapping_add(1) as u16);
            let (b3, lo) = bus_read(b2, v as u16);
            (c1, b3, word(lo, hi).wrapping_add(c.reg_y as u16))
        },
        Addressing::Indirect => {
            let (c1, b1, w) = fetch_word(c, b);
            let (b2, lo) = bus_read(b1, w);
            let (b3, hi) = bus_read(b2, word(low_byte(w).wrapping_add(1), high_byte(w)));
            (c1, b3, word(lo, hi))
        },
        Addressing::Accumulator => (c, b, c.reg_a as u16),
    }
}

// ---------------------------------------------------------------------------
// Operations

/// PC after a branch by the signed offset `off`.
pub open spec fn branch_target(pc: u16, off: u8) -> u16 {
    if off < 0x80 {
        pc.wrapping_add(off as u16)
    } else {
        pc.wrapping_sub((0x100 - off) as u16)
    }
}

/// The operations that take a byte operand: the immediate byte, or the byte
/// read at the effective address.
pub open spec fn is_read_op(op: Operation) -> bool {
    match op {
        Operation::Lda | Operation::Ldx | Operation::Ldy | Operation::Lax | Operation::Adc
        | Operation::Sbc | Operation::And | Operation::Ora | Operation::Eor | Operation::Cmp
        | Operation::Cpx | Operation::Cpy | Operation::Bit => true,
        _ => false,
    }
}

/// The operations that write a register value to the effective address.
pub open spec fn is_store_op(op: Operation) -> bool {
    match op {
        Operation::Sta | Operation::Stx | Operation::Sty | Operation::Sax => true,
        _ => false,
    }
}

/// The operations that read a byte, change it, and write it back (to A in
/// accumulator mode).
pub open spec fn is_modify_op(op: Operation) -> bool {
    match op {
        Operation::Asl | Operation::Lsr | Operation::Rol | Operation::Ror | Operation::Inc
        | Operation::Dec | Operation::Isc | Operation::Dcp | Operation::Slo | Operation::Rla
        | Operation::Sre | Operation::Rra => true,
        _ => false,
    }
}

/// The operations that move bytes through the stack.
pub open spec fn is_stack_op(op: Operation) -> bool {
    match op {
        Operation::Pha | Operation::Php | Operation::Pla | Operation::Plp | Operation::Jsr
        | Operation::Rts | Operation::Rti | Operation::Brk => true,
        _ => false,
    }
}

/// The byte operand of a read operation.
pub open spec fn operand_value(mode: Addressing, operand: u16, b: BusView) -> (BusView, u8) {
    if mode == Addressing::Immediate {
        (b, operand as u8)
    } else {
        bus_read(b, operand)
    }
}

/// The registers after read operation `op` with byte operand `m`.
pub open spec fn read_effect(op: Operation, m: u8, c: Cpu) -> Cpu {
    match op {
        Operation::Lda => Cpu { reg_a: m, reg_p: set_nz(c.reg_p, m), ..c },
        Operation::Ldx => Cpu { reg_x: m, reg_p: set_nz(c.reg_p, m), ..c },
        Operation::Ldy => Cpu { reg_y: m, reg_p: set_nz(c.reg_p, m), ..c },
        Operation::Lax => Cpu { reg_a: m, reg_x: m, reg_p: set_nz(c.reg_p, m), ..c },
        Operation::Adc => add_to_a(c, m, flag(c.reg_p, FLAG_C)),
        Operation::Sbc => sub_from_a(c, m),
        Operation::And => Cpu { reg_a: c.reg_a & m, reg_p: set_nz(c.reg_p, c.reg_a & m), ..c },
        Operation::Ora => Cpu { reg_a: c.reg_a | m, reg_p: set_nz(c.reg_p, c.reg_a | m), ..c },
        Operation::Eor => Cpu { reg_a: c.reg_a ^ m, reg_p: set_nz(c.reg_p, c.reg_a ^ m), ..c },
        Operation::Cmp => Cpu { reg_p: compare_flags(c.reg_p, c.reg_a, m), ..c },
        Operation::Cpx => Cpu { reg_p: compare_flags(c.reg_p, c.reg_x, m), ..c },
        Operation::Cpy => Cpu { reg_p: compare_flags(c.reg_p, c.reg_y, m), ..c },
        Operation::Bit => Cpu {
            reg_p: with_flag(
                with_flag(with_flag(c.reg_p, FLAG_N, flag(m, FLAG_N)), FLAG_V, flag(m, FLAG_V)),
                FLAG_Z,
                c.reg_a & m == 0,
            ),
            ..c
        },
        _ => c,
    }
}

/// The byte that store operation `op` writes.
pub open spec fn store_value(op: Operation, c: Cpu) -> u8 {
    match op {
        Operation::Sta => c.reg_a,
        Operation::Stx => c.reg_x,
        Operation::Sty => c.reg_y,
        _ => c.reg_a & c.reg_x,
    }
}

/// The byte that modify operation `op` makes of `m`.
pub open spec fn modified(op: Operation, m: u8, c: Cpu) -> u8 {
    match op {
        Operation::Asl | Operation::Slo => m << 1u8,
        Operation::Lsr | Operation::Sre => m >> 1u8,
        Operation::Rol | Operation::Rla => (m << 1u8) | (c.reg_p & FLAG_C),
        Operation::Ror | Operation::Rra => (m >> 1u8) | ((c.reg_p & FLAG_C) << 7u8),
        Operation::Inc | Operation::Isc => m.wrapping_add(1),
        _ => m.wrapping_sub(1),
    }
}

/// The bit that a shift or rotate of `m` moves out into C.
pub open spec fn shifted_out(op: Operation, m: u8) -> bool {
    match op {
        Operation::Asl | Operation::Slo | Operation::Rol | Operation::Rla => flag(m, 0x80),
        _ => flag(m, 0x01),
    }
}

/// The registers after modify operation `op` turned `m` into `v`.
pub open spec fn modify_effect(op: Operation, m: u8, v: u8, c: Cpu) -> Cpu {
    match op {
        Operation::Asl | Operation::Lsr | Operation::Rol | Operation::Ror => Cpu {
            reg_p: with_flag(set_nz(c.reg_p, v), FLAG_C, shifted_out(op, m)),
            ..c
        },
        Operation::Inc | Operation::Dec => Cpu { reg_p: set_nz(c.reg_p, v), ..c },
        Operation::Isc => sub_from_a(c, v),
        Operation::Dcp => Cpu { reg_p: compare_flags(c.reg_p, c.reg_a, v), ..c },
        Operation::Slo => Cpu {
            reg_a: c.reg_a | v,
            reg_p: with_flag(set_nz(c.reg_p, c.reg_a | v), FLAG_C, shifted_out(op, m)),
            ..c
        },
        Operation::Rla => Cpu {
            reg_a: c.reg_a & v,
            reg_p: with_flag(set_nz(c.reg_p, c.reg_a & v), FLAG_C, shifted_out(op, m)),
            ..c
        },
        Operation::Sre => Cpu {
            reg_a: c.reg_a ^ v,
            reg_p: with_flag(set_nz(c.reg_p, c.reg_a ^ v), FLAG_C, shifted_out(op, m)),
            ..c
        },
        _ => add_to_a(c, v, shifted_out(op, m)),
    }
}

/// The registers after an operation that touches neither memory nor the
/// stack; `operand` is the branch offset or jump target where there is one.
pub open spec fn register_effect(op: Operation, operand: u16, c: Cpu) -> Cpu {
    let p = c.reg_p;
    let off = operand as u8;
    match op {
        Operation::Tax => Cpu { reg_x: c.reg_a, reg_p: set_nz(p, c.reg_a), ..c },
        Operation::Tay => Cpu { reg_y: c.reg_a, reg_p: set_nz(p, c.reg_a), ..c },
        Operation::Tsx => Cpu { reg_x: c.reg_s, reg_p: set_nz(p, c.reg_s), ..c },
        Operation::Txa => Cpu { reg_a: c.reg_x, reg_p: set_nz(p, c.reg_x), ..c },
        Operation::Txs => Cpu { reg_s: c.reg_x, ..c },
        Operation::Tya => Cpu { reg_a: c.reg_y, reg_p: set_nz(p, c.reg_y), ..c },
        Operation::Inx => {
            let v = c.reg_x.wrapping_add(1);
            Cpu { reg_x: v, reg_p: set_nz(p, v), ..c }
        },
        Operation::Iny => {
            let v = c.reg_y.wrapping_add(1);
            Cpu { reg_y: v, reg_p: set_nz(p, v), ..c }
        },
        Operation::Dex => {
            let v = c.reg_x.wrapping_sub(1);
            Cpu { reg_x: v, reg_p: set_nz(p, v), ..c }
        },
        Operation::Dey => {
            let v = c.reg_y.wrapping_sub(1);
            Cpu { reg_y: v, reg_p: set_nz(p, v), ..c }
        },
        Operation::Beq => if flag(p, FLAG_Z) {
            Cpu { reg_pc: branch_target(c.reg_pc, off), ..c }
        } else {
            c
        },
        Operation::Bne => if !flag(p, FLAG_Z) {
            Cpu { reg_pc: branch_target(c.reg_pc, off), ..c }
        } else {
            c
        },
        Operation::Bmi => if flag(p, FLAG_N) {
            Cpu { reg_pc: branch_target(c.reg_pc, off), ..c }
        } else {
            c
        },
        Operation::Bpl => if !flag(p, FLAG_N) {
            Cpu { reg_pc: branch_target(c.reg_pc, off), ..c }
        } else {
            c
        },
        Operation::Bvs => if flag(p, FLAG_V) {
            Cpu { reg_pc: branch_target(c.reg_pc, off), ..c }
        } else {
            c
        },
        Operation::Bvc => if !flag(p, FLAG_V) {
            Cpu { reg_pc: branch_target(c.reg_pc, off), ..c }
        } else {
            c
        },
        Operation::Bcs => if flag(p, FLAG_C) {
            Cpu { reg_pc: branch_target(c.reg_pc, off), ..c }
        } else {
            c
        },
        Operation::Bcc => if !flag(p, FLAG_C) {
            Cpu { reg_pc: branch_target(c.reg_pc, off), ..c }
        } else {
            c
        },
        Operation::Jmp => Cpu { reg_pc: operand, ..c },
        Operation::Sei => Cpu { reg_p: p | FLAG_I, ..c },
        Operation::Cli => Cpu { reg_p: p & !FLAG_I, ..c },
        Operation::Cld => Cpu { reg_p: p & !FLAG_D, ..c },
        Operation::Clv => Cpu { reg_p: p & !FLAG_V, ..c },
        Operation::Sec => Cpu { reg_p: p | FLAG_C, ..c },
        Operation::Sed => Cpu { reg_p: p | FLAG_D, ..c },
        Operation::Clc => Cpu { reg_p: p & !FLAG_C, ..c },
        _ => c,
    }
}

/// The state after a stack operation; `operand` is the target of `JSR`.
pub open spec fn stack_effect(op: Operation, operand: u16, c: Cpu, b: BusView) -> (Cpu, BusView) {
    match op {
        Operation::Pha => push(c, b, c.reg_a),
        Operation::Php => push(c, b, c.reg_p | FLAG_B),
        Operation::Pla => {
            let (c1, b1, v) = pop(c, b);
            (Cpu { reg_a: v, reg_p: set_nz(c.reg_p, v), ..c1 }, b1)
        },
        Operation::Plp => {
            let (c1, b1, v) = pop(c, b);
            (Cpu { reg_p: (v & !FLAG_B) | (c.reg_p & FLAG_B), ..c1 }, b1)
        },
        Operation::Jsr => {
            let (c1, b1) = push_word(c, b, c.reg_pc.wrapping_sub(1));
            (Cpu { reg_pc: operand, ..c1 }, b1)
        },
        Operation::Rts => {
            let (c1, b1, w) = pop_word(c, b);
            (Cpu { reg_pc: w.wrapping_add(1), ..c1 }, b1)
        },
        Operation::Rti => {
            let (c1, b1, p) = pop(c, b);
            let (c2, b2, w) = pop_word(c1, b1);
            (Cpu { reg_p: p, reg_pc: w, ..c2 }, b2)
        },
        _ => {
            let (c1, b1) = push_word(c, b, c.reg_pc);
            let (c2, b2) = push(c1, b1, c.reg_p);
            let (b3, target) = bus_read_word(b2, BREAK_VECTOR);
            (Cpu { reg_pc: target, reg_p: c.reg_p | FLAG_B, ..c2 }, b3)
        },
    }
}

/// The state after operation `op` with the operand that `mode` resolved.
pub open spec fn execute(op: Operation, mode: Addressing, operand: u16, c: Cpu, b: BusView) -> (
    Cpu,
    BusView,
) {
    if is_read_op(op) {
        let (b1, m) = operand_value(mode, operand, b);
        (read_effect(op, m, c), b1)
    } else if is_store_op(op) {
        (c, bus_write(b, operand, store_value(op, c)))
    } else if is_modify_op(op) {
        if mode == Addressing::Accumulator {
            let v = modified(op, c.reg_a, c);
            (Cpu { reg_a: v, ..modify_effect(op, c.reg_a, v, c) }, b)
        } else {
            let (b1, m) = bus_read(b, operand);
            let v = modified(op, m, c);
            (modify_effect(op, m, v, c), bus_write(b1, operand, v))
        }
    } else if is_stack_op(op) {
        stack_effect(op, operand, c, b)
    } else {
        (register_effect(op, operand, c), b)
    }
}

/// One driving tick: either a wait while the countdown is still running, or
/// the fetch, decode and execution of one instruction, after which the
/// countdown holds its base cycle cost. An opcode byte without a descriptor
/// is fatal: the state is left just after the opcode fetch.
pub open spec fn run_spec(c: Cpu, b: BusView) -> (Cpu, BusView, Result<(), CpuError>) {
    if c.cycle > 1 {
        (Cpu { cycle: (c.cycle - 1) as i16, ..c }, b, Ok(()))
    } else {
        let (c1, b1, code) = fetch_byte(Cpu { reg_p: c.reg_p | FLAG_R, ..c }, b);
        match descriptor(code) {
            None => (c1, b1, Err(CpuError::Unimplemented(code))),
            Some(op) => {
                let (c2, b2, operand) = resolve(c1, b1, op.addressing);
                let (c3, b3) = execute(op.code, op.addressing, operand, c2, b2);
                (Cpu { cycle: op.cycles as i16, ..c3 }, b3, Ok(()))
            },
        }
    }
}

// ---------------------------------------------------------------------------
// Executable interpreter

/// A processor as it comes out of power-on: S at `0xFD`, I and R set, PC at
/// `0x8000`, no countdown.
pub fn new_cpu() -> (r: Cpu)
    ensures
        r == (Cpu {
            reg_a: 0,
            reg_x: 0,
            reg_y: 0,
            reg_s: 0xFD,
            reg_p: FLAG_I | FLAG_R,
            reg_pc: 0x8000,
            cycle: 0,
        }),
{
    Cpu { reg_a: 0, reg_x: 0, reg_y: 0, reg_s: 0xFD, reg_p: FLAG_I | FLAG_R, reg_pc: 0x8000, cycle: 0 }
}

/// Loads PC from the reset vector and sets I.
pub fn reset(cpu: &mut Cpu, mem: &mut Vmem)
    requires
        old(mem)@.wf(),
    ensures
        final(mem)@ == bus_read_word(old(mem)@, RESET_VECTOR).0,
        *final(cpu) == (Cpu {
            reg_pc: bus_read_word(old(mem)@, RESET_VECTOR).1,
            reg_p: old(cpu).reg_p | FLAG_I,
            ..*old(cpu)
        }),
        final(mem)@.wf(),
        *final(final(mem).mem) == *final(old(mem).mem),
        *final(final(mem).ppu) == *final(old(mem).ppu),
{
    cpu.reg_pc = crate::vmem::read_mem_word(mem, RESET_VECTOR);
    cpu.reg_p = cpu.reg_p | FLAG_I;
}

fn fetch_pc_byte(cpu: &mut Cpu, mem: &mut Vmem) -> (data: u8)
    requires
        old(mem)@.wf(),
    ensures
        (*final(cpu), final(mem)@, data) == fetch_byte(*old(cpu), old(mem)@),
        final(mem)@.wf(),
        *final(final(mem).mem) == *final(old(mem).mem),
        *final(final(mem).ppu) == *final(old(mem).ppu),
{
    let data = crate::vmem::read_mem(mem, cpu.reg_pc);
    cpu.reg_pc = cpu.reg_pc.wrapping_add(1);
    data
}

fn fetch_pc_word(cpu: &mut Cpu, mem: &mut Vmem) -> (data: u16)
    requires
        old(mem)@.wf(),
    ensures
        (*final(cpu), final(mem)@, data) == fetch_word(*old(cpu), old(mem)@),
        final(mem)@.wf(),
        *final(final(mem).mem) == *final(old(mem).mem),
        *final(final(mem).ppu) == *final(old(mem).ppu),
{
    let data = crate::vmem::read_mem_word(mem, cpu.reg_pc);
    cpu.reg_pc = cpu.reg_pc.wrapping_add(2);
    data
}

fn stack_push_byte(cpu: &mut Cpu, mem: &mut Vmem, data: u8)
    requires
        old(mem)@.wf(),
    ensures
        (*final(cpu), final(mem)@) == push(*old(cpu), old(mem)@, data),
        final(mem)@.wf(),
        *final(final(mem).mem) == *final(old(mem).mem),
        *final(final(mem).ppu) == *final(old(mem).ppu),
{
    crate::vmem::write_mem(mem, 0x0100 + cpu.reg_s as u16, data);
    cpu.reg_s = cpu.reg_s.wrapping_sub(1);
}

fn stack_pop_byte(cpu: &mut Cpu, mem: &mut Vmem) -> (data: u8)
    requires
        old(mem)@.wf(),
    ensures
        (*final(cpu), final(mem)@, data) == pop(*old(cpu), old(mem)@),
        final(mem)@.wf(),
        *final(final(mem).mem) == *final(old(mem).mem),
        *final(final(mem).ppu) == *final(old(mem).ppu),
{
    cpu.reg_s = cpu.reg_s.wrapping_add(1);
    crate::vmem::read_mem(mem, 0x0100 + cpu.reg_s as u16)
}

fn stack_push_word(cpu: &mut Cpu, mem: &mut Vmem, data: u16)
    requires
        old(mem)@.wf(),
    ensures
        (*final(cpu), final(mem)@) == push_word(*old(cpu), old(mem)@, data),
        final(mem)@.wf(),
        *final(final(mem).mem) == *final(old(mem).mem),
        *final(final(mem).ppu) == *final(old(mem).ppu),
{
    proof {
        crate::vmem::lemma_split_bits(data);
    }
    stack_push_byte(cpu, mem, ((data & 0xFF00) >> 8u16) as u8);
    stack_push_byte(cpu, mem, (data & 0xFF) as u8);
}

fn stack_pop_word(cpu: &mut Cpu, mem: &mut Vmem) -> (data: u16)
    requires
        old(mem)@.wf(),
    ensures
        (*final(cpu), final(mem)@, data) == pop_word(*old(cpu), old(mem)@),
        final(mem)@.wf(),
        *final(final(mem).mem) == *final(old(mem).mem),
        *final(final(mem).ppu) == *final(old(mem).ppu),
{
    let lo = stack_pop_byte(cpu, mem);
    let hi = stack_pop_byte(cpu, mem);
    proof {
        crate::vmem::lemma_word_bits(lo, hi);
    }
    ((hi as u16) << 8u16) | (lo as u16)
}

fn read_by_addressing(cpu: &mut Cpu, mem: &mut Vmem, op: &Opcode) -> (operand: u16)
    requires
        old(mem)@.wf(),
    ensures
        (*final(cpu), final(mem)@, operand) == resolve(*old(cpu), old(mem)@, op.addressing),
        final(mem)@.wf(),
        *final(final(mem).mem) == *final(old(mem).mem),
        *final(final(mem).ppu) == *final(old(mem).ppu),
{
    match op.addressing {
        Addressing::Implied => 0,
        Addressing::Immediate | Addressing::ZeroPage | Addressing::Relative => {
            fetch_pc_byte(cpu, mem) as u16
        },
        Addressing::ZeroPageX => {
            let data = fetch_pc_byte(cpu, mem);
            data.wrapping_add(cpu.reg_x) as u16
        },
        Addressing::ZeroPageY => {
            let data = fetch_pc_byte(cpu, mem);
            data.wrapping_add(cpu.reg_y) as u16
        },
        Addressing::Absolute => fetch_pc_word(cpu, mem),
        Addressing::AbsoluteX => {
            let data = fetch_pc_word(cpu, mem);
            data.wrapping_add(cpu.reg_x as u16)
        },
        Addressing::AbsoluteY => {
            let data = fetch_pc_word(cpu, mem);
            data.wrapping_add(cpu.reg_y as u16)
        },
        Addressing::IndirectX => {
            let fetch = fetch_pc_byte(cpu, mem);
            let ptr = fetch.wrapping_add(cpu.reg_x);
            let lo = crate::vmem::read_mem(mem, ptr as u16);
            let hi = crate::vmem::read_mem(mem, ptr.wrapping_add(1) as u16);
            proof {
                crate::vmem::lemma_word_bits(lo, hi);
            }
            ((hi as u16) << 8u16) | (lo as u16)
        },
        Addressing::IndirectY => {
            let fetch = fetch_pc_byte(cpu, mem);
            let hi = crate::vmem::read_mem(mem, fetch.wrapping_add(1) as u16);
            let lo = crate::vmem::read_mem(mem, fetch as u16);
            proof {
                crate::vmem::lemma_word_bits(lo, hi);
            }
            (((hi as u16) << 8u16) | (lo as u16)).wrapping_add(cpu.reg_y as u16)
        },
        Addressing::Indirect => {
            let fetch = fetch_pc_word(cpu, mem);
            let lo = crate::vmem::read_mem(mem, fetch);
            proof {
                crate::vmem::lemma_split_bits(fetch);
            }
            let page_lo = ((fetch & 0xFF) as u8).wrapping_add(1);
            let page_hi = ((fetch & 0xFF00) >> 8u16) as u8;
            proof {
                crate::vmem::lemma_word_bits(page_lo, page_hi);
            }
            let hi = crate::vmem::read_mem(mem, ((page_hi as u16) << 8u16) | (page_lo as u16));
            proof {
                crate::vmem::lemma_word_bits(lo, hi);
            }
            ((hi as u16) << 8u16) | (lo as u16)
        },
        Addressing::Accumulator => cpu.reg_a as u16,
    }
}

fn update_nz(p: u8, v: u8) -> (r: u8)
    ensures
        r == set_nz(p, v),
{
    (p & 0x7D) | (v & FLAG_N) | (if v == 0 { FLAG_Z } else { 0u8 })
}

fn put_flag(p: u8, f: u8, on: bool) -> (r: u8)
    ensures
        r == with_flag(p, f, on),
{
    if on {
        p | f
    } else {
        p & !f
    }
}

fn add_with_carry(a: u8, m: u8, carry: bool) -> (r: (u8, bool, bool))
    ensures
        r == adc(a, m, carry),
{
    let sum: u16 = a as u16 + m as u16 + (if carry { 1u16 } else { 0u16 });
    let result: u8 = if sum > 0xFF { (sum - 0x100) as u8 } else { sum as u8 };
    (result, sum > 0xFF, (!(a ^ m)) & (a ^ result) & 0x80 != 0)
}

fn sub_with_borrow(a: u8, m: u8, carry: bool) -> (r: (u8, bool, bool))
    ensures
        r == sbc(a, m, carry),
{
    let diff: i16 = a as i16 - m as i16 - (if carry { 0i16 } else { 1i16 });
    let result: u8 = if diff < 0 { (diff + 0x100) as u8 } else { diff as u8 };
    (result, diff >= 0, (a ^ m) & (a ^ result) & 0x80 != 0)
}

fn compare(p: u8, reg: u8, m: u8) -> (r: u8)
    ensures
        r == compare_flags(p, reg, m),
{
    let nz = update_nz(p, reg.wrapping_sub(m));
    put_flag(nz, FLAG_C, reg >= m)
}

fn add_to_accumulator(cpu: &mut Cpu, m: u8, carry: bool)
    ensures
        *final(cpu) == add_to_a(*old(cpu), m, carry),
{
    let (r, c, v) = add_with_carry(cpu.reg_a, m, carry);
    let p = update_nz(cpu.reg_p, r);
    let p = put_flag(p, FLAG_C, c);
    cpu.reg_p = put_flag(p, FLAG_V, v);
    cpu.reg_a = r;
}

fn sub_from_accumulator(cpu: &mut Cpu, m: u8)
    ensures
        *final(cpu) == sub_from_a(*old(cpu), m),
{
    let (r, c, v) = sub_with_borrow(cpu.reg_a, m, cpu.reg_p & FLAG_C != 0);
    let p = update_nz(cpu.reg_p, r);
    let p = put_flag(p, FLAG_C, c);
    cpu.reg_p = put_flag(p, FLAG_V, v);
    cpu.reg_a = r;
}

fn exec_read(cpu: &mut Cpu, op: Operation, m: u8)
    requires
        is_read_op(op),
    ensures
        *final(cpu) == read_effect(op, m, *old(cpu)),
{
    match op {
        Operation::Lda => {
            cpu.reg_a = m;
            cpu.reg_p = update_nz(cpu.reg_p, m);
        },
        Operation::Ldx => {
            cpu.reg_x = m;
            cpu.reg_p = update_nz(cpu.reg_p, m);
        },
        Operation::Ldy => {
            cpu.reg_y = m;
            cpu.reg_p = update_nz(cpu.reg_p, m);
        },
        Operation::Lax => {
            cpu.reg_x = m;
            cpu.reg_a = m;
            cpu.reg_p = update_nz(cpu.reg_p, m);
        },
        Operation::Adc => add_to_accumulator(cpu, m, cpu.reg_p & FLAG_C != 0),
        Operation::Sbc => sub_from_accumulator(cpu, m),
        Operation::And => {
            cpu.reg_a = cpu.reg_a & m;
            cpu.reg_p = update_nz(cpu.reg_p, cpu.reg_a);
        },
        Operation::Ora => {
            cpu.reg_a = cpu.reg_a | m;
            cpu.reg_p = update_nz(cpu.reg_p, cpu.reg_a);
        },
        Operation::Eor => {
            cpu.reg_a = cpu.reg_a ^ m;
            cpu.reg_p = update_nz(cpu.reg_p, cpu.reg_a);
        },
        Operation::Cmp => cpu.reg_p = compare(cpu.reg_p, cpu.reg_a, m),
        Operation::Cpx => cpu.reg_p = compare(cpu.reg_p, cpu.reg_x, m),
        Operation::Cpy => cpu.reg_p = compare(cpu.reg_p, cpu.reg_y, m),
        _ => {
            let p = put_flag(cpu.reg_p, FLAG_N, m & FLAG_N != 0);
            let p = put_flag(p, FLAG_V, m & FLAG_V != 0);
            cpu.reg_p = put_flag(p, FLAG_Z, cpu.reg_a & m == 0);
        },
    }
}

fn modify_byte(op: Operation, m: u8, cpu: &Cpu) -> (v: u8)
    ensures
        v == modified(op, m, *cpu),
{
    match op {
        Operation::Asl | Operation::Slo => m << 1u8,
        Operation::Lsr | Operation::Sre => m >> 1u8,
        Operation::Rol | Operation::Rla => (m << 1u8) | (cpu.reg_p & FLAG_C),
        Operation::Ror | Operation::Rra => (m >> 1u8) | ((cpu.reg_p & FLAG_C) << 7u8),
        Operation::Inc | Operation::Isc => m.wrapping_add(1),
        _ => m.wrapping_sub(1),
    }
}

fn exec_modify(cpu: &mut Cpu, op: Operation, m: u8, v: u8)
    requires
        is_modify_op(op),
    ensures
        *final(cpu) == modify_effect(op, m, v, *old(cpu)),
{
    let out = match op {
        Operation::Asl | Operation::Slo | Operation::Rol | Operation::Rla => m & 0x80 != 0,
        _ => m & 0x01 != 0,
    };
    match op {
        Operation::Asl | Operation::Lsr | Operation::Rol | Operation::Ror => {
            let p = update_nz(cpu.reg_p, v);
            cpu.reg_p = put_flag(p, FLAG_C, out);
        },
        Operation::Inc | Operation::Dec => cpu.reg_p = update_nz(cpu.reg_p, v),
        Operation::Isc => sub_from_accumulator(cpu, v),
        Operation::Dcp => cpu.reg_p = compare(cpu.reg_p, cpu.reg_a, v),
        Operation::Slo => {
            cpu.reg_a = cpu.reg_a | v;
            let p = update_nz(cpu.reg_p, cpu.reg_a);
            cpu.reg_p = put_flag(p, FLAG_C, out);
        },
        Operation::Rla => {
            cpu.reg_a = cpu.reg_a & v;
            let p = update_nz(cpu.reg_p, cpu.reg_a);
            cpu.reg_p = put_flag(p, FLAG_C, out);
        },
        Operation::Sre => {
            cpu.reg_a = cpu.reg_a ^ v;
            let p = update_nz(cpu.reg_p, cpu.reg_a);
            cpu.reg_p = put_flag(p, FLAG_C, out);
        },
        _ => add_to_accumulator(cpu, v, out),
    }
}

fn branch_if(cpu: &mut Cpu, taken: bool, off: u8)
    ensures
        *final(cpu) == if taken {
            Cpu { reg_pc: branch_target(old(cpu).reg_pc, off), ..*old(cpu) }
        } else {
            *old(cpu)
        },
{
    if taken {
        cpu.reg_pc = if off < 0x80 {
            cpu.reg_pc.wrapping_add(off as u16)
        } else {
            cpu.reg_pc.wrapping_sub((0x100 - off as u16) as u16)
        };
    }
}

fn exec_register(cpu: &mut Cpu, op: Operation, operand: u16)
    requires
        !is_read_op(op),
        !is_store_op(op),
        !is_modify_op(op),
        !is_stack_op(op),
    ensures
        *final(cpu) == register_effect(op, operand, *old(cpu)),
{
    let p = cpu.reg_p;
    let off = operand as u8;
    match op {
        Operation::Tax => {
            cpu.reg_x = cpu.reg_a;
            cpu.reg_p = update_nz(p, cpu.reg_x);
        },
        Operation::Tay => {
            cpu.reg_y = cpu.reg_a;
            cpu.reg_p = update_nz(p, cpu.reg_y);
        },
        Operation::Tsx => {
            cpu.reg_x = cpu.reg_s;
            cpu.reg_p = update_nz(p, cpu.reg_x);
        },
        Operation::Txa => {
            cpu.reg_a = cpu.reg_x;
            cpu.reg_p = update_nz(p, cpu.reg_a);
        },
        Operation::Txs => cpu.reg_s = cpu.reg_x,
        Operation::Tya => {
            cpu.reg_a = cpu.reg_y;
            cpu.reg_p = update_nz(p, cpu.reg_a);
        },
        Operation::Inx => {
            cpu.reg_x = cpu.reg_x.wrapping_add(1);
            cpu.reg_p = update_nz(p, cpu.reg_x);
        },
        Operation::Iny => {
            cpu.reg_y = cpu.reg_y.wrapping_add(1);
            cpu.reg_p = update_nz(p, cpu.reg_y);
        },
        Operation::Dex => {
            cpu.reg_x = cpu.reg_x.wrapping_sub(1);
            cpu.reg_p = update_nz(p, cpu.reg_x);
        },
        Operation::Dey => {
            cpu.reg_y = cpu.reg_y.wrapping_sub(1);
            cpu.reg_p = update_nz(p, cpu.reg_y);
        },
        Operation::Beq => branch_if(cpu, p & FLAG_Z != 0, off),
        Operation::Bne => branch_if(cpu, p & FLAG_Z == 0, off),
        Operation::Bmi => branch_if(cpu, p & FLAG_N != 0, off),
        Operation::Bpl => branch_if(cpu, p & FLAG_N == 0, off),
        Operation::Bvs => branch_if(cpu, p & FLAG_V != 0, off),
        Operation::Bvc => branch_if(cpu, p & FLAG_V == 0, off),
        Operation::Bcs => branch_if(cpu, p & FLAG_C != 0, off),
        Operation::Bcc => branch_if(cpu, p & FLAG_C == 0, off),
        Operation::Jmp => cpu.reg_pc = operand,
        Operation::Sei => cpu.reg_p = p | FLAG_I,
        Operation::Cli => cpu.reg_p = p & !FLAG_I,
        Operation::Cld => cpu.reg_p = p & !FLAG_D,
        Operation::Clv => cpu.reg_p = p & !FLAG_V,
        Operation::Sec => cpu.reg_p = p | FLAG_C,
        Operation::Sed => cpu.reg_p = p | FLAG_D,
        Operation::Clc => cpu.reg_p = p & !FLAG_C,
        _ => {
            // NOP, and KIL and LAS, which are accepted as no-ops
        },
    }
}

fn exec_stack(cpu: &mut Cpu, mem: &mut Vmem, op: Operation, operand: u16)
    requires
        old(mem)@.wf(),
        is_stack_op(op),
    ensures
        (*final(cpu), final(mem)@) == stack_effect(op, operand, *old(cpu), old(mem)@),
        final(mem)@.wf(),
        *final(final(mem).mem) == *final(old(mem).mem),
        *final(final(mem).ppu) == *final(old(mem).ppu),
{
    match op {
        Operation::Pha => stack_push_byte(cpu, mem, cpu.reg_a),
        Operation::Php => stack_push_byte(cpu, mem, cpu.reg_p | FLAG_B),
        Operation::Pla => {
            let p = cpu.reg_p;
            cpu.reg_a = stack_pop_byte(cpu, mem);
            cpu.reg_p = update_nz(p, cpu.reg_a);
        },
        Operation::Plp => {
            let p = cpu.reg_p;
            let v = stack_pop_byte(cpu, mem);
            cpu.reg_p = (v & !FLAG_B) | (p & FLAG_B);
        },
        Operation::Jsr => {
            stack_push_word(cpu, mem, cpu.reg_pc.wrapping_sub(1));
            cpu.reg_pc = operand;
        },
        Operation::Rts => {
            let addr = stack_pop_word(cpu, mem);
            cpu.reg_pc = addr.wrapping_add(1);
        },
        Operation::Rti => {
            cpu.reg_p = stack_pop_byte(cpu, mem);
            cpu.reg_pc = stack_pop_word(cpu, mem);
        },
        _ => {
            let p = cpu.reg_p;
            stack_push_word(cpu, mem, cpu.reg_pc);
            stack_push_byte(cpu, mem, p);
            cpu.reg_pc = crate::vmem::read_mem_word(mem, BREAK_VECTOR);
            cpu.reg_p = p | FLAG_B;
        },
    }
}

fn exec_instructions(cpu: &mut Cpu, mem: &mut Vmem, op: &Opcode)
    requires
        old(mem)@.wf(),
    ensures
        ({
            let (c1, b1, operand) = resolve(*old(cpu), old(mem)@, op.addressing);
            (*final(cpu), final(mem)@) == execute(op.code, op.addressing, operand, c1, b1)
        }),
        final(mem)@.wf(),
        *final(final(mem).mem) == *final(old(mem).mem),
        *final(final(mem).ppu) == *final(old(mem).ppu),
{
    let operand = read_by_addressing(cpu, mem, op);
    let code = op.code;
    match code {
        Operation::Lda | Operation::Ldx | Operation::Ldy | Operation::Lax | Operation::Adc
        | Operation::Sbc | Operation::And | Operation::Ora | Operation::Eor | Operation::Cmp
        | Operation::Cpx | Operation::Cpy | Operation::Bit => {
            let m = if op.addressing == Addressing::Immediate {
                operand as u8
            } else {
                crate::vmem::read_mem(mem, operand)
            };
            exec_read(cpu, code, m);
        },
        Operation::Sta => crate::vmem::write_mem(mem, operand, cpu.reg_a),
        Operation::Stx => crate::vmem::write_mem(mem, operand, cpu.reg_x),
        Operation::Sty => crate::vmem::write_mem(mem, operand, cpu.reg_y),
        Operation::Sax => crate::vmem::write_mem(mem, operand, cpu.reg_a & cpu.reg_x),
        Operation::Asl | Operation::Lsr | Operation::Rol | Operation::Ror | Operation::Inc
        | Operation::Dec | Operation::Isc | Operation::Dcp | Operation::Slo | Operation::Rla
        | Operation::Sre | Operation::Rra => {
            if op.addressing == Addressing::Accumulator {
                let m = cpu.reg_a;
                let v = modify_byte(code, m, cpu);
                exec_modify(cpu, code, m, v);
                cpu.reg_a = v;
            } else {
                let m = crate::vmem::read_mem(mem, operand);
                let v = modify_byte(code, m, cpu);
                crate::vmem::write_mem(mem, operand, v);
                exec_modify(cpu, code, m, v);
            }
        },
        Operation::Pha | Operation::Php | Operation::Pla | Operation::Plp | Operation::Jsr
        | Operation::Rts | Operation::Rti | Operation::Brk => exec_stack(cpu, mem, code, operand),
        _ => exec_register(cpu, code, operand),
    }
}

/// One driving tick of the processor (see `run_spec`). Fails only on an
/// opcode byte that has no descriptor.
pub fn run(cpu: &mut Cpu, mem: &mut Vmem) -> (r: Result<(), CpuError>)
    requires
        old(mem)@.wf(),
    ensures
        (*final(cpu), final(mem)@, r) == run_spec(*old(cpu), old(mem)@),
        final(mem)@.wf(),
        *final(final(mem).mem) == *final(old(mem).mem),
        *final(final(mem).ppu) == *final(old(mem).ppu),
{
    if cpu.cycle > 1 {
        cpu.cycle = cpu.cycle - 1;
        return Ok(());
    }
    cpu.reg_p = cpu.reg_p | FLAG_R;
    let code = fetch_pc_byte(cpu, mem);
    match decode(code) {
        None => Err(CpuError::Unimplemented(code)),
        Some(op) => {
            exec_instructions(cpu, mem, &op);
            cpu.cycle = op.cycles as i16;
            Ok(())
        },
    }
}

// ---------------------------------------------------------------------------
// Laws

/// The two's-complement value of a byte.
pub open spec fn signed(v: u8) -> int {
    if v < 0x80 {
        v as int
    } else {
        v - 0x100
    }
}

/// Every flag-setting result goes through `set_nz` (alone or under further C
/// and V updates): afterwards Z is set iff the result byte is zero and N iff
/// its bit 7 is set, and the other flags are untouched by it.
pub proof fn lemma_nz_flags(p: u8, v: u8, c: bool, o: bool)
    ensures
        flag(set_nz(p, v), FLAG_Z) == (v == 0),
        flag(set_nz(p, v), FLAG_N) == (v >= 0x80),
        set_nz(p, v) & 0x7D == p & 0x7D,
        flag(arith_flags(p, v, c, o), FLAG_Z) == (v == 0),
        flag(arith_flags(p, v, c, o), FLAG_N) == (v >= 0x80),
        flag(arith_flags(p, v, c, o), FLAG_C) == c,
        flag(arith_flags(p, v, c, o), FLAG_V) == o,
{
    assert(flag(set_nz(p, v), FLAG_Z) == (v == 0)) by (bit_vector);
    assert(flag(set_nz(p, v), FLAG_N) == (v >= 0x80)) by (bit_vector);
    assert(set_nz(p, v) & 0x7D == p & 0x7D) by (bit_vector);
    assert(flag(arith_flags(p, v, c, o), FLAG_Z) == (v == 0)) by (bit_vector);
    assert(flag(arith_flags(p, v, c, o), FLAG_N) == (v >= 0x80)) by (bit_vector);
    assert(flag(arith_flags(p, v, c, o), FLAG_C) == c) by (bit_vector);
    assert(flag(arith_flags(p, v, c, o), FLAG_V) == o) by (bit_vector);
}

/// Addition with carry is 8-bit two's-complement addition: the result is
/// the sum modulo 256, the carry says whether the unsigned sum passed 255,
/// and the overflow whether the signed sum left `-128..=127`.
pub proof fn lemma_adc_identities(a: u8, m: u8, carry: bool)
    ensures
        ({
            let ci: int = if carry { 1 } else { 0 };
            let (r, c, v) = adc(a, m, carry);
            &&& r as int == (a + m + ci) % 0x100
            &&& c == (a + m + ci > 0xFF)
            &&& v == !(-0x80 <= signed(a) + signed(m) + ci <= 0x7F)
        }),
{
    let ci: u8 = if carry { 1 } else { 0 };
    let (r, c, v) = adc(a, m, carry);
    assert(v == !(-0x80 <= signed(a) + signed(m) + ci <= 0x7F)) by (bit_vector)
        requires
            ci <= 1,
            r == (if a + m + ci > 0xFF { (a + m + ci - 0x100) as u8 } else { (a + m + ci) as u8 }),
            v == ((!(a ^ m)) & (a ^ r) & 0x80 != 0),
    ;
}

/// Subtraction with borrow is 8-bit two's-complement subtraction: the
/// result is the difference modulo 256, the carry says whether no borrow
/// was needed, and the overflow whether the signed difference left
/// `-128..=127`.
pub proof fn lemma_sbc_identities(a: u8, m: u8, carry: bool)
    ensures
        ({
            let bi: int = if carry { 0 } else { 1 };
            let (r, c, v) = sbc(a, m, carry);
            &&& r as int == (a - m - bi) % 0x100
            &&& c == (a - m - bi >= 0)
            &&& v == !(-0x80 <= signed(a) - signed(m) - bi <= 0x7F)
        }),
{
    let bi: u8 = if carry { 0 } else { 1 };
    let (r, c, v) = sbc(a, m, carry);
    assert(v == !(-0x80 <= signed(a) - signed(m) - bi <= 0x7F)) by (bit_vector)
        requires
            bi <= 1,
            r == (if a - m - bi < 0 { (a - m - bi + 0x100) as u8 } else { (a - m - bi) as u8 }),
            v == ((a ^ m) & (a ^ r) & 0x80 != 0),
    ;
}

/// A byte written to the stack page reads back unchanged: the page is work
/// RAM.
pub proof fn lemma_stack_slot(b: BusView, s: u8, v: u8)
    requires
        b.wf(),
    ensures
        bus_write(b, stack_addr(s), v).wf(),
        bus_read(bus_write(b, stack_addr(s), v), stack_addr(s)) == (
            bus_write(b, stack_addr(s), v),
            v,
        ),
{
}

/// `PHA` then `PLA` restores A and leaves S where it was.
pub proof fn lemma_pha_pla(c: Cpu, b: BusView)
    requires
        b.wf(),
    ensures
        ({
            let (c1, b1) = execute(Operation::Pha, Addressing::Implied, 0, c, b);
            let (c2, b2) = execute(Operation::Pla, Addressing::Implied, 0, c1, b1);
            c2.reg_a == c.reg_a && c2.reg_s == c.reg_s
        }),
{
    lemma_stack_slot(b, c.reg_s, c.reg_a);
}

/// `JSR` then `RTS` returns to the instruction after the `JSR`: `c` is the
/// state once the `JSR` and its operand have been fetched, so that its PC
/// addresses the next instruction; `JSR` jumps to `target`, and the `RTS`
/// that follows brings PC and S back.
pub proof fn lemma_jsr_rts(c: Cpu, b: BusView, target: u16)
    requires
        b.wf(),
    ensures
        ({
            let (c1, b1) = execute(Operation::Jsr, Addressing::Absolute, target, c, b);
            let (c2, b2) = execute(Operation::Rts, Addressing::Implied, 0, c1, b1);
            &&& c1.reg_pc == target
            &&& c2.reg_pc == c.reg_pc
            &&& c2.reg_s == c.reg_s
        }),
{
    let ret = c.reg_pc.wrapping_sub(1);
    let s1 = c.reg_s.wrapping_sub(1);
    let b1 = bus_write(b, stack_addr(c.reg_s), high_byte(ret));
    lemma_stack_slot(b, c.reg_s, high_byte(ret));
    lemma_stack_slot(b1, s1, low_byte(ret));
    let b2 = bus_write(b1, stack_addr(s1), low_byte(ret));
    assert(stack_addr(s1) != stack_addr(c.reg_s));
    assert(bus_read(b2, stack_addr(c.reg_s)).1 == high_byte(ret));
    assert(word(low_byte(ret), high_byte(ret)) == ret);
}

/// Operations that set PC themselves.
pub open spec fn transfers_control(op: Operation) -> bool {
    match op {
        Operation::Jmp | Operation::Jsr | Operation::Rts | Operation::Rti | Operation::Brk
        | Operation::Beq | Operation::Bne | Operation::Bmi | Operation::Bpl | Operation::Bvs
        | Operation::Bvc | Operation::Bcs | Operation::Bcc => true,
        _ => false,
    }
}

/// Operand resolution moves PC past exactly the operand bytes of the mode.
pub proof fn lemma_resolve_width(c: Cpu, b: BusView, mode: Addressing)
    ensures
        resolve(c, b, mode).0.reg_pc == (c.reg_pc + operand_width(mode)) % 0x10000,
        resolve(c, b, mode).0 == (Cpu { reg_pc: resolve(c, b, mode).0.reg_pc, ..c }),
{
}

/// For every opcode in the descriptor table whose operation does not set PC
/// itself, one instruction step leaves PC just past the opcode byte and the
/// operand bytes of its addressing mode.
pub proof fn lemma_instruction_length(c: Cpu, b: BusView)
    requires
        b.wf(),
        c.cycle <= 1,
        descriptor(bus_read(b, c.reg_pc).1) is Some,
        !transfers_control(descriptor(bus_read(b, c.reg_pc).1).unwrap().code),
    ensures
        run_spec(c, b).0.reg_pc == (c.reg_pc + 1 + operand_width(
            descriptor(bus_read(b, c.reg_pc).1).unwrap().addressing,
        )) % 0x10000,
        run_spec(c, b).2 is Ok,
{
    let (c1, b1, code) = fetch_byte(Cpu { reg_p: c.reg_p | FLAG_R, ..c }, b);
    let op = descriptor(code).unwrap();
    lemma_resolve_width(c1, b1, op.addressing);
    let (c2, b2, operand) = resolve(c1, b1, op.addressing);
    let (c3, b3) = execute(op.code, op.addressing, operand, c2, b2);
    assert(c3.reg_pc == c2.reg_pc);
}

/// Subtraction with borrow is addition with carry of the complemented
/// operand: same result, carry and overflow.
pub proof fn lemma_sbc_is_adc_of_complement(a: u8, m: u8, carry: bool)
    ensures
        sbc(a, m, carry) == adc(a, !m, carry),
{
    let ci: u8 = if carry { 1 } else { 0 };
    let nm: u8 = !m;
    assert(nm == 255 - m) by (bit_vector)
        requires
            nm == !m,
    ;
    let (r1, c1, v1) = sbc(a, m, carry);
    let (r2, c2, v2) = adc(a, nm, carry);
    assert(r1 == r2);
    assert(v1 == v2) by (bit_vector)
        requires
            nm == !m,
            r1 == r2,
            v1 == ((a ^ m) & (a ^ r1) & 0x80 != 0),
            v2 == ((!(a ^ nm)) & (a ^ r2) & 0x80 != 0),
    ;
}

/// The state after `n` driving ticks from `c` and `b`.
pub open spec fn run_ticks(c: Cpu, b: BusView, n: nat) -> (Cpu, BusView)
    decreases n,
{
    if n == 0 {
        (c, b)
    } else {
        let (c1, b1) = run_ticks(c, b, (n - 1) as nat);
        let (c2, b2, _) = run_spec(c1, b1);
        (c2, b2)
    }
}

/// Driving a `PHA` at `pc` and a `PLA` right after it, both in program ROM,
/// through four ticks (`PHA` takes three): A is restored, S is back where it
/// was, and PC is past both instructions.
pub proof fn lemma_pha_pla_ticks(c: Cpu, b: BusView)
    requires
        b.wf(),
        c.cycle <= 1,
        0x8000 <= c.reg_pc <= 0xFFFD,
        mem_read_spec(b.mem, c.reg_pc) == 0x48,
        mem_read_spec(b.mem, (c.reg_pc + 1) as u16) == 0x68,
    ensures
        ({
            let (c4, b4) = run_ticks(c, b, 4);
            &&& c4.reg_a == c.reg_a
            &&& c4.reg_s == c.reg_s
            &&& c4.reg_pc == c.reg_pc + 2
        }),
{
    let (c1, b1) = run_ticks(c, b, 1);
    assert(run_ticks(c, b, 0) == (c, b));
    lemma_stack_slot(b, c.reg_s, c.reg_a);
    assert(c1.reg_pc == c.reg_pc + 1);
    assert(c1.cycle == 3);
    assert(b1 == bus_write(b, stack_addr(c.reg_s), c.reg_a));
    assert(mem_read_spec(b1.mem, c1.reg_pc) == 0x68);
    let (c2, b2) = run_ticks(c, b, 2);
    assert(b2 == b1 && c2 == (Cpu { cycle: 2, ..c1 }));
    let (c3, b3) = run_ticks(c, b, 3);
    assert(b3 == b1 && c3 == (Cpu { cycle: 1, ..c1 }));
    assert(c.reg_s.wrapping_sub(1).wrapping_add(1) == c.reg_s);
    let (c4, b4) = run_ticks(c, b, 4);
    assert(c4.reg_a == c.reg_a);
    assert(c4.reg_s == c.reg_s);
    assert(c4.reg_pc == c.reg_pc + 2);
}

/// Driving a `JSR` at `pc` whose target holds an `RTS`, both in program ROM,
/// through seven ticks (`JSR` takes six): PC is at the instruction after the
/// `JSR` and S is back where it was.
pub proof fn lemma_jsr_rts_ticks(c: Cpu, b: BusView)
    requires
        b.wf(),
        c.cycle <= 1,
        0x8000 <= c.reg_pc <= 0xFFFC,
        mem_read_spec(b.mem, c.reg_pc) == 0x20,
        word(
            mem_read_spec(b.mem, (c.reg_pc + 1) as u16),
            mem_read_spec(b.mem, (c.reg_pc + 2) as u16),
        ) >= 0x8000,
        mem_read_spec(
            b.mem,
            word(
                mem_read_spec(b.mem, (c.reg_pc + 1) as u16),
                mem_read_spec(b.mem, (c.reg_pc + 2) as u16),
            ),
        ) == 0x60,
    ensures
        ({
            let (c7, b7) = run_ticks(c, b, 7);
            &&& c7.reg_pc == c.reg_pc + 3
            &&& c7.reg_s == c.reg_s
        }),
{
    let target = word(
        mem_read_spec(b.mem, (c.reg_pc + 1) as u16),
        mem_read_spec(b.mem, (c.reg_pc + 2) as u16),
    );
    assert(run_ticks(c, b, 0) == (c, b));
    let (c1, b1) = run_ticks(c, b, 1);
    let ret = ((c.reg_pc + 3) as u16).wrapping_sub(1);
    let s1 = c.reg_s.wrapping_sub(1);
    let bh = bus_write(b, stack_addr(c.reg_s), high_byte(ret));
    lemma_stack_slot(b, c.reg_s, high_byte(ret));
    lemma_stack_slot(bh, s1, low_byte(ret));
    assert(b1 == bus_write(bh, stack_addr(s1), low_byte(ret)));
    assert(c1.reg_pc == target);
    assert(c1.cycle == 6);
    assert(mem_read_spec(b1.mem, target) == 0x60);
    assert(run_ticks(c, b, 2) == (Cpu { cycle: 5, ..c1 }, b1));
    assert(run_ticks(c, b, 3) == (Cpu { cycle: 4, ..c1 }, b1));
    assert(run_ticks(c, b, 4) == (Cpu { cycle: 3, ..c1 }, b1));
    assert(run_ticks(c, b, 5) == (Cpu { cycle: 2, ..c1 }, b1));
    assert(run_ticks(c, b, 6) == (Cpu { cycle: 1, ..c1 }, b1));
    assert(stack_addr(s1) != stack_addr(c.reg_s));
    assert(word(low_byte(ret), high_byte(ret)) == ret);
    let (c7, b7) = run_ticks(c, b, 7);
    assert(c7.reg_pc == c.reg_pc + 3);
}

} // verus!
