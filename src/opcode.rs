//! The opcode descriptor table: for each opcode byte that the interpreter
//! implements, its operation, addressing mode and base cycle cost.
use vstd::prelude::*;

verus! {

/// How an instruction finds its operand.
#[derive(Clone, Copy, PartialEq, Eq, Structural)]
pub enum Addressing {
    Implied,
    Immediate,
    ZeroPage,
    ZeroPageX,
    ZeroPageY,
    Absolute,
    AbsoluteX,
    AbsoluteY,
    IndirectX,
    IndirectY,
    Indirect,
    Accumulator,
    Relative,
}

/// The operation of an instruction, documented and undocumented ones alike.
#[derive(Clone, Copy, PartialEq, Eq, Structural)]
pub enum Operation {
    Brk,
    Ora,
    Kil,
    Slo,
    Nop,
    Asl,
    Php,
    Bpl,
    Clc,
    Jsr,
    And,
    Rla,
    Bit,
    Rol,
    Plp,
    Bmi,
    Sec,
    Rti,
    Eor,
    Sre,
    Lsr,
    Pha,
    Jmp,
    Bvc,
    Cli,
    Rts,
    Adc,
    Rra,
    Ror,
    Pla,
    Bvs,
    Sei,
    Sta,
    Sax,
    Sty,
    Stx,
    Dey,
    Txa,
    Bcc,
    Tya,
    Txs,
    Ldy,
    Lda,
    Ldx,
    Lax,
    Tay,
    Tax,
    Bcs,
    Clv,
    Tsx,
    Las,
    Cpy,
    Cmp,
    Dcp,
    Dec,
    Iny,
    Dex,
    Bne,
    Cld,
    Cpx,
    Sbc,
    Isc,
    Inc,
    Inx,
    Beq,
    Sed,
}

#[derive(Clone, Copy, PartialEq, Eq, Structural)]
pub struct Opcode {
    pub code: Operation,
    pub addressing: Addressing,
    pub cycles: u8,
}

/// Bytes of operand that follow the opcode byte in each addressing mode.
pub open spec fn operand_width(mode: Addressing) -> nat {
    match mode {
        Addressing::Implied | Addressing::Accumulator => 0,
        Addressing::Absolute | Addressing::AbsoluteX | Addressing::AbsoluteY
        | Addressing::Indirect => 2,
        _ => 1,
    }
}

/// The descriptor of opcode byte `code`, or `None` for the bytes that the
/// interpreter does not implement.
pub open spec fn descriptor(code: u8) -> Option<Opcode> {
    match code {
        0x00 => Some(Opcode { code: Operation::Brk, addressing: Addressing::Implied, cycles: 7 }),
        0x01 => Some(Opcode { code: Operation::Ora, addressing: Addressing::IndirectX, cycles: 6 }),
        0x02 => Some(Opcode { code: Operation::Kil, addressing: Addressing::Implied, cycles: 2 }),
        0x03 => Some(Opcode { code: Operation::Slo, addressing: Addressing::IndirectX, cycles: 8 }),
        0x04 => Some(Opcode { code: Operation::Nop, addressing: Addressing::ZeroPage, cycles: 3 }),
        0x05 => Some(Opcode { code: Operation::Ora, addressing: Addressing::ZeroPage, cycles: 3 }),
        0x06 => Some(Opcode { code: Operation::Asl, addressing: Addressing::ZeroPage, cycles: 5 }),
        0x07 => Some(Opcode { code: Operation::Slo, addressing: Addressing::ZeroPage, cycles: 5 }),
        0x08 => Some(Opcode { code: Operation::Php, addressing: Addressing::Implied, cycles: 3 }),
        0x09 => Some(Opcode { code: Operation::Ora, addressing: Addressing::Immediate, cycles: 2 }),
        0x0A => Some(Opcode { code: Operation::Asl, addressing: Addressing::Accumulator, cycles: 2 }),
        0x0C => Some(Opcode { code: Operation::Nop, addressing: Addressing::Absolute, cycles: 4 }),
        0x0D => Some(Opcode { code: Operation::Ora, addressing: Addressing::Absolute, cycles: 4 }),
        0x0E => Some(Opcode { code: Operation::Asl, addressing: Addressing::Absolute, cycles: 6 }),
        0x0F => Some(Opcode { code: Operation::Slo, addressing: Addressing::Absolute, cycles: 6 }),
        0x10 => Some(Opcode { code: Operation::Bpl, addressing: Addressing::Relative, cycles: 2 }),
        0x11 => Some(Opcode { code: Operation::Ora, addressing: Addressing::IndirectY, cycles: 5 }),
        0x12 => Some(Opcode { code: Operation::Kil, addressing: Addressing::Implied, cycles: 2 }),
        0x13 => Some(Opcode { code: Operation::Slo, addressing: Addressing::IndirectY, cycles: 8 }),
        0x14 => Some(Opcode { code: Operation::Nop, addressing: Addressing::ZeroPageX, cycles: 4 }),
        0x15 => Some(Opcode { code: Operation::Ora, addressing: Addressing::ZeroPageX, cycles: 4 }),
        0x16 => Some(Opcode { code: Operation::Asl, addressing: Addressing::ZeroPageX, cycles: 6 }),
        0x17 => Some(Opcode { code: Operation::Slo, addressing: Addressing::ZeroPageX, cycles: 6 }),
        0x18 => Some(Opcode { code: Operation::Clc, addressing: Addressing::Implied, cycles: 2 }),
        0x19 => Some(Opcode { code: Operation::Ora, addressing: Addressing::AbsoluteY, cycles: 4 }),
        0x1A => Some(Opcode { code: Operation::Nop, addressing: Addressing::Implied, cycles: 2 }),
        0x1B => Some(Opcode { code: Operation::Slo, addressing: Addressing::AbsoluteY, cycles: 7 }),
        0x1C => Some(Opcode { code: Operation::Nop, addressing: Addressing::AbsoluteX, cycles: 4 }),
        0x1D => Some(Opcode { code: Operation::Ora, addressing: Addressing::AbsoluteX, cycles: 4 }),
        0x1E => Some(Opcode { code: Operation::Asl, addressing: Addressing::AbsoluteX, cycles: 7 }),
        0x1F => Some(Opcode { code: Operation::Slo, addressing: Addressing::AbsoluteX, cycles: 7 }),
        0x20 => Some(Opcode { code: Operation::Jsr, addressing: Addressing::Absolute, cycles: 6 }),
        0x21 => Some(Opcode { code: Operation::And, addressing: Addressing::IndirectX, cycles: 6 }),
        0x22 => Some(Opcode { code: Operation::Kil, addressing: Addressing::Implied, cycles: 2 }),
        0x23 => Some(Opcode { code: Operation::Rla, addressing: Addressing::IndirectX, cycles: 8 }),
        0x24 => Some(Opcode { code: Operation::Bit, addressing: Addressing::ZeroPage, cycles: 3 }),
        0x25 => Some(Opcode { code: Operation::And, addressing: Addressing::ZeroPage, cycles: 3 }),
        0x26 => Some(Opcode { code: Operation::Rol, addressing: Addressing::ZeroPage, cycles: 5 }),
        0x27 => Some(Opcode { code: Operation::Rla, addressing: Addressing::ZeroPage, cycles: 5 }),
        0x28 => Some(Opcode { code: Operation::Plp, addressing: Addressing::Implied, cycles: 4 }),
        0x29 => Some(Opcode { code: Operation::And, addressing: Addressing::Immediate, cycles: 2 }),
        0x2A => Some(Opcode { code: Operation::Rol, addressing: Addressing::Accumulator, cycles: 2 }),
        0x2C => Some(Opcode { code: Operation::Bit, addressing: Addressing::Absolute, cycles: 4 }),
        0x2D => Some(Opcode { code: Operation::And, addressing: Addressing::Absolute, cycles: 4 }),
        0x2E => Some(Opcode { code: Operation::Rol, addressing: Addressing::Absolute, cycles: 6 }),
        0x2F => Some(Opcode { code: Operation::Rla, addressing: Addressing::Absolute, cycles: 6 }),
        0x30 => Some(Opcode { code: Operation::Bmi, addressing: Addressing::Relative, cycles: 2 }),
        0x31 => Some(Opcode { code: Operation::And, addressing: Addressing::IndirectY, cycles: 5 }),
        0x32 => Some(Opcode { code: Operation::Kil, addressing: Addressing::Implied, cycles: 2 }),
        0x33 => Some(Opcode { code: Operation::Rla, addressing: Addressing::IndirectY, cycles: 8 }),
        0x34 => Some(Opcode { code: Operation::Nop, addressing: Addressing::ZeroPageX, cycles: 4 }),
        0x35 => Some(Opcode { code: Operation::And, addressing: Addressing::ZeroPageX, cycles: 4 }),
        0x36 => Some(Opcode { code: Operation::Rol, addressing: Addressing::ZeroPageX, cycles: 6 }),
        0x37 => Some(Opcode { code: Operation::Rla, addressing: Addressing::ZeroPageX, cycles: 6 }),
        0x38 => Some(Opcode { code: Operation::Sec, addressing: Addressing::Implied, cycles: 2 }),
        0x39 => Some(Opcode { code: Operation::And, addressing: Addressing::AbsoluteY, cycles: 4 }),
        0x3A => Some(Opcode { code: Operation::Nop, addressing: Addressing::Implied, cycles: 2 }),
        0x3B => Some(Opcode { code: Operation::Rla, addressing: Addressing::AbsoluteY, cycles: 7 }),
        0x3C => Some(Opcode { code: Operation::Nop, addressing: Addressing::AbsoluteX, cycles: 4 }),
        0x3D => Some(Opcode { code: Operation::And, addressing: Addressing::AbsoluteX, cycles: 4 }),
        0x3E => Some(Opcode { code: Operation::Rol, addressing: Addressing::AbsoluteX, cycles: 7 }),
        0x3F => Some(Opcode { code: Operation::Rla, addressing: Addressing::AbsoluteX, cycles: 7 }),
        0x40 => Some(Opcode { code: Operation::Rti, addressing: Addressing::Implied, cycles: 6 }),
        0x41 => Some(Opcode { code: Operation::Eor, addressing: Addressing::IndirectX, cycles: 6 }),
        0x42 => Some(Opcode { code: Operation::Kil, addressing: Addressing::Implied, cycles: 2 }),
        0x43 => Some(Opcode { code: Operation::Sre, addressing: Addressing::IndirectX, cycles: 8 }),
        0x44 => Some(Opcode { code: Operation::Nop, addressing: Addressing::ZeroPage, cycles: 3 }),
        0x45 => Some(Opcode { code: Operation::Eor, addressing: Addressing::ZeroPage, cycles: 3 }),
        0x46 => Some(Opcode { code: Operation::Lsr, addressing: Addressing::ZeroPage, cycles: 5 }),
        0x47 => Some(Opcode { code: Operation::Sre, addressing: Addressing::ZeroPage, cycles: 5 }),
        0x48 => Some(Opcode { code: Operation::Pha, addressing: Addressing::Implied, cycles: 3 }),
        0x49 => Some(Opcode { code: Operation::Eor, addressing: Addressing::Immediate, cycles: 2 }),
        0x4A => Some(Opcode { code: Operation::Lsr, addressing: Addressing::Accumulator, cycles: 2 }),
        0x4C => Some(Opcode { code: Operation::Jmp, addressing: Addressing::Absolute, cycles: 3 }),
        0x4D => Some(Opcode { code: Operation::Eor, addressing: Addressing::Absolute, cycles: 4 }),
        0x4E => Some(Opcode { code: Operation::Lsr, addressing: Addressing::Absolute, cycles: 6 }),
        0x4F => Some(Opcode { code: Operation::Sre, addressing: Addressing::Absolute, cycles: 6 }),
        0x50 => Some(Opcode { code: Operation::Bvc, addressing: Addressing::Relative, cycles: 2 }),
        0x51 => Some(Opcode { code: Operation::Eor, addressing: Addressing::IndirectY, cycles: 5 }),
        0x52 => Some(Opcode { code: Operation::Kil, addressing: Addressing::Implied, cycles: 2 }),
        0x53 => Some(Opcode { code: Operation::Sre, addressing: Addressing::IndirectY, cycles: 8 }),
        0x54 => Some(Opcode { code: Operation::Nop, addressing: Addressing::ZeroPageX, cycles: 4 }),
        0x55 => Some(Opcode { code: Operation::Eor, addressing: Addressing::ZeroPageX, cycles: 4 }),
        0x56 => Some(Opcode { code: Operation::Lsr, addressing: Addressing::ZeroPageX, cycles: 6 }),
        0x57 => Some(Opcode { code: Operation::Sre, addressing: Addressing::ZeroPageX, cycles: 6 }),
        0x58 => Some(Opcode { code: Operation::Cli, addressing: Addressing::Implied, cycles: 2 }),
        0x59 => Some(Opcode { code: Operation::Eor, addressing: Addressing::AbsoluteY, cycles: 4 }),
        0x5A => Some(Opcode { code: Operation::Nop, addressing: Addressing::Implied, cycles: 2 }),
        0x5B => Some(Opcode { code: Operation::Sre, addressing: Addressing::AbsoluteY, cycles: 7 }),
        0x5C => Some(Opcode { code: Operation::Nop, addressing: Addressing::AbsoluteX, cycles: 4 }),
        0x5D => Some(Opcode { code: Operation::Eor, addressing: Addressing::AbsoluteX, cycles: 4 }),
        0x5E => Some(Opcode { code: Operation::Lsr, addressing: Addressing::AbsoluteX, cycles: 7 }),
        0x5F => Some(Opcode { code: Operation::Sre, addressing: Addressing::AbsoluteX, cycles: 7 }),
        0x60 => Some(Opcode { code: Operation::Rts, addressing: Addressing::Implied, cycles: 6 }),
        0x61 => Some(Opcode { code: Operation::Adc, addressing: Addressing::IndirectX, cycles: 6 }),
        0x62 => Some(Opcode { code: Operation::Kil, addressing: Addressing::Implied, cycles: 2 }),
        0x63 => Some(Opcode { code: Operation::Rra, addressing: Addressing::IndirectX, cycles: 8 }),
        0x64 => Some(Opcode { code: Operation::Nop, addressing: Addressing::ZeroPage, cycles: 3 }),
        0x65 => Some(Opcode { code: Operation::Adc, addressing: Addressing::ZeroPage, cycles: 3 }),
        0x66 => Some(Opcode { code: Operation::Ror, addressing: Addressing::ZeroPage, cycles: 5 }),
        0x67 => Some(Opcode { code: Operation::Rra, addressing: Addressing::ZeroPage, cycles: 5 }),
        0x68 => Some(Opcode { code: Operation::Pla, addressing: Addressing::Implied, cycles: 4 }),
        0x69 => Some(Opcode { code: Operation::Adc, addressing: Addressing::Immediate, cycles: 2 }),
        0x6A => Some(Opcode { code: Operation::Ror, addressing: Addressing::Accumulator, cycles: 2 }),
        0x6C => Some(Opcode { code: Operation::Jmp, addressing: Addressing::Indirect, cycles: 5 }),
        0x6D => Some(Opcode { code: Operation::Adc, addressing: Addressing::Absolute, cycles: 4 }),
        0x6E => Some(Opcode { code: Operation::Ror, addressing: Addressing::Absolute, cycles: 6 }),
        0x6F => Some(Opcode { code: Operation::Rra, addressing: Addressing::Absolute, cycles: 6 }),
        0x70 => Some(Opcode { code: Operation::Bvs, addressing: Addressing::Relative, cycles: 2 }),
        0x71 => Some(Opcode { code: Operation::Adc, addressing: Addressing::IndirectY, cycles: 5 }),
        0x72 => Some(Opcode { code: Operation::Kil, addressing: Addressing::Implied, cycles: 2 }),
        0x73 => Some(Opcode { code: Operation::Rra, addressing: Addressing::IndirectY, cycles: 8 }),
        0x74 => Some(Opcode { code: Operation::Nop, addressing: Addressing::ZeroPageX, cycles: 4 }),
        0x75 => Some(Opcode { code: Operation::Adc, addressing: Addressing::ZeroPageX, cycles: 4 }),
        0x76 => Some(Opcode { code: Operation::Ror, addressing: Addressing::ZeroPageX, cycles: 6 }),
        0x77 => Some(Opcode { code: Operation::Rra, addressing: Addressing::ZeroPageX, cycles: 6 }),
        0x78 => Some(Opcode { code: Operation::Sei, addressing: Addressing::Implied, cycles: 2 }),
        0x79 => Some(Opcode { code: Operation::Adc, addressing: Addressing::AbsoluteY, cycles: 4 }),
        0x7A => Some(Opcode { code: Operation::Nop, addressing: Addressing::Implied, cycles: 2 }),
        0x7B => Some(Opcode { code: Operation::Rra, addressing: Addressing::AbsoluteY, cycles: 7 }),
        0x7C => Some(Opcode { code: Operation::Nop, addressing: Addressing::AbsoluteX, cycles: 4 }),
        0x7D => Some(Opcode { code: Operation::Adc, addressing: Addressing::AbsoluteX, cycles: 4 }),
        0x7E => Some(Opcode { code: Operation::Ror, addressing: Addressing::AbsoluteX, cycles: 7 }),
        0x7F => Some(Opcode { code: Operation::Rra, addressing: Addressing::AbsoluteX, cycles: 7 }),
        0x80 => Some(Opcode { code: Operation::Nop, addressing: Addressing::Immediate, cycles: 2 }),
        0x81 => Some(Opcode { code: Operation::Sta, addressing: Addressing::IndirectX, cycles: 6 }),
        0x82 => Some(Opcode { code: Operation::Nop, addressing: Addressing::Immediate, cycles: 2 }),
        0x83 => Some(Opcode { code: Operation::Sax, addressing: Addressing::IndirectX, cycles: 6 }),
        0x84 => Some(Opcode { code: Operation::Sty, addressing: Addressing::ZeroPage, cycles: 3 }),
        0x85 => Some(Opcode { code: Operation::Sta, addressing: Addressing::ZeroPage, cycles: 3 }),
        0x86 => Some(Opcode { code: Operation::Stx, addressing: Addressing::ZeroPage, cycles: 3 }),
        0x87 => Some(Opcode { code: Operation::Sax, addressing: Addressing::ZeroPage, cycles: 3 }),
        0x88 => Some(Opcode { code: Operation::Dey, addressing: Addressing::Implied, cycles: 2 }),
        0x89 => Some(Opcode { code: Operation::Nop, addressing: Addressing::Immediate, cycles: 2 }),
        0x8A => Some(Opcode { code: Operation::Txa, addressing: Addressing::Implied, cycles: 2 }),
        0x8C => Some(Opcode { code: Operation::Sty, addressing: Addressing::Absolute, cycles: 4 }),
        0x8D => Some(Opcode { code: Operation::Sta, addressing: Addressing::Absolute, cycles: 4 }),
        0x8E => Some(Opcode { code: Operation::Stx, addressing: Addressing::Absolute, cycles: 4 }),
        0x8F => Some(Opcode { code: Operation::Sax, addressing: Addressing::Absolute, cycles: 4 }),
        0x90 => Some(Opcode { code: Operation::Bcc, addressing: Addressing::Relative, cycles: 2 }),
        0x91 => Some(Opcode { code: Operation::Sta, addressing: Addressing::IndirectY, cycles: 6 }),
        0x92 => Some(Opcode { code: Operation::Kil, addressing: Addressing::Implied, cycles: 2 }),
        0x94 => Some(Opcode { code: Operation::Sty, addressing: Addressing::ZeroPageX, cycles: 4 }),
        0x95 => Some(Opcode { code: Operation::Sta, addressing: Addressing::ZeroPageX, cycles: 4 }),
        0x96 => Some(Opcode { code: Operation::Stx, addressing: Addressing::ZeroPageY, cycles: 4 }),
        0x97 => Some(Opcode { code: Operation::Sax, addressing: Addressing::ZeroPageY, cycles: 4 }),
        0x98 => Some(Opcode { code: Operation::Tya, addressing: Addressing::Implied, cycles: 2 }),
        0x99 => Some(Opcode { code: Operation::Sta, addressing: Addressing::AbsoluteY, cycles: 5 }),
        0x9A => Some(Opcode { code: Operation::Txs, addressing: Addressing::Implied, cycles: 2 }),
        0x9D => Some(Opcode { code: Operation::Sta, addressing: Addressing::AbsoluteX, cycles: 5 }),
        0xA0 => Some(Opcode { code: Operation::Ldy, addressing: Addressing::Immediate, cycles: 2 }),
        0xA1 => Some(Opcode { code: Operation::Lda, addressing: Addressing::IndirectX, cycles: 6 }),
        0xA2 => Some(Opcode { code: Operation::Ldx, addressing: Addressing::Immediate, cycles: 2 }),
        0xA3 => Some(Opcode { code: Operation::Lax, addressing: Addressing::IndirectX, cycles: 6 }),
        0xA4 => Some(Opcode { code: Operation::Ldy, addressing: Addressing::ZeroPage, cycles: 3 }),
        0xA5 => Some(Opcode { code: Operation::Lda, addressing: Addressing::ZeroPage, cycles: 3 }),
        0xA6 => Some(Opcode { code: Operation::Ldx, addressing: Addressing::ZeroPage, cycles: 3 }),
        0xA7 => Some(Opcode { code: Operation::Lax, addressing: Addressing::ZeroPage, cycles: 3 }),
        0xA8 => Some(Opcode { code: Operation::Tay, addressing: Addressing::Implied, cycles: 2 }),
        0xA9 => Some(Opcode { code: Operation::Lda, addressing: Addressing::Immediate, cycles: 2 }),
        0xAA => Some(Opcode { code: Operation::Tax, addressing: Addressing::Implied, cycles: 2 }),
        0xAB => Some(Opcode { code: Operation::Lax, addressing: Addressing::Immediate, cycles: 2 }),
        0xAC => Some(Opcode { code: Operation::Ldy, addressing: Addressing::Absolute, cycles: 4 }),
        0xAD => Some(Opcode { code: Operation::Lda, addressing: Addressing::Absolute, cycles: 4 }),
        0xAE => Some(Opcode { code: Operation::Ldx, addressing: Addressing::Absolute, cycles: 4 }),
        0xAF => Some(Opcode { code: Operation::Lax, addressing: Addressing::Absolute, cycles: 4 }),
        0xB0 => Some(Opcode { code: Operation::Bcs, addressing: Addressing::Relative, cycles: 2 }),
        0xB1 => Some(Opcode { code: Operation::Lda, addressing: Addressing::IndirectY, cycles: 5 }),
        0xB2 => Some(Opcode { code: Operation::Kil, addressing: Addressing::Implied, cycles: 2 }),
        0xB3 => Some(Opcode { code: Operation::Lax, addressing: Addressing::IndirectY, cycles: 5 }),
        0xB4 => Some(Opcode { code: Operation::Ldy, addressing: Addressing::ZeroPageX, cycles: 4 }),
        0xB5 => Some(Opcode { code: Operation::Lda, addressing: Addressing::ZeroPageX, cycles: 4 }),
        0xB6 => Some(Opcode { code: Operation::Ldx, addressing: Addressing::ZeroPageY, cycles: 4 }),
        0xB7 => Some(Opcode { code: Operation::Lax, addressing: Addressing::ZeroPageY, cycles: 4 }),
        0xB8 => Some(Opcode { code: Operation::Clv, addressing: Addressing::Implied, cycles: 2 }),
        0xB9 => Some(Opcode { code: Operation::Lda, addressing: Addressing::AbsoluteY, cycles: 4 }),
        0xBA => Some(Opcode { code: Operation::Tsx, addressing: Addressing::Implied, cycles: 2 }),
        0xBB => Some(Opcode { code: Operation::Las, addressing: Addressing::AbsoluteY, cycles: 4 }),
        0xBC => Some(Opcode { code: Operation::Ldy, addressing: Addressing::AbsoluteX, cycles: 4 }),
        0xBD => Some(Opcode { code: Operation::Lda, addressing: Addressing::AbsoluteX, cycles: 4 }),
        0xBE => Some(Opcode { code: Operation::Ldx, addressing: Addressing::AbsoluteY, cycles: 4 }),
        0xBF => Some(Opcode { code: Operation::Lax, addressing: Addressing::AbsoluteY, cycles: 4 }),
        0xC0 => Some(Opcode { code: Operation::Cpy, addressing: Addressing::Immediate, cycles: 2 }),
        0xC1 => Some(Opcode { code: Operation::Cmp, addressing: Addressing::IndirectX, cycles: 6 }),
        0xC2 => Some(Opcode { code: Operation::Nop, addressing: Addressing::Immediate, cycles: 2 }),
        0xC3 => Some(Opcode { code: Operation::Dcp, addressing: Addressing::IndirectX, cycles: 8 }),
        0xC4 => Some(Opcode { code: Operation::Cpy, addressing: Addressing::ZeroPage, cycles: 3 }),
        0xC5 => Some(Opcode { code: Operation::Cmp, addressing: Addressing::ZeroPage, cycles: 3 }),
        0xC6 => Some(Opcode { code: Operation::Dec, addressing: Addressing::ZeroPage, cycles: 5 }),
        0xC7 => Some(Opcode { code: Operation::Dcp, addressing: Addressing::ZeroPage, cycles: 5 }),
        0xC8 => Some(Opcode { code: Operation::Iny, addressing: Addressing::Implied, cycles: 2 }),
        0xC9 => Some(Opcode { code: Operation::Cmp, addressing: Addressing::Immediate, cycles: 2 }),
        0xCA => Some(Opcode { code: Operation::Dex, addressing: Addressing::Implied, cycles: 2 }),
        0xCC => Some(Opcode { code: Operation::Cpy, addressing: Addressing::Absolute, cycles: 4 }),
        0xCD => Some(Opcode { code: Operation::Cmp, addressing: Addressing::Absolute, cycles: 4 }),
        0xCE => Some(Opcode { code: Operation::Dec, addressing: Addressing::Absolute, cycles: 6 }),
        0xCF => Some(Opcode { code: Operation::Dcp, addressing: Addressing::Absolute, cycles: 6 }),
        0xD0 => Some(Opcode { code: Operation::Bne, addressing: Addressing::Relative, cycles: 2 }),
        0xD1 => Some(Opcode { code: Operation::Cmp, addressing: Addressing::IndirectY, cycles: 5 }),
        0xD2 => Some(Opcode { code: Operation::Kil, addressing: Addressing::Implied, cycles: 2 }),
        0xD3 => Some(Opcode { code: Operation::Dcp, addressing: Addressing::IndirectY, cycles: 8 }),
        0xD4 => Some(Opcode { code: Operation::Nop, addressing: Addressing::ZeroPageX, cycles: 4 }),
        0xD5 => Some(Opcode { code: Operation::Cmp, addressing: Addressing::ZeroPageX, cycles: 4 }),
        0xD6 => Some(Opcode { code: Operation::Dec, addressing: Addressing::ZeroPageX, cycles: 6 }),
        0xD7 => Some(Opcode { code: Operation::Dcp, addressing: Addressing::ZeroPageX, cycles: 6 }),
        0xD8 => Some(Opcode { code: Operation::Cld, addressing: Addressing::Implied, cycles: 2 }),
        0xD9 => Some(Opcode { code: Operation::Cmp, addressing: Addressing::AbsoluteY, cycles: 4 }),
        0xDA => Some(Opcode { code: Operation::Nop, addressing: Addressing::Implied, cycles: 2 }),
        0xDB => Some(Opcode { code: Operation::Dcp, addressing: Addressing::AbsoluteY, cycles: 7 }),
        0xDC => Some(Opcode { code: Operation::Nop, addressing: Addressing::AbsoluteX, cycles: 4 }),
        0xDD => Some(Opcode { code: Operation::Cmp, addressing: Addressing::AbsoluteX, cycles: 4 }),
        0xDE => Some(Opcode { code: Operation::Dec, addressing: Addressing::AbsoluteX, cycles: 7 }),
        0xDF => Some(Opcode { code: Operation::Dcp, addressing: Addressing::AbsoluteX, cycles: 7 }),
        0xE0 => Some(Opcode { code: Operation::Cpx, addressing: Addressing::Immediate, cycles: 2 }),
        0xE1 => Some(Opcode { code: Operation::Sbc, addressing: Addressing::IndirectX, cycles: 6 }),
        0xE2 => Some(Opcode { code: Operation::Nop, addressing: Addressing::Immediate, cycles: 2 }),
        0xE3 => Some(Opcode { code: Operation::Isc, addressing: Addressing::IndirectX, cycles: 8 }),
        0xE4 => Some(Opcode { code: Operation::Cpx, addressing: Addressing::ZeroPage, cycles: 3 }),
        0xE5 => Some(Opcode { code: Operation::Sbc, addressing: Addressing::ZeroPage, cycles: 3 }),
        0xE6 => Some(Opcode { code: Operation::Inc, addressing: Addressing::ZeroPage, cycles: 5 }),
        0xE7 => Some(Opcode { code: Operation::Isc, addressing: Addressing::ZeroPage, cycles: 5 }),
        0xE8 => Some(Opcode { code: Operation::Inx, addressing: Addressing::Implied, cycles: 2 }),
        0xE9 => Some(Opcode { code: Operation::Sbc, addressing: Addressing::Immediate, cycles: 2 }),
        0xEA => Some(Opcode { code: Operation::Nop, addressing: Addressing::Implied, cycles: 2 }),
        0xEB => Some(Opcode { code: Operation::Sbc, addressing: Addressing::Immediate, cycles: 2 }),
        0xEC => Some(Opcode { code: Operation::Cpx, addressing: Addressing::Absolute, cycles: 4 }),
        0xED => Some(Opcode { code: Operation::Sbc, addressing: Addressing::Absolute, cycles: 4 }),
        0xEE => Some(Opcode { code: Operation::Inc, addressing: Addressing::Absolute, cycles: 6 }),
        0xEF => Some(Opcode { code: Operation::Isc, addressing: Addressing::Absolute, cycles: 6 }),
        0xF0 => Some(Opcode { code: Operation::Beq, addressing: Addressing::Relative, cycles: 2 }),
        0xF1 => Some(Opcode { code: Operation::Sbc, addressing: Addressing::IndirectY, cycles: 5 }),
        0xF2 => Some(Opcode { code: Operation::Kil, addressing: Addressing::Implied, cycles: 2 }),
        0xF3 => Some(Opcode { code: Operation::Isc, addressing: Addressing::IndirectY, cycles: 8 }),
        0xF4 => Some(Opcode { code: Operation::Nop, addressing: Addressing::ZeroPageX, cycles: 4 }),
        0xF5 => Some(Opcode { code: Operation::Sbc, addressing: Addressing::ZeroPageX, cycles: 4 }),
        0xF6 => Some(Opcode { code: Operation::Inc, addressing: Addressing::ZeroPageX, cycles: 6 }),
        0xF7 => Some(Opcode { code: Operation::Isc, addressing: Addressing::ZeroPageX, cycles: 6 }),
        0xF8 => Some(Opcode { code: Operation::Sed, addressing: Addressing::Implied, cycles: 2 }),
        0xF9 => Some(Opcode { code: Operation::Sbc, addressing: Addressing::AbsoluteY, cycles: 4 }),
        0xFA => Some(Opcode { code: Operation::Nop, addressing: Addressing::Implied, cycles: 2 }),
        0xFB => Some(Opcode { code: Operation::Isc, addressing: Addressing::AbsoluteY, cycles: 7 }),
        0xFC => Some(Opcode { code: Operation::Nop, addressing: Addressing::AbsoluteX, cycles: 4 }),
        0xFD => Some(Opcode { code: Operation::Sbc, addressing: Addressing::AbsoluteX, cycles: 4 }),
        0xFE => Some(Opcode { code: Operation::Inc, addressing: Addressing::AbsoluteX, cycles: 7 }),
        0xFF => Some(Opcode { code: Operation::Isc, addressing: Addressing::AbsoluteX, cycles: 7 }),
        _ => None,
    }
}

/// Looks up the descriptor of opcode byte `code`.
pub fn decode(code: u8) -> (r: Option<Opcode>)
    ensures
        r == descriptor(code),
{
    match code {
        0x00 => Some(Opcode { code: Operation::Brk, addressing: Addressing::Implied, cycles: 7 }),
        0x01 => Some(Opcode { code: Operation::Ora, addressing: Addressing::IndirectX, cycles: 6 }),
        0x02 => Some(Opcode { code: Operation::Kil, addressing: Addressing::Implied, cycles: 2 }),
        0x03 => Some(Opcode { code: Operation::Slo, addressing: Addressing::IndirectX, cycles: 8 }),
        0x04 => Some(Opcode { code: Operation::Nop, addressing: Addressing::ZeroPage, cycles: 3 }),
        0x05 => Some(Opcode { code: Operation::Ora, addressing: Addressing::ZeroPage, cycles: 3 }),
        0x06 => Some(Opcode { code: Operation::Asl, addressing: Addressing::ZeroPage, cycles: 5 }),
        0x07 => Some(Opcode { code: Operation::Slo, addressing: Addressing::ZeroPage, cycles: 5 }),
        0x08 => Some(Opcode { code: Operation::Php, addressing: Addressing::Implied, cycles: 3 }),
        0x09 => Some(Opcode { code: Operation::Ora, addressing: Addressing::Immediate, cycles: 2 }),
        0x0A => Some(Opcode { code: Operation::Asl, addressing: Addressing::Accumulator, cycles: 2 }),
        0x0C => Some(Opcode { code: Operation::Nop, addressing: Addressing::Absolute, cycles: 4 }),
        0x0D => Some(Opcode { code: Operation::Ora, addressing: Addressing::Absolute, cycles: 4 }),
        0x0E => Some(Opcode { code: Operation::Asl, addressing: Addressing::Absolute, cycles: 6 }),
        0x0F => Some(Opcode { code: Operation::Slo, addressing: Addressing::Absolute, cycles: 6 }),
        0x10 => Some(Opcode { code: Operation::Bpl, addressing: Addressing::Relative, cycles: 2 }),
        0x11 => Some(Opcode { code: Operation::Ora, addressing: Addressing::IndirectY, cycles: 5 }),
        0x12 => Some(Opcode { code: Operation::Kil, addressing: Addressing::Implied, cycles: 2 }),
        0x13 => Some(Opcode { code: Operation::Slo, addressing: Addressing::IndirectY, cycles: 8 }),
        0x14 => Some(Opcode { code: Operation::Nop, addressing: Addressing::ZeroPageX, cycles: 4 }),
        0x15 => Some(Opcode { code: Operation::Ora, addressing: Addressing::ZeroPageX, cycles: 4 }),
        0x16 => Some(Opcode { code: Operation::Asl, addressing: Addressing::ZeroPageX, cycles: 6 }),
        0x17 => Some(Opcode { code: Operation::Slo, addressing: Addressing::ZeroPageX, cycles: 6 }),
        0x18 => Some(Opcode { code: Operation::Clc, addressing: Addressing::Implied, cycles: 2 }),
        0x19 => Some(Opcode { code: Operation::Ora, addressing: Addressing::AbsoluteY, cycles: 4 }),
        0x1A => Some(Opcode { code: Operation::Nop, addressing: Addressing::Implied, cycles: 2 }),
        0x1B => Some(Opcode { code: Operation::Slo, addressing: Addressing::AbsoluteY, cycles: 7 }),
        0x1C => Some(Opcode { code: Operation::Nop, addressing: Addressing::AbsoluteX, cycles: 4 }),
        0x1D => Some(Opcode { code: Operation::Ora, addressing: Addressing::AbsoluteX, cycles: 4 }),
        0x1E => Some(Opcode { code: Operation::Asl, addressing: Addressing::AbsoluteX, cycles: 7 }),
        0x1F => Some(Opcode { code: Operation::Slo, addressing: Addressing::AbsoluteX, cycles: 7 }),
        0x20 => Some(Opcode { code: Operation::Jsr, addressing: Addressing::Absolute, cycles: 6 }),
        0x21 => Some(Opcode { code: Operation::And, addressing: Addressing::IndirectX, cycles: 6 }),
        0x22 => Some(Opcode { code: Operation::Kil, addressing: Addressing::Implied, cycles: 2 }),
        0x23 => Some(Opcode { code: Operation::Rla, addressing: Addressing::IndirectX, cycles: 8 }),
        0x24 => Some(Opcode { code: Operation::Bit, addressing: Addressing::ZeroPage, cycles: 3 }),
        0x25 => Some(Opcode { code: Operation::And, addressing: Addressing::ZeroPage, cycles: 3 }),
        0x26 => Some(Opcode { code: Operation::Rol, addressing: Addressing::ZeroPage, cycles: 5 }),
        0x27 => Some(Opcode { code: Operation::Rla, addressing: Addressing::ZeroPage, cycles: 5 }),
        0x28 => Some(Opcode { code: Operation::Plp, addressing: Addressing::Implied, cycles: 4 }),
        0x29 => Some(Opcode { code: Operation::And, addressing: Addressing::Immediate, cycles: 2 }),
        0x2A => Some(Opcode { code: Operation::Rol, addressing: Addressing::Accumulator, cycles: 2 }),
        0x2C => Some(Opcode { code: Operation::Bit, addressing: Addressing::Absolute, cycles: 4 }),
        0x2D => Some(Opcode { code: Operation::And, addressing: Addressing::Absolute, cycles: 4 }),
        0x2E => Some(Opcode { code: Operation::Rol, addressing: Addressing::Absolute, cycles: 6 }),
        0x2F => Some(Opcode { code: Operation::Rla, addressing: Addressing::Absolute, cycles: 6 }),
        0x30 => Some(Opcode { code: Operation::Bmi, addressing: Addressing::Relative, cycles: 2 }),
        0x31 => Some(Opcode { code: Operation::And, addressing: Addressing::IndirectY, cycles: 5 }),
        0x32 => Some(Opcode { code: Operation::Kil, addressing: Addressing::Implied, cycles: 2 }),
        0x33 => Some(Opcode { code: Operation::Rla, addressing: Addressing::IndirectY, cycles: 8 }),
        0x34 => Some(Opcode { code: Operation::Nop, addressing: Addressing::ZeroPageX, cycles: 4 }),
        0x35 => Some(Opcode { code: Operation::And, addressing: Addressing::ZeroPageX, cycles: 4 }),
        0x36 => Some(Opcode { code: Operation::Rol, addressing: Addressing::ZeroPageX, cycles: 6 }),
        0x37 => Some(Opcode { code: Operation::Rla, addressing: Addressing::ZeroPageX, cycles: 6 }),
        0x38 => Some(Opcode { code: Operation::Sec, addressing: Addressing::Implied, cycles: 2 }),
        0x39 => Some(Opcode { code: Operation::And, addressing: Addressing::AbsoluteY, cycles: 4 }),
        0x3A => Some(Opcode { code: Operation::Nop, addressing: Addressing::Implied, cycles: 2 }),
        0x3B => Some(Opcode { code: Operation::Rla, addressing: Addressing::AbsoluteY, cycles: 7 }),
        0x3C => Some(Opcode { code: Operation::Nop, addressing: Addressing::AbsoluteX, cycles: 4 }),
        0x3D => Some(Opcode { code: Operation::And, addressing: Addressing::AbsoluteX, cycles: 4 }),
        0x3E => Some(Opcode { code: Operation::Rol, addressing: Addressing::AbsoluteX, cycles: 7 }),
        0x3F => Some(Opcode { code: Operation::Rla, addressing: Addressing::AbsoluteX, cycles: 7 }),
        0x40 => Some(Opcode { code: Operation::Rti, addressing: Addressing::Implied, cycles: 6 }),
        0x41 => Some(Opcode { code: Operation::Eor, addressing: Addressing::IndirectX, cycles: 6 }),
        0x42 => Some(Opcode { code: Operation::Kil, addressing: Addressing::Implied, cycles: 2 }),
        0x43 => Some(Opcode { code: Operation::Sre, addressing: Addressing::IndirectX, cycles: 8 }),
        0x44 => Some(Opcode { code: Operation::Nop, addressing: Addressing::ZeroPage, cycles: 3 }),
        0x45 => Some(Opcode { code: Operation::Eor, addressing: Addressing::ZeroPage, cycles: 3 }),
        0x46 => Some(Opcode { code: Operation::Lsr, addressing: Addressing::ZeroPage, cycles: 5 }),
        0x47 => Some(Opcode { code: Operation::Sre, addressing: Addressing::ZeroPage, cycles: 5 }),
        0x48 => Some(Opcode { code: Operation::Pha, addressing: Addressing::Implied, cycles: 3 }),
        0x49 => Some(Opcode { code: Operation::Eor, addressing: Addressing::Immediate, cycles: 2 }),
        0x4A => Some(Opcode { code: Operation::Lsr, addressing: Addressing::Accumulator, cycles: 2 }),
        0x4C => Some(Opcode { code: Operation::Jmp, addressing: Addressing::Absolute, cycles: 3 }),
        0x4D => Some(Opcode { code: Operation::Eor, addressing: Addressing::Absolute, cycles: 4 }),
        0x4E => Some(Opcode { code: Operation::Lsr, addressing: Addressing::Absolute, cycles: 6 }),
        0x4F => Some(Opcode { code: Operation::Sre, addressing: Addressing::Absolute, cycles: 6 }),
        0x50 => Some(Opcode { code: Operation::Bvc, addressing: Addressing::Relative, cycles: 2 }),
        0x51 => Some(Opcode { code: Operation::Eor, addressing: Addressing::IndirectY, cycles: 5 }),
        0x52 => Some(Opcode { code: Operation::Kil, addressing: Addressing::Implied, cycles: 2 }),
        0x53 => Some(Opcode { code: Operation::Sre, addressing: Addressing::IndirectY, cycles: 8 }),
        0x54 => Some(Opcode { code: Operation::Nop, addressing: Addressing::ZeroPageX, cycles: 4 }),
        0x55 => Some(Opcode { code: Operation::Eor, addressing: Addressing::ZeroPageX, cycles: 4 }),
        0x56 => Some(Opcode { code: Operation::Lsr, addressing: Addressing::ZeroPageX, cycles: 6 }),
        0x57 => Some(Opcode { code: Operation::Sre, addressing: Addressing::ZeroPageX, cycles: 6 }),
        0x58 => Some(Opcode { code: Operation::Cli, addressing: Addressing::Implied, cycles: 2 }),
        0x59 => Some(Opcode { code: Operation::Eor, addressing: Addressing::AbsoluteY, cycles: 4 }),
        0x5A => Some(Opcode { code: Operation::Nop, addressing: Addressing::Implied, cycles: 2 }),
        0x5B => Some(Opcode { code: Operation::Sre, addressing: Addressing::AbsoluteY, cycles: 7 }),
        0x5C => Some(Opcode { code: Operation::Nop, addressing: Addressing::AbsoluteX, cycles: 4 }),
        0x5D => Some(Opcode { code: Operation::Eor, addressing: Addressing::AbsoluteX, cycles: 4 }),
        0x5E => Some(Opcode { code: Operation::Lsr, addressing: Addressing::AbsoluteX, cycles: 7 }),
        0x5F => Some(Opcode { code: Operation::Sre, addressing: Addressing::AbsoluteX, cycles: 7 }),
        0x60 => Some(Opcode { code: Operation::Rts, addressing: Addressing::Implied, cycles: 6 }),
        0x61 => Some(Opcode { code: Operation::Adc, addressing: Addressing::IndirectX, cycles: 6 }),
        0x62 => Some(Opcode { code: Operation::Kil, addressing: Addressing::Implied, cycles: 2 }),
        0x63 => Some(Opcode { code: Operation::Rra, addressing: Addressing::IndirectX, cycles: 8 }),
        0x64 => Some(Opcode { code: Operation::Nop, addressing: Addressing::ZeroPage, cycles: 3 }),
        0x65 => Some(Opcode { code: Operation::Adc, addressing: Addressing::ZeroPage, cycles: 3 }),
        0x66 => Some(Opcode { code: Operation::Ror, addressing: Addressing::ZeroPage, cycles: 5 }),
        0x67 => Some(Opcode { code: Operation::Rra, addressing: Addressing::ZeroPage, cycles: 5 }),
        0x68 => Some(Opcode { code: Operation::Pla, addressing: Addressing::Implied, cycles: 4 }),
        0x69 => Some(Opcode { code: Operation::Adc, addressing: Addressing::Immediate, cycles: 2 }),
        0x6A => Some(Opcode { code: Operation::Ror, addressing: Addressing::Accumulator, cycles: 2 }),
        0x6C => Some(Opcode { code: Operation::Jmp, addressing: Addressing::Indirect, cycles: 5 }),
        0x6D => Some(Opcode { code: Operation::Adc, addressing: Addressing::Absolute, cycles: 4 }),
        0x6E => Some(Opcode { code: Operation::Ror, addressing: Addressing::Absolute, cycles: 6 }),
        0x6F => Some(Opcode { code: Operation::Rra, addressing: Addressing::Absolute, cycles: 6 }),
        0x70 => Some(Opcode { code: Operation::Bvs, addressing: Addressing::Relative, cycles: 2 }),
        0x71 => Some(Opcode { code: Operation::Adc, addressing: Addressing::IndirectY, cycles: 5 }),
        0x72 => Some(Opcode { code: Operation::Kil, addressing: Addressing::Implied, cycles: 2 }),
        0x73 => Some(Opcode { code: Operation::Rra, addressing: Addressing::IndirectY, cycles: 8 }),
        0x74 => Some(Opcode { code: Operation::Nop, addressing: Addressing::ZeroPageX, cycles: 4 }),
        0x75 => Some(Opcode { code: Operation::Adc, addressing: Addressing::ZeroPageX, cycles: 4 }),
        0x76 => Some(Opcode { code: Operation::Ror, addressing: Addressing::ZeroPageX, cycles: 6 }),
        0x77 => Some(Opcode { code: Operation::Rra, addressing: Addressing::ZeroPageX, cycles: 6 }),
        0x78 => Some(Opcode { code: Operation::Sei, addressing: Addressing::Implied, cycles: 2 }),
        0x79 => Some(Opcode { code: Operation::Adc, addressing: Addressing::AbsoluteY, cycles: 4 }),
        0x7A => Some(Opcode { code: Operation::Nop, addressing: Addressing::Implied, cycles: 2 }),
        0x7B => Some(Opcode { code: Operation::Rra, addressing: Addressing::AbsoluteY, cycles: 7 }),
        0x7C => Some(Opcode { code: Operation::Nop, addressing: Addressing::AbsoluteX, cycles: 4 }),
        0x7D => Some(Opcode { code: Operation::Adc, addressing: Addressing::AbsoluteX, cycles: 4 }),
        0x7E => Some(Opcode { code: Operation::Ror, addressing: Addressing::AbsoluteX, cycles: 7 }),
        0x7F => Some(Opcode { code: Operation::Rra, addressing: Addressing::AbsoluteX, cycles: 7 }),
        0x80 => Some(Opcode { code: Operation::Nop, addressing: Addressing::Immediate, cycles: 2 }),
        0x81 => Some(Opcode { code: Operation::Sta, addressing: Addressing::IndirectX, cycles: 6 }),
        0x82 => Some(Opcode { code: Operation::Nop, addressing: Addressing::Immediate, cycles: 2 }),
        0x83 => Some(Opcode { code: Operation::Sax, addressing: Addressing::IndirectX, cycles: 6 }),
        0x84 => Some(Opcode { code: Operation::Sty, addressing: Addressing::ZeroPage, cycles: 3 }),
        0x85 => Some(Opcode { code: Operation::Sta, addressing: Addressing::ZeroPage, cycles: 3 }),
        0x86 => Some(Opcode { code: Operation::Stx, addressing: Addressing::ZeroPage, cycles: 3 }),
        0x87 => Some(Opcode { code: Operation::Sax, addressing: Addressing::ZeroPage, cycles: 3 }),
        0x88 => Some(Opcode { code: Operation::Dey, addressing: Addressing::Implied, cycles: 2 }),
        0x89 => Some(Opcode { code: Operation::Nop, addressing: Addressing::Immediate, cycles: 2 }),
        0x8A => Some(Opcode { code: Operation::Txa, addressing: Addressing::Implied, cycles: 2 }),
        0x8C => Some(Opcode { code: Operation::Sty, addressing: Addressing::Absolute, cycles: 4 }),
        0x8D => Some(Opcode { code: Operation::Sta, addressing: Addressing::Absolute, cycles: 4 }),
        0x8E => Some(Opcode { code: Operation::Stx, addressing: Addressing::Absolute, cycles: 4 }),
        0x8F => Some(Opcode { code: Operation::Sax, addressing: Addressing::Absolute, cycles: 4 }),
        0x90 => Some(Opcode { code: Operation::Bcc, addressing: Addressing::Relative, cycles: 2 }),
        0x91 => Some(Opcode { code: Operation::Sta, addressing: Addressing::IndirectY, cycles: 6 }),
        0x92 => Some(Opcode { code: Operation::Kil, addressing: Addressing::Implied, cycles: 2 }),
        0x94 => Some(Opcode { code: Operation::Sty, addressing: Addressing::ZeroPageX, cycles: 4 }),
        0x95 => Some(Opcode { code: Operation::Sta, addressing: Addressing::ZeroPageX, cycles: 4 }),
        0x96 => Some(Opcode { code: Operation::Stx, addressing: Addressing::ZeroPageY, cycles: 4 }),
        0x97 => Some(Opcode { code: Operation::Sax, addressing: Addressing::ZeroPageY, cycles: 4 }),
        0x98 => Some(Opcode { code: Operation::Tya, addressing: Addressing::Implied, cycles: 2 }),
        0x99 => Some(Opcode { code: Operation::Sta, addressing: Addressing::AbsoluteY, cycles: 5 }),
        0x9A => Some(Opcode { code: Operation::Txs, addressing: Addressing::Implied, cycles: 2 }),
        0x9D => Some(Opcode { code: Operation::Sta, addressing: Addressing::AbsoluteX, cycles: 5 }),
        0xA0 => Some(Opcode { code: Operation::Ldy, addressing: Addressing::Immediate, cycles: 2 }),
        0xA1 => Some(Opcode { code: Operation::Lda, addressing: Addressing::IndirectX, cycles: 6 }),
        0xA2 => Some(Opcode { code: Operation::Ldx, addressing: Addressing::Immediate, cycles: 2 }),
        0xA3 => Some(Opcode { code: Operation::Lax, addressing: Addressing::IndirectX, cycles: 6 }),
        0xA4 => Some(Opcode { code: Operation::Ldy, addressing: Addressing::ZeroPage, cycles: 3 }),
        0xA5 => Some(Opcode { code: Operation::Lda, addressing: Addressing::ZeroPage, cycles: 3 }),
        0xA6 => Some(Opcode { code: Operation::Ldx, addressing: Addressing::ZeroPage, cycles: 3 }),
        0xA7 => Some(Opcode { code: Operation::Lax, addressing: Addressing::ZeroPage, cycles: 3 }),
        0xA8 => Some(Opcode { code: Operation::Tay, addressing: Addressing::Implied, cycles: 2 }),
        0xA9 => Some(Opcode { code: Operation::Lda, addressing: Addressing::Immediate, cycles: 2 }),
        0xAA => Some(Opcode { code: Operation::Tax, addressing: Addressing::Implied, cycles: 2 }),
        0xAB => Some(Opcode { code: Operation::Lax, addressing: Addressing::Immediate, cycles: 2 }),
        0xAC => Some(Opcode { code: Operation::Ldy, addressing: Addressing::Absolute, cycles: 4 }),
        0xAD => Some(Opcode { code: Operation::Lda, addressing: Addressing::Absolute, cycles: 4 }),
        0xAE => Some(Opcode { code: Operation::Ldx, addressing: Addressing::Absolute, cycles: 4 }),
        0xAF => Some(Opcode { code: Operation::Lax, addressing: Addressing::Absolute, cycles: 4 }),
        0xB0 => Some(Opcode { code: Operation::Bcs, addressing: Addressing::Relative, cycles: 2 }),
        0xB1 => Some(Opcode { code: Operation::Lda, addressing: Addressing::IndirectY, cycles: 5 }),
        0xB2 => Some(Opcode { code: Operation::Kil, addressing: Addressing::Implied, cycles: 2 }),
        0xB3 => Some(Opcode { code: Operation::Lax, addressing: Addressing::IndirectY, cycles: 5 }),
        0xB4 => Some(Opcode { code: Operation::Ldy, addressing: Addressing::ZeroPageX, cycles: 4 }),
        0xB5 => Some(Opcode { code: Operation::Lda, addressing: Addressing::ZeroPageX, cycles: 4 }),
        0xB6 => Some(Opcode { code: Operation::Ldx, addressing: Addressing::ZeroPageY, cycles: 4 }),
        0xB7 => Some(Opcode { code: Operation::Lax, addressing: Addressing::ZeroPageY, cycles: 4 }),
        0xB8 => Some(Opcode { code: Operation::Clv, addressing: Addressing::Implied, cycles: 2 }),
        0xB9 => Some(Opcode { code: Operation::Lda, addressing: Addressing::AbsoluteY, cycles: 4 }),
        0xBA => Some(Opcode { code: Operation::Tsx, addressing: Addressing::Implied, cycles: 2 }),
        0xBB => Some(Opcode { code: Operation::Las, addressing: Addressing::AbsoluteY, cycles: 4 }),
        0xBC => Some(Opcode { code: Operation::Ldy, addressing: Addressing::AbsoluteX, cycles: 4 }),
        0xBD => Some(Opcode { code: Operation::Lda, addressing: Addressing::AbsoluteX, cycles: 4 }),
        0xBE => Some(Opcode { code: Operation::Ldx, addressing: Addressing::AbsoluteY, cycles: 4 }),
        0xBF => Some(Opcode { code: Operation::Lax, addressing: Addressing::AbsoluteY, cycles: 4 }),
        0xC0 => Some(Opcode { code: Operation::Cpy, addressing: Addressing::Immediate, cycles: 2 }),
        0xC1 => Some(Opcode { code: Operation::Cmp, addressing: Addressing::IndirectX, cycles: 6 }),
        0xC2 => Some(Opcode { code: Operation::Nop, addressing: Addressing::Immediate, cycles: 2 }),
        0xC3 => Some(Opcode { code: Operation::Dcp, addressing: Addressing::IndirectX, cycles: 8 }),
        0xC4 => Some(Opcode { code: Operation::Cpy, addressing: Addressing::ZeroPage, cycles: 3 }),
        0xC5 => Some(Opcode { code: Operation::Cmp, addressing: Addressing::ZeroPage, cycles: 3 }),
        0xC6 => Some(Opcode { code: Operation::Dec, addressing: Addressing::ZeroPage, cycles: 5 }),
        0xC7 => Some(Opcode { code: Operation::Dcp, addressing: Addressing::ZeroPage, cycles: 5 }),
        0xC8 => Some(Opcode { code: Operation::Iny, addressing: Addressing::Implied, cycles: 2 }),
        0xC9 => Some(Opcode { code: Operation::Cmp, addressing: Addressing::Immediate, cycles: 2 }),
        0xCA => Some(Opcode { code: Operation::Dex, addressing: Addressing::Implied, cycles: 2 }),
        0xCC => Some(Opcode { code: Operation::Cpy, addressing: Addressing::Absolute, cycles: 4 }),
        0xCD => Some(Opcode { code: Operation::Cmp, addressing: Addressing::Absolute, cycles: 4 }),
        0xCE => Some(Opcode { code: Operation::Dec, addressing: Addressing::Absolute, cycles: 6 }),
        0xCF => Some(Opcode { code: Operation::Dcp, addressing: Addressing::Absolute, cycles: 6 }),
        0xD0 => Some(Opcode { code: Operation::Bne, addressing: Addressing::Relative, cycles: 2 }),
        0xD1 => Some(Opcode { code: Operation::Cmp, addressing: Addressing::IndirectY, cycles: 5 }),
        0xD2 => Some(Opcode { code: Operation::Kil, addressing: Addressing::Implied, cycles: 2 }),
        0xD3 => Some(Opcode { code: Operation::Dcp, addressing: Addressing::IndirectY, cycles: 8 }),
        0xD4 => Some(Opcode { code: Operation::Nop, addressing: Addressing::ZeroPageX, cycles: 4 }),
        0xD5 => Some(Opcode { code: Operation::Cmp, addressing: Addressing::ZeroPageX, cycles: 4 }),
        0xD6 => Some(Opcode { code: Operation::Dec, addressing: Addressing::ZeroPageX, cycles: 6 }),
        0xD7 => Some(Opcode { code: Operation::Dcp, addressing: Addressing::ZeroPageX, cycles: 6 }),
        0xD8 => Some(Opcode { code: Operation::Cld, addressing: Addressing::Implied, cycles: 2 }),
        0xD9 => Some(Opcode { code: Operation::Cmp, addressing: Addressing::AbsoluteY, cycles: 4 }),
        0xDA => Some(Opcode { code: Operation::Nop, addressing: Addressing::Implied, cycles: 2 }),
        0xDB => Some(Opcode { code: Operation::Dcp, addressing: Addressing::AbsoluteY, cycles: 7 }),
        0xDC => Some(Opcode { code: Operation::Nop, addressing: Addressing::AbsoluteX, cycles: 4 }),
        0xDD => Some(Opcode { code: Operation::Cmp, addressing: Addressing::AbsoluteX, cycles: 4 }),
        0xDE => Some(Opcode { code: Operation::Dec, addressing: Addressing::AbsoluteX, cycles: 7 }),
        0xDF => Some(Opcode { code: Operation::Dcp, addressing: Addressing::AbsoluteX, cycles: 7 }),
        0xE0 => Some(Opcode { code: Operation::Cpx, addressing: Addressing::Immediate, cycles: 2 }),
        0xE1 => Some(Opcode { code: Operation::Sbc, addressing: Addressing::IndirectX, cycles: 6 }),
        0xE2 => Some(Opcode { code: Operation::Nop, addressing: Addressing::Immediate, cycles: 2 }),
        0xE3 => Some(Opcode { code: Operation::Isc, addressing: Addressing::IndirectX, cycles: 8 }),
        0xE4 => Some(Opcode { code: Operation::Cpx, addressing: Addressing::ZeroPage, cycles: 3 }),
        0xE5 => Some(Opcode { code: Operation::Sbc, addressing: Addressing::ZeroPage, cycles: 3 }),
        0xE6 => Some(Opcode { code: Operation::Inc, addressing: Addressing::ZeroPage, cycles: 5 }),
        0xE7 => Some(Opcode { code: Operation::Isc, addressing: Addressing::ZeroPage, cycles: 5 }),
        0xE8 => Some(Opcode { code: Operation::Inx, addressing: Addressing::Implied, cycles: 2 }),
        0xE9 => Some(Opcode { code: Operation::Sbc, addressing: Addressing::Immediate, cycles: 2 }),
        0xEA => Some(Opcode { code: Operation::Nop, addressing: Addressing::Implied, cycles: 2 }),
        0xEB => Some(Opcode { code: Operation::Sbc, addressing: Addressing::Immediate, cycles: 2 }),
        0xEC => Some(Opcode { code: Operation::Cpx, addressing: Addressing::Absolute, cycles: 4 }),
        0xED => Some(Opcode { code: Operation::Sbc, addressing: Addressing::Absolute, cycles: 4 }),
        0xEE => Some(Opcode { code: Operation::Inc, addressing: Addressing::Absolute, cycles: 6 }),
        0xEF => Some(Opcode { code: Operation::Isc, addressing: Addressing::Absolute, cycles: 6 }),
        0xF0 => Some(Opcode { code: Operation::Beq, addressing: Addressing::Relative, cycles: 2 }),
        0xF1 => Some(Opcode { code: Operation::Sbc, addressing: Addressing::IndirectY, cycles: 5 }),
        0xF2 => Some(Opcode { code: Operation::Kil, addressing: Addressing::Implied, cycles: 2 }),
        0xF3 => Some(Opcode { code: Operation::Isc, addressing: Addressing::IndirectY, cycles: 8 }),
        0xF4 => Some(Opcode { code: Operation::Nop, addressing: Addressing::ZeroPageX, cycles: 4 }),
        0xF5 => Some(Opcode { code: Operation::Sbc, addressing: Addressing::ZeroPageX, cycles: 4 }),
        0xF6 => Some(Opcode { code: Operation::Inc, addressing: Addressing::ZeroPageX, cycles: 6 }),
        0xF7 => Some(Opcode { code: Operation::Isc, addressing: Addressing::ZeroPageX, cycles: 6 }),
        0xF8 => Some(Opcode { code: Operation::Sed, addressing: Addressing::Implied, cycles: 2 }),
        0xF9 => Some(Opcode { code: Operation::Sbc, addressing: Addressing::AbsoluteY, cycles: 4 }),
        0xFA => Some(Opcode { code: Operation::Nop, addressing: Addressing::Implied, cycles: 2 }),
        0xFB => Some(Opcode { code: Operation::Isc, addressing: Addressing::AbsoluteY, cycles: 7 }),
        0xFC => Some(Opcode { code: Operation::Nop, addressing: Addressing::AbsoluteX, cycles: 4 }),
        0xFD => Some(Opcode { code: Operation::Sbc, addressing: Addressing::AbsoluteX, cycles: 4 }),
        0xFE => Some(Opcode { code: Operation::Inc, addressing: Addressing::AbsoluteX, cycles: 7 }),
        0xFF => Some(Opcode { code: Operation::Isc, addressing: Addressing::AbsoluteX, cycles: 7 }),
        _ => None,
    }
}

} // verus!
