use nes::cpu::{self, new_cpu, reset, Cpu, CpuError};
use nes::memory::{new_memory, Memory};
use nes::opcode::{decode, Addressing, Operation};
use nes::ppu::{new_ppu, Ppu};
use nes::vmem::{self, new_vmem};

struct Machine {
    cpu: Cpu,
    mem: Memory,
    ppu: Ppu,
}

/// A machine with `program` at 0x8000 of a one-bank ROM, the reset vector at
/// 0x8000 and the break vector at 0x9000, after reset.
fn machine(program: &[u8]) -> Machine {
    let mut rom = vec![0xEAu8; 0x4000];
    rom[..program.len()].copy_from_slice(program);
    rom[0x3FFC] = 0x00;
    rom[0x3FFD] = 0x80;
    rom[0x3FFE] = 0x00;
    rom[0x3FFF] = 0x90;
    let mut m = Machine { cpu: new_cpu(), mem: new_memory(&rom), ppu: new_ppu(&vec![]) };
    let mut bus = new_vmem(&mut m.mem, &mut m.ppu);
    reset(&mut m.cpu, &mut bus);
    m
}

/// Runs the countdown out, then executes one instruction.
fn step(m: &mut Machine) -> Result<(), CpuError> {
    let mut bus = new_vmem(&mut m.mem, &mut m.ppu);
    while m.cpu.cycle > 1 {
        cpu::run(&mut m.cpu, &mut bus).unwrap();
    }
    cpu::run(&mut m.cpu, &mut bus)
}

fn steps(m: &mut Machine, n: usize) {
    for _ in 0..n {
        step(m).unwrap();
    }
}

fn peek(m: &mut Machine, addr: u16) -> u8 {
    let mut bus = new_vmem(&mut m.mem, &mut m.ppu);
    vmem::read_mem(&mut bus, addr)
}

const C: u8 = 0x01;
const Z: u8 = 0x02;
const V: u8 = 0x40;
const N: u8 = 0x80;

#[test]
fn power_on_and_reset_state() {
    let c = new_cpu();
    assert_eq!(c.reg_s, 0xFD);
    assert_eq!(c.reg_p, 0x24);
    assert_eq!(c.reg_pc, 0x8000);
    let mut rom = vec![0u8; 0x8000];
    rom[0x7FFC] = 0x34;
    rom[0x7FFD] = 0x92;
    let mut mem = new_memory(&rom);
    let mut p = new_ppu(&vec![]);
    let mut bus = new_vmem(&mut mem, &mut p);
    let mut c = new_cpu();
    c.reg_p = 0x00;
    reset(&mut c, &mut bus);
    assert_eq!(c.reg_pc, 0x9234);
    assert_eq!(c.reg_p, 0x04);
}

#[test]
fn end_to_end_program() {
    // LDA #$10; STA $00; LDX $00; INX; BRK
    let mut m = machine(&[0xA9, 0x10, 0x85, 0x00, 0xA6, 0x00, 0xE8, 0x00]);
    assert_eq!(m.cpu.reg_pc, 0x8000);
    steps(&mut m, 5);
    assert_eq!(m.cpu.reg_a, 0x10);
    assert_eq!(m.mem.wram[0x00], 0x10);
    assert_eq!(m.cpu.reg_x, 0x11);
    assert_eq!(m.cpu.reg_pc, 0x9000);
    assert_eq!(m.cpu.reg_s, 0xFA);
    // PC after the BRK opcode, high byte first, then P
    assert_eq!(m.mem.wram[0x1FD], 0x80);
    assert_eq!(m.mem.wram[0x1FC], 0x08);
    assert_eq!(m.mem.wram[0x1FB], 0x24);
    assert_eq!(m.cpu.reg_p, 0x34);
}

#[test]
fn countdown_holds_the_next_instruction() {
    let mut m = machine(&[0xA9, 0x01, 0xA9, 0x02]);
    let mut bus = new_vmem(&mut m.mem, &mut m.ppu);
    cpu::run(&mut m.cpu, &mut bus).unwrap();
    assert_eq!(m.cpu.reg_a, 0x01);
    assert_eq!(m.cpu.cycle, 2);
    cpu::run(&mut m.cpu, &mut bus).unwrap();
    assert_eq!(m.cpu.reg_a, 0x01);
    assert_eq!(m.cpu.cycle, 1);
    assert_eq!(m.cpu.reg_pc, 0x8002);
    cpu::run(&mut m.cpu, &mut bus).unwrap();
    assert_eq!(m.cpu.reg_a, 0x02);
}

#[test]
fn unimplemented_opcode_is_fatal() {
    let mut m = machine(&[0x0B, 0x00]);
    assert_eq!(step(&mut m), Err(CpuError::Unimplemented(0x0B)));
    assert_eq!(m.cpu.reg_pc, 0x8001);
    for code in [0x0Bu8, 0x2B, 0x4B, 0x6B, 0x8B, 0x93, 0x9B, 0x9C, 0x9E, 0x9F, 0xCB] {
        assert!(decode(code).is_none());
    }
    assert!(decode(0x02).is_some());
    assert!(decode(0xBB).is_some());
}

#[test]
fn flags_follow_loaded_value() {
    let mut m = machine(&[0xA9, 0x00]);
    for v in 0..=255u8 {
        m.mem.program_rom[1] = v;
        m.cpu.reg_pc = 0x8000;
        m.cpu.cycle = 0;
        m.cpu.reg_p = 0x24 | Z | N;
        step(&mut m).unwrap();
        assert_eq!(m.cpu.reg_a, v);
        assert_eq!(m.cpu.reg_p & Z != 0, v == 0);
        assert_eq!(m.cpu.reg_p & N != 0, v & 0x80 != 0);
        assert_eq!(m.cpu.reg_p & 0x7D, 0x24);
    }
}

fn signed(v: u8) -> i32 {
    v as i8 as i32
}

#[test]
fn adc_matches_twos_complement_addition() {
    let mut m = machine(&[0x69, 0x00]);
    for a in 0..=255u8 {
        for b in 0..=255u8 {
            for c in 0..=1u8 {
                m.mem.program_rom[1] = b;
                m.cpu.reg_pc = 0x8000;
                m.cpu.cycle = 0;
                m.cpu.reg_a = a;
                m.cpu.reg_p = 0x20 | c;
                step(&mut m).unwrap();
                let sum = a as u32 + b as u32 + c as u32;
                let ssum = signed(a) + signed(b) + c as i32;
                assert_eq!(m.cpu.reg_a as u32, sum % 256);
                assert_eq!(m.cpu.reg_p & C != 0, sum > 255);
                assert_eq!(m.cpu.reg_p & V != 0, !(-128..=127).contains(&ssum));
                assert_eq!(m.cpu.reg_p & Z != 0, sum % 256 == 0);
                assert_eq!(m.cpu.reg_p & N != 0, sum % 256 >= 128);
            }
        }
    }
}

#[test]
fn sbc_matches_twos_complement_subtraction() {
    let mut m = machine(&[0xE9, 0x00]);
    for a in 0..=255u8 {
        for b in 0..=255u8 {
            for c in 0..=1u8 {
                m.mem.program_rom[1] = b;
                m.cpu.reg_pc = 0x8000;
                m.cpu.cycle = 0;
                m.cpu.reg_a = a;
                m.cpu.reg_p = 0x20 | c;
                step(&mut m).unwrap();
                let diff = a as i32 - b as i32 - (1 - c as i32);
                let sdiff = signed(a) - signed(b) - (1 - c as i32);
                assert_eq!(m.cpu.reg_a as i32, diff.rem_euclid(256));
                assert_eq!(m.cpu.reg_p & C != 0, diff >= 0);
                assert_eq!(m.cpu.reg_p & V != 0, !(-128..=127).contains(&sdiff));
            }
        }
    }
}

#[test]
fn adc_examples() {
    // LDA #$50; ADC #$50
    let mut m = machine(&[0xA9, 0x50, 0x69, 0x50]);
    steps(&mut m, 2);
    assert_eq!(m.cpu.reg_a, 0xA0);
    assert_eq!(m.cpu.reg_p & (N | V | Z | C), N | V);
    // SEC; LDA #$FF; ADC #$00
    let mut m = machine(&[0x38, 0xA9, 0xFF, 0x69, 0x00]);
    steps(&mut m, 3);
    assert_eq!(m.cpu.reg_a, 0x00);
    assert_eq!(m.cpu.reg_p & (N | V | Z | C), Z | C);
}

#[test]
fn sbc_and_compare_examples() {
    // SEC; LDA #$50; SBC #$B0
    let mut m = machine(&[0x38, 0xA9, 0x50, 0xE9, 0xB0]);
    steps(&mut m, 3);
    assert_eq!(m.cpu.reg_a, 0xA0);
    assert_eq!(m.cpu.reg_p & (N | V | Z | C), N | V);
    // LDX #$10; CPX #$20; LDY #$20; CPY #$20; CMP #$00
    let mut m = machine(&[0xA2, 0x10, 0xE0, 0x20]);
    steps(&mut m, 2);
    assert_eq!(m.cpu.reg_p & (N | Z | C), N);
    let mut m = machine(&[0xA0, 0x20, 0xC0, 0x20]);
    steps(&mut m, 2);
    assert_eq!(m.cpu.reg_p & (N | Z | C), Z | C);
}

#[test]
fn pha_pla_restores_accumulator_and_stack() {
    // LDA #$42; PHA; LDA #$00; PLA
    let mut m = machine(&[0xA9, 0x42, 0x48, 0xA9, 0x00, 0x68]);
    steps(&mut m, 2);
    assert_eq!(m.cpu.reg_s, 0xFC);
    assert_eq!(m.mem.wram[0x1FD], 0x42);
    steps(&mut m, 2);
    assert_eq!(m.cpu.reg_a, 0x42);
    assert_eq!(m.cpu.reg_s, 0xFD);
    assert_eq!(m.cpu.reg_p & (N | Z), 0);
}

#[test]
fn jsr_rts_returns_after_the_call() {
    let mut program = vec![0xEAu8; 0x20];
    program[0] = 0x20; // JSR $8010
    program[1] = 0x10;
    program[2] = 0x80;
    program[0x10] = 0x60; // RTS
    let mut m = machine(&program);
    step(&mut m).unwrap();
    assert_eq!(m.cpu.reg_pc, 0x8010);
    assert_eq!(m.cpu.reg_s, 0xFB);
    assert_eq!(m.mem.wram[0x1FD], 0x80);
    assert_eq!(m.mem.wram[0x1FC], 0x02);
    step(&mut m).unwrap();
    assert_eq!(m.cpu.reg_pc, 0x8003);
    assert_eq!(m.cpu.reg_s, 0xFD);
}

#[test]
fn php_plp_and_rti() {
    // SEC; PHP; CLC; PLP
    let mut m = machine(&[0x38, 0x08, 0x18, 0x28]);
    steps(&mut m, 2);
    assert_eq!(m.mem.wram[0x1FD], 0x35);
    steps(&mut m, 2);
    assert_eq!(m.cpu.reg_p, 0x25);
    // BRK, then RTI at the break vector
    let mut program = vec![0xEAu8; 0x1010];
    program[0] = 0x00;
    program[0x1000] = 0x40;
    let mut m = machine(&program);
    step(&mut m).unwrap();
    assert_eq!(m.cpu.reg_pc, 0x9000);
    step(&mut m).unwrap();
    assert_eq!(m.cpu.reg_pc, 0x8001);
    assert_eq!(m.cpu.reg_p, 0x24);
    assert_eq!(m.cpu.reg_s, 0xFD);
}

#[test]
fn branches_use_signed_offsets() {
    // LDX #$03; DEX; BNE -3; (falls through when X reaches zero)
    let mut m = machine(&[0xA2, 0x03, 0xCA, 0xD0, 0xFD, 0xEA]);
    steps(&mut m, 1);
    for _ in 0..3 {
        steps(&mut m, 2);
    }
    assert_eq!(m.cpu.reg_x, 0);
    assert_eq!(m.cpu.reg_pc, 0x8005);
    // BEQ is not taken when Z is clear; BPL +2 is taken
    let mut m = machine(&[0xA9, 0x01, 0xF0, 0x02, 0x10, 0x02, 0xEA, 0xEA, 0xEA]);
    steps(&mut m, 2);
    assert_eq!(m.cpu.reg_pc, 0x8004);
    steps(&mut m, 1);
    assert_eq!(m.cpu.reg_pc, 0x8008);
}

#[test]
fn indirect_jump_wraps_inside_the_page() {
    // JMP ($02FF): low byte from $02FF, high byte from $0200
    let mut m = machine(&[0x6C, 0xFF, 0x02]);
    m.mem.wram[0x2FF] = 0x34;
    m.mem.wram[0x300] = 0x99;
    m.mem.wram[0x200] = 0x12;
    step(&mut m).unwrap();
    assert_eq!(m.cpu.reg_pc, 0x1234);
}

#[test]
fn indexed_and_indirect_operands() {
    // LDX #$04; LDY #$02; LDA ($10,X); STA $40; LDA ($20),Y; STA $41; LDA $0300,X; STA $42
    let mut m = machine(&[
        0xA2, 0x04, 0xA0, 0x02, 0xA1, 0x10, 0x85, 0x40, 0xB1, 0x20, 0x85, 0x41, 0xBD, 0x00, 0x03,
        0x85, 0x42,
    ]);
    m.mem.wram[0x14] = 0x00;
    m.mem.wram[0x15] = 0x03;
    m.mem.wram[0x300] = 0xAA;
    m.mem.wram[0x20] = 0x10;
    m.mem.wram[0x21] = 0x03;
    m.mem.wram[0x312] = 0xBB;
    m.mem.wram[0x304] = 0xCC;
    steps(&mut m, 8);
    assert_eq!(m.mem.wram[0x40], 0xAA);
    assert_eq!(m.mem.wram[0x41], 0xBB);
    assert_eq!(m.mem.wram[0x42], 0xCC);
    // zero page X wraps inside page zero: LDA $F0,X with X = $20 reads $10
    let mut m = machine(&[0xA2, 0x20, 0xB5, 0xF0]);
    m.mem.wram[0x10] = 0x5A;
    steps(&mut m, 2);
    assert_eq!(m.cpu.reg_a, 0x5A);
}

#[test]
fn shifts_and_rotates() {
    // LDA #$81; ASL A; ROL A; LSR A; ROR A
    let mut m = machine(&[0xA9, 0x81, 0x0A, 0x2A, 0x4A, 0x6A]);
    steps(&mut m, 2);
    assert_eq!(m.cpu.reg_a, 0x02);
    assert_eq!(m.cpu.reg_p & C, C);
    steps(&mut m, 1);
    assert_eq!(m.cpu.reg_a, 0x05);
    assert_eq!(m.cpu.reg_p & C, 0);
    steps(&mut m, 1);
    assert_eq!(m.cpu.reg_a, 0x02);
    assert_eq!(m.cpu.reg_p & C, C);
    steps(&mut m, 1);
    assert_eq!(m.cpu.reg_a, 0x81);
    assert_eq!(m.cpu.reg_p & (C | N), N);
    // INC $10; DEC $11 in memory
    let mut m = machine(&[0xE6, 0x10, 0xC6, 0x11]);
    m.mem.wram[0x10] = 0xFF;
    steps(&mut m, 2);
    assert_eq!(m.mem.wram[0x10], 0x00);
    assert_eq!(m.mem.wram[0x11], 0xFF);
    assert_eq!(m.cpu.reg_p & (N | Z), N);
}

#[test]
fn bit_copies_high_bits_of_memory() {
    // LDA #$01; BIT $10
    let mut m = machine(&[0xA9, 0x01, 0x24, 0x10]);
    m.mem.wram[0x10] = 0xC0;
    steps(&mut m, 2);
    assert_eq!(m.cpu.reg_p & (N | V | Z), N | V | Z);
}

#[test]
fn undocumented_load_and_store() {
    // LAX $10; LDA #$F0; LDX #$3C; SAX $11
    let mut m = machine(&[0xA7, 0x10, 0xA9, 0xF0, 0xA2, 0x3C, 0x87, 0x11]);
    m.mem.wram[0x10] = 0x80;
    steps(&mut m, 1);
    assert_eq!((m.cpu.reg_a, m.cpu.reg_x), (0x80, 0x80));
    assert_eq!(m.cpu.reg_p & N, N);
    steps(&mut m, 3);
    assert_eq!(m.mem.wram[0x11], 0x30);
}

#[test]
fn undocumented_read_modify_write() {
    // LDA #$04; DCP $10
    let mut m = machine(&[0xA9, 0x04, 0xC7, 0x10]);
    m.mem.wram[0x10] = 0x05;
    steps(&mut m, 2);
    assert_eq!(m.mem.wram[0x10], 0x04);
    assert_eq!(m.cpu.reg_p & (Z | C), Z | C);
    // SEC; LDA #$20; ISC $10
    let mut m = machine(&[0x38, 0xA9, 0x20, 0xE7, 0x10]);
    m.mem.wram[0x10] = 0x0F;
    steps(&mut m, 3);
    assert_eq!(m.mem.wram[0x10], 0x10);
    assert_eq!(m.cpu.reg_a, 0x10);
    assert_eq!(m.cpu.reg_p & (C | V), C);
    // LDA #$01; SLO $10
    let mut m = machine(&[0xA9, 0x01, 0x07, 0x10]);
    m.mem.wram[0x10] = 0x81;
    steps(&mut m, 2);
    assert_eq!(m.mem.wram[0x10], 0x02);
    assert_eq!(m.cpu.reg_a, 0x03);
    assert_eq!(m.cpu.reg_p & C, C);
    // CLC; LDA #$FF; RLA $10
    let mut m = machine(&[0x18, 0xA9, 0xFF, 0x27, 0x10]);
    m.mem.wram[0x10] = 0x81;
    steps(&mut m, 3);
    assert_eq!(m.mem.wram[0x10], 0x02);
    assert_eq!(m.cpu.reg_a, 0x02);
    assert_eq!(m.cpu.reg_p & C, C);
    // LDA #$10; SRE $10
    let mut m = machine(&[0xA9, 0x10, 0x47, 0x10]);
    m.mem.wram[0x10] = 0x03;
    steps(&mut m, 2);
    assert_eq!(m.mem.wram[0x10], 0x01);
    assert_eq!(m.cpu.reg_a, 0x11);
    assert_eq!(m.cpu.reg_p & C, C);
    // CLC; LDA #$10; RRA $10
    let mut m = machine(&[0x18, 0xA9, 0x10, 0x67, 0x10]);
    m.mem.wram[0x10] = 0x03;
    steps(&mut m, 3);
    assert_eq!(m.mem.wram[0x10], 0x01);
    assert_eq!(m.cpu.reg_a, 0x12);
    assert_eq!(m.cpu.reg_p & C, 0);
}

fn width(mode: Addressing) -> u16 {
    match mode {
        Addressing::Implied | Addressing::Accumulator => 0,
        Addressing::Absolute | Addressing::AbsoluteX | Addressing::AbsoluteY | Addressing::Indirect => 2,
        _ => 1,
    }
}

fn transfers_control(op: Operation) -> bool {
    matches!(
        op,
        Operation::Jmp
            | Operation::Jsr
            | Operation::Rts
            | Operation::Rti
            | Operation::Brk
            | Operation::Beq
            | Operation::Bne
            | Operation::Bmi
            | Operation::Bpl
            | Operation::Bvs
            | Operation::Bvc
            | Operation::Bcs
            | Operation::Bcc
    )
}

#[test]
fn every_opcode_consumes_its_operand_bytes() {
    let mut m = machine(&[]);
    let mut checked = 0;
    for code in 0..=255u8 {
        let Some(op) = decode(code) else { continue };
        if transfers_control(op.code) {
            continue;
        }
        for b in m.mem.wram.iter_mut() {
            *b = 0;
        }
        m.mem.wram[0x300] = code;
        m.cpu = new_cpu();
        m.cpu.reg_pc = 0x0300;
        step(&mut m).unwrap();
        assert_eq!(m.cpu.reg_pc, 0x0301 + width(op.addressing), "opcode {:02X}", code);
        assert_eq!(m.cpu.cycle, op.cycles as i16);
        checked += 1;
    }
    assert_eq!(checked, 245 - 14);
    assert_eq!(peek(&mut m, 0x0300) != 0, true);
}
