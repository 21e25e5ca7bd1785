use mynes::cpu::exec::Step;
use mynes::decode::{AddressMode, Fix, Instruction, Opcode};
use mynes::ines::{Mapper, Mirroring, RomError, UnknownMapper};
use mynes::{Nes, Rom};

/// An NROM image with one PRG bank holding `program` at 0x8000, and the
/// reset vector pointing there.
fn image(program: &[u8]) -> Vec<u8> {
    let mut v = vec![0u8; 16 + 0x4000 + 0x2000];
    v[0] = b'N';
    v[1] = b'E';
    v[2] = b'S';
    v[3] = 0x1A;
    v[4] = 1;
    v[5] = 1;
    for (i, b) in program.iter().enumerate() {
        v[16 + i] = *b;
    }
    v[16 + 0x3FFC] = 0x00;
    v[16 + 0x3FFD] = 0x80;
    v
}

fn boot(program: &[u8]) -> Nes {
    let rom = Rom::parse(&image(program)).unwrap();
    Nes::new(&rom)
}

fn cycles_of_step(nes: &mut Nes) -> u64 {
    let before = nes.bus.cycles;
    nes.step().unwrap();
    nes.bus.cycles - before
}

#[test]
fn reset_vector() {
    let mut bytes = image(&[]);
    bytes[16 + 0x3FFC] = 0x34;
    bytes[16 + 0x3FFD] = 0x80;
    let rom = Rom::parse(&bytes).unwrap();
    let nes = Nes::new(&rom);
    assert_eq!(nes.cpu.pc, 0x8034);
    assert_eq!(nes.cpu.stack, 0xFD);
    assert_eq!(nes.cpu.status.load(), 0x34);
}

#[test]
fn parse_rejects_bad_signature() {
    let mut bytes = image(&[]);
    bytes[3] = 0;
    assert!(matches!(Rom::parse(&bytes), Err(RomError::InvalidHeader)));
}

#[test]
fn parse_rejects_truncated_image() {
    let bytes = image(&[]);
    assert!(matches!(Rom::parse(&bytes[..0x3000]), Err(RomError::InvalidHeader)));
}

#[test]
fn parse_rejects_unknown_mapper() {
    let mut bytes = image(&[]);
    bytes[6] = 0x40;
    assert!(matches!(Rom::parse(&bytes), Err(RomError::UnsupportedMapper(UnknownMapper(4)))));
}

#[test]
fn parse_reads_header_fields() {
    let mut bytes = image(&[]);
    bytes[6] = 0x11;
    let rom = Rom::parse(&bytes).unwrap();
    assert_eq!(rom.mapper(), Mapper::MMC1);
    assert_eq!(rom.mirror(), Mirroring::Vertical);
    assert_eq!(rom.prg.len(), 0x4000);
    assert_eq!(rom.chr.len(), 0x2000);
    assert!(!rom.is_play_choice());
}

#[test]
fn decode_table_cells() {
    let lda = Instruction::decode(0xA9);
    assert_eq!(lda.op_code, Opcode::LDA);
    assert_eq!(lda.addr_mode, AddressMode::Immediate);
    let jmp = Instruction::decode(0x6C);
    assert_eq!(jmp.op_code, Opcode::JMP);
    assert_eq!(jmp.addr_mode, AddressMode::Indirect);
    let sta = Instruction::decode(0x9D);
    assert_eq!(sta.op_code, Opcode::STA);
    assert_eq!(sta.addr_mode, AddressMode::AbsoluteX(Fix::Always));
    let lda_y = Instruction::decode(0xB1);
    assert_eq!(lda_y.addr_mode, AddressMode::IndirectIndexed(Fix::Conditional));
    assert_eq!(Instruction::decode(0x02).op_code, Opcode::Unofficial(0x02));
    assert_eq!(Instruction::decode(0xA7).op_code, Opcode::LAX);
}

#[test]
fn run_stops_at_jump_to_self() {
    // LDA #$42; STA $10; JMP $8005
    let mut nes = boot(&[0xA9, 0x42, 0x85, 0x10, 0x4C, 0x04, 0x80]);
    nes.run().unwrap();
    assert_eq!(nes.get_mem(0x10), 0x42);
    assert_eq!(nes.get_mem(0x810), 0x42);
}

#[test]
fn unknown_opcode_is_an_error() {
    let mut nes = boot(&[0xEA, 0x02]);
    let e = nes.run().unwrap_err();
    match e {
        mynes::cpu::Error::UnknownInstr(i, pc) => {
            assert_eq!(i.op_code, Opcode::Unofficial(0x02));
            assert_eq!(pc, 0x8001);
        }
    }
}

#[test]
fn adc_overflow_flag() {
    // CLC; LDA #$50; ADC #$50
    let mut nes = boot(&[0x18, 0xA9, 0x50, 0x69, 0x50]);
    for _ in 0..3 {
        nes.step().unwrap();
    }
    assert_eq!(nes.cpu.accum, 0xA0);
    assert!(nes.cpu.status.v);
    assert!(nes.cpu.status.n);
    assert!(!nes.cpu.status.c);
}

#[test]
fn sbc_borrow_and_overflow() {
    // SEC; LDA #$50; SBC #$B0
    let mut nes = boot(&[0x38, 0xA9, 0x50, 0xE9, 0xB0]);
    for _ in 0..3 {
        nes.step().unwrap();
    }
    assert_eq!(nes.cpu.accum, 0xA0);
    assert!(nes.cpu.status.v);
    assert!(!nes.cpu.status.c);
}

#[test]
fn pha_pla_round_trip() {
    // LDA #$80; PHA; LDA #$00; PLA
    let mut nes = boot(&[0xA9, 0x80, 0x48, 0xA9, 0x00, 0x68]);
    for _ in 0..4 {
        nes.step().unwrap();
    }
    assert_eq!(nes.cpu.accum, 0x80);
    assert!(nes.cpu.status.n);
    assert!(!nes.cpu.status.z);
    assert_eq!(nes.cpu.stack, 0xFD);
    assert_eq!(nes.get_mem(0x01FD), 0x80);
}

#[test]
fn php_plp_round_trip() {
    // SEC; SED; PHP; CLC; CLD; PLP
    let mut nes = boot(&[0x38, 0xF8, 0x08, 0x18, 0xD8, 0x28]);
    for _ in 0..3 {
        nes.step().unwrap();
    }
    let saved = nes.cpu.status;
    for _ in 0..3 {
        nes.step().unwrap();
    }
    assert_eq!(nes.cpu.status, saved);
    assert_eq!(nes.cpu.stack, 0xFD);
}

#[test]
fn jsr_rts_round_trip() {
    // $8000: JSR $8010; $8003: NOP ... $8010: INX; RTS
    let mut program = vec![0xEAu8; 0x20];
    program[0] = 0x20;
    program[1] = 0x10;
    program[2] = 0x80;
    program[0x10] = 0xE8;
    program[0x11] = 0x60;
    let mut nes = boot(&program);
    assert_eq!(cycles_of_step(&mut nes), 6);
    assert_eq!(nes.cpu.pc, 0x8010);
    assert_eq!(nes.cpu.stack, 0xFB);
    assert_eq!(nes.get_mem(0x01FD), 0x80);
    assert_eq!(nes.get_mem(0x01FC), 0x02);
    nes.step().unwrap();
    assert_eq!(cycles_of_step(&mut nes), 6);
    assert_eq!(nes.cpu.pc, 0x8003);
    assert_eq!(nes.cpu.stack, 0xFD);
    assert_eq!(nes.cpu.x, 1);
}

#[test]
fn jmp_indirect_wraps_within_page() {
    // LDA #$34; STA $02FF; LDA #$12; STA $0200; LDA #$56; STA $0300; JMP ($02FF)
    let mut nes = boot(&[
        0xA9, 0x34, 0x8D, 0xFF, 0x02, 0xA9, 0x12, 0x8D, 0x00, 0x02, 0xA9, 0x56, 0x8D, 0x00, 0x03,
        0x6C, 0xFF, 0x02,
    ]);
    for _ in 0..6 {
        nes.step().unwrap();
    }
    assert_eq!(cycles_of_step(&mut nes), 5);
    assert_eq!(nes.cpu.pc, 0x1234);
}

#[test]
fn branch_cycles() {
    // $8000: LDX #$00; BEQ +2 (not taken: Z clear after LDX #1 below)
    // LDX #$01 (Z clear); BEQ +0 not taken; LDX #$00 (Z set); BEQ +0 taken
    let mut nes = boot(&[0xA2, 0x01, 0xF0, 0x00, 0xA2, 0x00, 0xF0, 0x00]);
    nes.step().unwrap();
    assert_eq!(cycles_of_step(&mut nes), 2);
    nes.step().unwrap();
    assert_eq!(cycles_of_step(&mut nes), 3);
}

#[test]
fn branch_across_page_costs_two_more() {
    // At $80F0: LDX #$00; BEQ +$20 -> target $8114 on the next page.
    let mut program = vec![0xEAu8; 0x200];
    program[0] = 0x4C;
    program[1] = 0xF0;
    program[2] = 0x80;
    program[0xF0] = 0xA2;
    program[0xF1] = 0x00;
    program[0xF2] = 0xF0;
    program[0xF3] = 0x20;
    let mut nes = boot(&program);
    nes.step().unwrap();
    nes.step().unwrap();
    assert_eq!(cycles_of_step(&mut nes), 4);
    assert_eq!(nes.cpu.pc, 0x8114);
}

#[test]
fn branch_to_itself_halts() {
    // LDX #$00; BEQ -2
    let mut nes = boot(&[0xA2, 0x00, 0xF0, 0xFE]);
    nes.step().unwrap();
    assert!(matches!(nes.step(), Ok(Step::Halted)));
}

#[test]
fn indexed_read_page_cross_cycle() {
    // LDX #$FF; LDA $8001,X (crosses); LDA $8000,X with X=0 after LDX #0
    let mut nes = boot(&[0xA2, 0xFF, 0xBD, 0x01, 0x80, 0xA2, 0x00, 0xBD, 0x00, 0x80]);
    nes.step().unwrap();
    assert_eq!(cycles_of_step(&mut nes), 5);
    nes.step().unwrap();
    assert_eq!(cycles_of_step(&mut nes), 4);
}

#[test]
fn documented_cycle_counts() {
    // LDA #1 (2); STA $10 (3); INC $10 (5); ASL A (2); STA $0300,X (5); NOP (2)
    let mut nes = boot(&[0xA9, 0x01, 0x85, 0x10, 0xE6, 0x10, 0x0A, 0x9D, 0x00, 0x03, 0xEA]);
    let expected = [2u64, 3, 5, 2, 5, 2];
    for e in expected {
        assert_eq!(cycles_of_step(&mut nes), e);
    }
    assert_eq!(nes.get_mem(0x10), 2);
    assert_eq!(nes.get_mem(0x0300), 2);
}

#[test]
fn ram_is_mirrored() {
    // LDA #$5A; STA $0801; LDA $1801
    let mut nes = boot(&[0xA9, 0x5A, 0x8D, 0x01, 0x08, 0xAD, 0x01, 0x18]);
    for _ in 0..3 {
        nes.step().unwrap();
    }
    assert_eq!(nes.cpu.accum, 0x5A);
    assert_eq!(nes.get_mem(0x0001), 0x5A);
    assert_eq!(nes.get_mem(0x1FFF), 0);
}

#[test]
fn status_read_clears_vblank_and_toggle() {
    let mut nes = boot(&[]);
    nes.bus.ppu.registers.status.vblank = true;
    nes.bus.write(0x2006, 0x21);
    let s = nes.bus.read(0x2002);
    assert_eq!(s & 0x80, 0x80);
    assert!(!nes.bus.ppu.registers.status.vblank);
    assert_eq!(nes.bus.read(0x2002) & 0x80, 0);
    // the toggle is back at the first write
    nes.bus.write(0x2006, 0x23);
    nes.bus.write(0x2006, 0x45);
    assert_eq!(nes.bus.ppu.registers.addr.address, 0x2345);
}

#[test]
fn ppudata_read_latch() {
    let mut nes = boot(&[]);
    // palette entry 0x3F01 = 0x2A
    nes.bus.write(0x2006, 0x3F);
    nes.bus.write(0x2006, 0x01);
    nes.bus.write(0x2007, 0x2A);
    // address 0x3F00, then two reads
    nes.bus.write(0x2006, 0x3F);
    nes.bus.write(0x2006, 0x00);
    assert_eq!(nes.bus.read(0x2007), 0x00);
    assert_eq!(nes.bus.read(0x2007), 0x2A);
}

#[test]
fn ppudata_buffered_below_palette() {
    let mut nes = boot(&[]);
    nes.bus.write(0x2006, 0x20);
    nes.bus.write(0x2006, 0x00);
    nes.bus.write(0x2007, 0x11);
    nes.bus.write(0x2007, 0x22);
    nes.bus.write(0x2006, 0x20);
    nes.bus.write(0x2006, 0x00);
    assert_eq!(nes.bus.read(0x2007), 0x00);
    assert_eq!(nes.bus.read(0x2007), 0x11);
    assert_eq!(nes.bus.read(0x2007), 0x22);
}

#[test]
fn ppudata_increment_per_access() {
    let mut nes = boot(&[]);
    nes.bus.write(0x2006, 0x21);
    nes.bus.write(0x2006, 0x08);
    nes.bus.write(0x2007, 1);
    nes.bus.write(0x2007, 2);
    assert_eq!(nes.bus.ppu.registers.addr.address, 0x210A);
    nes.bus.write(0x2000, 0x04);
    nes.bus.read(0x2007);
    assert_eq!(nes.bus.ppu.registers.addr.address, 0x212A);
}

#[test]
fn palette_mirror_through_ports() {
    let mut nes = boot(&[]);
    nes.bus.write(0x2006, 0x3F);
    nes.bus.write(0x2006, 0x10);
    nes.bus.write(0x2007, 0x15);
    nes.bus.write(0x2006, 0x3F);
    nes.bus.write(0x2006, 0x00);
    assert_eq!(nes.bus.read(0x2007), 0x15);
}

#[test]
fn apu_status_and_length_counter() {
    let mut nes = boot(&[]);
    nes.bus.write(0x4015, 0x01);
    nes.bus.write(0x4003, 0x08);
    assert_eq!(nes.bus.read(0x4015) & 1, 1);
    nes.bus.write(0x4015, 0x00);
    assert_eq!(nes.bus.read(0x4015) & 1, 0);
    assert_eq!(nes.bus.read(0x4000), 0);
}

#[test]
fn nmi_enters_handler() {
    // vector 0xFFFA -> $8040; program: NOP forever at $8000 (JMP $8000 would halt).
    let mut bytes = image(&[0xEA, 0xEA, 0xEA, 0xEA]);
    bytes[16 + 0x3FFA] = 0x40;
    bytes[16 + 0x3FFB] = 0x80;
    let rom = Rom::parse(&bytes).unwrap();
    let mut nes = Nes::new(&rom);
    nes.bus.nmi = true;
    assert!(matches!(nes.step(), Ok(Step::Interrupt)));
    assert_eq!(nes.bus.cycles, 7);
    assert_eq!(nes.cpu.pc, 0x8040);
    assert!(nes.cpu.status.i);
    assert_eq!(nes.get_mem(0x01FB) & 0x10, 0);
}

#[test]
fn unofficial_read_modify_write() {
    // LDA #$05; STA $20; LDA #$03; DCP $20 (mem 4, compare 3 vs 4); ISB $20 (mem 5, A = 3 - 5)
    let mut nes = boot(&[0xA9, 0x05, 0x85, 0x20, 0xA9, 0x03, 0xC7, 0x20, 0x38, 0xE7, 0x20]);
    for _ in 0..4 {
        nes.step().unwrap();
    }
    assert_eq!(nes.get_mem(0x20), 4);
    assert!(!nes.cpu.status.c);
    assert!(nes.cpu.status.n);
    nes.step().unwrap();
    assert_eq!(cycles_of_step(&mut nes), 5);
    assert_eq!(nes.get_mem(0x20), 5);
    assert_eq!(nes.cpu.accum, 0xFE);
}

#[test]
fn unofficial_loads_and_stores() {
    // LDA #$F0; STA $30; LAX $30; LDA #$3C; SAX $31; SLO $30
    let mut nes = boot(&[0xA9, 0xF0, 0x85, 0x30, 0xA7, 0x30, 0xA9, 0x3C, 0x87, 0x31, 0x07, 0x30]);
    for _ in 0..3 {
        nes.step().unwrap();
    }
    assert_eq!(nes.cpu.accum, 0xF0);
    assert_eq!(nes.cpu.x, 0xF0);
    nes.step().unwrap();
    nes.step().unwrap();
    assert_eq!(nes.get_mem(0x31), 0x30);
    nes.step().unwrap();
    assert_eq!(nes.get_mem(0x30), 0xE0);
    assert_eq!(nes.cpu.accum, 0xFC);
    assert!(nes.cpu.status.c);
}

#[test]
fn irq_waits_for_cleared_interrupt_flag() {
    let mut bytes = image(&[0xEA, 0x58, 0xEA, 0xEA]);
    bytes[16 + 0x3FFE] = 0x80;
    bytes[16 + 0x3FFF] = 0x80;
    let rom = Rom::parse(&bytes).unwrap();
    let mut nes = Nes::new(&rom);
    nes.bus.apu.frame_int = true;
    assert!(matches!(nes.step(), Ok(Step::Executed { .. })));
    assert!(matches!(nes.step(), Ok(Step::Executed { .. })));
    assert!(!nes.cpu.status.i);
    assert!(matches!(nes.step(), Ok(Step::Interrupt)));
    assert_eq!(nes.cpu.pc, 0x8080);
    assert!(nes.cpu.status.i);
}

#[test]
fn brk_pushes_status_with_b() {
    let mut bytes = image(&[0x00]);
    bytes[16 + 0x3FFE] = 0x00;
    bytes[16 + 0x3FFF] = 0x90;
    let rom = Rom::parse(&bytes).unwrap();
    let mut nes = Nes::new(&rom);
    assert_eq!(cycles_of_step(&mut nes), 7);
    assert_eq!(nes.cpu.pc, 0x9000);
    assert_eq!(nes.get_mem(0x01FD), 0x80);
    assert_eq!(nes.get_mem(0x01FC), 0x02);
    assert_eq!(nes.get_mem(0x01FB) & 0x30, 0x30);
}
