use space_invaders::cpu::{EmuError, PortDir, State8080};
use space_invaders::registers::RegisterPair;
use space_invaders::space_invader::{IOState, SpaceInvaderIO};

fn cpu_with(program: &[u8], at: u16) -> State8080 {
    let mut cpu = State8080::new();
    for (k, b) in program.iter().enumerate() {
        cpu.write_byte(at.wrapping_add(k as u16), *b);
    }
    cpu.pc = at;
    cpu
}

fn pair(word: u16) -> RegisterPair {
    let mut p = RegisterPair::new();
    p.set_both(word);
    p
}

#[test]
fn add_with_carry() {
    let mut cpu = cpu_with(&[0x80], 0);
    let mut io = SpaceInvaderIO::new();
    cpu.a = 0xFF;
    cpu.bc.set_msb(0x01);
    cpu.flags.carry = false;
    assert_eq!(cpu.emulate(&mut io), Ok(4));
    assert_eq!(cpu.a, 0x00);
    assert!(cpu.flags.zero);
    assert!(!cpu.flags.sign);
    assert!(cpu.flags.parity);
    assert!(cpu.flags.carry);
    assert!(cpu.flags.aux_carry);
    assert_eq!(cpu.pc, 1);
}

#[test]
fn daa_after_add() {
    let mut cpu = cpu_with(&[0x27], 0);
    let mut io = SpaceInvaderIO::new();
    cpu.a = 0x9B;
    assert_eq!(cpu.emulate(&mut io), Ok(4));
    assert_eq!(cpu.a, 0x01);
    assert!(cpu.flags.carry);
    assert!(cpu.flags.aux_carry);
    assert!(!cpu.flags.zero);
    assert!(!cpu.flags.sign);
    assert!(!cpu.flags.parity);
}

#[test]
fn call_then_ret() {
    let mut cpu = cpu_with(&[0xCD, 0x34, 0x12], 0x0100);
    cpu.write_byte(0x1234, 0xC9);
    cpu.sp = 0x2400;
    let mut io = SpaceInvaderIO::new();
    assert_eq!(cpu.emulate(&mut io), Ok(17));
    assert_eq!(cpu.pc, 0x1234);
    assert_eq!(cpu.sp, 0x23FE);
    assert_eq!(cpu.read_byte(0x23FE), 0x03);
    assert_eq!(cpu.read_byte(0x23FF), 0x01);
    assert_eq!(cpu.emulate(&mut io), Ok(10));
    assert_eq!(cpu.pc, 0x0103);
    assert_eq!(cpu.sp, 0x2400);
}

#[test]
fn jnz_taken_and_not_taken() {
    let mut io = SpaceInvaderIO::new();
    let mut cpu = cpu_with(&[0xC2, 0x00, 0x20], 0x0040);
    cpu.flags.zero = false;
    assert_eq!(cpu.emulate(&mut io), Ok(10));
    assert_eq!(cpu.pc, 0x2000);

    let mut cpu = cpu_with(&[0xC2, 0x00, 0x20], 0x0040);
    cpu.flags.zero = true;
    assert_eq!(cpu.emulate(&mut io), Ok(10));
    assert_eq!(cpu.pc, 0x0043);
}

#[test]
fn conditional_return_and_call_cycles() {
    let mut io = SpaceInvaderIO::new();
    // RZ taken / not taken
    let mut cpu = cpu_with(&[0xC8], 0x0100);
    cpu.sp = 0x2000;
    cpu.write_byte(0x2000, 0x78);
    cpu.write_byte(0x2001, 0x56);
    cpu.flags.zero = true;
    assert_eq!(cpu.emulate(&mut io), Ok(11));
    assert_eq!(cpu.pc, 0x5678);
    assert_eq!(cpu.sp, 0x2002);
    let mut cpu = cpu_with(&[0xC8], 0x0100);
    assert_eq!(cpu.emulate(&mut io), Ok(5));
    assert_eq!(cpu.pc, 0x0101);
    // CZ taken / not taken
    let mut cpu = cpu_with(&[0xCC, 0x00, 0x30], 0x0100);
    cpu.sp = 0x2400;
    cpu.flags.zero = true;
    assert_eq!(cpu.emulate(&mut io), Ok(17));
    assert_eq!(cpu.pc, 0x3000);
    assert_eq!(cpu.read_byte(0x23FE), 0x03);
    assert_eq!(cpu.read_byte(0x23FF), 0x01);
    let mut cpu = cpu_with(&[0xCC, 0x00, 0x30], 0x0100);
    assert_eq!(cpu.emulate(&mut io), Ok(11));
    assert_eq!(cpu.pc, 0x0103);
}

#[test]
fn shift_register_through_instructions() {
    // MVI A,AA; OUT 4; MVI A,BB; OUT 4; MVI A,04; OUT 2; IN 3
    let program = [
        0x3E, 0xAA, 0xD3, 0x04, 0x3E, 0xBB, 0xD3, 0x04, 0x3E, 0x04, 0xD3, 0x02, 0xDB, 0x03,
    ];
    let mut cpu = cpu_with(&program, 0);
    let mut io = SpaceInvaderIO::new();
    for _ in 0..6 {
        assert!(cpu.emulate(&mut io).is_ok());
    }
    assert_eq!(cpu.emulate(&mut io), Ok(10));
    assert_eq!(cpu.a, 0xBA);
    assert_eq!(cpu.pc, 14);
}

#[test]
fn interrupt_injection() {
    let mut cpu = State8080::new();
    cpu.interrupts_enabled = true;
    cpu.pc = 0x1000;
    cpu.sp = 0x2400;
    cpu.interrupt(2);
    assert_eq!(cpu.sp, 0x23FE);
    assert_eq!(cpu.read_byte(0x23FE), 0x00);
    assert_eq!(cpu.read_byte(0x23FF), 0x10);
    assert_eq!(cpu.pc, 0x0010);
    assert!(!cpu.interrupts_enabled);
}

#[test]
fn interrupt_ignored_when_disabled() {
    let mut cpu = State8080::new();
    cpu.pc = 0x1000;
    cpu.sp = 0x2400;
    cpu.interrupt(1);
    assert_eq!(cpu.pc, 0x1000);
    assert_eq!(cpu.sp, 0x2400);
    assert_eq!(cpu.read_byte(0x23FE), 0);
}

#[test]
fn interrupt_matches_rst() {
    let mut io = SpaceInvaderIO::new();
    for n in 0u16..8 {
        let mut by_interrupt = State8080::new();
        by_interrupt.interrupts_enabled = true;
        by_interrupt.pc = 0x1234;
        by_interrupt.sp = 0x2400;
        by_interrupt.interrupt(n);

        let mut by_rst = cpu_with(&[0xC7 | ((n as u8) << 3)], 0x1233);
        by_rst.sp = 0x2400;
        assert_eq!(by_rst.emulate(&mut io), Ok(11));
        assert_eq!(by_interrupt.pc, 8 * n);
        assert_eq!(by_rst.pc, 8 * n);
        assert_eq!(by_interrupt.sp, by_rst.sp);
        assert_eq!(by_interrupt.read_byte(0x23FE), by_rst.read_byte(0x23FE));
        assert_eq!(by_interrupt.read_byte(0x23FF), by_rst.read_byte(0x23FF));
        assert!(!by_interrupt.interrupts_enabled);
    }
}

#[test]
fn push_pop_round_trip() {
    let mut io = SpaceInvaderIO::new();
    // PUSH B; POP B / PUSH D; POP D / PUSH H; POP H
    for (push, pop) in [(0xC5u8, 0xC1u8), (0xD5, 0xD1), (0xE5, 0xE1)] {
        let mut cpu = cpu_with(&[push, pop], 0x0200);
        cpu.sp = 0x2400;
        cpu.a = 0x12;
        cpu.bc = pair(0x3456);
        cpu.de = pair(0x789A);
        cpu.hl = pair(0xBCDE);
        cpu.write_byte(0x3000, 0x77);
        assert_eq!(cpu.emulate(&mut io), Ok(11));
        assert_eq!(cpu.sp, 0x23FE);
        assert_eq!(cpu.emulate(&mut io), Ok(10));
        assert_eq!(cpu.sp, 0x2400);
        assert_eq!(cpu.pc, 0x0202);
        assert_eq!(cpu.a, 0x12);
        assert_eq!(cpu.bc.both(), 0x3456);
        assert_eq!(cpu.de.both(), 0x789A);
        assert_eq!(cpu.hl.both(), 0xBCDE);
        assert_eq!(cpu.read_byte(0x3000), 0x77);
    }
}

#[test]
fn push_pop_psw_round_trip() {
    let mut io = SpaceInvaderIO::new();
    for bits in 0u8..32 {
        let mut cpu = cpu_with(&[0xF5, 0xF1], 0);
        cpu.sp = 0x2400;
        cpu.a = 0xA5;
        cpu.flags.sign = bits & 1 != 0;
        cpu.flags.zero = bits & 2 != 0;
        cpu.flags.aux_carry = bits & 4 != 0;
        cpu.flags.parity = bits & 8 != 0;
        cpu.flags.carry = bits & 16 != 0;
        let before = cpu.flags;
        assert_eq!(cpu.emulate(&mut io), Ok(11));
        let stored = cpu.read_byte(0x23FE);
        assert_eq!(stored & 0b0010_0000, 0);
        assert_eq!(stored & 0b0000_1000, 0);
        assert_eq!(stored & 0b0000_0010, 0b10);
        assert_eq!(cpu.read_byte(0x23FF), 0xA5);
        cpu.a = 0;
        cpu.flags.sign = !cpu.flags.sign;
        cpu.flags.carry = !cpu.flags.carry;
        assert_eq!(cpu.emulate(&mut io), Ok(10));
        assert_eq!(cpu.flags, before);
        assert_eq!(cpu.a, 0xA5);
        assert_eq!(cpu.sp, 0x2400);
    }
}

#[test]
fn psw_byte_layout() {
    let mut cpu = cpu_with(&[0xF5], 0);
    cpu.sp = 0x2400;
    cpu.flags.sign = true;
    cpu.flags.zero = true;
    cpu.flags.aux_carry = true;
    cpu.flags.parity = true;
    cpu.flags.carry = true;
    let mut io = SpaceInvaderIO::new();
    assert_eq!(cpu.emulate(&mut io), Ok(11));
    assert_eq!(cpu.read_byte(0x23FE), 0b1101_0111);
}

#[test]
fn every_instruction_moves_pc() {
    // sequential instructions advance by their size
    let sizes: [(u8, u16); 8] = [
        (0x00, 1),
        (0x01, 3),
        (0x06, 2),
        (0x22, 3),
        (0x3A, 3),
        (0x78, 1),
        (0xC6, 2),
        (0xEB, 1),
    ];
    let mut io = SpaceInvaderIO::new();
    for (op, size) in sizes {
        let mut cpu = cpu_with(&[op, 0x00, 0x30], 0x0500);
        assert!(cpu.emulate(&mut io).is_ok());
        assert_eq!(cpu.pc, 0x0500 + size, "opcode {:#04x}", op);
    }
    // PCHL jumps to HL, RST 5 to 0x28
    let mut cpu = cpu_with(&[0xE9], 0x0500);
    cpu.hl = pair(0x4321);
    assert_eq!(cpu.emulate(&mut io), Ok(5));
    assert_eq!(cpu.pc, 0x4321);
    let mut cpu = cpu_with(&[0xEF], 0x0500);
    cpu.sp = 0x2400;
    assert_eq!(cpu.emulate(&mut io), Ok(11));
    assert_eq!(cpu.pc, 0x0028);
    assert_eq!(cpu.read_byte(0x23FE), 0x01);
    assert_eq!(cpu.read_byte(0x23FF), 0x05);
}

#[test]
fn pc_wraps_at_top_of_memory() {
    let mut cpu = cpu_with(&[0x00], 0xFFFF);
    let mut io = SpaceInvaderIO::new();
    assert_eq!(cpu.emulate(&mut io), Ok(4));
    assert_eq!(cpu.pc, 0x0000);
}

#[test]
fn undocumented_opcodes_are_aliases() {
    let aliases: [(u8, u8); 12] = [
        (0x08, 0x00),
        (0x10, 0x00),
        (0x18, 0x00),
        (0x20, 0x00),
        (0x28, 0x00),
        (0x30, 0x00),
        (0x38, 0x00),
        (0xCB, 0xC3),
        (0xD9, 0xC9),
        (0xDD, 0xCD),
        (0xED, 0xCD),
        (0xFD, 0xCD),
    ];
    let mut io = SpaceInvaderIO::new();
    for (alias, canonical) in aliases {
        let mut a = cpu_with(&[alias, 0x34, 0x12], 0x0200);
        let mut c = cpu_with(&[canonical, 0x34, 0x12], 0x0200);
        for cpu in [&mut a, &mut c] {
            cpu.sp = 0x2400;
            cpu.write_byte(0x2400, 0x11);
            cpu.write_byte(0x2401, 0x22);
        }
        assert_eq!(a.emulate(&mut io), c.emulate(&mut io));
        assert_eq!(a.pc, c.pc);
        assert_eq!(a.sp, c.sp);
        assert_eq!(a.read_byte(0x23FE), c.read_byte(0x23FE));
        assert_eq!(a.read_byte(0x23FF), c.read_byte(0x23FF));
    }
}

#[test]
fn every_opcode_decodes() {
    let mut io = SpaceInvaderIO::new();
    for op in 0u16..256 {
        let op = op as u8;
        let mut cpu = cpu_with(&[op, 0x02, 0x30], 0x0200);
        cpu.sp = 0x2400;
        let r = cpu.emulate(&mut io);
        match op {
            0x76 => assert_eq!(r, Err(EmuError::Halted { pc: 0x0200 })),
            _ => {
                let c = r.expect("every opcode but HLT runs");
                assert!((4..=18).contains(&c));
            }
        }
    }
}

#[test]
fn halt_is_reported() {
    let mut cpu = cpu_with(&[0x76], 0x0042);
    let mut io = SpaceInvaderIO::new();
    assert_eq!(cpu.emulate(&mut io), Err(EmuError::Halted { pc: 0x0042 }));
    assert_eq!(cpu.pc, 0x0042);
}

#[test]
fn unsupported_ports_fail() {
    let mut io = SpaceInvaderIO::new();
    let mut cpu = cpu_with(&[0xDB, 0x07], 0);
    cpu.a = 0x55;
    assert_eq!(cpu.emulate(&mut io), Err(EmuError::UnsupportedPort { port: 7, dir: PortDir::In }));
    assert_eq!(cpu.pc, 0);
    assert_eq!(cpu.a, 0x55);
    let mut cpu = cpu_with(&[0xD3, 0x01], 0);
    assert_eq!(cpu.emulate(&mut io), Err(EmuError::UnsupportedPort { port: 1, dir: PortDir::Out }));
    assert_eq!(cpu.pc, 0);
}

#[test]
fn rom_is_loaded() {
    let rom = [0x3E, 0x42, 0x76];
    let cpu = State8080::load_from_rom(&rom, 0x10, 0x10).expect("fits");
    assert_eq!(cpu.pc, 0x10);
    assert_eq!(cpu.memory().len(), 0x10000);
    assert_eq!(&cpu.memory()[0x10..0x13], &rom);
    assert_eq!(cpu.memory()[0x0F], 0);
    assert_eq!(cpu.memory()[0x13], 0);
    assert_eq!(cpu.sp, 0);
    assert!(!cpu.interrupts_enabled);
}

#[test]
fn rom_fills_memory_exactly() {
    let rom = vec![0xAAu8; 0x100];
    let cpu = State8080::load_from_rom(&rom, 0xFF00, 0).expect("fits");
    assert_eq!(cpu.memory()[0xFFFF], 0xAA);
    assert_eq!(cpu.memory()[0xFEFF], 0);
}

#[test]
fn rom_too_large() {
    let rom = vec![0u8; 0x100];
    assert_eq!(
        State8080::load_from_rom(&rom, 0xFF01, 0).err(),
        Some(EmuError::RomTooLarge { offset: 0xFF01, len: 0x100 })
    );
    let rom = vec![0u8; 0x10001];
    assert_eq!(
        State8080::load_from_rom(&rom, 0, 0).err(),
        Some(EmuError::RomTooLarge { offset: 0, len: 0x10001 })
    );
}

#[test]
fn inr_and_dcr_touch_the_right_register() {
    let mut io = SpaceInvaderIO::new();
    // INR C
    let mut cpu = cpu_with(&[0x0C], 0);
    cpu.bc = pair(0x120F);
    cpu.flags.carry = true;
    assert_eq!(cpu.emulate(&mut io), Ok(5));
    assert_eq!(cpu.bc.both(), 0x1210);
    assert!(cpu.flags.aux_carry);
    assert!(cpu.flags.carry);
    // DCR E
    let mut cpu = cpu_with(&[0x1D], 0);
    cpu.de = pair(0x3401);
    assert_eq!(cpu.emulate(&mut io), Ok(5));
    assert_eq!(cpu.de.both(), 0x3400);
    assert!(cpu.flags.zero);
    assert!(!cpu.flags.carry);
    // INR M wraps
    let mut cpu = cpu_with(&[0x34], 0);
    cpu.hl = pair(0x2500);
    cpu.write_byte(0x2500, 0xFF);
    assert_eq!(cpu.emulate(&mut io), Ok(10));
    assert_eq!(cpu.read_byte(0x2500), 0x00);
    assert!(cpu.flags.zero);
    assert!(!cpu.flags.carry);
    // DCR B borrows from the low nibble
    let mut cpu = cpu_with(&[0x05], 0);
    cpu.bc = pair(0x1000);
    assert_eq!(cpu.emulate(&mut io), Ok(5));
    assert_eq!(cpu.bc.both(), 0x0F00);
    assert!(cpu.flags.aux_carry);
}

#[test]
fn rotates() {
    let mut io = SpaceInvaderIO::new();
    let run = |op: u8, a: u8, carry: bool| {
        let mut cpu = cpu_with(&[op], 0);
        cpu.a = a;
        cpu.flags.carry = carry;
        let mut io = SpaceInvaderIO::new();
        assert_eq!(cpu.emulate(&mut io), Ok(4));
        (cpu.a, cpu.flags.carry)
    };
    assert_eq!(run(0x07, 0x81, false), (0x03, true));
    assert_eq!(run(0x0F, 0x81, false), (0xC0, true));
    assert_eq!(run(0x17, 0x80, false), (0x00, true));
    assert_eq!(run(0x17, 0x01, true), (0x03, false));
    assert_eq!(run(0x1F, 0x01, false), (0x00, true));
    assert_eq!(run(0x1F, 0x02, true), (0x81, false));
    let mut cpu = cpu_with(&[0x2F, 0x37, 0x3F], 0);
    cpu.a = 0x5A;
    assert_eq!(cpu.emulate(&mut io), Ok(4));
    assert_eq!(cpu.a, 0xA5);
    assert_eq!(cpu.emulate(&mut io), Ok(4));
    assert!(cpu.flags.carry);
    assert_eq!(cpu.emulate(&mut io), Ok(4));
    assert!(!cpu.flags.carry);
}

#[test]
fn register_pair_instructions() {
    let mut io = SpaceInvaderIO::new();
    // LXI H,0x8000; DAD H; XCHG; INX D; DCX B; SPHL
    let mut cpu = cpu_with(&[0x21, 0x00, 0x80, 0x29, 0xEB, 0x13, 0x0B, 0xF9], 0);
    cpu.flags.zero = true;
    assert_eq!(cpu.emulate(&mut io), Ok(10));
    assert_eq!(cpu.hl.both(), 0x8000);
    assert_eq!(cpu.emulate(&mut io), Ok(10));
    assert_eq!(cpu.hl.both(), 0x0000);
    assert!(cpu.flags.carry);
    assert!(cpu.flags.zero);
    assert_eq!(cpu.pc, 4);
    cpu.hl = pair(0x1111);
    assert_eq!(cpu.emulate(&mut io), Ok(4));
    assert_eq!(cpu.de.both(), 0x1111);
    assert_eq!(cpu.hl.both(), 0x0000);
    assert_eq!(cpu.emulate(&mut io), Ok(5));
    assert_eq!(cpu.de.both(), 0x1112);
    assert_eq!(cpu.emulate(&mut io), Ok(5));
    assert_eq!(cpu.bc.both(), 0xFFFF);
    cpu.hl = pair(0x2345);
    assert_eq!(cpu.emulate(&mut io), Ok(5));
    assert_eq!(cpu.sp, 0x2345);
}

#[test]
fn memory_transfers() {
    let mut io = SpaceInvaderIO::new();
    // SHLD 0x2100; LHLD 0x2200; STA 0x2300; LDA 0x2101; XTHL
    let program = [0x22, 0x00, 0x21, 0x2A, 0x00, 0x22, 0x32, 0x00, 0x23, 0x3A, 0x01, 0x21, 0xE3];
    let mut cpu = cpu_with(&program, 0);
    cpu.hl = pair(0xBEEF);
    cpu.write_byte(0x2200, 0x34);
    cpu.write_byte(0x2201, 0x12);
    cpu.a = 0x99;
    cpu.sp = 0x2400;
    cpu.write_byte(0x2400, 0xCD);
    cpu.write_byte(0x2401, 0xAB);
    assert_eq!(cpu.emulate(&mut io), Ok(16));
    assert_eq!(cpu.read_byte(0x2100), 0xEF);
    assert_eq!(cpu.read_byte(0x2101), 0xBE);
    assert_eq!(cpu.emulate(&mut io), Ok(16));
    assert_eq!(cpu.hl.both(), 0x1234);
    assert_eq!(cpu.emulate(&mut io), Ok(13));
    assert_eq!(cpu.read_byte(0x2300), 0x99);
    assert_eq!(cpu.emulate(&mut io), Ok(13));
    assert_eq!(cpu.a, 0xBE);
    assert_eq!(cpu.emulate(&mut io), Ok(18));
    assert_eq!(cpu.hl.both(), 0xABCD);
    assert_eq!(cpu.read_byte(0x2400), 0x34);
    assert_eq!(cpu.read_byte(0x2401), 0x12);
    assert_eq!(cpu.sp, 0x2400);
}

#[test]
fn mov_and_mvi() {
    let mut io = SpaceInvaderIO::new();
    // MVI M,0x5C; MOV A,M; MOV L,A; MOV M,L
    let mut cpu = cpu_with(&[0x36, 0x5C, 0x7E, 0x6F, 0x75], 0);
    cpu.hl = pair(0x2800);
    assert_eq!(cpu.emulate(&mut io), Ok(10));
    assert_eq!(cpu.read_byte(0x2800), 0x5C);
    assert_eq!(cpu.emulate(&mut io), Ok(7));
    assert_eq!(cpu.a, 0x5C);
    assert_eq!(cpu.emulate(&mut io), Ok(5));
    assert_eq!(cpu.hl.both(), 0x285C);
    assert_eq!(cpu.emulate(&mut io), Ok(7));
    assert_eq!(cpu.read_byte(0x285C), 0x5C);
}

#[test]
fn interrupt_latch_instructions() {
    let mut io = SpaceInvaderIO::new();
    let mut cpu = cpu_with(&[0xFB, 0xF3], 0);
    assert_eq!(cpu.emulate(&mut io), Ok(4));
    assert!(cpu.interrupts_enabled);
    assert_eq!(cpu.emulate(&mut io), Ok(4));
    assert!(!cpu.interrupts_enabled);
}

#[test]
fn in_reads_port_latches() {
    let mut io = SpaceInvaderIO::new();
    io.port1 = 0x0D;
    let mut cpu = cpu_with(&[0xDB, 0x01, 0xDB, 0x00], 0);
    assert_eq!(cpu.emulate(&mut io), Ok(10));
    assert_eq!(cpu.a, 0x0D);
    assert_eq!(cpu.emulate(&mut io), Ok(10));
    assert_eq!(cpu.a, 0b0111_0000);
    assert_eq!(io.input(2), Ok(0));
}
