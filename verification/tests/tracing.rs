use nes6502::bus::Bus;
use nes6502::cpu::CPU;
use nes6502::mem::Mem;
use nes6502::opcode::{operation_of, OpCode, Operation, UNDOCUMENTED};
use nes6502::cpu::AddressingMode;
use nes6502::rom::Rom;
use nes6502::trace::trace;

fn machine_at_0x64(program: &[u8]) -> CPU {
    let mut bus = Bus::new(Rom::blank());
    for (i, byte) in program.iter().enumerate() {
        bus.mem_write(0x64 + i as u16, *byte).unwrap();
    }
    let mut cpu = CPU::new(bus);
    cpu.program_counter = 0x64;
    cpu
}

#[test]
fn trace_shows_instructions_and_registers() {
    let mut cpu = machine_at_0x64(&[0xA2, 0x01, 0xCA, 0x88, 0x00]);
    cpu.register_a = 1;
    cpu.register_x = 2;
    cpu.register_y = 3;
    let mut result: Vec<String> = vec![];
    cpu.run_with_callback(|cpu| result.push(trace(cpu))).unwrap();
    assert_eq!(
        "0064  A2 01     LDX #$01                        A:01 X:02 Y:03 P:24 SP:FD",
        result[0]
    );
    assert_eq!(
        "0066  CA        DEX                             A:01 X:01 Y:03 P:24 SP:FD",
        result[1]
    );
    assert_eq!(
        "0067  88        DEY                             A:01 X:00 Y:03 P:26 SP:FD",
        result[2]
    );
    assert_eq!(
        "0068  00        BRK                             A:01 X:00 Y:02 P:24 SP:FD",
        result[3]
    );
    assert_eq!(result.len(), 4);
}

#[test]
fn trace_shows_memory_access() {
    // ORA ($33),Y
    let mut cpu = machine_at_0x64(&[0x11, 0x33]);
    cpu.mem_write(0x33, 0x00).unwrap();
    cpu.mem_write(0x34, 0x04).unwrap();
    cpu.mem_write(0x0400, 0xAA).unwrap();
    let mut result: Vec<String> = vec![];
    cpu.run_with_callback(|cpu| result.push(trace(cpu))).unwrap();
    assert_eq!(
        "0064  11 33     ORA ($33),Y = 0400 @ 0400 = AA  A:00 X:00 Y:00 P:24 SP:FD",
        result[0]
    );
}

#[test]
fn trace_of_every_addressing_mode() {
    let cases: [(&[u8], &str); 16] = [
        (&[0x4C, 0xF5, 0xC5], "0064  4C F5 C5  JMP $C5F5                       A:00 X:04 Y:05 P:24 SP:FD"),
        (&[0x20, 0x2D, 0xC7], "0064  20 2D C7  JSR $C72D                       A:00 X:04 Y:05 P:24 SP:FD"),
        (&[0x6C, 0x00, 0x02], "0064  6C 00 02  JMP ($0200) = DB7E              A:00 X:04 Y:05 P:24 SP:FD"),
        (&[0x86, 0x10], "0064  86 10     STX $10 = 99                    A:00 X:04 Y:05 P:24 SP:FD"),
        (&[0xB0, 0x04], "0064  B0 04     BCS $006A                       A:00 X:04 Y:05 P:24 SP:FD"),
        (&[0xD0, 0xFE], "0064  D0 FE     BNE $0064                       A:00 X:04 Y:05 P:24 SP:FD"),
        (&[0x0A], "0064  0A        ASL A                           A:00 X:04 Y:05 P:24 SP:FD"),
        (&[0xEA], "0064  EA        NOP                             A:00 X:04 Y:05 P:24 SP:FD"),
        (&[0xAD, 0x00, 0x02], "0064  AD 00 02  LDA $0200 = 7E                  A:00 X:04 Y:05 P:24 SP:FD"),
        (&[0xB5, 0x0C], "0064  B5 0C     LDA $0C,X @ 10 = 99             A:00 X:04 Y:05 P:24 SP:FD"),
        (&[0xB6, 0x0B], "0064  B6 0B     LDX $0B,Y @ 10 = 99             A:00 X:04 Y:05 P:24 SP:FD"),
        (&[0xBD, 0xFC, 0x01], "0064  BD FC 01  LDA $01FC,X @ 0200 = 7E         A:00 X:04 Y:05 P:24 SP:FD"),
        (&[0xB9, 0xFC, 0x01], "0064  B9 FC 01  LDA $01FC,Y @ 0201 = DB         A:00 X:04 Y:05 P:24 SP:FD"),
        (&[0xA1, 0xFC], "0064  A1 FC     LDA ($FC,X) @ 00 = 0200 = 7E    A:00 X:04 Y:05 P:24 SP:FD"),
        (&[0xB1, 0x00], "0064  B1 00     LDA ($00),Y = 0200 @ 0205 = 5A  A:00 X:04 Y:05 P:24 SP:FD"),
        (&[0xA3, 0xFC], "0064  A3 FC    *LAX ($FC,X) @ 00 = 0200 = 7E    A:00 X:04 Y:05 P:24 SP:FD"),
    ];
    for (program, line) in cases {
        let mut cpu = machine_at_0x64(program);
        cpu.register_x = 4;
        cpu.register_y = 5;
        cpu.mem_write(0x0010, 0x99).unwrap();
        cpu.mem_write(0x0000, 0x00).unwrap();
        cpu.mem_write(0x0001, 0x02).unwrap();
        cpu.mem_write(0x0200, 0x7E).unwrap();
        cpu.mem_write(0x0201, 0xDB).unwrap();
        cpu.mem_write(0x0205, 0x5A).unwrap();
        assert_eq!(trace(&cpu), line);
    }
}

#[test]
fn trace_does_not_touch_the_machine() {
    // LDA $2002 reads the PPU status when it runs; its trace does not
    let mut cpu = machine_at_0x64(&[0xAD, 0x02, 0x20, 0xAD, 0x07, 0x20]);
    for _ in 0..241 {
        cpu.bus.tick(114);
    }
    let cycles = cpu.bus.cycles();
    let first = trace(&cpu);
    assert_eq!(first, "0064  AD 02 20  LDA $2002 = 80                  A:00 X:00 Y:00 P:24 SP:FD");
    assert_eq!(trace(&cpu), first);
    assert_eq!(cpu.bus.cycles(), cycles);
    assert_eq!(cpu.program_counter, 0x64);
    cpu.step().unwrap();
    assert_eq!(cpu.register_a, 0x80);
    // the read cleared vertical blank
    assert_eq!(cpu.peek(0x2002), 0x00);
}

#[test]
fn opcode_table_entries() {
    let lda = OpCode::lookup(0xA9);
    assert_eq!(lda.code, 0xA9);
    assert_eq!(lda.mnemonic, "LDA");
    assert_eq!(lda.len, 2);
    assert_eq!(lda.cycles, 2);
    assert_eq!(lda.mode, AddressingMode::Immediate);
    assert!(!lda.undocumented);
    let lax = OpCode::lookup(0xB3);
    assert_eq!(lax.mnemonic, "LAX");
    assert_eq!(lax.len, 2);
    assert_eq!(lax.cycles, 5);
    assert_eq!(lax.mode, AddressingMode::Indirect_Y);
    assert!(lax.undocumented);
    assert_eq!(OpCode::lookup(0x6C).mode, AddressingMode::Indirect);
    assert_eq!(OpCode::lookup(0x4C).mode, AddressingMode::Absolute);
    assert_eq!(OpCode::lookup(0x00).mnemonic, "BRK");
    assert_eq!(OpCode::lookup(0x00).cycles, 7);
    assert_eq!(operation_of(0xC9), Operation::Cmp);
    assert_eq!(operation_of(0xEB), Operation::Sbc);
    assert_eq!(operation_of(0x02), Operation::Hlt);
}

#[test]
fn opcode_table_is_complete() {
    let mut documented = 0;
    for code in 0..=255u8 {
        let entry = OpCode::lookup(code);
        assert_eq!(entry.code, code);
        assert_eq!(entry.mnemonic.len(), 3);
        assert!(entry.len >= 1 && entry.len <= 3);
        assert!(entry.cycles >= 1);
        assert_eq!(entry.undocumented, UNDOCUMENTED[code as usize]);
        if !entry.undocumented {
            documented += 1;
        }
    }
    assert_eq!(documented, 151);
}

#[test]
fn opcode_entries_are_built_with_new() {
    let a = OpCode::new(0x69, "ADC", 2, 2, AddressingMode::Immediate);
    assert!(!a.undocumented);
    assert_eq!(a.mnemonic, "ADC");
    let b = OpCode::new_undoc(0xEB, "SBC", 2, 2, AddressingMode::Immediate);
    assert!(b.undocumented);
    assert_eq!((b.code, b.len, b.cycles, b.mode), (0xEB, 2, 2, AddressingMode::Immediate));
}

#[test]
fn no_opcode_is_unknown() {
    for code in 0..=255u8 {
        let mut bus = Bus::new(Rom::blank());
        bus.mem_write(0x0200, code).unwrap();
        let mut cpu = CPU::new(bus);
        cpu.program_counter = 0x0200;
        match cpu.step() {
            Ok(cycles) => assert!(cycles >= 2),
            Err(e) => assert_eq!(e, nes6502::error::CpuError::IllegalHalt),
        }
    }
}
