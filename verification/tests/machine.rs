use nes6502::bus::Bus;
use nes6502::cpu::state::{STACK_RESET, STATUS_RESET};
use nes6502::cpu::{AddressingMode, StatusFlags, CPU, RUN_LIMIT};
use nes6502::error::CpuError;
use nes6502::mem::Mem;
use nes6502::rom::Rom;

fn machine(program: &[u8]) -> CPU {
    let mut bus = Bus::new(Rom::blank());
    bus.allow_rom_writes = true;
    let mut cpu = CPU::new(bus);
    cpu.load(program.to_vec()).unwrap();
    cpu.reset();
    cpu
}

fn steps(cpu: &mut CPU, n: usize) -> u32 {
    let mut cycles = 0;
    for _ in 0..n {
        cycles += cpu.step().unwrap();
    }
    cycles
}

// ---- whole programs ----

#[test]
fn reset_contract() {
    let mut cpu = machine(&[0xEA]);
    cpu.register_a = 1;
    cpu.register_x = 2;
    cpu.register_y = 3;
    cpu.stack_pointer = 4;
    cpu.status = StatusFlags::from_bits_truncate(0xFF);
    cpu.program_counter = 0x1234;
    cpu.mem_write(0x0010, 0x77).unwrap();
    cpu.reset();
    assert_eq!(cpu.register_a, 0);
    assert_eq!(cpu.register_x, 0);
    assert_eq!(cpu.register_y, 0);
    assert_eq!(cpu.stack_pointer, 0xFD);
    assert_eq!(cpu.stack_pointer, STACK_RESET);
    assert_eq!(cpu.status.bits(), 0x24);
    assert_eq!(cpu.status.bits(), STATUS_RESET);
    assert_eq!(cpu.program_counter, 0x8000);
    // memory is as it was
    assert_eq!(cpu.mem_read(0x0010), Ok(0x77));
}

#[test]
fn a_new_processor_is_at_its_reset_values() {
    let cpu = CPU::new(Bus::new(Rom::blank()));
    assert_eq!(cpu.register_a, 0);
    assert_eq!(cpu.register_x, 0);
    assert_eq!(cpu.register_y, 0);
    assert_eq!(cpu.stack_pointer, 0xFD);
    assert_eq!(cpu.status.bits(), 0x24);
    assert_eq!(cpu.program_counter, 0);
    assert!(!cpu.enable_decimal);
}

#[test]
fn five_op_chain_by_steps() {
    let mut cpu = machine(&[0xA9, 0xC0, 0xAA, 0xE8, 0x00]);
    steps(&mut cpu, 3);
    assert_eq!(cpu.register_x, 0xC1);
    assert_eq!(cpu.register_a, 0xC0);
    assert!(cpu.status.contains(StatusFlags::NEGATIVE));
    assert!(!cpu.status.contains(StatusFlags::ZERO));
    assert_eq!(cpu.program_counter, 0x8004);
}

#[test]
fn indirect_y_and() {
    let mut cpu = machine(&[
        0xA9, 0x04, 0x85, 0xFF, 0xA9, 0xF0, 0x85, 0x00, 0xA9, 0x00, 0x85, 0x01, 0xA0, 0x0F, 0xA9,
        0xFF, 0x31, 0x00, 0x00,
    ]);
    cpu.run().unwrap();
    assert_eq!(cpu.register_a, 0x04);
}

#[test]
fn decimal_adc() {
    // SED; LDA #$28; CLC; ADC #$19; BRK
    let mut cpu = machine(&[0xF8, 0xA9, 0x28, 0x18, 0x69, 0x19, 0x00]);
    cpu.enable_decimal = true;
    cpu.run().unwrap();
    assert_eq!(cpu.register_a, 0x47);
    assert!(!cpu.status.contains(StatusFlags::CARRY));
}

#[test]
fn decimal_adc_with_carry_out() {
    // SED; SEC; LDA #$46; ADC #$58; BRK
    let mut cpu = machine(&[0xF8, 0x38, 0xA9, 0x46, 0x69, 0x58, 0x00]);
    cpu.enable_decimal = true;
    cpu.run().unwrap();
    assert_eq!(cpu.register_a, 0x05);
    assert!(cpu.status.contains(StatusFlags::CARRY));
}

#[test]
fn decimal_mode_is_off_on_the_nes() {
    let mut cpu = machine(&[0xF8, 0xA9, 0x28, 0x18, 0x69, 0x19, 0x00]);
    cpu.run().unwrap();
    assert_eq!(cpu.register_a, 0x41);
    assert!(cpu.status.contains(StatusFlags::DECIMAL_MODE));
}

#[test]
fn decimal_adc_keeps_valid_sums_below_100() {
    // 95 + 0 = 95, no carry
    let mut cpu = machine(&[0xF8, 0x18, 0xA9, 0x95, 0x69, 0x00, 0x00]);
    cpu.enable_decimal = true;
    cpu.run().unwrap();
    assert_eq!(cpu.register_a, 0x95);
    assert!(!cpu.status.contains(StatusFlags::CARRY));
    // 70 + 0 = 70, no carry
    let mut cpu = machine(&[0xF8, 0x18, 0xA9, 0x70, 0x69, 0x00, 0x00]);
    cpu.enable_decimal = true;
    cpu.run().unwrap();
    assert_eq!(cpu.register_a, 0x70);
    assert!(!cpu.status.contains(StatusFlags::CARRY));
    // 99 + 1 = 00, carry
    let mut cpu = machine(&[0xF8, 0x18, 0xA9, 0x99, 0x69, 0x01, 0x00]);
    cpu.enable_decimal = true;
    cpu.run().unwrap();
    assert_eq!(cpu.register_a, 0x00);
    assert!(cpu.status.contains(StatusFlags::CARRY));
}

#[test]
fn decimal_sbc() {
    // SED; SEC; LDA #$50; SBC #$24; BRK
    let mut cpu = machine(&[0xF8, 0x38, 0xA9, 0x50, 0xE9, 0x24, 0x00]);
    cpu.enable_decimal = true;
    cpu.run().unwrap();
    assert_eq!(cpu.register_a, 0x26);
    assert!(cpu.status.contains(StatusFlags::CARRY));
    // with a borrow coming in: 50 - 24 - 1 = 25
    let mut cpu = machine(&[0xF8, 0x18, 0xA9, 0x50, 0xE9, 0x24, 0x00]);
    cpu.enable_decimal = true;
    cpu.run().unwrap();
    assert_eq!(cpu.register_a, 0x25);
    assert!(cpu.status.contains(StatusFlags::CARRY));
    // with a borrow going out: 12 - 34 = 78 less a hundred
    let mut cpu = machine(&[0xF8, 0x38, 0xA9, 0x12, 0xE9, 0x34, 0x00]);
    cpu.enable_decimal = true;
    cpu.run().unwrap();
    assert_eq!(cpu.register_a, 0x78);
    assert!(!cpu.status.contains(StatusFlags::CARRY));
    // 00 - 00 with a borrow coming in is 99 less a hundred
    let mut cpu = machine(&[0xF8, 0x18, 0xA9, 0x00, 0xE9, 0x00, 0x00]);
    cpu.enable_decimal = true;
    cpu.run().unwrap();
    assert_eq!(cpu.register_a, 0x99);
    assert!(!cpu.status.contains(StatusFlags::CARRY));
}

#[test]
fn decimal_arithmetic_chains_through_carry() {
    // 1234 - 0567 = 0667, low byte first:
    // SED; SEC; LDA #$34; SBC #$67; TAX; LDA #$12; SBC #$05; BRK
    let mut cpu = machine(&[0xF8, 0x38, 0xA9, 0x34, 0xE9, 0x67, 0xAA, 0xA9, 0x12, 0xE9, 0x05, 0x00]);
    cpu.enable_decimal = true;
    cpu.run().unwrap();
    assert_eq!(cpu.register_x, 0x67);
    assert_eq!(cpu.register_a, 0x06);
    assert!(cpu.status.contains(StatusFlags::CARRY));
    // 0567 + 0667 = 1234:
    // SED; CLC; LDA #$67; ADC #$67; TAX; LDA #$05; ADC #$06; BRK
    let mut cpu = machine(&[0xF8, 0x18, 0xA9, 0x67, 0x69, 0x67, 0xAA, 0xA9, 0x05, 0x69, 0x06, 0x00]);
    cpu.enable_decimal = true;
    cpu.run().unwrap();
    assert_eq!(cpu.register_x, 0x34);
    assert_eq!(cpu.register_a, 0x12);
    assert!(!cpu.status.contains(StatusFlags::CARRY));
}

#[test]
fn jmp_indirect_page_boundary_bug() {
    // JMP ($02FF): the pointer lies at the end of a page of RAM
    let mut cpu = machine(&[0x6C, 0xFF, 0x02]);
    cpu.mem_write(0x02FF, 0x80).unwrap();
    cpu.mem_write(0x0200, 0x50).unwrap();
    cpu.mem_write(0x0300, 0x40).unwrap();
    assert_eq!(cpu.step(), Ok(5));
    assert_eq!(cpu.program_counter, 0x5080);
}

#[test]
fn jmp_indirect_inside_a_page() {
    let mut cpu = machine(&[0x6C, 0x10, 0x02]);
    cpu.mem_write_u16(0x0210, 0x1234).unwrap();
    assert_eq!(cpu.step(), Ok(5));
    assert_eq!(cpu.program_counter, 0x1234);
}

#[test]
fn jsr_stack_layout() {
    let mut cpu = machine(&[0x20, 0x02, 0x40]);
    assert_eq!(cpu.step(), Ok(6));
    assert_eq!(cpu.stack_pointer, 0xFB);
    assert_eq!(cpu.mem_read(0x01FD), Ok(0x80));
    assert_eq!(cpu.mem_read(0x01FC), Ok(0x02));
    assert_eq!(cpu.program_counter, 0x4002);
}

// ---- boundary behaviour ----

#[test]
fn push_wraps_the_stack_pointer() {
    let mut cpu = machine(&[0x48, 0x48]);
    cpu.stack_pointer = 0x00;
    cpu.register_a = 0xAD;
    cpu.step().unwrap();
    assert_eq!(cpu.stack_pointer, 0xFF);
    assert_eq!(cpu.mem_read(0x0100), Ok(0xAD));
    cpu.register_a = 0xAE;
    cpu.step().unwrap();
    assert_eq!(cpu.stack_pointer, 0xFE);
    assert_eq!(cpu.mem_read(0x01FF), Ok(0xAE));
}

#[test]
fn pull_wraps_the_stack_pointer() {
    let mut cpu = machine(&[0x68]);
    cpu.stack_pointer = 0xFF;
    cpu.mem_write(0x0100, 0x42).unwrap();
    cpu.step().unwrap();
    assert_eq!(cpu.stack_pointer, 0x00);
    assert_eq!(cpu.register_a, 0x42);
}

#[test]
fn zero_page_x_wraps_inside_the_zero_page() {
    // LDA $F0,X with X = $20 reads $0010, never $0110
    let mut cpu = machine(&[0xB5, 0xF0]);
    cpu.register_x = 0x20;
    cpu.mem_write(0x0010, 0x11).unwrap();
    cpu.mem_write(0x0110, 0x22).unwrap();
    assert_eq!(cpu.step(), Ok(4));
    assert_eq!(cpu.register_a, 0x11);
}

#[test]
fn zero_page_y_wraps_inside_the_zero_page() {
    let mut cpu = machine(&[0xB6, 0xFF]);
    cpu.register_y = 0x02;
    cpu.mem_write(0x0001, 0x33).unwrap();
    cpu.mem_write(0x0101, 0x44).unwrap();
    cpu.step().unwrap();
    assert_eq!(cpu.register_x, 0x33);
}

#[test]
fn indirect_x_pointer_wraps_inside_the_zero_page() {
    // LDA ($FE,X) with X = 1 takes its pointer from $FF and $00
    let mut cpu = machine(&[0xA1, 0xFE]);
    cpu.register_x = 1;
    cpu.mem_write(0x00FF, 0x34).unwrap();
    cpu.mem_write(0x0000, 0x02).unwrap();
    cpu.mem_write(0x0100, 0x07).unwrap();
    cpu.mem_write(0x0234, 0x99).unwrap();
    cpu.mem_write(0x0734, 0x55).unwrap();
    assert_eq!(cpu.step(), Ok(6));
    assert_eq!(cpu.register_a, 0x99);
}

#[test]
fn indirect_y_pointer_wraps_inside_the_zero_page() {
    let mut cpu = machine(&[0xB1, 0xFF]);
    cpu.register_y = 3;
    cpu.mem_write(0x00FF, 0x30).unwrap();
    cpu.mem_write(0x0000, 0x02).unwrap();
    cpu.mem_write(0x0233, 0x77).unwrap();
    cpu.step().unwrap();
    assert_eq!(cpu.register_a, 0x77);
}

#[test]
fn resolve_address_by_mode() {
    let mut cpu = machine(&[]);
    cpu.register_x = 0x04;
    cpu.register_y = 0x10;
    cpu.mem_write(0x0010, 0xF0).unwrap();
    cpu.mem_write(0x0011, 0x02).unwrap();
    cpu.mem_write(0x0014, 0x78).unwrap();
    cpu.mem_write(0x0015, 0x06).unwrap();
    cpu.mem_write(0x00F0, 0xFF).unwrap();
    cpu.mem_write(0x00F1, 0x03).unwrap();
    cpu.mem_write(0x00F4, 0x78).unwrap();
    cpu.mem_write(0x00F5, 0x06).unwrap();
    assert_eq!(cpu.resolve_address(&AddressingMode::Immediate, 0x0010), Ok((0x0010, false)));
    assert_eq!(cpu.resolve_address(&AddressingMode::ZeroPage, 0x0010), Ok((0x00F0, false)));
    assert_eq!(cpu.resolve_address(&AddressingMode::ZeroPage_X, 0x0010), Ok((0x00F4, false)));
    assert_eq!(cpu.resolve_address(&AddressingMode::ZeroPage_Y, 0x0010), Ok((0x0000, false)));
    assert_eq!(cpu.resolve_address(&AddressingMode::Absolute, 0x0010), Ok((0x02F0, false)));
    assert_eq!(cpu.resolve_address(&AddressingMode::Absolute_X, 0x0010), Ok((0x02F4, false)));
    assert_eq!(cpu.resolve_address(&AddressingMode::Absolute_Y, 0x0010), Ok((0x0300, true)));
    assert_eq!(cpu.resolve_address(&AddressingMode::Indirect_X, 0x0010), Ok((0x0678, false)));
    assert_eq!(cpu.resolve_address(&AddressingMode::Indirect_Y, 0x0010), Ok((0x040F, true)));
    assert_eq!(cpu.resolve_address(&AddressingMode::Indirect, 0x0014), Ok((0x0000, false)));
    assert_eq!(cpu.peek_address(&AddressingMode::Indirect_Y, 0x0010), 0x040F);
    assert_eq!(cpu.peek_address(&AddressingMode::Absolute_X, 0x0010), 0x02F4);
    // a read of a device register on the way fails
    assert_eq!(
        cpu.resolve_address(&AddressingMode::ZeroPage, 0x2000),
        Err(CpuError::WriteOnlyRead(0x2000))
    );
}

#[test]
fn absolute_addressing_wraps_at_the_end_of_memory() {
    let mut cpu = machine(&[0xBD, 0xFF, 0xFF]);
    cpu.register_x = 0x02;
    cpu.mem_write(0x0001, 0x5A).unwrap();
    assert_eq!(cpu.step(), Ok(5));
    assert_eq!(cpu.register_a, 0x5A);
}

// ---- round trips ----

#[test]
fn pha_pla_round_trip() {
    for a in [0x00u8, 0x01, 0x7F, 0x80, 0xFF] {
        // PHA; LDA #$55; PLA
        let mut cpu = machine(&[0x48, 0xA9, 0x55, 0x68]);
        cpu.register_a = a;
        steps(&mut cpu, 3);
        assert_eq!(cpu.register_a, a);
        assert_eq!(cpu.stack_pointer, 0xFD);
        assert_eq!(cpu.status.contains(StatusFlags::ZERO), a == 0);
        assert_eq!(cpu.status.contains(StatusFlags::NEGATIVE), a >= 0x80);
    }
}

#[test]
fn php_plp_round_trip() {
    for p in [0x00u8, 0xFF, 0x24, 0xC3, 0x10, 0x20] {
        // PHP; PLP
        let mut cpu = machine(&[0x08, 0x28]);
        cpu.status = StatusFlags::from_bits_truncate(p);
        cpu.step().unwrap();
        assert_eq!(cpu.mem_read(0x01FD), Ok(p | 0x30));
        cpu.status = StatusFlags::from_bits_truncate(!p);
        cpu.step().unwrap();
        assert_eq!(cpu.status.bits() & 0xCF, p & 0xCF);
        assert_eq!(cpu.status.bits() & 0x10, 0);
        assert_eq!(cpu.status.bits() & 0x20, 0x20);
    }
}

#[test]
fn jsr_rts_round_trip() {
    // JSR $8010 ... at $8010: RTS
    let mut program = vec![0xEA; 0x20];
    program[0] = 0x20;
    program[1] = 0x10;
    program[2] = 0x80;
    program[0x10] = 0x60;
    let mut cpu = machine(&program);
    assert_eq!(cpu.step(), Ok(6));
    assert_eq!(cpu.program_counter, 0x8010);
    assert_eq!(cpu.step(), Ok(6));
    assert_eq!(cpu.program_counter, 0x8003);
    assert_eq!(cpu.stack_pointer, 0xFD);
}

#[test]
fn transfers_round_trip() {
    // TAX; LDA #0; TXA
    let mut cpu = machine(&[0xAA, 0xA9, 0x00, 0x8A]);
    cpu.register_a = 0x9C;
    steps(&mut cpu, 3);
    assert_eq!(cpu.register_a, 0x9C);
    // TAY; LDA #0; TYA
    let mut cpu = machine(&[0xA8, 0xA9, 0x00, 0x98]);
    cpu.register_a = 0x9C;
    steps(&mut cpu, 3);
    assert_eq!(cpu.register_a, 0x9C);
    // TSX; TXS
    let mut cpu = machine(&[0xBA, 0x9A]);
    cpu.stack_pointer = 0x37;
    let p = cpu.status.bits();
    steps(&mut cpu, 2);
    assert_eq!(cpu.stack_pointer, 0x37);
    assert_eq!(cpu.register_x, 0x37);
    assert_eq!(cpu.status.bits(), p);
}

#[test]
fn rti_restores_status_and_program_counter() {
    let mut cpu = machine(&[0x40]);
    cpu.stack_pointer = 0xFA;
    cpu.mem_write(0x01FB, 0xFF).unwrap();
    cpu.mem_write(0x01FC, 0x34).unwrap();
    cpu.mem_write(0x01FD, 0x12).unwrap();
    assert_eq!(cpu.step(), Ok(6));
    assert_eq!(cpu.status.bits(), 0xEF);
    assert_eq!(cpu.program_counter, 0x1234);
    assert_eq!(cpu.stack_pointer, 0xFD);
}

// ---- interrupts and BRK ----

#[test]
fn brk_by_step_enters_the_handler() {
    let mut cpu = machine(&[0x00]);
    cpu.mem_write_u16(0xFFFE, 0x9000).unwrap();
    cpu.status = StatusFlags::from_bits_truncate(0b1100_0001);
    assert_eq!(cpu.step(), Ok(7));
    assert_eq!(cpu.program_counter, 0x9000);
    assert_eq!(cpu.stack_pointer, 0xFA);
    assert_eq!(cpu.mem_read(0x01FD), Ok(0x80));
    assert_eq!(cpu.mem_read(0x01FC), Ok(0x02));
    assert_eq!(cpu.mem_read(0x01FB), Ok(0b1111_0001));
    assert_eq!(cpu.status.bits(), 0b1100_0101);
}

#[test]
fn run_stops_behind_brk_without_executing_it() {
    let mut cpu = machine(&[0xE8, 0x00, 0xE8]);
    cpu.mem_write_u16(0xFFFE, 0x9000).unwrap();
    assert_eq!(cpu.run(), Ok(()));
    assert_eq!(cpu.register_x, 1);
    assert_eq!(cpu.program_counter, 0x8002);
    assert_eq!(cpu.stack_pointer, 0xFD);
}

#[test]
fn nmi_is_taken_before_the_next_instruction() {
    // JMP $8000
    let mut cpu = machine(&[0x4C, 0x00, 0x80]);
    cpu.mem_write_u16(0xFFFA, 0x9000).unwrap();
    cpu.mem_write(0x9000, 0xE8).unwrap();
    // switch NMI generation on
    cpu.mem_write(0x2000, 0x80).unwrap();
    let mut taken = None;
    for _ in 0..30000 {
        let cycles = cpu.step().unwrap();
        if cpu.program_counter == 0x9001 {
            taken = Some(cycles);
            break;
        }
        assert_eq!(cycles, 3);
    }
    // seven cycles for the interrupt and two for INX
    assert_eq!(taken, Some(9));
    assert_eq!(cpu.register_x, 1);
    assert_eq!(cpu.stack_pointer, 0xFA);
    assert!(cpu.status.contains(StatusFlags::INTERRUPT_DISABLE));
    // the status went to the stack with break clear and the unused flag set
    assert_eq!(cpu.mem_read(0x01FB).unwrap() & 0x30, 0x20);
    // the return address is that of an instruction of the loop
    assert_eq!(cpu.mem_read_u16(0x01FC), Ok(0x8000));
    // 241 scanlines of 341 dots had to pass, at three dots to the cycle
    assert!(cpu.bus.cycles() >= 241 * 341 / 3);
    assert!(cpu.bus.cycles() < 241 * 341 / 3 + 20);
}

// ---- cycles ----

#[test]
fn base_cycles_of_some_instructions() {
    let cases: [(&[u8], u32); 12] = [
        (&[0xA9, 0x01], 2),
        (&[0xA5, 0x10], 3),
        (&[0xB5, 0x10], 4),
        (&[0xAD, 0x10, 0x02], 4),
        (&[0xA1, 0x10], 6),
        (&[0xB1, 0x10], 5),
        (&[0x85, 0x10], 3),
        (&[0xE6, 0x10], 5),
        (&[0xFE, 0x10, 0x02], 7),
        (&[0x48], 3),
        (&[0x68], 4),
        (&[0xEA], 2),
    ];
    for (program, cycles) in cases {
        let mut cpu = machine(program);
        assert_eq!(cpu.step(), Ok(cycles));
        assert_eq!(cpu.bus.cycles(), cycles as u64);
        assert_eq!(cpu.program_counter, 0x8000 + program.len() as u16);
    }
}

#[test]
fn reads_pay_for_crossing_a_page() {
    // LDA $02F0,X
    let mut cpu = machine(&[0xBD, 0xF0, 0x02]);
    cpu.register_x = 0x0F;
    assert_eq!(cpu.step(), Ok(4));
    let mut cpu = machine(&[0xBD, 0xF0, 0x02]);
    cpu.register_x = 0x10;
    assert_eq!(cpu.step(), Ok(5));
    // LDA $02F0,Y
    let mut cpu = machine(&[0xB9, 0xF0, 0x02]);
    cpu.register_y = 0x10;
    assert_eq!(cpu.step(), Ok(5));
    // LDA ($10),Y
    let mut cpu = machine(&[0xB1, 0x10]);
    cpu.mem_write_u16(0x0010, 0x02F0).unwrap();
    cpu.register_y = 0x10;
    assert_eq!(cpu.step(), Ok(6));
    let mut cpu = machine(&[0xB1, 0x10]);
    cpu.mem_write_u16(0x0010, 0x02F0).unwrap();
    cpu.register_y = 0x0F;
    assert_eq!(cpu.step(), Ok(5));
}

#[test]
fn stores_do_not_pay_for_crossing_a_page() {
    // STA $02F0,X
    let mut cpu = machine(&[0x9D, 0xF0, 0x02]);
    cpu.register_x = 0x10;
    assert_eq!(cpu.step(), Ok(5));
    // INC $02F0,X
    let mut cpu = machine(&[0xFE, 0xF0, 0x02]);
    cpu.register_x = 0x10;
    assert_eq!(cpu.step(), Ok(7));
}

#[test]
fn branches_pay_when_taken_and_more_across_pages() {
    // BNE +2, zero clear: taken
    let mut cpu = machine(&[0xD0, 0x02]);
    assert_eq!(cpu.step(), Ok(3));
    assert_eq!(cpu.program_counter, 0x8004);
    // zero set: not taken
    let mut cpu = machine(&[0xD0, 0x02]);
    cpu.status.insert(StatusFlags::ZERO);
    assert_eq!(cpu.step(), Ok(2));
    assert_eq!(cpu.program_counter, 0x8002);
    // backwards into the page before
    let mut cpu = machine(&[0xD0, 0xFC]);
    assert_eq!(cpu.step(), Ok(4));
    assert_eq!(cpu.program_counter, 0x7FFE);
    // backwards within the page
    let mut program = vec![0xEA; 0x12];
    program[0x10] = 0xD0;
    program[0x11] = 0xF0;
    let mut cpu = machine(&program);
    cpu.program_counter = 0x8010;
    assert_eq!(cpu.step(), Ok(3));
    assert_eq!(cpu.program_counter, 0x8002);
}

#[test]
fn the_bus_clock_follows_the_steps() {
    let mut cpu = machine(&[0xA9, 0x01, 0x85, 0x10, 0xE6, 0x10, 0xEA]);
    let cycles = steps(&mut cpu, 4);
    assert_eq!(cycles, 2 + 3 + 5 + 2);
    assert_eq!(cpu.bus.cycles(), 12);
}

// ---- failures ----

#[test]
fn halt_fails() {
    for code in [0x02u8, 0x12, 0x22, 0x32, 0x42, 0x52, 0x62, 0x72, 0x92, 0xB2, 0xD2, 0xF2] {
        let mut cpu = machine(&[code]);
        assert_eq!(cpu.step(), Err(CpuError::IllegalHalt));
        assert_eq!(cpu.program_counter, 0x8001);
        let mut cpu = machine(&[0xE8, code]);
        assert_eq!(cpu.run(), Err(CpuError::IllegalHalt));
        assert_eq!(cpu.register_x, 1);
    }
}

#[test]
fn reading_a_write_only_register_fails() {
    // LDA $2000
    let mut cpu = machine(&[0xAD, 0x00, 0x20]);
    assert_eq!(cpu.step(), Err(CpuError::WriteOnlyRead(0x2000)));
    assert_eq!(cpu.register_a, 0);
    // LDA $4014
    let mut cpu = machine(&[0xAD, 0x14, 0x40]);
    assert_eq!(cpu.step(), Err(CpuError::WriteOnlyRead(0x4014)));
}

#[test]
fn writing_rom_fails() {
    // STA $8000
    let mut cpu = machine(&[0x8D, 0x00, 0x80]);
    cpu.bus.allow_rom_writes = false;
    assert_eq!(cpu.step(), Err(CpuError::RomWrite(0x8000)));
    // INC $9000: the flags are not touched
    let mut cpu = machine(&[0xEE, 0x00, 0x90]);
    cpu.bus.allow_rom_writes = false;
    assert_eq!(cpu.step(), Err(CpuError::RomWrite(0x9000)));
    assert_eq!(cpu.status.bits(), 0x24);
}

#[test]
fn loading_into_rom_fails_unless_allowed() {
    let mut cpu = CPU::new(Bus::new(Rom::blank()));
    assert_eq!(cpu.load(vec![0xEA]), Err(CpuError::RomWrite(0x8000)));
    assert_eq!(cpu.load_and_run(vec![0xEA]), Err(CpuError::RomWrite(0x8000)));
    // the reset vector lies in ROM
    assert_eq!(cpu.load_at(vec![0xEA, 0xE8], 0x0200), Err(CpuError::RomWrite(0xFFFC)));
    assert_eq!(cpu.mem_read(0x0201), Ok(0xE8));
}

#[test]
fn load_at_writes_the_program_and_the_reset_vector() {
    let mut cpu = machine(&[]);
    cpu.load_at(vec![0xE8, 0xE8, 0x00], 0x0600).unwrap();
    assert_eq!(cpu.mem_read(0x0600), Ok(0xE8));
    assert_eq!(cpu.mem_read(0x0602), Ok(0x00));
    assert_eq!(cpu.mem_read_u16(0xFFFC), Ok(0x0600));
    cpu.reset();
    assert_eq!(cpu.program_counter, 0x0600);
    cpu.run().unwrap();
    assert_eq!(cpu.register_x, 2);
    // a program may end with the address space
    cpu.load_at(vec![0x11, 0x22], 0xFFFE).unwrap();
    assert_eq!(cpu.mem_read_u16(0xFFFE), Ok(0x2211));
}

#[test]
fn ppu_data_in_the_forbidden_window_stops_the_step() {
    // LDA #$30; STA $2006; LDA #$00; STA $2006; STA $2007
    let mut cpu = machine(&[0xA9, 0x30, 0x8D, 0x06, 0x20, 0xA9, 0x00, 0x8D, 0x06, 0x20, 0x8D, 0x07, 0x20]);
    cpu.mem_read(0x2002).unwrap();
    steps(&mut cpu, 4);
    assert_eq!(cpu.step(), Err(CpuError::PpuIllegalRegion(0x3000)));
}

// ---- run ----

#[test]
fn a_paused_processor_does_not_run() {
    let mut cpu = machine(&[0xE8, 0x00]);
    cpu.toggle_pause();
    let mut calls = 0;
    assert_eq!(cpu.run_with_callback(|_| calls += 1), Ok(()));
    assert_eq!(calls, 1);
    assert_eq!(cpu.register_x, 0);
    assert_eq!(cpu.program_counter, 0x8000);
    cpu.toggle_pause();
    assert_eq!(cpu.run(), Ok(()));
    assert_eq!(cpu.register_x, 1);
}

#[test]
fn the_callback_sees_every_instruction() {
    let mut cpu = machine(&[0xA2, 0x05, 0xCA, 0xD0, 0xFD, 0x00]);
    let mut seen = Vec::new();
    cpu.run_with_callback(|cpu| seen.push((cpu.program_counter, cpu.register_x))).unwrap();
    assert_eq!(seen.len(), 1 + 2 * 5 + 1);
    assert_eq!(seen[0], (0x8000, 0));
    assert_eq!(seen[1], (0x8002, 5));
    assert_eq!(seen[2], (0x8003, 4));
    assert_eq!(seen[3], (0x8002, 4));
    assert_eq!(seen[11], (0x8005, 0));
    assert_eq!(cpu.program_counter, 0x8006);
}

#[test]
fn run_limit_is_all_of_u64() {
    assert_eq!(RUN_LIMIT, u64::MAX);
}

// ---- instructions ----

#[test]
fn adc_binary_formula() {
    // (a, m, carry in) -> (result, carry, overflow)
    let cases = [
        (0x01u8, 0x01u8, false, 0x02u8, false, false),
        (0xFF, 0x01, false, 0x00, true, false),
        (0x7F, 0x01, false, 0x80, false, true),
        (0x80, 0x80, false, 0x00, true, true),
        (0x7F, 0x7F, true, 0xFF, false, true),
        (0xFF, 0xFF, true, 0xFF, true, false),
        (0x50, 0xD0, false, 0x20, true, false),
    ];
    for (a, m, carry, result, carry_out, overflow) in cases {
        let mut cpu = machine(&[0x69, m]);
        cpu.register_a = a;
        cpu.status.set(StatusFlags::CARRY, carry);
        cpu.step().unwrap();
        assert_eq!(cpu.register_a, result);
        assert_eq!(cpu.status.contains(StatusFlags::CARRY), carry_out);
        assert_eq!(cpu.status.contains(StatusFlags::OVERFLOW), overflow);
        assert_eq!(cpu.status.contains(StatusFlags::ZERO), result == 0);
        assert_eq!(cpu.status.contains(StatusFlags::NEGATIVE), result >= 0x80);
    }
}

#[test]
fn sbc_binary_formula() {
    let cases = [
        (0x05u8, 0x03u8, true, 0x02u8, true, false),
        (0x05, 0x03, false, 0x01, true, false),
        (0x03, 0x05, true, 0xFE, false, false),
        (0x80, 0x01, true, 0x7F, true, true),
        (0x7F, 0xFF, true, 0x80, false, true),
        (0x00, 0x00, true, 0x00, true, false),
    ];
    for (a, m, carry, result, carry_out, overflow) in cases {
        for code in [0xE9u8, 0xEB] {
            let mut cpu = machine(&[code, m]);
            cpu.register_a = a;
            cpu.status.set(StatusFlags::CARRY, carry);
            assert_eq!(cpu.step(), Ok(2));
            assert_eq!(cpu.register_a, result);
            assert_eq!(cpu.status.contains(StatusFlags::CARRY), carry_out);
            assert_eq!(cpu.status.contains(StatusFlags::OVERFLOW), overflow);
        }
    }
}

#[test]
fn compare_sets_only_flags() {
    let cases = [(0x10u8, 0x10u8, true, true, false), (0x10, 0x20, false, false, true), (0x20, 0x10, true, false, false), (0x00, 0x01, false, false, true)];
    for (register, m, carry, zero, negative) in cases {
        for (code, which) in [(0xC9u8, 0), (0xE0, 1), (0xC0, 2)] {
            let mut cpu = machine(&[code, m]);
            match which {
                0 => cpu.register_a = register,
                1 => cpu.register_x = register,
                _ => cpu.register_y = register,
            }
            cpu.status = StatusFlags::from_bits_truncate(0x64);
            cpu.step().unwrap();
            assert_eq!(cpu.status.contains(StatusFlags::CARRY), carry);
            assert_eq!(cpu.status.contains(StatusFlags::ZERO), zero);
            assert_eq!(cpu.status.contains(StatusFlags::NEGATIVE), negative);
            assert!(cpu.status.contains(StatusFlags::OVERFLOW));
            assert_eq!(cpu.register_a + cpu.register_x + cpu.register_y, register);
        }
    }
}

#[test]
fn bit_leaves_the_accumulator() {
    let mut cpu = machine(&[0x24, 0x10]);
    cpu.mem_write(0x0010, 0xC0).unwrap();
    cpu.register_a = 0x3F;
    cpu.step().unwrap();
    assert_eq!(cpu.register_a, 0x3F);
    assert_eq!(cpu.status.bits(), 0x24 | 0xC0 | 0x02);
}

#[test]
fn rotations_go_through_carry() {
    // ROL A
    let mut cpu = machine(&[0x2A]);
    cpu.register_a = 0x80;
    cpu.status.insert(StatusFlags::CARRY);
    cpu.step().unwrap();
    assert_eq!(cpu.register_a, 0x01);
    assert!(cpu.status.contains(StatusFlags::CARRY));
    // ROR $10
    let mut cpu = machine(&[0x66, 0x10]);
    cpu.mem_write(0x0010, 0x01).unwrap();
    cpu.register_a = 0x55;
    assert_eq!(cpu.step(), Ok(5));
    assert_eq!(cpu.mem_read(0x0010), Ok(0x00));
    assert!(cpu.status.contains(StatusFlags::CARRY));
    // zero is that of the byte written, not of the accumulator
    assert!(cpu.status.contains(StatusFlags::ZERO));
    assert_eq!(cpu.register_a, 0x55);
}

#[test]
fn flag_instructions_touch_one_flag() {
    let cases = [(0x18u8, 0xFFu8, 0xFEu8), (0x38, 0x00, 0x01), (0xD8, 0xFF, 0xF7), (0xF8, 0x00, 0x08), (0x58, 0xFF, 0xFB), (0x78, 0x00, 0x04), (0xB8, 0xFF, 0xBF)];
    for (code, before, after) in cases {
        let mut cpu = machine(&[code]);
        cpu.status = StatusFlags::from_bits_truncate(before);
        assert_eq!(cpu.step(), Ok(2));
        assert_eq!(cpu.status.bits(), after);
    }
}

#[test]
fn txs_leaves_the_flags() {
    let mut cpu = machine(&[0x9A]);
    cpu.register_x = 0x00;
    cpu.step().unwrap();
    assert_eq!(cpu.stack_pointer, 0);
    assert_eq!(cpu.status.bits(), 0x24);
}

#[test]
fn status_flags_are_a_set_of_bits() {
    let mut flags = StatusFlags::empty();
    assert_eq!(flags.bits(), 0);
    flags.insert(StatusFlags::CARRY);
    flags.insert(StatusFlags::NEGATIVE);
    assert_eq!(flags.bits(), 0x81);
    assert!(flags.contains(StatusFlags::CARRY));
    assert!(flags.contains(StatusFlags::CARRY | StatusFlags::NEGATIVE));
    assert!(!flags.contains(StatusFlags::CARRY | StatusFlags::ZERO));
    flags.remove(StatusFlags::CARRY);
    assert_eq!(flags.bits(), 0x80);
    flags.set(StatusFlags::OVERFLOW, true);
    flags.set(StatusFlags::NEGATIVE, false);
    assert_eq!(flags, StatusFlags::from_bits_truncate(0x40));
}

// ---- undocumented instructions ----

#[test]
fn lax_loads_accumulator_and_x() {
    let mut cpu = machine(&[0xA7, 0x10]);
    cpu.mem_write(0x0010, 0x8F).unwrap();
    assert_eq!(cpu.step(), Ok(3));
    assert_eq!(cpu.register_a, 0x8F);
    assert_eq!(cpu.register_x, 0x8F);
    assert!(cpu.status.contains(StatusFlags::NEGATIVE));
}

#[test]
fn sax_stores_a_and_x() {
    let mut cpu = machine(&[0x87, 0x10]);
    cpu.register_a = 0xF0;
    cpu.register_x = 0x3C;
    cpu.step().unwrap();
    assert_eq!(cpu.mem_read(0x0010), Ok(0x30));
    assert_eq!(cpu.status.bits(), 0x24);
}

#[test]
fn dcp_decrements_and_compares() {
    let mut cpu = machine(&[0xC7, 0x10]);
    cpu.mem_write(0x0010, 0x11).unwrap();
    cpu.register_a = 0x10;
    assert_eq!(cpu.step(), Ok(5));
    assert_eq!(cpu.mem_read(0x0010), Ok(0x10));
    assert!(cpu.status.contains(StatusFlags::ZERO));
    assert!(cpu.status.contains(StatusFlags::CARRY));
}

#[test]
fn isb_increments_and_subtracts() {
    let mut cpu = machine(&[0xE7, 0x10]);
    cpu.mem_write(0x0010, 0x02).unwrap();
    cpu.register_a = 0x10;
    cpu.status.insert(StatusFlags::CARRY);
    cpu.step().unwrap();
    assert_eq!(cpu.mem_read(0x0010), Ok(0x03));
    assert_eq!(cpu.register_a, 0x0D);
}

#[test]
fn slo_shifts_and_ors() {
    let mut cpu = machine(&[0x07, 0x10]);
    cpu.mem_write(0x0010, 0x81).unwrap();
    cpu.register_a = 0x10;
    cpu.step().unwrap();
    assert_eq!(cpu.mem_read(0x0010), Ok(0x02));
    assert_eq!(cpu.register_a, 0x12);
    assert!(cpu.status.contains(StatusFlags::CARRY));
}

#[test]
fn rla_rotates_and_ands() {
    let mut cpu = machine(&[0x27, 0x10]);
    cpu.mem_write(0x0010, 0x81).unwrap();
    cpu.register_a = 0x0F;
    cpu.status.insert(StatusFlags::CARRY);
    cpu.step().unwrap();
    assert_eq!(cpu.mem_read(0x0010), Ok(0x03));
    assert_eq!(cpu.register_a, 0x03);
    assert!(cpu.status.contains(StatusFlags::CARRY));
}

#[test]
fn sre_shifts_and_xors() {
    let mut cpu = machine(&[0x47, 0x10]);
    cpu.mem_write(0x0010, 0x03).unwrap();
    cpu.register_a = 0xFF;
    cpu.step().unwrap();
    assert_eq!(cpu.mem_read(0x0010), Ok(0x01));
    assert_eq!(cpu.register_a, 0xFE);
    assert!(cpu.status.contains(StatusFlags::CARRY));
}

#[test]
fn rra_rotates_and_adds() {
    let mut cpu = machine(&[0x67, 0x10]);
    cpu.mem_write(0x0010, 0x03).unwrap();
    cpu.register_a = 0x10;
    cpu.step().unwrap();
    // $03 rotated right is $01 with carry, and $10 + $01 + 1 = $12
    assert_eq!(cpu.mem_read(0x0010), Ok(0x01));
    assert_eq!(cpu.register_a, 0x12);
    assert!(!cpu.status.contains(StatusFlags::CARRY));
}

#[test]
fn alr_anc_arr_axs_atx() {
    // ALR #$FF
    let mut cpu = machine(&[0x4B, 0xFF]);
    cpu.register_a = 0x03;
    cpu.step().unwrap();
    assert_eq!(cpu.register_a, 0x01);
    assert!(cpu.status.contains(StatusFlags::CARRY));
    // ANC #$80
    let mut cpu = machine(&[0x0B, 0x80]);
    cpu.register_a = 0xFF;
    cpu.step().unwrap();
    assert_eq!(cpu.register_a, 0x80);
    assert!(cpu.status.contains(StatusFlags::CARRY));
    assert!(cpu.status.contains(StatusFlags::NEGATIVE));
    // ARR #$FF: $C0 with carry rotates to $E0; bits 5 and 6 are both set
    let mut cpu = machine(&[0x6B, 0xFF]);
    cpu.register_a = 0xC0;
    cpu.status.insert(StatusFlags::CARRY);
    cpu.step().unwrap();
    assert_eq!(cpu.register_a, 0xE0);
    assert!(cpu.status.contains(StatusFlags::CARRY));
    assert!(!cpu.status.contains(StatusFlags::OVERFLOW));
    // AXS #$02
    let mut cpu = machine(&[0xCB, 0x02]);
    cpu.register_a = 0x0F;
    cpu.register_x = 0x05;
    cpu.step().unwrap();
    assert_eq!(cpu.register_x, 0x03);
    assert!(cpu.status.contains(StatusFlags::CARRY));
    // AXS clears carry on a borrow
    let mut cpu = machine(&[0xCB, 0x06]);
    cpu.register_a = 0x0F;
    cpu.register_x = 0x05;
    cpu.status.insert(StatusFlags::CARRY);
    cpu.step().unwrap();
    assert_eq!(cpu.register_x, 0xFF);
    assert!(!cpu.status.contains(StatusFlags::CARRY));
    // ATX #$0F
    let mut cpu = machine(&[0xAB, 0x0F]);
    cpu.register_a = 0x3C;
    cpu.step().unwrap();
    assert_eq!(cpu.register_a, 0x0C);
    assert_eq!(cpu.register_x, 0x0C);
}

#[test]
fn unstable_stores() {
    // AXA $0200,Y
    let mut cpu = machine(&[0x9F, 0x00, 0x02]);
    cpu.register_a = 0xFF;
    cpu.register_x = 0x0F;
    cpu.register_y = 0x01;
    assert_eq!(cpu.step(), Ok(5));
    assert_eq!(cpu.mem_read(0x0201), Ok(0x03));
    // SXA $0200,Y
    let mut cpu = machine(&[0x9E, 0x00, 0x02]);
    cpu.register_x = 0xFF;
    cpu.register_y = 0x01;
    assert_eq!(cpu.step(), Ok(5));
    assert_eq!(cpu.mem_read(0x0201), Ok(0x03));
    // SYA $0200,X
    let mut cpu = machine(&[0x9C, 0x00, 0x02]);
    cpu.register_y = 0x02;
    cpu.register_x = 0x01;
    assert_eq!(cpu.step(), Ok(5));
    assert_eq!(cpu.mem_read(0x0201), Ok(0x02));
    // XAS $0200,Y
    let mut cpu = machine(&[0x9B, 0x00, 0x02]);
    cpu.register_a = 0x0F;
    cpu.register_x = 0x07;
    cpu.register_y = 0x01;
    assert_eq!(cpu.step(), Ok(5));
    assert_eq!(cpu.stack_pointer, 0x07);
    assert_eq!(cpu.mem_read(0x0201), Ok(0x03));
}

#[test]
fn lar_and_xaa() {
    // LAR $0200,Y
    let mut cpu = machine(&[0xBB, 0x00, 0x02]);
    cpu.mem_write(0x0201, 0xF0).unwrap();
    cpu.register_y = 1;
    cpu.stack_pointer = 0x3C;
    assert_eq!(cpu.step(), Ok(4));
    assert_eq!(cpu.register_a, 0x30);
    assert_eq!(cpu.register_x, 0x30);
    assert_eq!(cpu.stack_pointer, 0x30);
    // XAA #$0F
    let mut cpu = machine(&[0x8B, 0x0F]);
    cpu.register_a = 0xFF;
    cpu.register_x = 0x3C;
    assert_eq!(cpu.step(), Ok(2));
    assert_eq!(cpu.register_a, 0x0C);
    assert_eq!(cpu.status.bits(), 0x24);
}

#[test]
fn undocumented_nops_take_their_operands() {
    let cases: [(&[u8], u32); 6] = [
        (&[0x1A], 2),
        (&[0x80, 0x12], 2),
        (&[0x04, 0x12], 3),
        (&[0x14, 0x12], 4),
        (&[0x0C, 0x12, 0x02], 4),
        (&[0x1C, 0xFF, 0x02], 5),
    ];
    for (program, cycles) in cases {
        let mut cpu = machine(program);
        cpu.register_x = 1;
        assert_eq!(cpu.step(), Ok(cycles));
        assert_eq!(cpu.program_counter, 0x8000 + program.len() as u16);
        assert_eq!(cpu.status.bits(), 0x24);
        assert_eq!(cpu.register_a, 0);
    }
}

// ---- interrupt requests ----

#[test]
fn irq_is_taken_when_interrupts_are_enabled() {
    let mut cpu = machine(&[0xEA]);
    cpu.mem_write_u16(0xFFFE, 0x9000).unwrap();
    cpu.status = StatusFlags::from_bits_truncate(0b0011_0001);
    assert_eq!(cpu.irq(), Ok(7));
    assert_eq!(cpu.program_counter, 0x9000);
    assert_eq!(cpu.stack_pointer, 0xFA);
    assert_eq!(cpu.mem_read_u16(0x01FC), Ok(0x8000));
    assert_eq!(cpu.mem_read(0x01FB), Ok(0b0010_0001));
    assert_eq!(cpu.status.bits(), 0b0011_0101);
    assert_eq!(cpu.bus.cycles(), 7);
}

#[test]
fn irq_is_ignored_when_interrupts_are_disabled() {
    let mut cpu = machine(&[0xEA]);
    cpu.mem_write_u16(0xFFFE, 0x9000).unwrap();
    assert!(cpu.status.contains(StatusFlags::INTERRUPT_DISABLE));
    assert_eq!(cpu.irq(), Ok(0));
    assert_eq!(cpu.program_counter, 0x8000);
    assert_eq!(cpu.stack_pointer, 0xFD);
    assert_eq!(cpu.bus.cycles(), 0);
}

// ---- the documented instruction set ----

#[test]
fn documented_opcodes_take_their_documented_cycles() {
    // (opcode, bytes, cycles) for every documented opcode but the branches,
    // which are counted above
    let table: [(u8, u16, u32); 143] = [
        (0x69, 2, 2), (0x65, 2, 3), (0x75, 2, 4), (0x6D, 3, 4), (0x7D, 3, 4), (0x79, 3, 4), (0x61, 2, 6), (0x71, 2, 5),
        (0x29, 2, 2), (0x25, 2, 3), (0x35, 2, 4), (0x2D, 3, 4), (0x3D, 3, 4), (0x39, 3, 4), (0x21, 2, 6), (0x31, 2, 5),
        (0x0A, 1, 2), (0x06, 2, 5), (0x16, 2, 6), (0x0E, 3, 6), (0x1E, 3, 7),
        (0x24, 2, 3), (0x2C, 3, 4),
        (0x00, 1, 7),
        (0x18, 1, 2), (0xD8, 1, 2), (0x58, 1, 2), (0xB8, 1, 2),
        (0xC9, 2, 2), (0xC5, 2, 3), (0xD5, 2, 4), (0xCD, 3, 4), (0xDD, 3, 4), (0xD9, 3, 4), (0xC1, 2, 6), (0xD1, 2, 5),
        (0xE0, 2, 2), (0xE4, 2, 3), (0xEC, 3, 4),
        (0xC0, 2, 2), (0xC4, 2, 3), (0xCC, 3, 4),
        (0xC6, 2, 5), (0xD6, 2, 6), (0xCE, 3, 6), (0xDE, 3, 7),
        (0xCA, 1, 2), (0x88, 1, 2),
        (0x49, 2, 2), (0x45, 2, 3), (0x55, 2, 4), (0x4D, 3, 4), (0x5D, 3, 4), (0x59, 3, 4), (0x41, 2, 6), (0x51, 2, 5),
        (0x4C, 3, 3), (0x6C, 3, 5),
        (0x20, 3, 6), (0x60, 1, 6), (0x40, 1, 6),
        (0xE6, 2, 5), (0xF6, 2, 6), (0xEE, 3, 6), (0xFE, 3, 7),
        (0xE8, 1, 2), (0xC8, 1, 2),
        (0xA9, 2, 2), (0xA5, 2, 3), (0xB5, 2, 4), (0xAD, 3, 4), (0xBD, 3, 4), (0xB9, 3, 4), (0xA1, 2, 6), (0xB1, 2, 5),
        (0xA2, 2, 2), (0xA6, 2, 3), (0xB6, 2, 4), (0xAE, 3, 4), (0xBE, 3, 4),
        (0xA0, 2, 2), (0xA4, 2, 3), (0xB4, 2, 4), (0xAC, 3, 4), (0xBC, 3, 4),
        (0x4A, 1, 2), (0x46, 2, 5), (0x56, 2, 6), (0x4E, 3, 6), (0x5E, 3, 7),
        (0xEA, 1, 2),
        (0x09, 2, 2), (0x05, 2, 3), (0x15, 2, 4), (0x0D, 3, 4), (0x1D, 3, 4), (0x19, 3, 4), (0x01, 2, 6), (0x11, 2, 5),
        (0x48, 1, 3), (0x08, 1, 3), (0x68, 1, 4), (0x28, 1, 4),
        (0x2A, 1, 2), (0x26, 2, 5), (0x36, 2, 6), (0x2E, 3, 6), (0x3E, 3, 7),
        (0x6A, 1, 2), (0x66, 2, 5), (0x76, 2, 6), (0x6E, 3, 6), (0x7E, 3, 7),
        (0xE9, 2, 2), (0xE5, 2, 3), (0xF5, 2, 4), (0xED, 3, 4), (0xFD, 3, 4), (0xF9, 3, 4), (0xE1, 2, 6), (0xF1, 2, 5),
        (0x38, 1, 2), (0xF8, 1, 2), (0x78, 1, 2),
        (0x85, 2, 3), (0x95, 2, 4), (0x8D, 3, 4), (0x9D, 3, 5), (0x99, 3, 5), (0x81, 2, 6), (0x91, 2, 6),
        (0x86, 2, 3), (0x96, 2, 4), (0x8E, 3, 4),
        (0x84, 2, 3), (0x94, 2, 4), (0x8C, 3, 4),
        (0xAA, 1, 2), (0xA8, 1, 2), (0xBA, 1, 2), (0x8A, 1, 2), (0x9A, 1, 2), (0x98, 1, 2),
    ];
    for (code, bytes, cycles) in table {
        // the operand $0010 keeps every access in RAM and inside one page
        let mut cpu = machine(&[code, 0x10, 0x00]);
        cpu.mem_write_u16(0x0010, 0x0200).unwrap();
        cpu.mem_write_u16(0xFFFE, 0x9000).unwrap();
        let entry = nes6502::opcode::OpCode::lookup(code);
        assert!(!entry.undocumented);
        assert_eq!(u16::from(entry.len), bytes);
        assert_eq!(u32::from(entry.cycles), cycles);
        assert_eq!(cpu.step(), Ok(cycles), "opcode {:02X}", code);
        let jumps = [0x00u8, 0x4C, 0x6C, 0x20, 0x60, 0x40];
        if !jumps.contains(&code) {
            assert_eq!(cpu.program_counter, 0x8000 + bytes, "opcode {:02X}", code);
        }
    }
}

#[test]
fn branches_not_taken_take_two_cycles() {
    // (opcode, status under which the branch is not taken)
    let table = [(0x90u8, 0x01u8), (0xB0, 0x00), (0xF0, 0x00), (0xD0, 0x02), (0x30, 0x00), (0x10, 0x80), (0x50, 0x40), (0x70, 0x00)];
    for (code, status) in table {
        let mut cpu = machine(&[code, 0x10]);
        cpu.status = StatusFlags::from_bits_truncate(status);
        assert_eq!(cpu.step(), Ok(2));
        assert_eq!(cpu.program_counter, 0x8002);
        let mut cpu = machine(&[code, 0x10]);
        cpu.status = StatusFlags::from_bits_truncate(!status);
        assert_eq!(cpu.step(), Ok(3));
        assert_eq!(cpu.program_counter, 0x8012);
    }
}
