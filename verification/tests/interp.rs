//! Instruction interpreter behaviour: flow control, stack round trips,
//! arithmetic through the bus, and the error kinds.

use plus4::{EmuError, Plus4};

fn machine_with_vectors(reset: u16, irq: u16) -> Plus4 {
    let mut rom = vec![0u8; 0x8000];
    rom[0x7FFC] = (reset & 0xFF) as u8;
    rom[0x7FFD] = (reset >> 8) as u8;
    rom[0x7FFE] = (irq & 0xFF) as u8;
    rom[0x7FFF] = (irq >> 8) as u8;
    let sec = vec![0u8; 0x8000];
    let mut p = Plus4::new();
    p.load_rom(&rom, &sec);
    p
}

#[test]
fn step_before_roms_fails_fast() {
    let mut p = Plus4::new();
    assert_eq!(p.step(), Err(EmuError::RomMissing));
}

#[test]
fn unknown_opcode_advances_one() {
    let mut p = machine_with_vectors(0x1000, 0x3000);
    p.cpu.pc = 0x1000;
    p.poke(0x1000, 0x02);
    assert_eq!(p.execute_instruction(), Err(EmuError::UnknownOpcode));
    assert_eq!(p.cpu.pc, 0x1001);
    assert_eq!(p.clock_ticks, 2);
    // step recovers locally and continues
    p.cpu.pc = 0x1000;
    assert_eq!(p.step(), Ok(2));
    assert_eq!(p.cpu.pc, 0x1001);
}

#[test]
fn decimal_adc_is_unsupported() {
    let mut p = machine_with_vectors(0x1000, 0x3000);
    p.cpu.pc = 0x1000;
    p.cpu.d = true;
    p.poke(0x1000, 0x69);
    p.poke(0x1001, 0x01);
    assert_eq!(p.step(), Err(EmuError::UnsupportedMode));
    assert_eq!(p.cpu.pc, 0x1000);
    // clearing the decimal flag lets the same instruction run
    p.cpu.d = false;
    assert_eq!(p.step(), Ok(2));
    assert_eq!(p.cpu.acc, 1);
}

#[test]
fn brk_vectors_and_stacks() {
    let mut p = machine_with_vectors(0x1000, 0x3000);
    p.cpu.pc = 0x2000;
    p.cpu.sp = 0xFF;
    p.poke(0x2000, 0x00);
    p.step().unwrap();
    assert_eq!(p.cpu.pc, 0x3000);
    assert_eq!(p.cpu.sp, 0xFC);
    assert_eq!(p.peek(0x01FF), 0x20);
    assert_eq!(p.peek(0x01FE), 0x02);
    // pushed status byte has B (bit 4) set
    assert_ne!(p.peek(0x01FD) & 0x10, 0);
    assert!(p.cpu.i);
}

#[test]
fn jsr_rts_roundtrip() {
    let mut p = machine_with_vectors(0x1000, 0x3000);
    p.cpu.pc = 0x1000;
    p.cpu.sp = 0xFF;
    p.poke(0x1000, 0x20);
    p.poke(0x1001, 0x00);
    p.poke(0x1002, 0x20);
    p.poke(0x2000, 0x60);
    assert_eq!(p.step(), Ok(6));
    assert_eq!(p.cpu.pc, 0x2000);
    assert_eq!(p.cpu.sp, 0xFD);
    assert_eq!(p.step(), Ok(6));
    assert_eq!(p.cpu.pc, 0x1003);
    assert_eq!(p.cpu.sp, 0xFF);
}

#[test]
fn pha_pla_and_php_plp_roundtrip() {
    let mut p = machine_with_vectors(0x1000, 0x3000);
    p.cpu.pc = 0x1000;
    p.cpu.acc = 0x5A;
    // PHA; LDA #$00; PLA
    p.poke(0x1000, 0x48);
    p.poke(0x1001, 0xA9);
    p.poke(0x1002, 0x00);
    p.poke(0x1003, 0x68);
    p.step().unwrap();
    p.step().unwrap();
    assert_eq!(p.cpu.acc, 0x00);
    p.step().unwrap();
    assert_eq!(p.cpu.acc, 0x5A);
    assert!(!p.cpu.z);
    assert!(!p.cpu.n);

    // SEC; PHP; CLC; PLP restores the carry
    p.cpu.pc = 0x1100;
    p.poke(0x1100, 0x38);
    p.poke(0x1101, 0x08);
    p.poke(0x1102, 0x18);
    p.poke(0x1103, 0x28);
    for _ in 0..4 {
        p.step().unwrap();
    }
    assert!(p.cpu.c);
}

#[test]
fn bne_minus_two_loops_on_itself() {
    let mut p = machine_with_vectors(0x1000, 0x3000);
    p.cpu.pc = 0x1000;
    p.poke(0x1000, 0xD0);
    p.poke(0x1001, 0xFE);
    p.cpu.z = false;
    assert_eq!(p.step(), Ok(3));
    assert_eq!(p.cpu.pc, 0x1000);
    p.cpu.z = true;
    assert_eq!(p.step(), Ok(2));
    assert_eq!(p.cpu.pc, 0x1002);
}

#[test]
fn adc_signed_overflow_through_interpreter() {
    let mut p = machine_with_vectors(0x1000, 0x3000);
    p.cpu.pc = 0x1000;
    // CLC; LDA #$7F; ADC #$01
    p.poke(0x1000, 0x18);
    p.poke(0x1001, 0xA9);
    p.poke(0x1002, 0x7F);
    p.poke(0x1003, 0x69);
    p.poke(0x1004, 0x01);
    for _ in 0..3 {
        p.step().unwrap();
    }
    assert_eq!(p.cpu.acc, 0x80);
    assert!(p.cpu.v);
    assert!(p.cpu.n);
    assert!(!p.cpu.c);
    assert!(!p.cpu.z);
}

#[test]
fn decimal_sbc_through_interpreter() {
    let mut p = machine_with_vectors(0x1000, 0x3000);
    p.cpu.pc = 0x1000;
    // SED; SEC; LDA #$46; SBC #$12; CLD
    p.poke(0x1000, 0xF8);
    p.poke(0x1001, 0x38);
    p.poke(0x1002, 0xA9);
    p.poke(0x1003, 0x46);
    p.poke(0x1004, 0xE9);
    p.poke(0x1005, 0x12);
    p.poke(0x1006, 0xD8);
    for _ in 0..5 {
        p.step().unwrap();
    }
    assert_eq!(p.cpu.acc, 0x34);
    assert!(p.cpu.c);
    assert!(!p.cpu.d);
}

#[test]
fn rmw_shift_writes_back_through_bus() {
    let mut p = machine_with_vectors(0x1000, 0x3000);
    p.cpu.pc = 0x1000;
    // ASL $40 with $40 holding $81
    p.poke(0x0040, 0x81);
    p.poke(0x1000, 0x06);
    p.poke(0x1001, 0x40);
    assert_eq!(p.step(), Ok(5));
    assert_eq!(p.peek(0x0040), 0x02);
    assert!(p.cpu.c);
    assert!(!p.cpu.n);
}

#[test]
fn indexed_and_indirect_addressing() {
    let mut p = machine_with_vectors(0x1000, 0x3000);
    p.cpu.pc = 0x1000;
    p.cpu.xr = 0x04;
    p.cpu.yr = 0x10;
    // LDA $2000,X
    p.poke(0x2004, 0x77);
    p.poke(0x1000, 0xBD);
    p.poke(0x1001, 0x00);
    p.poke(0x1002, 0x20);
    p.step().unwrap();
    assert_eq!(p.cpu.acc, 0x77);
    // STA ($20),Y with pointer $3000
    p.poke(0x0020, 0x00);
    p.poke(0x0021, 0x30);
    p.poke(0x1003, 0x91);
    p.poke(0x1004, 0x20);
    p.step().unwrap();
    assert_eq!(p.peek(0x3010), 0x77);
    // zero-page,X wraps inside the zero page
    p.cpu.xr = 0xFF;
    p.poke(0x0041, 0x99);
    p.poke(0x1005, 0xB5);
    p.poke(0x1006, 0x42);
    p.step().unwrap();
    assert_eq!(p.cpu.acc, 0x99);
}

#[test]
fn stack_pointer_wraps_within_its_page() {
    let mut p = machine_with_vectors(0x1000, 0x3000);
    p.cpu.pc = 0x1000;
    p.cpu.sp = 0x00;
    p.cpu.acc = 0x7E;
    p.poke(0x1000, 0x48);
    p.poke(0x1001, 0x48);
    p.step().unwrap();
    p.step().unwrap();
    assert_eq!(p.peek(0x0100), 0x7E);
    assert_eq!(p.peek(0x01FF), 0x7E);
    assert_eq!(p.cpu.sp, 0xFE);
}
