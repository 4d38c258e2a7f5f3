//! Bus, banking and keyboard-bridge behaviour of the machine.

use plus4::Plus4;

fn machine_with_roms(rom_patch: &[(usize, u8)], sec_patch: &[(usize, u8)]) -> Plus4 {
    let mut rom = vec![0u8; 0x8000];
    for &(i, v) in rom_patch {
        rom[i] = v;
    }
    let mut sec = vec![0u8; 0x8000];
    for &(i, v) in sec_patch {
        sec[i] = v;
    }
    let mut p = Plus4::new();
    p.load_rom(&rom, &sec);
    p
}

#[test]
fn rom_switch_reflects_in_reads() {
    // For both switch addresses and both prior states, a peek of a
    // ROM-covered address follows the switch.
    let mut p = machine_with_roms(&[(0x0000, 0x11)], &[]);
    for _round in 0..2 {
        p.poke(0xFF3F, 0);
        assert!(!p.rom_enabled());
        p.poke(0x8000, 0x77);
        assert_eq!(p.peek(0x8000), 0x77);
        p.poke(0xFF3E, 0);
        assert!(p.rom_enabled());
        assert_eq!(p.peek(0x8000), 0x11);
    }
}

#[test]
fn bank_selector_follows_low_nibble() {
    let mut p = machine_with_roms(&[], &[]);
    for a in 0xFDD0u16..=0xFDDF {
        p.poke(a, 0xAB);
        assert_eq!(p.bank_config(), (a & 0xF) as u8);
    }
}

#[test]
fn io_window_writes_are_readable() {
    let mut p = machine_with_roms(&[], &[]);
    for a in 0xFD00u16..=0xFDFF {
        p.poke(a, 0x5C);
        assert_eq!(p.peek(a), 0x5C);
    }
    for a in 0xFF00u16..=0xFF3F {
        if a == 0xFF08 || a == 0xFF09 {
            continue;
        }
        p.poke(a, 0x5C);
        assert_eq!(p.peek(a), 0x5C);
    }
}

#[test]
fn matrix_result_is_derived_not_stored() {
    let mut p = machine_with_roms(&[], &[]);
    p.poke(0xFD30, 0xFF);
    p.poke(0xFF08, 0x55);
    // no key held and no row selected: the response byte, not 0x55
    assert_eq!(p.peek(0xFF08), 0xFF);
}

#[test]
fn irr_write_acknowledges() {
    let mut p = machine_with_roms(&[], &[]);
    // raise the first timer's request: one two-cycle step overflows a
    // timer holding one cycle
    for i in 0..4u16 {
        p.poke(0x4000 + i, 0xEA);
    }
    p.cpu.pc = 0x4000;
    p.poke(0xFF00, 1);
    p.poke(0xFF01, 0);
    p.step().unwrap();
    assert_eq!(p.peek(0xFF09), 0x88);
    // acknowledging one bit leaves the others pending
    p.poke(0xFF09, 0x08);
    assert_eq!(p.peek(0xFF09), 0x80);
    // the write never stores its value
    p.poke(0xFF09, 0x55);
    assert_eq!(p.peek(0xFF09), 0x80);
    p.poke(0xFF09, 0x80);
    assert_eq!(p.peek(0xFF09), 0x00);
}

#[test]
fn keyboard_space_row_read() {
    let mut p = machine_with_roms(&[], &[]);
    let mut matrix = [[false; 8]; 8];
    matrix[7][4] = true;
    p.update_keyboard(matrix);
    p.poke(0xFD30, 0x7F);
    assert_eq!(p.peek(0xFF08), 0xEF);
}

#[test]
fn keyboard_no_row_selected_reads_released() {
    let mut p = machine_with_roms(&[], &[]);
    let mut matrix = [[false; 8]; 8];
    matrix[0][0] = true;
    p.update_keyboard(matrix);
    p.poke(0xFD30, 0xFF);
    assert_eq!(p.peek(0xFF08), 0xFF);
}

#[test]
fn banking_secondary_rom_then_ram() {
    let mut p = machine_with_roms(&[(0, 0x11)], &[(0, 0x42)]);
    p.poke(0x8000, 0x99);
    p.poke(0xFDD1, 0);
    assert_eq!(p.peek(0x8000), 0x42);
    p.poke(0xFF3F, 0);
    assert_eq!(p.peek(0x8000), 0x99);
    // selectors above one read as open bus
    p.poke(0xFF3E, 0);
    p.poke(0xFDD2, 0);
    assert_eq!(p.peek(0x8000), 0x00);
}

#[test]
fn unbanked_system_area_and_io_never_show_rom() {
    let mut p = machine_with_roms(&[(0x7C12, 0x33)], &[]);
    // 0xFC00..=0xFCFF is always system ROM while ROM is on
    assert_eq!(p.peek(0xFC12), 0x33);
    // the I/O windows read RAM even with ROM on
    p.poke(0xFD47, 0x21);
    assert_eq!(p.peek(0xFD47), 0x21);
}

#[test]
fn hard_reset_loads_reset_vector() {
    let mut p = machine_with_roms(&[(0x7FFC, 0x34), (0x7FFD, 0x12)], &[]);
    p.poke(0xFF3F, 0);
    p.poke(0xFDD3, 0);
    p.hard_reset();
    assert_eq!(p.cpu.pc, 0x1234);
    assert_eq!(p.cpu.sp, 0xFF);
    assert!(p.cpu.i);
    assert!(!p.cpu.d);
    assert!(p.rom_enabled());
    assert_eq!(p.bank_config(), 0);
    assert_eq!(p.peek(0xFF04), 4);
}

#[test]
fn load_prg_writes_body() {
    let mut p = machine_with_roms(&[], &[]);
    p.load_prg(0x1001, &[0x0B, 0x10, 0x0A, 0x00]);
    assert_eq!(p.peek(0x1001), 0x0B);
    assert_eq!(p.peek(0x1002), 0x10);
    assert_eq!(p.peek(0x1003), 0x0A);
    assert_eq!(p.peek(0x1004), 0x00);
    assert_eq!(p.peek(0x1005), 0x00);
}

#[test]
fn frame_buffer_dimensions() {
    let p = Plus4::new();
    assert_eq!(p.frame().len(), 320 * 200);
    assert!(p.frame().iter().all(|&px| px == 0));
}

#[test]
fn load_prg_reaches_top_of_memory() {
    let mut p = machine_with_roms(&[], &[]);
    p.load_prg(0xFFFE, &[0x11, 0x22]);
    // the body went to RAM, which shows once ROM is switched off
    p.poke(0xFF3F, 0);
    assert_eq!(p.peek(0xFFFE), 0x11);
    assert_eq!(p.peek(0xFFFF), 0x22);
}
