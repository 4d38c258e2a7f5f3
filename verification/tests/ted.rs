//! TED scheduler behaviour: clock accounting, timers, raster interrupts
//! and the text renderer.

use plus4::Plus4;

fn machine_with_vectors(reset: u16, irq: u16) -> Plus4 {
    let mut rom = vec![0u8; 0x8000];
    rom[0x7FFC] = (reset & 0xFF) as u8;
    rom[0x7FFD] = (reset >> 8) as u8;
    rom[0x7FFE] = (irq & 0xFF) as u8;
    rom[0x7FFF] = (irq >> 8) as u8;
    let sec = vec![0u8; 0x8000];
    let mut p = Plus4::new();
    p.load_rom(&rom, &sec);
    p
}

fn fill_nops(p: &mut Plus4, base: u16, count: u16) {
    for i in 0..count {
        p.poke(base + i, 0xEA);
    }
    p.cpu.pc = base;
}

#[test]
fn nop_run_advances_clock_two_per_step() {
    let mut p = machine_with_vectors(0x4000, 0x3000);
    fill_nops(&mut p, 0x4000, 32);
    assert_eq!(p.clock_counter(), 0);
    for n in 1..=10u32 {
        assert_eq!(p.step(), Ok(2));
        assert_eq!(p.clock_counter(), 2 * n);
    }
}

#[test]
fn double_clock_mode_doubles_the_counter() {
    let mut p = machine_with_vectors(0x4000, 0x3000);
    fill_nops(&mut p, 0x4000, 8);
    p.poke(0xFF06, 0x10);
    p.step().unwrap();
    assert_eq!(p.clock_counter(), 4);
}

#[test]
fn raster_line_advances_every_114_cycles() {
    let mut p = machine_with_vectors(0x4000, 0x3000);
    fill_nops(&mut p, 0x4000, 120);
    assert_eq!(p.raster_line(), 0);
    // 57 NOPs reach the 114-cycle budget exactly
    for _ in 0..57 {
        p.step().unwrap();
    }
    assert_eq!(p.raster_line(), 1);
    assert_eq!(p.clock_counter(), 0);
}

#[test]
fn timer_counts_down_without_interrupt() {
    let mut p = machine_with_vectors(0x4000, 0x3000);
    fill_nops(&mut p, 0x4000, 16);
    p.poke(0xFF00, 100);
    p.poke(0xFF01, 0);
    for _ in 0..10 {
        p.step().unwrap();
    }
    // 20 of the 100 cycles elapsed, no request raised
    assert_eq!(p.peek(0xFF00), 80);
    assert_eq!(p.peek(0xFF01), 0);
    assert_eq!(p.peek(0xFF09), 0);
}

#[test]
fn timer_overflow_raises_request_and_services() {
    let mut p = machine_with_vectors(0x4000, 0x3000);
    fill_nops(&mut p, 0x4000, 64);
    p.cpu.sp = 0xFF;
    p.cpu.i = false;
    p.poke(0xFF0A, 0x08);
    p.poke(0xFF00, 30);
    p.poke(0xFF01, 0);
    let mut fired = false;
    for _ in 0..40 {
        p.step().unwrap();
        if p.peek(0xFF09) & 0x88 == 0x88 {
            fired = true;
            break;
        }
    }
    assert!(fired);
    // the interrupt pushed three bytes and vectored through the ROM
    assert_eq!(p.cpu.sp, 0xFC);
    assert_eq!(p.cpu.pc, 0x3000);
    assert!(p.cpu.i);
}

#[test]
fn disabled_timer_holds_its_value() {
    let mut p = machine_with_vectors(0x4000, 0x3000);
    fill_nops(&mut p, 0x4000, 16);
    p.poke(0xFF01, 0);
    p.poke(0xFF00, 50);  // the low-byte write disables the timer again
    for _ in 0..10 {
        p.step().unwrap();
    }
    assert_eq!(p.peek(0xFF00), 50);
    assert_eq!(p.peek(0xFF09), 0);
}

#[test]
fn raster_interrupt_fires_once_per_frame() {
    let mut p = machine_with_vectors(0x1000, 0x3000);
    // guest: CLI, then an idle loop
    p.poke(0x1000, 0x58);
    p.poke(0x1001, 0x4C);
    p.poke(0x1002, 0x01);
    p.poke(0x1003, 0x10);
    // handler: INC $0400; RTI
    p.poke(0x3000, 0xEE);
    p.poke(0x3001, 0x00);
    p.poke(0x3002, 0x04);
    p.poke(0x3003, 0x40);
    // raster compare 100, raster interrupt enabled
    p.poke(0xFF0B, 100);
    p.poke(0xFF0A, 0x02);
    p.hard_reset();
    assert_eq!(p.cpu.pc, 0x1000);
    // run one whole frame of 312 raster lines
    let mut left_zero = false;
    loop {
        p.step().unwrap();
        if p.raster_line() != 0 {
            left_zero = true;
        }
        if left_zero && p.raster_line() == 0 {
            break;
        }
    }
    assert_eq!(p.peek(0x0400), 1);
    // a second frame services the interrupt exactly once more
    let mut left_zero = false;
    loop {
        p.step().unwrap();
        if p.raster_line() != 0 {
            left_zero = true;
        }
        if left_zero && p.raster_line() == 0 {
            break;
        }
    }
    assert_eq!(p.peek(0x0400), 2);
}

#[test]
fn text_renderer_draws_glyph_and_background() {
    let mut p = machine_with_vectors(0x4000, 0x3000);
    fill_nops(&mut p, 0x4000, 512);
    // video matrix at 0x0800, charset in RAM at 0x2000, background 0x66
    p.poke(0xFF14, 0x08);
    p.poke(0xFF13, 0x20);
    p.poke(0xFF12, 0x00);
    p.poke(0xFF07, 0x00);
    p.poke(0xFF15, 0x66);
    // keep the cursor away from the cells under test
    p.poke(0xFF0C, 0x03);
    p.poke(0xFF0D, 0xE7);
    // cell 0 shows character 1 in colour 5; its bitmap row 0 is 0xF0
    p.poke(0x0C00, 0x01);
    p.poke(0x0800, 0x05);
    p.poke(0x2008, 0xF0);
    // run until the first visible line has been rendered
    while p.raster_line() < 4 {
        p.step().unwrap();
    }
    let frame = p.frame();
    assert_eq!(&frame[0..8], &[0x05, 0x05, 0x05, 0x05, 0x66, 0x66, 0x66, 0x66]);
    // the neighbouring cell holds character 0 with an empty bitmap
    assert_eq!(&frame[8..12], &[0x66, 0x66, 0x66, 0x66]);
}

#[test]
fn inverted_character_codes_flip_the_bitmap() {
    let mut p = machine_with_vectors(0x4000, 0x3000);
    fill_nops(&mut p, 0x4000, 512);
    p.poke(0xFF14, 0x08);
    p.poke(0xFF13, 0x20);
    p.poke(0xFF12, 0x00);
    p.poke(0xFF07, 0x00);
    p.poke(0xFF15, 0x66);
    p.poke(0xFF0C, 0x03);
    p.poke(0xFF0D, 0xE7);
    // code 0x81 in 128-character mode: inverted bitmap of code 1
    p.poke(0x0C00, 0x81);
    p.poke(0x0800, 0x05);
    p.poke(0x2008, 0xF0);
    while p.raster_line() < 4 {
        p.step().unwrap();
    }
    let frame = p.frame();
    assert_eq!(&frame[0..8], &[0x66, 0x66, 0x66, 0x66, 0x05, 0x05, 0x05, 0x05]);
}
