//! The Plus/4 machine: 64 KiB RAM, two 32 KiB ROM images with banking, the
//! memory bus with its I/O side effects, the stack, and the keyboard matrix
//! bridge.
//!
//! Every contract is stated over [`MachineView`], the mathematical model of
//! the whole machine: byte sequences for the memories, the register file,
//! and the timing state.  The bus is modelled by [`spec_read`] and
//! [`spec_poke`], which the public `peek` and `poke` are proved to
//! implement exactly.

use vstd::prelude::*;
use vstd::array::ArrayAdditionalExecFns;
use crate::cpu_state::{CpuState, flags_to_byte, flags_from_byte};
use crate::EmuError;
use crate::interp::{ea_zp, ea_zp_x, ea_zp_y, ea_abs, ea_abs_x, ea_abs_y, ea_ind_x, ea_ind_y,
    is_adc_op, is_documented, is_load_op, is_store_op, is_implied_op, is_logic_op,
    is_compare_op, is_arith_op, is_rmw_op, is_flow_op, spec_nop, spec_instruction};


verus! {

pub const CLOCK_FREQUENCY: u32 = 885000;

pub const RASTER_LINES: u32 = 312;

pub const TICKS_PER_RASTER_LINE: u32 = 114;

pub const TICKS_PER_BLINK_INTERVAL: u32 = CLOCK_FREQUENCY / 8;

pub const SCREEN_WIDTH: usize = 320;

pub const SCREEN_HEIGHT: usize = 200;

pub const FIRST_SCREEN_LINE: usize = 3;

/// The mathematical model of the machine: every contract in this crate is a
/// statement about values of this type.
#[verifier::ext_equal]
pub struct MachineView {
    /// The 65 536 bytes of writable storage.
    pub mem: Seq<u8>,
    /// The system ROM image (KERNAL, BASIC, character generator).
    pub rom: Seq<u8>,
    /// The secondary (function/cartridge) ROM image.
    pub sec: Seq<u8>,
    /// Whether ROM is visible in the upper half of the address space.
    pub rom_on: bool,
    /// The 4-bit bank selector chosen by a write to 0xFDD0..=0xFDDF.
    pub cfg: u8,
    /// Whether `load_rom` has installed images yet.
    pub roms_loaded: bool,
    /// The CPU register file.
    pub cpu: CpuState,
    /// Cycles consumed by the last instruction.
    pub ticks: u32,
    /// Cycles accumulated toward the current raster line.
    pub counter: u32,
    /// Cycles accumulated toward the next cursor-blink toggle.
    pub flash_count: u32,
    /// The cursor-blink phase.
    pub flash_on: bool,
    /// The current raster line, always below 312.
    pub raster: u32,
    /// The three timer enables.
    pub t_on: Seq<bool>,
    /// The three timer overflow edges of the last step.
    pub t_ovf: Seq<bool>,
    /// The 320x200 frame buffer of 7-bit colour indices, row-major.
    pub pixels: Seq<u8>,
    /// The host-scanned 8x8 key matrix; `keys[row][column]` is a held key.
    pub keys: [[bool; 8]; 8],
}

/// The fixed sizes of the model's memories.
pub open spec fn sizes_wf(m: MachineView) -> bool {
    &&& m.mem.len() == 0x10000
    &&& m.rom.len() == 0x8000
    &&& m.sec.len() == 0x8000
    &&& m.pixels.len() == 64000
    &&& m.t_on.len() == 3
    &&& m.t_ovf.len() == 3
}

/// Well-formedness of the model: the memories have their fixed sizes and
/// the timing counters sit below their wrap points.
pub open spec fn view_wf(m: MachineView) -> bool {
    &&& sizes_wf(m)
    &&& m.raster < RASTER_LINES
    &&& m.counter < TICKS_PER_RASTER_LINE
    &&& m.flash_count < TICKS_PER_BLINK_INTERVAL
}

/// The 16-bit value with low byte `lo` and high byte `hi`.
pub open spec fn word16(lo: u8, hi: u8) -> u16 {
    (lo + 256 * hi) as u16
}

/// The read path of the bus.  The I/O windows always read the stored RAM
/// byte; below 0x8000, or with ROM switched off, RAM is read; otherwise the
/// bank selector picks the system ROM, the secondary ROM, or an open bus
/// that reads as zero, with 0xFC00..=0xFCFF always served by the system
/// ROM.
pub open spec fn spec_read(m: MachineView, addr: u16) -> u8 {
    if (0xFD00 <= addr && addr <= 0xFDFF) || (0xFF00 <= addr && addr <= 0xFF3F) {
        m.mem[addr as int]
    } else if addr < 0x8000 || !m.rom_on {
        m.mem[addr as int]
    } else if addr < 0xC000 {
        if m.cfg & 3 == 0 {
            m.rom[addr - 0x8000]
        } else if m.cfg & 3 == 1 {
            m.sec[addr - 0x8000]
        } else {
            0
        }
    } else if 0xFC00 <= addr && addr < 0xFD00 {
        m.rom[addr - 0x8000]
    } else {
        if (m.cfg >> 2) & 3 == 0 {
            m.rom[addr - 0x8000]
        } else if (m.cfg >> 2) & 3 == 1 {
            m.sec[addr - 0x8000]
        } else {
            0
        }
    }
}

/// The bits of one matrix row, one bit per held column.
pub open spec fn key_col_or(keys: [[bool; 8]; 8], row: int, n: int) -> u8
    decreases n,
{
    if n <= 0 {
        0u8
    } else {
        key_col_or(keys, row, n - 1) | (if keys[row][n - 1] {
            1u8 << (n - 1)
        } else {
            0u8
        })
    }
}

/// The bits of all held keys over the rows selected in `inv` (a set bit in
/// `inv` selects the row).
pub open spec fn key_rows_or(keys: [[bool; 8]; 8], inv: u8, n: int) -> u8
    decreases n,
{
    if n <= 0 {
        0u8
    } else {
        key_rows_or(keys, inv, n - 1) | (if inv & (1u8 << (n - 1)) != 0 {
            key_col_or(keys, n - 1, 8)
        } else {
            0u8
        })
    }
}

/// The matrix response byte: rows are selected by zero bits of the latch
/// (active low), the held keys of the selected rows are gathered, and the
/// complement is returned, so that a released matrix reads 0xFF.
pub open spec fn key_response(keys: [[bool; 8]; 8], latch: u8) -> u8 {
    !key_rows_or(keys, !latch, 8)
}

/// The write path of the bus.  0xFF3E/0xFF3F switch ROM visibility,
/// 0xFDD0..=0xFDDF pick the bank selector, every address but 0xFF08 and
/// 0xFF09 stores the byte, a write to either matrix latch refreshes the
/// derived response at 0xFF08, and 0xFF00..=0xFF05 toggle the timer
/// enables.  A write to the interrupt request register at 0xFF09
/// acknowledges: exactly the pending bits set in the written value are
/// cleared, the others stay pending.
pub open spec fn spec_poke(m: MachineView, addr: u16, v: u8) -> MachineView {
    let rom_on = if addr == 0xFF3E {
        true
    } else if addr == 0xFF3F {
        false
    } else {
        m.rom_on
    };
    let cfg = if 0xFDD0 <= addr && addr <= 0xFDDF {
        (addr % 16) as u8
    } else {
        m.cfg
    };
    let mem1 = if addr != 0xFF08 && addr != 0xFF09 {
        m.mem.update(addr as int, v)
    } else {
        m.mem
    };
    let mem2 = if addr == 0xFD30 || addr == 0xFF08 {
        mem1.update(0xFF08, key_response(m.keys, mem1[0xFD30]))
    } else {
        mem1
    };
    let t_on = if addr == 0xFF00 {
        m.t_on.update(0, false)
    } else if addr == 0xFF01 {
        m.t_on.update(0, true)
    } else if addr == 0xFF02 {
        m.t_on.update(1, false)
    } else if addr == 0xFF03 {
        m.t_on.update(1, true)
    } else if addr == 0xFF04 {
        m.t_on.update(2, false)
    } else if addr == 0xFF05 {
        m.t_on.update(2, true)
    } else {
        m.t_on
    };
    let mem3 = if addr == 0xFF09 {
        mem2.update(0xFF09, mem2[0xFF09] & !v)
    } else {
        mem2
    };
    MachineView { mem: mem3, rom_on, cfg, t_on, ..m }
}

/// The Plus/4 machine state: single owner of RAM, ROM images, registers,
/// timing and the frame buffer.
pub struct Plus4 {
    pub(crate) ram: Vec<u8>,
    pub(crate) rom: Vec<u8>,
    pub(crate) rom3plus1: Vec<u8>,
    pub(crate) rom_active: bool,
    pub(crate) rom_config: u8,
    pub(crate) roms_loaded: bool,
    pub cpu: CpuState,
    pub clock_ticks: u32,
    pub(crate) clock_counter: u32,
    pub(crate) flash_counter: u32,
    pub(crate) raster_line: u32,
    pub(crate) flash_on: bool,
    pub(crate) timer_on: [bool; 3],
    pub(crate) timer_overflow: [bool; 3],
    pub(crate) pixels: Vec<u8>,
    pub(crate) keyboard_matrix: [[bool; 8]; 8],
}

impl View for Plus4 {
    type V = MachineView;

    closed spec fn view(&self) -> MachineView {
        MachineView {
            mem: self.ram@,
            rom: self.rom@,
            sec: self.rom3plus1@,
            rom_on: self.rom_active,
            cfg: self.rom_config,
            roms_loaded: self.roms_loaded,
            cpu: self.cpu,
            ticks: self.clock_ticks,
            counter: self.clock_counter,
            flash_count: self.flash_counter,
            flash_on: self.flash_on,
            raster: self.raster_line,
            t_on: self.timer_on@,
            t_ovf: self.timer_overflow@,
            pixels: self.pixels@,
            keys: self.keyboard_matrix,
        }
    }
}

impl Plus4 {
    /// Well-formedness of the machine.
    pub open spec fn wf(&self) -> bool {
        view_wf(self@)
    }

    /// A machine with zeroed memory, blank ROM sockets, ROM visibility on
    /// and a power-on register file.
    pub fn new() -> (p: Plus4)
        ensures
            p.wf(),
            p@.mem.len() == 0x10000 && (forall|i: int| 0 <= i < 0x10000 ==> p@.mem[i] == 0),
            p@.rom.len() == 0x8000 && (forall|i: int| 0 <= i < 0x8000 ==> p@.rom[i] == 0),
            p@.sec.len() == 0x8000 && (forall|i: int| 0 <= i < 0x8000 ==> p@.sec[i] == 0),
            p@.pixels.len() == 64000 && (forall|i: int| 0 <= i < 64000 ==> p@.pixels[i] == 0),
            p@.rom_on && p@.cfg == 0 && !p@.roms_loaded,
            p@.cpu == crate::cpu_state::power_on_cpu(),
            p@.ticks == 0 && p@.counter == 0 && p@.flash_count == 0 && !p@.flash_on,
            p@.raster == 0,
            forall|i: int| 0 <= i < 3 ==> !p@.t_on[i] && !p@.t_ovf[i],
            forall|r: int, c: int| 0 <= r < 8 && 0 <= c < 8 ==> !p@.keys[r][c],
    {
        Plus4 {
            ram: vec![0u8; 0x10000],
            rom: vec![0u8; 0x8000],
            rom3plus1: vec![0u8; 0x8000],
            rom_active: true,
            rom_config: 0,
            roms_loaded: false,
            cpu: CpuState::new(),
            clock_ticks: 0,
            clock_counter: 0,
            flash_counter: 0,
            raster_line: 0,
            flash_on: false,
            timer_on: [false; 3],
            timer_overflow: [false; 3],
            pixels: vec![0u8; 64000],
            keyboard_matrix: [[false; 8]; 8],
        }
    }

    /// Install the system and secondary ROM images.
    pub fn load_rom(&mut self, rom_data: &[u8], rom3plus1_data: &[u8])
        requires
            old(self).wf(),
            rom_data@.len() == 0x8000,
            rom3plus1_data@.len() == 0x8000,
        ensures
            final(self).wf(),
            final(self)@ == (MachineView {
                rom: rom_data@,
                sec: rom3plus1_data@,
                roms_loaded: true,
                ..old(self)@
            }),
    {
        self.rom = vstd::slice::slice_to_vec(rom_data);
        self.rom3plus1 = vstd::slice::slice_to_vec(rom3plus1_data);
        self.roms_loaded = true;
    }

    /// Read one byte through the bus.
    pub fn peek(&self, addr: u16) -> (r: u8)
        requires
            sizes_wf(self@),
        ensures
            r == spec_read(self@, addr),
    {
        if (addr >= 0xFD00 && addr <= 0xFDFF) || (addr >= 0xFF00 && addr <= 0xFF3F) {
            return self.ram[addr as usize];
        }
        if addr < 0x8000 || !self.rom_active {
            return self.ram[addr as usize];
        }
        if addr < 0xC000 {
            return match self.rom_config & 3 {
                0 => self.rom[(addr - 0x8000) as usize],
                1 => self.rom3plus1[(addr - 0x8000) as usize],
                _ => 0,
            };
        }
        if addr >= 0xFC00 && addr < 0xFD00 {
            return self.rom[(addr - 0x8000) as usize];
        }
        match (self.rom_config >> 2) & 3 {
            0 => self.rom[(addr - 0x8000) as usize],
            1 => self.rom3plus1[(addr - 0x8000) as usize],
            _ => 0,
        }
    }

    /// Recompute the derived matrix response at 0xFF08 from the latch at
    /// 0xFD30 and the host key matrix.
    fn p4_keyboard(&mut self)
        requires
            sizes_wf(old(self)@),
        ensures
            sizes_wf(final(self)@),
            old(self).wf() ==> final(self).wf(),
            final(self)@ == (MachineView {
                mem: old(self)@.mem.update(
                    0xFF08,
                    key_response(old(self)@.keys, old(self)@.mem[0xFD30]),
                ),
                ..old(self)@
            }),
    {
        let latch: u8 = self.ram[0xFD30];
        let inv: u8 = !latch;
        let mut result: u8 = 0;
        let mut row: usize = 0;
        while row < 8
            invariant
                sizes_wf(self@),
                row <= 8,
                result == key_rows_or(self@.keys, inv, row as int),
            decreases 8 - row,
        {
            let selected: u8 = if inv & (1u8 << row) != 0 {
                let mut rbyte: u8 = 0;
                let mut col: usize = 0;
                while col < 8
                    invariant
                        sizes_wf(self@),
                        col <= 8,
                        row < 8,
                        rbyte == key_col_or(self@.keys, row as int, col as int),
                    decreases 8 - col,
                {
                    let bit: u8 = if self.keyboard_matrix[row][col] {
                        1u8 << col
                    } else {
                        0u8
                    };
                    rbyte = rbyte | bit;
                    col = col + 1;
                }
                rbyte
            } else {
                0u8
            };
            result = result | selected;
            row = row + 1;
        }
        self.ram[0xFF08] = !result;
    }

    /// Write one byte through the bus, with all I/O side effects.
    pub fn poke(&mut self, addr: u16, value: u8)
        requires
            sizes_wf(old(self)@),
        ensures
            sizes_wf(final(self)@),
            old(self).wf() ==> final(self).wf(),
            final(self)@ == spec_poke(old(self)@, addr, value),
    {
        if addr == 0xFF3E {
            self.rom_active = true;
        } else if addr == 0xFF3F {
            self.rom_active = false;
        } else if addr >= 0xFDD0 && addr <= 0xFDDF {
            self.rom_config = (addr % 16) as u8;
        }
        if addr != 0xFF08 && addr != 0xFF09 {
            self.ram[addr as usize] = value;
        }
        if addr == 0xFD30 || addr == 0xFF08 {
            self.p4_keyboard();
        }
        if addr == 0xFF00 {
            self.timer_on.set(0, false);
        } else if addr == 0xFF01 {
            self.timer_on.set(0, true);
        } else if addr == 0xFF02 {
            self.timer_on.set(1, false);
        } else if addr == 0xFF03 {
            self.timer_on.set(1, true);
        } else if addr == 0xFF04 {
            self.timer_on.set(2, false);
        } else if addr == 0xFF05 {
            self.timer_on.set(2, true);
        } else if addr == 0xFF09 {
            let cur: u8 = self.ram[0xFF09];
            self.ram[0xFF09] = cur & !value;
        }
        assert(final(self)@ =~= spec_poke(old(self)@, addr, value));
    }

    /// Push one byte onto the stack page and decrement the stack pointer.
    pub(crate) fn push(&mut self, value: u8)
        requires
            sizes_wf(old(self)@),
        ensures
            sizes_wf(final(self)@),
            old(self).wf() ==> final(self).wf(),
            final(self)@ == (MachineView {
                mem: old(self)@.mem.update(0x100 + old(self)@.cpu.sp, value),
                cpu: (CpuState { sp: old(self)@.cpu.sp.wrapping_sub(1), ..old(self)@.cpu }),
                ..old(self)@
            }),
    {
        self.ram[0x100 + self.cpu.sp as usize] = value;
        self.cpu.decr_sp();
    }

    /// Increment the stack pointer and pull one byte from the stack page.
    pub(crate) fn pull(&mut self) -> (r: u8)
        requires
            sizes_wf(old(self)@),
        ensures
            sizes_wf(final(self)@),
            old(self).wf() ==> final(self).wf(),
            r == old(self)@.mem[0x100 + old(self)@.cpu.sp.wrapping_add(1)],
            final(self)@ == (MachineView {
                cpu: (CpuState { sp: old(self)@.cpu.sp.wrapping_add(1), ..old(self)@.cpu }),
                ..old(self)@
            }),
    {
        self.cpu.incr_sp();
        self.ram[0x100 + self.cpu.sp as usize]
    }

    /// Push a 16-bit word, high byte first, so that the low byte sits at
    /// the lower stack address.
    pub(crate) fn push_word(&mut self, word: u16)
        requires
            sizes_wf(old(self)@),
        ensures
            sizes_wf(final(self)@),
            old(self).wf() ==> final(self).wf(),
            final(self)@ == (MachineView {
                mem: old(self)@.mem.update(0x100 + old(self)@.cpu.sp, (word / 256) as u8).update(
                    0x100 + old(self)@.cpu.sp.wrapping_sub(1),
                    (word % 256) as u8,
                ),
                cpu: (CpuState { sp: old(self)@.cpu.sp.wrapping_sub(2), ..old(self)@.cpu }),
                ..old(self)@
            }),
    {
        self.ram[0x100 + self.cpu.sp as usize] = (word / 256) as u8;
        self.cpu.decr_sp();
        self.ram[0x100 + self.cpu.sp as usize] = (word % 256) as u8;
        self.cpu.decr_sp();
    }

    /// Pull a 16-bit word, low byte first.
    pub(crate) fn pull_word(&mut self) -> (r: u16)
        requires
            sizes_wf(old(self)@),
        ensures
            sizes_wf(final(self)@),
            old(self).wf() ==> final(self).wf(),
            r == word16(
                old(self)@.mem[0x100 + old(self)@.cpu.sp.wrapping_add(1)],
                old(self)@.mem[0x100 + old(self)@.cpu.sp.wrapping_add(2)],
            ),
            final(self)@ == (MachineView {
                cpu: (CpuState { sp: old(self)@.cpu.sp.wrapping_add(2), ..old(self)@.cpu }),
                ..old(self)@
            }),
    {
        self.cpu.incr_sp();
        let lo: u16 = self.ram[0x100 + self.cpu.sp as usize] as u16;
        self.cpu.incr_sp();
        let hi: u16 = self.ram[0x100 + self.cpu.sp as usize] as u16;
        lo + hi * 256
    }

    /// Unpack a status byte into the seven flags.
    pub(crate) fn set_flags(&mut self, flags: u8)
        ensures
            final(self)@ == (MachineView {
                cpu: flags_from_byte(old(self)@.cpu, flags),
                ..old(self)@
            }),
    {
        self.cpu.c = (flags & 1) != 0;
        self.cpu.z = (flags & 2) != 0;
        self.cpu.i = (flags & 4) != 0;
        self.cpu.d = (flags & 8) != 0;
        self.cpu.b = (flags & 16) != 0;
        self.cpu.v = (flags & 64) != 0;
        self.cpu.n = (flags & 128) != 0;
    }

    /// Pack the seven flags into the status byte, with the reserved bit set.
    pub(crate) fn get_flags(&self) -> (r: u8)
        ensures
            r == flags_to_byte(self@.cpu),
    {
        32u8 | (if self.cpu.c {
            1u8
        } else {
            0u8
        }) | (if self.cpu.z {
            2u8
        } else {
            0u8
        }) | (if self.cpu.i {
            4u8
        } else {
            0u8
        }) | (if self.cpu.d {
            8u8
        } else {
            0u8
        }) | (if self.cpu.b {
            16u8
        } else {
            0u8
        }) | (if self.cpu.v {
            64u8
        } else {
            0u8
        }) | (if self.cpu.n {
            128u8
        } else {
            0u8
        })
    }

    /// The IRQ/BRK vector, always read from the system ROM regardless of
    /// banking.
    pub(crate) fn irq_vector(&self) -> (r: u16)
        requires
            sizes_wf(self@),
        ensures
            r == word16(self@.rom[0x7FFE], self@.rom[0x7FFF]),
    {
        let lo: u16 = self.rom[0x7FFE] as u16;
        let hi: u16 = self.rom[0x7FFF] as u16;
        lo + hi * 256
    }

    /// Reinitialise the machine: registers to their power-on values with
    /// the interrupt-disable flag set, PC from the reset vector of the
    /// system ROM, bank selector zero, ROM visible, timing cleared, and the
    /// third timer's low byte preloaded as the ROM expects.
    pub fn hard_reset(&mut self)
        requires
            old(self).wf(),
        ensures
            final(self).wf(),
            final(self)@ == (MachineView {
                mem: old(self)@.mem.update(0xFF04, 4),
                cfg: 0u8,
                rom_on: true,
                counter: 0u32,
                flash_count: 0u32,
                flash_on: false,
                raster: 0u32,
                cpu: (CpuState {
                    pc: word16(old(self)@.rom[0x7FFC], old(self)@.rom[0x7FFD]),
                    acc: 0u8,
                    xr: 0u8,
                    yr: 0u8,
                    sp: 0xFFu8,
                    c: false,
                    z: false,
                    n: false,
                    b: false,
                    v: false,
                    i: true,
                    d: false,
                }),
                ..old(self)@
            }),
    {
        let reset_lo: u16 = self.rom[0x7FFC] as u16;
        let reset_hi: u16 = self.rom[0x7FFD] as u16;
        self.cpu.pc = reset_lo + reset_hi * 256;
        self.cpu.sp = 0xFF;
        self.cpu.acc = 0;
        self.cpu.xr = 0;
        self.cpu.yr = 0;
        self.cpu.i = true;
        self.cpu.n = false;
        self.cpu.c = false;
        self.cpu.b = false;
        self.cpu.z = false;
        self.cpu.d = false;
        self.cpu.v = false;
        self.ram[0xFF04] = 4;
        self.rom_config = 0;
        self.rom_active = true;
        self.clock_counter = 0;
        self.flash_on = false;
        self.flash_counter = 0;
        self.raster_line = 0;
    }

    /// Latch a host-scanned key matrix; this is the only input pathway into
    /// the machine.
    pub fn update_keyboard(&mut self, keyboard_matrix: [[bool; 8]; 8])
        requires
            old(self).wf(),
        ensures
            final(self).wf(),
            final(self)@ == (MachineView { keys: keyboard_matrix, ..old(self)@ }),
    {
        self.keyboard_matrix = keyboard_matrix;
    }

    /// Copy a program image into RAM at `load_addr`; nothing else moves.
    pub fn load_prg(&mut self, load_addr: u16, body: &[u8])
        requires
            old(self).wf(),
            load_addr + body@.len() <= 0x10000,
        ensures
            final(self).wf(),
            final(self)@ == (MachineView { mem: final(self)@.mem, ..old(self)@ }),
            forall|j: int| 0 <= j < body@.len() ==> final(self)@.mem[load_addr + j] == body@[j],
            forall|a: int|
                0 <= a < 0x10000 && !(load_addr <= a < load_addr + body@.len())
                    ==> #[trigger] final(self)@.mem[a] == old(self)@.mem[a],
    {
        let ghost m0: MachineView = self@;
        let mut i: usize = 0;
        while i < body.len()
            invariant
                sizes_wf(self@),
                i <= body@.len(),
                load_addr + body@.len() <= 0x10000,
                self@ == (MachineView { mem: self@.mem, ..m0 }),
                forall|j: int| 0 <= j < i ==> self@.mem[load_addr + j] == body@[j],
                forall|a: int|
                    0 <= a < 0x10000 && !(load_addr <= a < load_addr + i) ==> self@.mem[a]
                        == m0.mem[a],
            decreases body@.len() - i,
        {
            self.ram[load_addr as usize + i] = body[i];
            i = i + 1;
        }
    }

    /// Borrow the frame buffer: 320x200 colour indices, row-major.
    pub fn frame(&self) -> (r: &Vec<u8>)
        ensures
            r@ == self@.pixels,
    {
        &self.pixels
    }

    /// The current raster line.
    pub fn raster_line(&self) -> (r: u32)
        ensures
            r == self@.raster,
    {
        self.raster_line
    }

    /// Cycles accumulated toward the current raster line.
    pub fn clock_counter(&self) -> (r: u32)
        ensures
            r == self@.counter,
    {
        self.clock_counter
    }

    /// The 4-bit ROM bank selector.
    pub fn bank_config(&self) -> (r: u8)
        ensures
            r == self@.cfg,
    {
        self.rom_config
    }

    /// Whether ROM is visible in the upper half of the address space.
    pub fn rom_enabled(&self) -> (r: bool)
        ensures
            r == self@.rom_on,
    {
        self.rom_active
    }
}

impl Plus4 {
    fn get_addr_zeropage(&self) -> (r: u16)
        requires
            sizes_wf(self@),
        ensures
            r == ea_zp(self@),
    {
        self.peek(self.cpu.pc.wrapping_add(1)) as u16
    }

    fn get_addr_zeropage_x(&self) -> (r: u16)
        requires
            sizes_wf(self@),
        ensures
            r == ea_zp_x(self@),
    {
        self.peek(self.cpu.pc.wrapping_add(1)).wrapping_add(self.cpu.xr) as u16
    }

    fn get_addr_zeropage_y(&self) -> (r: u16)
        requires
            sizes_wf(self@),
        ensures
            r == ea_zp_y(self@),
    {
        self.peek(self.cpu.pc.wrapping_add(1)).wrapping_add(self.cpu.yr) as u16
    }

    fn get_addr_absolute(&self) -> (r: u16)
        requires
            sizes_wf(self@),
        ensures
            r == ea_abs(self@),
    {
        let lo: u16 = self.peek(self.cpu.pc.wrapping_add(1)) as u16;
        let hi: u16 = self.peek(self.cpu.pc.wrapping_add(2)) as u16;
        lo + hi * 256
    }

    fn get_addr_absolute_x(&self) -> (r: u16)
        requires
            sizes_wf(self@),
        ensures
            r == ea_abs_x(self@),
    {
        let base: u16 = self.get_addr_absolute();
        base.wrapping_add(self.cpu.xr as u16)
    }

    fn get_addr_absolute_y(&self) -> (r: u16)
        requires
            sizes_wf(self@),
        ensures
            r == ea_abs_y(self@),
    {
        let base: u16 = self.get_addr_absolute();
        base.wrapping_add(self.cpu.yr as u16)
    }

    fn get_addr_indirect_x(&self) -> (r: u16)
        requires
            sizes_wf(self@),
        ensures
            r == ea_ind_x(self@),
    {
        let base: u8 = self.peek(self.cpu.pc.wrapping_add(1)).wrapping_add(self.cpu.xr);
        let lo: u16 = self.peek(base as u16) as u16;
        let hi: u16 = self.peek(base.wrapping_add(1) as u16) as u16;
        lo + hi * 256
    }

    fn get_addr_indirect_y(&self) -> (r: u16)
        requires
            sizes_wf(self@),
        ensures
            r == ea_ind_y(self@),
    {
        let base: u8 = self.peek(self.cpu.pc.wrapping_add(1));
        let lo: u16 = self.peek(base as u16) as u16;
        let hi: u16 = self.peek(base.wrapping_add(1) as u16) as u16;
        (lo + hi * 256).wrapping_add(self.cpu.yr as u16)
    }

    /// One opcode of this row of the instruction set.
    #[verifier::rlimit(100)]
    #[verifier::spinoff_prover]
    fn exec_lda(&mut self, opcode: u8)
        requires
            sizes_wf(old(self)@),
            opcode == 0xA1 || opcode == 0xA5 || opcode == 0xA9 || opcode == 0xAD || opcode == 0xB1
            || opcode == 0xB5 || opcode == 0xB9 || opcode == 0xBD,
            opcode == spec_read(old(self)@, old(self)@.cpu.pc),
        ensures
            sizes_wf(final(self)@),
            final(self)@ == (MachineView {
                mem: final(self)@.mem,
                rom_on: final(self)@.rom_on,
                cfg: final(self)@.cfg,
                t_on: final(self)@.t_on,
                cpu: final(self)@.cpu,
                ticks: final(self)@.ticks,
                ..old(self)@
            }),
            2 <= final(self)@.ticks <= 7,
            final(self)@ == spec_instruction(old(self)@),
    {
        proof {
            crate::interp::lemma_instr_loads(old(self)@, opcode);
        }
        match opcode {
            // LDA imm
            0xA9 => {
                let value: u8 = self.peek(self.cpu.pc.wrapping_add(1));
                self.cpu.acc = value;
                self.cpu.z = value == 0;
                self.cpu.n = (value & 0x80) != 0;
                self.cpu.incr_pc(2);
                self.clock_ticks = 2;
            }
            // LDA zp
            0xA5 => {
                let addr: u16 = self.get_addr_zeropage();
                let value: u8 = self.peek(addr);
                self.cpu.acc = value;
                self.cpu.z = value == 0;
                self.cpu.n = (value & 0x80) != 0;
                self.cpu.incr_pc(2);
                self.clock_ticks = 3;
            }
            // LDA zpx
            0xB5 => {
                let addr: u16 = self.get_addr_zeropage_x();
                let value: u8 = self.peek(addr);
                self.cpu.acc = value;
                self.cpu.z = value == 0;
                self.cpu.n = (value & 0x80) != 0;
                self.cpu.incr_pc(2);
                self.clock_ticks = 4;
            }
            // LDA abs
            0xAD => {
                let addr: u16 = self.get_addr_absolute();
                let value: u8 = self.peek(addr);
                self.cpu.acc = value;
                self.cpu.z = value == 0;
                self.cpu.n = (value & 0x80) != 0;
                self.cpu.incr_pc(3);
                self.clock_ticks = 4;
            }
            // LDA absx
            0xBD => {
                let addr: u16 = self.get_addr_absolute_x();
                let value: u8 = self.peek(addr);
                self.cpu.acc = value;
                self.cpu.z = value == 0;
                self.cpu.n = (value & 0x80) != 0;
                self.cpu.incr_pc(3);
                self.clock_ticks = 4;
            }
            // LDA absy
            0xB9 => {
                let addr: u16 = self.get_addr_absolute_y();
                let value: u8 = self.peek(addr);
                self.cpu.acc = value;
                self.cpu.z = value == 0;
                self.cpu.n = (value & 0x80) != 0;
                self.cpu.incr_pc(3);
                self.clock_ticks = 4;
            }
            // LDA indx
            0xA1 => {
                let addr: u16 = self.get_addr_indirect_x();
                let value: u8 = self.peek(addr);
                self.cpu.acc = value;
                self.cpu.z = value == 0;
                self.cpu.n = (value & 0x80) != 0;
                self.cpu.incr_pc(2);
                self.clock_ticks = 6;
            }
            // LDA indy
            0xB1 => {
                let addr: u16 = self.get_addr_indirect_y();
                let value: u8 = self.peek(addr);
                self.cpu.acc = value;
                self.cpu.z = value == 0;
                self.cpu.n = (value & 0x80) != 0;
                self.cpu.incr_pc(2);
                self.clock_ticks = 5;
            }
            _ => {
                // unreachable: the precondition admits only the rows above
                proof {
                    assert(false);
                }
            }
        }
    }

    /// One opcode of this row of the instruction set.
    #[verifier::rlimit(100)]
    #[verifier::spinoff_prover]
    fn exec_ldx(&mut self, opcode: u8)
        requires
            sizes_wf(old(self)@),
            opcode == 0xA2 || opcode == 0xA6 || opcode == 0xAE || opcode == 0xB6 || opcode == 0xBE,
            opcode == spec_read(old(self)@, old(self)@.cpu.pc),
        ensures
            sizes_wf(final(self)@),
            final(self)@ == (MachineView {
                mem: final(self)@.mem,
                rom_on: final(self)@.rom_on,
                cfg: final(self)@.cfg,
                t_on: final(self)@.t_on,
                cpu: final(self)@.cpu,
                ticks: final(self)@.ticks,
                ..old(self)@
            }),
            2 <= final(self)@.ticks <= 7,
            final(self)@ == spec_instruction(old(self)@),
    {
        proof {
            crate::interp::lemma_instr_loads(old(self)@, opcode);
        }
        match opcode {
            // LDX imm
            0xA2 => {
                let value: u8 = self.peek(self.cpu.pc.wrapping_add(1));
                self.cpu.xr = value;
                self.cpu.z = value == 0;
                self.cpu.n = (value & 0x80) != 0;
                self.cpu.incr_pc(2);
                self.clock_ticks = 2;
            }
            // LDX zp
            0xA6 => {
                let addr: u16 = self.get_addr_zeropage();
                let value: u8 = self.peek(addr);
                self.cpu.xr = value;
                self.cpu.z = value == 0;
                self.cpu.n = (value & 0x80) != 0;
                self.cpu.incr_pc(2);
                self.clock_ticks = 3;
            }
            // LDX zpy
            0xB6 => {
                let addr: u16 = self.get_addr_zeropage_y();
                let value: u8 = self.peek(addr);
                self.cpu.xr = value;
                self.cpu.z = value == 0;
                self.cpu.n = (value & 0x80) != 0;
                self.cpu.incr_pc(2);
                self.clock_ticks = 4;
            }
            // LDX abs
            0xAE => {
                let addr: u16 = self.get_addr_absolute();
                let value: u8 = self.peek(addr);
                self.cpu.xr = value;
                self.cpu.z = value == 0;
                self.cpu.n = (value & 0x80) != 0;
                self.cpu.incr_pc(3);
                self.clock_ticks = 4;
            }
            // LDX absy
            0xBE => {
                let addr: u16 = self.get_addr_absolute_y();
                let value: u8 = self.peek(addr);
                self.cpu.xr = value;
                self.cpu.z = value == 0;
                self.cpu.n = (value & 0x80) != 0;
                self.cpu.incr_pc(3);
                self.clock_ticks = 4;
            }
            _ => {
                // unreachable: the precondition admits only the rows above
                proof {
                    assert(false);
                }
            }
        }
    }

    /// One opcode of this row of the instruction set.
    #[verifier::rlimit(100)]
    #[verifier::spinoff_prover]
    fn exec_ldy(&mut self, opcode: u8)
        requires
            sizes_wf(old(self)@),
            opcode == 0xA0 || opcode == 0xA4 || opcode == 0xAC || opcode == 0xB4 || opcode == 0xBC,
            opcode == spec_read(old(self)@, old(self)@.cpu.pc),
        ensures
            sizes_wf(final(self)@),
            final(self)@ == (MachineView {
                mem: final(self)@.mem,
                rom_on: final(self)@.rom_on,
                cfg: final(self)@.cfg,
                t_on: final(self)@.t_on,
                cpu: final(self)@.cpu,
                ticks: final(self)@.ticks,
                ..old(self)@
            }),
            2 <= final(self)@.ticks <= 7,
            final(self)@ == spec_instruction(old(self)@),
    {
        proof {
            crate::interp::lemma_instr_loads(old(self)@, opcode);
        }
        match opcode {
            // LDY imm
            0xA0 => {
                let value: u8 = self.peek(self.cpu.pc.wrapping_add(1));
                self.cpu.yr = value;
                self.cpu.z = value == 0;
                self.cpu.n = (value & 0x80) != 0;
                self.cpu.incr_pc(2);
                self.clock_ticks = 2;
            }
            // LDY zp
            0xA4 => {
                let addr: u16 = self.get_addr_zeropage();
                let value: u8 = self.peek(addr);
                self.cpu.yr = value;
                self.cpu.z = value == 0;
                self.cpu.n = (value & 0x80) != 0;
                self.cpu.incr_pc(2);
                self.clock_ticks = 3;
            }
            // LDY zpx
            0xB4 => {
                let addr: u16 = self.get_addr_zeropage_x();
                let value: u8 = self.peek(addr);
                self.cpu.yr = value;
                self.cpu.z = value == 0;
                self.cpu.n = (value & 0x80) != 0;
                self.cpu.incr_pc(2);
                self.clock_ticks = 4;
            }
            // LDY abs
            0xAC => {
                let addr: u16 = self.get_addr_absolute();
                let value: u8 = self.peek(addr);
                self.cpu.yr = value;
                self.cpu.z = value == 0;
                self.cpu.n = (value & 0x80) != 0;
                self.cpu.incr_pc(3);
                self.clock_ticks = 4;
            }
            // LDY absx
            0xBC => {
                let addr: u16 = self.get_addr_absolute_x();
                let value: u8 = self.peek(addr);
                self.cpu.yr = value;
                self.cpu.z = value == 0;
                self.cpu.n = (value & 0x80) != 0;
                self.cpu.incr_pc(3);
                self.clock_ticks = 4;
            }
            _ => {
                // unreachable: the precondition admits only the rows above
                proof {
                    assert(false);
                }
            }
        }
    }

    /// One opcode of this row of the instruction set.
    #[verifier::rlimit(100)]
    #[verifier::spinoff_prover]
    fn exec_sta(&mut self, opcode: u8)
        requires
            sizes_wf(old(self)@),
            opcode == 0x81 || opcode == 0x85 || opcode == 0x8D || opcode == 0x91 || opcode == 0x95
            || opcode == 0x99 || opcode == 0x9D,
            opcode == spec_read(old(self)@, old(self)@.cpu.pc),
        ensures
            sizes_wf(final(self)@),
            final(self)@ == (MachineView {
                mem: final(self)@.mem,
                rom_on: final(self)@.rom_on,
                cfg: final(self)@.cfg,
                t_on: final(self)@.t_on,
                cpu: final(self)@.cpu,
                ticks: final(self)@.ticks,
                ..old(self)@
            }),
            2 <= final(self)@.ticks <= 7,
            final(self)@ == spec_instruction(old(self)@),
    {
        proof {
            crate::interp::lemma_instr_stores(old(self)@, opcode);
        }
        match opcode {
            // STA zp
            0x85 => {
                let addr: u16 = self.get_addr_zeropage();
                let v: u8 = self.cpu.acc;
                self.poke(addr, v);
                self.cpu.incr_pc(2);
                self.clock_ticks = 3;
            }
            // STA zpx
            0x95 => {
                let addr: u16 = self.get_addr_zeropage_x();
                let v: u8 = self.cpu.acc;
                self.poke(addr, v);
                self.cpu.incr_pc(2);
                self.clock_ticks = 4;
            }
            // STA abs
            0x8D => {
                let addr: u16 = self.get_addr_absolute();
                let v: u8 = self.cpu.acc;
                self.poke(addr, v);
                self.cpu.incr_pc(3);
                self.clock_ticks = 4;
            }
            // STA absx
            0x9D => {
                let addr: u16 = self.get_addr_absolute_x();
                let v: u8 = self.cpu.acc;
                self.poke(addr, v);
                self.cpu.incr_pc(3);
                self.clock_ticks = 5;
            }
            // STA absy
            0x99 => {
                let addr: u16 = self.get_addr_absolute_y();
                let v: u8 = self.cpu.acc;
                self.poke(addr, v);
                self.cpu.incr_pc(3);
                self.clock_ticks = 5;
            }
            // STA indx
            0x81 => {
                let addr: u16 = self.get_addr_indirect_x();
                let v: u8 = self.cpu.acc;
                self.poke(addr, v);
                self.cpu.incr_pc(2);
                self.clock_ticks = 6;
            }
            // STA indy
            0x91 => {
                let addr: u16 = self.get_addr_indirect_y();
                let v: u8 = self.cpu.acc;
                self.poke(addr, v);
                self.cpu.incr_pc(2);
                self.clock_ticks = 6;
            }
            _ => {
                // unreachable: the precondition admits only the rows above
                proof {
                    assert(false);
                }
            }
        }
    }

    /// One opcode of this row of the instruction set.
    #[verifier::rlimit(100)]
    #[verifier::spinoff_prover]
    fn exec_stx_sty(&mut self, opcode: u8)
        requires
            sizes_wf(old(self)@),
            opcode == 0x84 || opcode == 0x86 || opcode == 0x8C || opcode == 0x8E || opcode == 0x94
            || opcode == 0x96,
            opcode == spec_read(old(self)@, old(self)@.cpu.pc),
        ensures
            sizes_wf(final(self)@),
            final(self)@ == (MachineView {
                mem: final(self)@.mem,
                rom_on: final(self)@.rom_on,
                cfg: final(self)@.cfg,
                t_on: final(self)@.t_on,
                cpu: final(self)@.cpu,
                ticks: final(self)@.ticks,
                ..old(self)@
            }),
            2 <= final(self)@.ticks <= 7,
            final(self)@ == spec_instruction(old(self)@),
    {
        proof {
            crate::interp::lemma_instr_stores(old(self)@, opcode);
        }
        match opcode {
            // STX zp
            0x86 => {
                let addr: u16 = self.get_addr_zeropage();
                let v: u8 = self.cpu.xr;
                self.poke(addr, v);
                self.cpu.incr_pc(2);
                self.clock_ticks = 3;
            }
            // STX zpy
            0x96 => {
                let addr: u16 = self.get_addr_zeropage_y();
                let v: u8 = self.cpu.xr;
                self.poke(addr, v);
                self.cpu.incr_pc(2);
                self.clock_ticks = 4;
            }
            // STX abs
            0x8E => {
                let addr: u16 = self.get_addr_absolute();
                let v: u8 = self.cpu.xr;
                self.poke(addr, v);
                self.cpu.incr_pc(3);
                self.clock_ticks = 4;
            }
            // STY zp
            0x84 => {
                let addr: u16 = self.get_addr_zeropage();
                let v: u8 = self.cpu.yr;
                self.poke(addr, v);
                self.cpu.incr_pc(2);
                self.clock_ticks = 3;
            }
            // STY zpx
            0x94 => {
                let addr: u16 = self.get_addr_zeropage_x();
                let v: u8 = self.cpu.yr;
                self.poke(addr, v);
                self.cpu.incr_pc(2);
                self.clock_ticks = 4;
            }
            // STY abs
            0x8C => {
                let addr: u16 = self.get_addr_absolute();
                let v: u8 = self.cpu.yr;
                self.poke(addr, v);
                self.cpu.incr_pc(3);
                self.clock_ticks = 4;
            }
            _ => {
                // unreachable: the precondition admits only the rows above
                proof {
                    assert(false);
                }
            }
        }
    }

    /// One opcode of this row of the instruction set.
    #[verifier::rlimit(100)]
    #[verifier::spinoff_prover]
    fn exec_moves(&mut self, opcode: u8)
        requires
            sizes_wf(old(self)@),
            opcode == 0x88 || opcode == 0x8A || opcode == 0x98 || opcode == 0x9A || opcode == 0xA8
            || opcode == 0xAA || opcode == 0xBA || opcode == 0xC8 || opcode == 0xCA || opcode == 0xE8,
            opcode == spec_read(old(self)@, old(self)@.cpu.pc),
        ensures
            sizes_wf(final(self)@),
            final(self)@ == (MachineView {
                mem: final(self)@.mem,
                rom_on: final(self)@.rom_on,
                cfg: final(self)@.cfg,
                t_on: final(self)@.t_on,
                cpu: final(self)@.cpu,
                ticks: final(self)@.ticks,
                ..old(self)@
            }),
            2 <= final(self)@.ticks <= 7,
            final(self)@ == spec_instruction(old(self)@),
    {
        proof {
            crate::interp::lemma_instr_implied(old(self)@, opcode);
        }
        match opcode {
            // TAX
            0xAA => {
                self.cpu.tax();
                self.cpu.incr_pc(1);
                self.clock_ticks = 2;
            }
            // TXA
            0x8A => {
                self.cpu.txa();
                self.cpu.incr_pc(1);
                self.clock_ticks = 2;
            }
            // TAY
            0xA8 => {
                self.cpu.tay();
                self.cpu.incr_pc(1);
                self.clock_ticks = 2;
            }
            // TYA
            0x98 => {
                self.cpu.tya();
                self.cpu.incr_pc(1);
                self.clock_ticks = 2;
            }
            // TSX
            0xBA => {
                self.cpu.tsx();
                self.cpu.incr_pc(1);
                self.clock_ticks = 2;
            }
            // TXS
            0x9A => {
                self.cpu.txs();
                self.cpu.incr_pc(1);
                self.clock_ticks = 2;
            }
            // INX
            0xE8 => {
                self.cpu.inx();
                self.cpu.incr_pc(1);
                self.clock_ticks = 2;
            }
            // DEX
            0xCA => {
                self.cpu.dex();
                self.cpu.incr_pc(1);
                self.clock_ticks = 2;
            }
            // INY
            0xC8 => {
                self.cpu.iny();
                self.cpu.incr_pc(1);
                self.clock_ticks = 2;
            }
            // DEY
            0x88 => {
                self.cpu.dey();
                self.cpu.incr_pc(1);
                self.clock_ticks = 2;
            }
            _ => {
                // unreachable: the precondition admits only the rows above
                proof {
                    assert(false);
                }
            }
        }
    }

    /// One opcode of this row of the instruction set.
    #[verifier::rlimit(100)]
    #[verifier::spinoff_prover]
    fn exec_flag_ops(&mut self, opcode: u8)
        requires
            sizes_wf(old(self)@),
            opcode == 0x18 || opcode == 0x38 || opcode == 0x58 || opcode == 0x78 || opcode == 0xB8
            || opcode == 0xD8 || opcode == 0xF8,
            opcode == spec_read(old(self)@, old(self)@.cpu.pc),
        ensures
            sizes_wf(final(self)@),
            final(self)@ == (MachineView {
                mem: final(self)@.mem,
                rom_on: final(self)@.rom_on,
                cfg: final(self)@.cfg,
                t_on: final(self)@.t_on,
                cpu: final(self)@.cpu,
                ticks: final(self)@.ticks,
                ..old(self)@
            }),
            2 <= final(self)@.ticks <= 7,
            final(self)@ == spec_instruction(old(self)@),
    {
        proof {
            crate::interp::lemma_instr_implied(old(self)@, opcode);
        }
        match opcode {
            // CLC
            0x18 => {
                self.cpu.c = false;
                self.cpu.incr_pc(1);
                self.clock_ticks = 2;
            }
            // SEC
            0x38 => {
                self.cpu.c = true;
                self.cpu.incr_pc(1);
                self.clock_ticks = 2;
            }
            // CLI
            0x58 => {
                self.cpu.i = false;
                self.cpu.incr_pc(1);
                self.clock_ticks = 2;
            }
            // SEI
            0x78 => {
                self.cpu.i = true;
                self.cpu.incr_pc(1);
                self.clock_ticks = 2;
            }
            // CLD
            0xD8 => {
                self.cpu.d = false;
                self.cpu.incr_pc(1);
                self.clock_ticks = 2;
            }
            // SED
            0xF8 => {
                self.cpu.d = true;
                self.cpu.incr_pc(1);
                self.clock_ticks = 2;
            }
            // CLV
            0xB8 => {
                self.cpu.v = false;
                self.cpu.incr_pc(1);
                self.clock_ticks = 2;
            }
            _ => {
                // unreachable: the precondition admits only the rows above
                proof {
                    assert(false);
                }
            }
        }
    }

    /// One opcode of this row of the instruction set.
    #[verifier::rlimit(100)]
    #[verifier::spinoff_prover]
    fn exec_nop_ops(&mut self, opcode: u8)
        requires
            sizes_wf(old(self)@),
            opcode == 0x07 || opcode == 0x1A || opcode == 0x3A || opcode == 0x3F || opcode == 0x5A
            || opcode == 0x7A || opcode == 0x7F || opcode == 0xDA || opcode == 0xEA || opcode == 0xFA
            || opcode == 0xFC,
            opcode == spec_read(old(self)@, old(self)@.cpu.pc),
        ensures
            sizes_wf(final(self)@),
            final(self)@ == (MachineView {
                mem: final(self)@.mem,
                rom_on: final(self)@.rom_on,
                cfg: final(self)@.cfg,
                t_on: final(self)@.t_on,
                cpu: final(self)@.cpu,
                ticks: final(self)@.ticks,
                ..old(self)@
            }),
            2 <= final(self)@.ticks <= 7,
            final(self)@ == spec_instruction(old(self)@),
    {
        proof {
            crate::interp::lemma_instr_implied(old(self)@, opcode);
        }
        match opcode {
            // NOP, documented and undocumented
            0xEA | 0x1A | 0x3A | 0x5A | 0x7A | 0xDA | 0xFA | 0xFC | 0x3F | 0x7F | 0x07 => {
                self.cpu.incr_pc(1);
                self.clock_ticks = 2;
            }
            _ => {
                // unreachable: the precondition admits only the rows above
                proof {
                    assert(false);
                }
            }
        }
    }

    /// One opcode of this row of the instruction set.
    #[verifier::rlimit(100)]
    #[verifier::spinoff_prover]
    fn exec_and_ops(&mut self, opcode: u8)
        requires
            sizes_wf(old(self)@),
            opcode == 0x21 || opcode == 0x25 || opcode == 0x29 || opcode == 0x2D || opcode == 0x31
            || opcode == 0x35 || opcode == 0x39 || opcode == 0x3D,
            opcode == spec_read(old(self)@, old(self)@.cpu.pc),
        ensures
            sizes_wf(final(self)@),
            final(self)@ == (MachineView {
                mem: final(self)@.mem,
                rom_on: final(self)@.rom_on,
                cfg: final(self)@.cfg,
                t_on: final(self)@.t_on,
                cpu: final(self)@.cpu,
                ticks: final(self)@.ticks,
                ..old(self)@
            }),
            2 <= final(self)@.ticks <= 7,
            final(self)@ == spec_instruction(old(self)@),
    {
        proof {
            crate::interp::lemma_instr_logic(old(self)@, opcode);
        }
        match opcode {
            // AND imm
            0x29 => {
                let value: u8 = self.peek(self.cpu.pc.wrapping_add(1));
                self.cpu.do_and(value);
                self.cpu.incr_pc(2);
                self.clock_ticks = 2;
            }
            // AND zp
            0x25 => {
                let addr: u16 = self.get_addr_zeropage();
                let value: u8 = self.peek(addr);
                self.cpu.do_and(value);
                self.cpu.incr_pc(2);
                self.clock_ticks = 3;
            }
            // AND zpx
            0x35 => {
                let addr: u16 = self.get_addr_zeropage_x();
                let value: u8 = self.peek(addr);
                self.cpu.do_and(value);
                self.cpu.incr_pc(2);
                self.clock_ticks = 4;
            }
            // AND abs
            0x2D => {
                let addr: u16 = self.get_addr_absolute();
                let value: u8 = self.peek(addr);
                self.cpu.do_and(value);
                self.cpu.incr_pc(3);
                self.clock_ticks = 4;
            }
            // AND absx
            0x3D => {
                let addr: u16 = self.get_addr_absolute_x();
                let value: u8 = self.peek(addr);
                self.cpu.do_and(value);
                self.cpu.incr_pc(3);
                self.clock_ticks = 4;
            }
            // AND absy
            0x39 => {
                let addr: u16 = self.get_addr_absolute_y();
                let value: u8 = self.peek(addr);
                self.cpu.do_and(value);
                self.cpu.incr_pc(3);
                self.clock_ticks = 4;
            }
            // AND indx
            0x21 => {
                let addr: u16 = self.get_addr_indirect_x();
                let value: u8 = self.peek(addr);
                self.cpu.do_and(value);
                self.cpu.incr_pc(2);
                self.clock_ticks = 6;
            }
            // AND indy
            0x31 => {
                let addr: u16 = self.get_addr_indirect_y();
                let value: u8 = self.peek(addr);
                self.cpu.do_and(value);
                self.cpu.incr_pc(2);
                self.clock_ticks = 5;
            }
            _ => {
                // unreachable: the precondition admits only the rows above
                proof {
                    assert(false);
                }
            }
        }
    }

    /// One opcode of this row of the instruction set.
    #[verifier::rlimit(100)]
    #[verifier::spinoff_prover]
    fn exec_ora_ops(&mut self, opcode: u8)
        requires
            sizes_wf(old(self)@),
            opcode == 0x01 || opcode == 0x05 || opcode == 0x09 || opcode == 0x0D || opcode == 0x11
            || opcode == 0x15 || opcode == 0x19 || opcode == 0x1D,
            opcode == spec_read(old(self)@, old(self)@.cpu.pc),
        ensures
            sizes_wf(final(self)@),
            final(self)@ == (MachineView {
                mem: final(self)@.mem,
                rom_on: final(self)@.rom_on,
                cfg: final(self)@.cfg,
                t_on: final(self)@.t_on,
                cpu: final(self)@.cpu,
                ticks: final(self)@.ticks,
                ..old(self)@
            }),
            2 <= final(self)@.ticks <= 7,
            final(self)@ == spec_instruction(old(self)@),
    {
        proof {
            crate::interp::lemma_instr_logic(old(self)@, opcode);
        }
        match opcode {
            // ORA imm
            0x09 => {
                let value: u8 = self.peek(self.cpu.pc.wrapping_add(1));
                self.cpu.do_ora(value);
                self.cpu.incr_pc(2);
                self.clock_ticks = 2;
            }
            // ORA zp
            0x05 => {
                let addr: u16 = self.get_addr_zeropage();
                let value: u8 = self.peek(addr);
                self.cpu.do_ora(value);
                self.cpu.incr_pc(2);
                self.clock_ticks = 3;
            }
            // ORA zpx
            0x15 => {
                let addr: u16 = self.get_addr_zeropage_x();
                let value: u8 = self.peek(addr);
                self.cpu.do_ora(value);
                self.cpu.incr_pc(2);
                self.clock_ticks = 4;
            }
            // ORA abs
            0x0D => {
                let addr: u16 = self.get_addr_absolute();
                let value: u8 = self.peek(addr);
                self.cpu.do_ora(value);
                self.cpu.incr_pc(3);
                self.clock_ticks = 4;
            }
            // ORA absx
            0x1D => {
                let addr: u16 = self.get_addr_absolute_x();
                let value: u8 = self.peek(addr);
                self.cpu.do_ora(value);
                self.cpu.incr_pc(3);
                self.clock_ticks = 4;
            }
            // ORA absy
            0x19 => {
                let addr: u16 = self.get_addr_absolute_y();
                let value: u8 = self.peek(addr);
                self.cpu.do_ora(value);
                self.cpu.incr_pc(3);
                self.clock_ticks = 4;
            }
            // ORA indx
            0x01 => {
                let addr: u16 = self.get_addr_indirect_x();
                let value: u8 = self.peek(addr);
                self.cpu.do_ora(value);
                self.cpu.incr_pc(2);
                self.clock_ticks = 6;
            }
            // ORA indy
            0x11 => {
                let addr: u16 = self.get_addr_indirect_y();
                let value: u8 = self.peek(addr);
                self.cpu.do_ora(value);
                self.cpu.incr_pc(2);
                self.clock_ticks = 5;
            }
            _ => {
                // unreachable: the precondition admits only the rows above
                proof {
                    assert(false);
                }
            }
        }
    }

    /// One opcode of this row of the instruction set.
    #[verifier::rlimit(100)]
    #[verifier::spinoff_prover]
    fn exec_eor_ops(&mut self, opcode: u8)
        requires
            sizes_wf(old(self)@),
            opcode == 0x41 || opcode == 0x45 || opcode == 0x49 || opcode == 0x4D || opcode == 0x51
            || opcode == 0x55 || opcode == 0x59 || opcode == 0x5D,
            opcode == spec_read(old(self)@, old(self)@.cpu.pc),
        ensures
            sizes_wf(final(self)@),
            final(self)@ == (MachineView {
                mem: final(self)@.mem,
                rom_on: final(self)@.rom_on,
                cfg: final(self)@.cfg,
                t_on: final(self)@.t_on,
                cpu: final(self)@.cpu,
                ticks: final(self)@.ticks,
                ..old(self)@
            }),
            2 <= final(self)@.ticks <= 7,
            final(self)@ == spec_instruction(old(self)@),
    {
        proof {
            crate::interp::lemma_instr_logic(old(self)@, opcode);
        }
        match opcode {
            // EOR imm
            0x49 => {
                let value: u8 = self.peek(self.cpu.pc.wrapping_add(1));
                self.cpu.do_eor(value);
                self.cpu.incr_pc(2);
                self.clock_ticks = 2;
            }
            // EOR zp
            0x45 => {
                let addr: u16 = self.get_addr_zeropage();
                let value: u8 = self.peek(addr);
                self.cpu.do_eor(value);
                self.cpu.incr_pc(2);
                self.clock_ticks = 3;
            }
            // EOR zpx
            0x55 => {
                let addr: u16 = self.get_addr_zeropage_x();
                let value: u8 = self.peek(addr);
                self.cpu.do_eor(value);
                self.cpu.incr_pc(2);
                self.clock_ticks = 4;
            }
            // EOR abs
            0x4D => {
                let addr: u16 = self.get_addr_absolute();
                let value: u8 = self.peek(addr);
                self.cpu.do_eor(value);
                self.cpu.incr_pc(3);
                self.clock_ticks = 4;
            }
            // EOR absx
            0x5D => {
                let addr: u16 = self.get_addr_absolute_x();
                let value: u8 = self.peek(addr);
                self.cpu.do_eor(value);
                self.cpu.incr_pc(3);
                self.clock_ticks = 4;
            }
            // EOR absy
            0x59 => {
                let addr: u16 = self.get_addr_absolute_y();
                let value: u8 = self.peek(addr);
                self.cpu.do_eor(value);
                self.cpu.incr_pc(3);
                self.clock_ticks = 4;
            }
            // EOR indx
            0x41 => {
                let addr: u16 = self.get_addr_indirect_x();
                let value: u8 = self.peek(addr);
                self.cpu.do_eor(value);
                self.cpu.incr_pc(2);
                self.clock_ticks = 6;
            }
            // EOR indy
            0x51 => {
                let addr: u16 = self.get_addr_indirect_y();
                let value: u8 = self.peek(addr);
                self.cpu.do_eor(value);
                self.cpu.incr_pc(2);
                self.clock_ticks = 5;
            }
            _ => {
                // unreachable: the precondition admits only the rows above
                proof {
                    assert(false);
                }
            }
        }
    }

    /// One opcode of this row of the instruction set.
    #[verifier::rlimit(100)]
    #[verifier::spinoff_prover]
    fn exec_cmp_ops(&mut self, opcode: u8)
        requires
            sizes_wf(old(self)@),
            opcode == 0xC1 || opcode == 0xC5 || opcode == 0xC9 || opcode == 0xCD || opcode == 0xD1
            || opcode == 0xD5 || opcode == 0xD9 || opcode == 0xDD,
            opcode == spec_read(old(self)@, old(self)@.cpu.pc),
        ensures
            sizes_wf(final(self)@),
            final(self)@ == (MachineView {
                mem: final(self)@.mem,
                rom_on: final(self)@.rom_on,
                cfg: final(self)@.cfg,
                t_on: final(self)@.t_on,
                cpu: final(self)@.cpu,
                ticks: final(self)@.ticks,
                ..old(self)@
            }),
            2 <= final(self)@.ticks <= 7,
            final(self)@ == spec_instruction(old(self)@),
    {
        proof {
            crate::interp::lemma_instr_compare(old(self)@, opcode);
        }
        match opcode {
            // CMP imm
            0xC9 => {
                let value: u8 = self.peek(self.cpu.pc.wrapping_add(1));
                let reg: u8 = self.cpu.acc;
                self.cpu.do_cmp(reg, value);
                self.cpu.incr_pc(2);
                self.clock_ticks = 2;
            }
            // CMP zp
            0xC5 => {
                let addr: u16 = self.get_addr_zeropage();
                let value: u8 = self.peek(addr);
                let reg: u8 = self.cpu.acc;
                self.cpu.do_cmp(reg, value);
                self.cpu.incr_pc(2);
                self.clock_ticks = 3;
            }
            // CMP zpx
            0xD5 => {
                let addr: u16 = self.get_addr_zeropage_x();
                let value: u8 = self.peek(addr);
                let reg: u8 = self.cpu.acc;
                self.cpu.do_cmp(reg, value);
                self.cpu.incr_pc(2);
                self.clock_ticks = 4;
            }
            // CMP abs
            0xCD => {
                let addr: u16 = self.get_addr_absolute();
                let value: u8 = self.peek(addr);
                let reg: u8 = self.cpu.acc;
                self.cpu.do_cmp(reg, value);
                self.cpu.incr_pc(3);
                self.clock_ticks = 4;
            }
            // CMP absy
            0xD9 => {
                let addr: u16 = self.get_addr_absolute_y();
                let value: u8 = self.peek(addr);
                let reg: u8 = self.cpu.acc;
                self.cpu.do_cmp(reg, value);
                self.cpu.incr_pc(3);
                self.clock_ticks = 4;
            }
            // CMP absx
            0xDD => {
                let addr: u16 = self.get_addr_absolute_x();
                let value: u8 = self.peek(addr);
                let reg: u8 = self.cpu.acc;
                self.cpu.do_cmp(reg, value);
                self.cpu.incr_pc(3);
                self.clock_ticks = 4;
            }
            // CMP indx
            0xC1 => {
                let addr: u16 = self.get_addr_indirect_x();
                let value: u8 = self.peek(addr);
                let reg: u8 = self.cpu.acc;
                self.cpu.do_cmp(reg, value);
                self.cpu.incr_pc(2);
                self.clock_ticks = 6;
            }
            // CMP indy
            0xD1 => {
                let addr: u16 = self.get_addr_indirect_y();
                let value: u8 = self.peek(addr);
                let reg: u8 = self.cpu.acc;
                self.cpu.do_cmp(reg, value);
                self.cpu.incr_pc(2);
                self.clock_ticks = 5;
            }
            _ => {
                // unreachable: the precondition admits only the rows above
                proof {
                    assert(false);
                }
            }
        }
    }

    /// One opcode of this row of the instruction set.
    #[verifier::rlimit(100)]
    #[verifier::spinoff_prover]
    fn exec_cpx_cpy_bit(&mut self, opcode: u8)
        requires
            sizes_wf(old(self)@),
            opcode == 0x24 || opcode == 0x2C || opcode == 0xC0 || opcode == 0xC4 || opcode == 0xCC
            || opcode == 0xE0 || opcode == 0xE4 || opcode == 0xEC,
            opcode == spec_read(old(self)@, old(self)@.cpu.pc),
        ensures
            sizes_wf(final(self)@),
            final(self)@ == (MachineView {
                mem: final(self)@.mem,
                rom_on: final(self)@.rom_on,
                cfg: final(self)@.cfg,
                t_on: final(self)@.t_on,
                cpu: final(self)@.cpu,
                ticks: final(self)@.ticks,
                ..old(self)@
            }),
            2 <= final(self)@.ticks <= 7,
            final(self)@ == spec_instruction(old(self)@),
    {
        proof {
            crate::interp::lemma_instr_compare(old(self)@, opcode);
        }
        match opcode {
            // CPX imm
            0xE0 => {
                let value: u8 = self.peek(self.cpu.pc.wrapping_add(1));
                let reg: u8 = self.cpu.xr;
                self.cpu.do_cmp(reg, value);
                self.cpu.incr_pc(2);
                self.clock_ticks = 2;
            }
            // CPX zp
            0xE4 => {
                let addr: u16 = self.get_addr_zeropage();
                let value: u8 = self.peek(addr);
                let reg: u8 = self.cpu.xr;
                self.cpu.do_cmp(reg, value);
                self.cpu.incr_pc(2);
                self.clock_ticks = 3;
            }
            // CPX abs
            0xEC => {
                let addr: u16 = self.get_addr_absolute();
                let value: u8 = self.peek(addr);
                let reg: u8 = self.cpu.xr;
                self.cpu.do_cmp(reg, value);
                self.cpu.incr_pc(3);
                self.clock_ticks = 4;
            }
            // CPY imm
            0xC0 => {
                let value: u8 = self.peek(self.cpu.pc.wrapping_add(1));
                let reg: u8 = self.cpu.yr;
                self.cpu.do_cmp(reg, value);
                self.cpu.incr_pc(2);
                self.clock_ticks = 2;
            }
            // CPY zp
            0xC4 => {
                let addr: u16 = self.get_addr_zeropage();
                let value: u8 = self.peek(addr);
                let reg: u8 = self.cpu.yr;
                self.cpu.do_cmp(reg, value);
                self.cpu.incr_pc(2);
                self.clock_ticks = 3;
            }
            // CPY abs
            0xCC => {
                let addr: u16 = self.get_addr_absolute();
                let value: u8 = self.peek(addr);
                let reg: u8 = self.cpu.yr;
                self.cpu.do_cmp(reg, value);
                self.cpu.incr_pc(3);
                self.clock_ticks = 4;
            }
            // BIT zp
            0x24 => {
                let addr: u16 = self.get_addr_zeropage();
                let value: u8 = self.peek(addr);
                self.cpu.do_bit(value);
                self.cpu.incr_pc(2);
                self.clock_ticks = 3;
            }
            // BIT abs
            0x2C => {
                let addr: u16 = self.get_addr_absolute();
                let value: u8 = self.peek(addr);
                self.cpu.do_bit(value);
                self.cpu.incr_pc(3);
                self.clock_ticks = 4;
            }
            _ => {
                // unreachable: the precondition admits only the rows above
                proof {
                    assert(false);
                }
            }
        }
    }

    /// One opcode of this row of the instruction set.
    #[verifier::rlimit(100)]
    #[verifier::spinoff_prover]
    fn exec_adc_ops(&mut self, opcode: u8)
        requires
            sizes_wf(old(self)@),
            opcode == 0x61 || opcode == 0x65 || opcode == 0x69 || opcode == 0x6D || opcode == 0x71
            || opcode == 0x75 || opcode == 0x79 || opcode == 0x7D,
            opcode == spec_read(old(self)@, old(self)@.cpu.pc),
            !(is_adc_op(opcode) && old(self)@.cpu.d),
        ensures
            sizes_wf(final(self)@),
            final(self)@ == (MachineView {
                mem: final(self)@.mem,
                rom_on: final(self)@.rom_on,
                cfg: final(self)@.cfg,
                t_on: final(self)@.t_on,
                cpu: final(self)@.cpu,
                ticks: final(self)@.ticks,
                ..old(self)@
            }),
            2 <= final(self)@.ticks <= 7,
            final(self)@ == spec_instruction(old(self)@),
    {
        proof {
            crate::interp::lemma_instr_arith(old(self)@, opcode);
        }
        match opcode {
            // ADC imm
            0x69 => {
                let value: u8 = self.peek(self.cpu.pc.wrapping_add(1));
                self.cpu.do_adc(value);
                self.cpu.incr_pc(2);
                self.clock_ticks = 2;
            }
            // ADC zp
            0x65 => {
                let addr: u16 = self.get_addr_zeropage();
                let value: u8 = self.peek(addr);
                self.cpu.do_adc(value);
                self.cpu.incr_pc(2);
                self.clock_ticks = 3;
            }
            // ADC zpx
            0x75 => {
                let addr: u16 = self.get_addr_zeropage_x();
                let value: u8 = self.peek(addr);
                self.cpu.do_adc(value);
                self.cpu.incr_pc(2);
                self.clock_ticks = 4;
            }
            // ADC abs
            0x6D => {
                let addr: u16 = self.get_addr_absolute();
                let value: u8 = self.peek(addr);
                self.cpu.do_adc(value);
                self.cpu.incr_pc(3);
                self.clock_ticks = 4;
            }
            // ADC absx
            0x7D => {
                let addr: u16 = self.get_addr_absolute_x();
                let value: u8 = self.peek(addr);
                self.cpu.do_adc(value);
                self.cpu.incr_pc(3);
                self.clock_ticks = 4;
            }
            // ADC absy
            0x79 => {
                let addr: u16 = self.get_addr_absolute_y();
                let value: u8 = self.peek(addr);
                self.cpu.do_adc(value);
                self.cpu.incr_pc(3);
                self.clock_ticks = 4;
            }
            // ADC indx
            0x61 => {
                let addr: u16 = self.get_addr_indirect_x();
                let value: u8 = self.peek(addr);
                self.cpu.do_adc(value);
                self.cpu.incr_pc(2);
                self.clock_ticks = 6;
            }
            // ADC indy
            0x71 => {
                let addr: u16 = self.get_addr_indirect_y();
                let value: u8 = self.peek(addr);
                self.cpu.do_adc(value);
                self.cpu.incr_pc(2);
                self.clock_ticks = 5;
            }
            _ => {
                // unreachable: the precondition admits only the rows above
                proof {
                    assert(false);
                }
            }
        }
    }

    /// One opcode of this row of the instruction set.
    #[verifier::rlimit(100)]
    #[verifier::spinoff_prover]
    fn exec_sbc_ops(&mut self, opcode: u8)
        requires
            sizes_wf(old(self)@),
            opcode == 0xE1 || opcode == 0xE5 || opcode == 0xE9 || opcode == 0xED || opcode == 0xF1
            || opcode == 0xF5 || opcode == 0xF9 || opcode == 0xFD,
            opcode == spec_read(old(self)@, old(self)@.cpu.pc),
        ensures
            sizes_wf(final(self)@),
            final(self)@ == (MachineView {
                mem: final(self)@.mem,
                rom_on: final(self)@.rom_on,
                cfg: final(self)@.cfg,
                t_on: final(self)@.t_on,
                cpu: final(self)@.cpu,
                ticks: final(self)@.ticks,
                ..old(self)@
            }),
            2 <= final(self)@.ticks <= 7,
            final(self)@ == spec_instruction(old(self)@),
    {
        proof {
            crate::interp::lemma_instr_arith(old(self)@, opcode);
        }
        match opcode {
            // SBC imm
            0xE9 => {
                let value: u8 = self.peek(self.cpu.pc.wrapping_add(1));
                self.cpu.do_sbc(value);
                self.cpu.incr_pc(2);
                self.clock_ticks = 2;
            }
            // SBC zp
            0xE5 => {
                let addr: u16 = self.get_addr_zeropage();
                let value: u8 = self.peek(addr);
                self.cpu.do_sbc(value);
                self.cpu.incr_pc(2);
                self.clock_ticks = 3;
            }
            // SBC zpx
            0xF5 => {
                let addr: u16 = self.get_addr_zeropage_x();
                let value: u8 = self.peek(addr);
                self.cpu.do_sbc(value);
                self.cpu.incr_pc(2);
                self.clock_ticks = 4;
            }
            // SBC abs
            0xED => {
                let addr: u16 = self.get_addr_absolute();
                let value: u8 = self.peek(addr);
                self.cpu.do_sbc(value);
                self.cpu.incr_pc(3);
                self.clock_ticks = 4;
            }
            // SBC absx
            0xFD => {
                let addr: u16 = self.get_addr_absolute_x();
                let value: u8 = self.peek(addr);
                self.cpu.do_sbc(value);
                self.cpu.incr_pc(3);
                self.clock_ticks = 4;
            }
            // SBC absy
            0xF9 => {
                let addr: u16 = self.get_addr_absolute_y();
                let value: u8 = self.peek(addr);
                self.cpu.do_sbc(value);
                self.cpu.incr_pc(3);
                self.clock_ticks = 4;
            }
            // SBC indx
            0xE1 => {
                let addr: u16 = self.get_addr_indirect_x();
                let value: u8 = self.peek(addr);
                self.cpu.do_sbc(value);
                self.cpu.incr_pc(2);
                self.clock_ticks = 6;
            }
            // SBC indy
            0xF1 => {
                let addr: u16 = self.get_addr_indirect_y();
                let value: u8 = self.peek(addr);
                self.cpu.do_sbc(value);
                self.cpu.incr_pc(2);
                self.clock_ticks = 5;
            }
            _ => {
                // unreachable: the precondition admits only the rows above
                proof {
                    assert(false);
                }
            }
        }
    }

    /// One opcode of this row of the instruction set.
    #[verifier::rlimit(100)]
    #[verifier::spinoff_prover]
    fn exec_asl_ops(&mut self, opcode: u8)
        requires
            sizes_wf(old(self)@),
            opcode == 0x06 || opcode == 0x0A || opcode == 0x0E || opcode == 0x16 || opcode == 0x1E,
            opcode == spec_read(old(self)@, old(self)@.cpu.pc),
        ensures
            sizes_wf(final(self)@),
            final(self)@ == (MachineView {
                mem: final(self)@.mem,
                rom_on: final(self)@.rom_on,
                cfg: final(self)@.cfg,
                t_on: final(self)@.t_on,
                cpu: final(self)@.cpu,
                ticks: final(self)@.ticks,
                ..old(self)@
            }),
            2 <= final(self)@.ticks <= 7,
            final(self)@ == spec_instruction(old(self)@),
    {
        proof {
            crate::interp::lemma_instr_rmw(old(self)@, opcode);
        }
        match opcode {
            // ASL accumulator
            0x0A => {
                let a: u8 = self.cpu.acc;
                let r: u8 = self.cpu.do_asl(a);
                self.cpu.acc = r;
                self.cpu.incr_pc(1);
                self.clock_ticks = 2;
            }
            // ASL zp
            0x06 => {
                let addr: u16 = self.get_addr_zeropage();
                let value: u8 = self.peek(addr);
                let r: u8 = self.cpu.do_asl(value);
                self.poke(addr, r);
                self.cpu.incr_pc(2);
                self.clock_ticks = 5;
            }
            // ASL zpx
            0x16 => {
                let addr: u16 = self.get_addr_zeropage_x();
                let value: u8 = self.peek(addr);
                let r: u8 = self.cpu.do_asl(value);
                self.poke(addr, r);
                self.cpu.incr_pc(2);
                self.clock_ticks = 6;
            }
            // ASL abs
            0x0E => {
                let addr: u16 = self.get_addr_absolute();
                let value: u8 = self.peek(addr);
                let r: u8 = self.cpu.do_asl(value);
                self.poke(addr, r);
                self.cpu.incr_pc(3);
                self.clock_ticks = 6;
            }
            // ASL absx
            0x1E => {
                let addr: u16 = self.get_addr_absolute_x();
                let value: u8 = self.peek(addr);
                let r: u8 = self.cpu.do_asl(value);
                self.poke(addr, r);
                self.cpu.incr_pc(3);
                self.clock_ticks = 7;
            }
            _ => {
                // unreachable: the precondition admits only the rows above
                proof {
                    assert(false);
                }
            }
        }
    }

    /// One opcode of this row of the instruction set.
    #[verifier::rlimit(100)]
    #[verifier::spinoff_prover]
    fn exec_lsr_ops(&mut self, opcode: u8)
        requires
            sizes_wf(old(self)@),
            opcode == 0x46 || opcode == 0x4A || opcode == 0x4E || opcode == 0x56 || opcode == 0x5E,
            opcode == spec_read(old(self)@, old(self)@.cpu.pc),
        ensures
            sizes_wf(final(self)@),
            final(self)@ == (MachineView {
                mem: final(self)@.mem,
                rom_on: final(self)@.rom_on,
                cfg: final(self)@.cfg,
                t_on: final(self)@.t_on,
                cpu: final(self)@.cpu,
                ticks: final(self)@.ticks,
                ..old(self)@
            }),
            2 <= final(self)@.ticks <= 7,
            final(self)@ == spec_instruction(old(self)@),
    {
        proof {
            crate::interp::lemma_instr_rmw(old(self)@, opcode);
        }
        match opcode {
            // LSR accumulator
            0x4A => {
                let a: u8 = self.cpu.acc;
                let r: u8 = self.cpu.do_lsr(a);
                self.cpu.acc = r;
                self.cpu.incr_pc(1);
                self.clock_ticks = 2;
            }
            // LSR zp
            0x46 => {
                let addr: u16 = self.get_addr_zeropage();
                let value: u8 = self.peek(addr);
                let r: u8 = self.cpu.do_lsr(value);
                self.poke(addr, r);
                self.cpu.incr_pc(2);
                self.clock_ticks = 5;
            }
            // LSR zpx
            0x56 => {
                let addr: u16 = self.get_addr_zeropage_x();
                let value: u8 = self.peek(addr);
                let r: u8 = self.cpu.do_lsr(value);
                self.poke(addr, r);
                self.cpu.incr_pc(2);
                self.clock_ticks = 6;
            }
            // LSR abs
            0x4E => {
                let addr: u16 = self.get_addr_absolute();
                let value: u8 = self.peek(addr);
                let r: u8 = self.cpu.do_lsr(value);
                self.poke(addr, r);
                self.cpu.incr_pc(3);
                self.clock_ticks = 6;
            }
            // LSR absx
            0x5E => {
                let addr: u16 = self.get_addr_absolute_x();
                let value: u8 = self.peek(addr);
                let r: u8 = self.cpu.do_lsr(value);
                self.poke(addr, r);
                self.cpu.incr_pc(3);
                self.clock_ticks = 7;
            }
            _ => {
                // unreachable: the precondition admits only the rows above
                proof {
                    assert(false);
                }
            }
        }
    }

    /// One opcode of this row of the instruction set.
    #[verifier::rlimit(100)]
    #[verifier::spinoff_prover]
    fn exec_rol_ops(&mut self, opcode: u8)
        requires
            sizes_wf(old(self)@),
            opcode == 0x26 || opcode == 0x2A || opcode == 0x2E || opcode == 0x36 || opcode == 0x3E,
            opcode == spec_read(old(self)@, old(self)@.cpu.pc),
        ensures
            sizes_wf(final(self)@),
            final(self)@ == (MachineView {
                mem: final(self)@.mem,
                rom_on: final(self)@.rom_on,
                cfg: final(self)@.cfg,
                t_on: final(self)@.t_on,
                cpu: final(self)@.cpu,
                ticks: final(self)@.ticks,
                ..old(self)@
            }),
            2 <= final(self)@.ticks <= 7,
            final(self)@ == spec_instruction(old(self)@),
    {
        proof {
            crate::interp::lemma_instr_rmw(old(self)@, opcode);
        }
        match opcode {
            // ROL accumulator
            0x2A => {
                let a: u8 = self.cpu.acc;
                let r: u8 = self.cpu.do_rol(a);
                self.cpu.acc = r;
                self.cpu.incr_pc(1);
                self.clock_ticks = 2;
            }
            // ROL zp
            0x26 => {
                let addr: u16 = self.get_addr_zeropage();
                let value: u8 = self.peek(addr);
                let r: u8 = self.cpu.do_rol(value);
                self.poke(addr, r);
                self.cpu.incr_pc(2);
                self.clock_ticks = 5;
            }
            // ROL zpx
            0x36 => {
                let addr: u16 = self.get_addr_zeropage_x();
                let value: u8 = self.peek(addr);
                let r: u8 = self.cpu.do_rol(value);
                self.poke(addr, r);
                self.cpu.incr_pc(2);
                self.clock_ticks = 6;
            }
            // ROL abs
            0x2E => {
                let addr: u16 = self.get_addr_absolute();
                let value: u8 = self.peek(addr);
                let r: u8 = self.cpu.do_rol(value);
                self.poke(addr, r);
                self.cpu.incr_pc(3);
                self.clock_ticks = 6;
            }
            // ROL absx
            0x3E => {
                let addr: u16 = self.get_addr_absolute_x();
                let value: u8 = self.peek(addr);
                let r: u8 = self.cpu.do_rol(value);
                self.poke(addr, r);
                self.cpu.incr_pc(3);
                self.clock_ticks = 7;
            }
            _ => {
                // unreachable: the precondition admits only the rows above
                proof {
                    assert(false);
                }
            }
        }
    }

    /// One opcode of this row of the instruction set.
    #[verifier::rlimit(100)]
    #[verifier::spinoff_prover]
    fn exec_ror_ops(&mut self, opcode: u8)
        requires
            sizes_wf(old(self)@),
            opcode == 0x66 || opcode == 0x6A || opcode == 0x6E || opcode == 0x76 || opcode == 0x7E,
            opcode == spec_read(old(self)@, old(self)@.cpu.pc),
        ensures
            sizes_wf(final(self)@),
            final(self)@ == (MachineView {
                mem: final(self)@.mem,
                rom_on: final(self)@.rom_on,
                cfg: final(self)@.cfg,
                t_on: final(self)@.t_on,
                cpu: final(self)@.cpu,
                ticks: final(self)@.ticks,
                ..old(self)@
            }),
            2 <= final(self)@.ticks <= 7,
            final(self)@ == spec_instruction(old(self)@),
    {
        proof {
            crate::interp::lemma_instr_rmw(old(self)@, opcode);
        }
        match opcode {
            // ROR accumulator
            0x6A => {
                let a: u8 = self.cpu.acc;
                let r: u8 = self.cpu.do_ror(a);
                self.cpu.acc = r;
                self.cpu.incr_pc(1);
                self.clock_ticks = 2;
            }
            // ROR zp
            0x66 => {
                let addr: u16 = self.get_addr_zeropage();
                let value: u8 = self.peek(addr);
                let r: u8 = self.cpu.do_ror(value);
                self.poke(addr, r);
                self.cpu.incr_pc(2);
                self.clock_ticks = 5;
            }
            // ROR zpx
            0x76 => {
                let addr: u16 = self.get_addr_zeropage_x();
                let value: u8 = self.peek(addr);
                let r: u8 = self.cpu.do_ror(value);
                self.poke(addr, r);
                self.cpu.incr_pc(2);
                self.clock_ticks = 6;
            }
            // ROR abs
            0x6E => {
                let addr: u16 = self.get_addr_absolute();
                let value: u8 = self.peek(addr);
                let r: u8 = self.cpu.do_ror(value);
                self.poke(addr, r);
                self.cpu.incr_pc(3);
                self.clock_ticks = 6;
            }
            // ROR absx
            0x7E => {
                let addr: u16 = self.get_addr_absolute_x();
                let value: u8 = self.peek(addr);
                let r: u8 = self.cpu.do_ror(value);
                self.poke(addr, r);
                self.cpu.incr_pc(3);
                self.clock_ticks = 7;
            }
            _ => {
                // unreachable: the precondition admits only the rows above
                proof {
                    assert(false);
                }
            }
        }
    }

    /// One opcode of this row of the instruction set.
    #[verifier::rlimit(100)]
    #[verifier::spinoff_prover]
    fn exec_inc_dec(&mut self, opcode: u8)
        requires
            sizes_wf(old(self)@),
            opcode == 0xC6 || opcode == 0xCE || opcode == 0xD6 || opcode == 0xDE || opcode == 0xE6
            || opcode == 0xEE || opcode == 0xF6 || opcode == 0xFE,
            opcode == spec_read(old(self)@, old(self)@.cpu.pc),
        ensures
            sizes_wf(final(self)@),
            final(self)@ == (MachineView {
                mem: final(self)@.mem,
                rom_on: final(self)@.rom_on,
                cfg: final(self)@.cfg,
                t_on: final(self)@.t_on,
                cpu: final(self)@.cpu,
                ticks: final(self)@.ticks,
                ..old(self)@
            }),
            2 <= final(self)@.ticks <= 7,
            final(self)@ == spec_instruction(old(self)@),
    {
        proof {
            crate::interp::lemma_instr_rmw(old(self)@, opcode);
        }
        match opcode {
            // INC zp
            0xE6 => {
                let addr: u16 = self.get_addr_zeropage();
                let value: u8 = self.peek(addr);
                let r: u8 = value.wrapping_add(1);
                self.cpu.neg_flag(r);
                self.cpu.zero_flag(r);
                self.poke(addr, r);
                self.cpu.incr_pc(2);
                self.clock_ticks = 5;
            }
            // INC zpx
            0xF6 => {
                let addr: u16 = self.get_addr_zeropage_x();
                let value: u8 = self.peek(addr);
                let r: u8 = value.wrapping_add(1);
                self.cpu.neg_flag(r);
                self.cpu.zero_flag(r);
                self.poke(addr, r);
                self.cpu.incr_pc(2);
                self.clock_ticks = 6;
            }
            // INC abs
            0xEE => {
                let addr: u16 = self.get_addr_absolute();
                let value: u8 = self.peek(addr);
                let r: u8 = value.wrapping_add(1);
                self.cpu.neg_flag(r);
                self.cpu.zero_flag(r);
                self.poke(addr, r);
                self.cpu.incr_pc(3);
                self.clock_ticks = 6;
            }
            // INC absx
            0xFE => {
                let addr: u16 = self.get_addr_absolute_x();
                let value: u8 = self.peek(addr);
                let r: u8 = value.wrapping_add(1);
                self.cpu.neg_flag(r);
                self.cpu.zero_flag(r);
                self.poke(addr, r);
                self.cpu.incr_pc(3);
                self.clock_ticks = 7;
            }
            // DEC zp
            0xC6 => {
                let addr: u16 = self.get_addr_zeropage();
                let value: u8 = self.peek(addr);
                let r: u8 = value.wrapping_sub(1);
                self.cpu.neg_flag(r);
                self.cpu.zero_flag(r);
                self.poke(addr, r);
                self.cpu.incr_pc(2);
                self.clock_ticks = 5;
            }
            // DEC zpx
            0xD6 => {
                let addr: u16 = self.get_addr_zeropage_x();
                let value: u8 = self.peek(addr);
                let r: u8 = value.wrapping_sub(1);
                self.cpu.neg_flag(r);
                self.cpu.zero_flag(r);
                self.poke(addr, r);
                self.cpu.incr_pc(2);
                self.clock_ticks = 6;
            }
            // DEC abs
            0xCE => {
                let addr: u16 = self.get_addr_absolute();
                let value: u8 = self.peek(addr);
                let r: u8 = value.wrapping_sub(1);
                self.cpu.neg_flag(r);
                self.cpu.zero_flag(r);
                self.poke(addr, r);
                self.cpu.incr_pc(3);
                self.clock_ticks = 6;
            }
            // DEC absx
            0xDE => {
                let addr: u16 = self.get_addr_absolute_x();
                let value: u8 = self.peek(addr);
                let r: u8 = value.wrapping_sub(1);
                self.cpu.neg_flag(r);
                self.cpu.zero_flag(r);
                self.poke(addr, r);
                self.cpu.incr_pc(3);
                self.clock_ticks = 7;
            }
            _ => {
                // unreachable: the precondition admits only the rows above
                proof {
                    assert(false);
                }
            }
        }
    }

    /// One opcode of this row of the instruction set.
    #[verifier::rlimit(100)]
    #[verifier::spinoff_prover]
    fn exec_stack_jump(&mut self, opcode: u8)
        requires
            sizes_wf(old(self)@),
            opcode == 0x08 || opcode == 0x20 || opcode == 0x28 || opcode == 0x40 || opcode == 0x48
            || opcode == 0x4C || opcode == 0x60 || opcode == 0x68 || opcode == 0x6C,
            opcode == spec_read(old(self)@, old(self)@.cpu.pc),
        ensures
            sizes_wf(final(self)@),
            final(self)@ == (MachineView {
                mem: final(self)@.mem,
                rom_on: final(self)@.rom_on,
                cfg: final(self)@.cfg,
                t_on: final(self)@.t_on,
                cpu: final(self)@.cpu,
                ticks: final(self)@.ticks,
                ..old(self)@
            }),
            2 <= final(self)@.ticks <= 7,
            final(self)@ == spec_instruction(old(self)@),
    {
        proof {
            crate::interp::lemma_instr_flow(old(self)@, opcode);
        }
        match opcode {
            // PHA
            0x48 => {
                let a: u8 = self.cpu.acc;
                self.push(a);
                self.cpu.incr_pc(1);
                self.clock_ticks = 3;
            }
            // PLA
            0x68 => {
                let value: u8 = self.pull();
                self.cpu.acc = value;
                self.cpu.z = value == 0;
                self.cpu.n = (value & 0x80) != 0;
                self.cpu.incr_pc(1);
                self.clock_ticks = 4;
            }
            // PHP
            0x08 => {
                let f: u8 = self.get_flags();
                self.push(f);
                self.cpu.incr_pc(1);
                self.clock_ticks = 3;
            }
            // PLP
            0x28 => {
                let f: u8 = self.pull();
                self.set_flags(f);
                self.cpu.incr_pc(1);
                self.clock_ticks = 4;
            }
            // JMP absolute
            0x4C => {
                let addr: u16 = self.get_addr_absolute();
                self.cpu.pc = addr;
                self.clock_ticks = 3;
            }
            // JMP indirect
            0x6C => {
                let addr: u16 = self.get_addr_absolute();
                let lo: u16 = self.peek(addr) as u16;
                let hi: u16 = self.peek(addr.wrapping_add(1)) as u16;
                self.cpu.pc = lo + hi * 256;
                self.clock_ticks = 5;
            }
            // JSR
            0x20 => {
                let target: u16 = self.get_addr_absolute();
                let ret_addr: u16 = self.cpu.pc.wrapping_add(2);
                self.push_word(ret_addr);
                self.cpu.pc = target;
                self.clock_ticks = 6;
            }
            // RTS
            0x60 => {
                let addr: u16 = self.pull_word();
                self.cpu.pc = addr.wrapping_add(1);
                self.clock_ticks = 6;
            }
            // RTI
            0x40 => {
                let f: u8 = self.pull();
                self.set_flags(f);
                let addr: u16 = self.pull_word();
                self.cpu.pc = addr;
                self.clock_ticks = 6;
                self.cpu.i = false;
            }
            _ => {
                // unreachable: the precondition admits only the rows above
                proof {
                    assert(false);
                }
            }
        }
    }

    /// One opcode of this row of the instruction set.
    #[verifier::rlimit(100)]
    #[verifier::spinoff_prover]
    fn exec_branch_brk(&mut self, opcode: u8)
        requires
            sizes_wf(old(self)@),
            opcode == 0x00 || opcode == 0x10 || opcode == 0x30 || opcode == 0x50 || opcode == 0x70
            || opcode == 0x90 || opcode == 0xB0 || opcode == 0xD0 || opcode == 0xF0,
            opcode == spec_read(old(self)@, old(self)@.cpu.pc),
        ensures
            sizes_wf(final(self)@),
            final(self)@ == (MachineView {
                mem: final(self)@.mem,
                rom_on: final(self)@.rom_on,
                cfg: final(self)@.cfg,
                t_on: final(self)@.t_on,
                cpu: final(self)@.cpu,
                ticks: final(self)@.ticks,
                ..old(self)@
            }),
            2 <= final(self)@.ticks <= 7,
            final(self)@ == spec_instruction(old(self)@),
    {
        proof {
            crate::interp::lemma_instr_flow(old(self)@, opcode);
        }
        match opcode {
            // BCC
            0x90 => {
                let off: u8 = self.peek(self.cpu.pc.wrapping_add(1));
                self.cpu.incr_pc(2);
                if !self.cpu.c {
                    let delta: i16 = off as i16 - (if off >= 128 {
                        256
                    } else {
                        0
                    });
                    self.cpu.pc = self.cpu.pc.wrapping_add_signed(delta);
                    self.clock_ticks = 3;
                } else {
                    self.clock_ticks = 2;
                }
            }
            // BCS
            0xB0 => {
                let off: u8 = self.peek(self.cpu.pc.wrapping_add(1));
                self.cpu.incr_pc(2);
                if self.cpu.c {
                    let delta: i16 = off as i16 - (if off >= 128 {
                        256
                    } else {
                        0
                    });
                    self.cpu.pc = self.cpu.pc.wrapping_add_signed(delta);
                    self.clock_ticks = 3;
                } else {
                    self.clock_ticks = 2;
                }
            }
            // BEQ
            0xF0 => {
                let off: u8 = self.peek(self.cpu.pc.wrapping_add(1));
                self.cpu.incr_pc(2);
                if self.cpu.z {
                    let delta: i16 = off as i16 - (if off >= 128 {
                        256
                    } else {
                        0
                    });
                    self.cpu.pc = self.cpu.pc.wrapping_add_signed(delta);
                    self.clock_ticks = 3;
                } else {
                    self.clock_ticks = 2;
                }
            }
            // BNE
            0xD0 => {
                let off: u8 = self.peek(self.cpu.pc.wrapping_add(1));
                self.cpu.incr_pc(2);
                if !self.cpu.z {
                    let delta: i16 = off as i16 - (if off >= 128 {
                        256
                    } else {
                        0
                    });
                    self.cpu.pc = self.cpu.pc.wrapping_add_signed(delta);
                    self.clock_ticks = 3;
                } else {
                    self.clock_ticks = 2;
                }
            }
            // BMI
            0x30 => {
                let off: u8 = self.peek(self.cpu.pc.wrapping_add(1));
                self.cpu.incr_pc(2);
                if self.cpu.n {
                    let delta: i16 = off as i16 - (if off >= 128 {
                        256
                    } else {
                        0
                    });
                    self.cpu.pc = self.cpu.pc.wrapping_add_signed(delta);
                    self.clock_ticks = 3;
                } else {
                    self.clock_ticks = 2;
                }
            }
            // BPL
            0x10 => {
                let off: u8 = self.peek(self.cpu.pc.wrapping_add(1));
                self.cpu.incr_pc(2);
                if !self.cpu.n {
                    let delta: i16 = off as i16 - (if off >= 128 {
                        256
                    } else {
                        0
                    });
                    self.cpu.pc = self.cpu.pc.wrapping_add_signed(delta);
                    self.clock_ticks = 3;
                } else {
                    self.clock_ticks = 2;
                }
            }
            // BVC
            0x50 => {
                let off: u8 = self.peek(self.cpu.pc.wrapping_add(1));
                self.cpu.incr_pc(2);
                if !self.cpu.v {
                    let delta: i16 = off as i16 - (if off >= 128 {
                        256
                    } else {
                        0
                    });
                    self.cpu.pc = self.cpu.pc.wrapping_add_signed(delta);
                    self.clock_ticks = 3;
                } else {
                    self.clock_ticks = 2;
                }
            }
            // BVS
            0x70 => {
                let off: u8 = self.peek(self.cpu.pc.wrapping_add(1));
                self.cpu.incr_pc(2);
                if self.cpu.v {
                    let delta: i16 = off as i16 - (if off >= 128 {
                        256
                    } else {
                        0
                    });
                    self.cpu.pc = self.cpu.pc.wrapping_add_signed(delta);
                    self.clock_ticks = 3;
                } else {
                    self.clock_ticks = 2;
                }
            }
            // BRK
            0x00 => {
                self.cpu.i = true;
                self.cpu.b = true;
                let ret: u16 = self.cpu.pc.wrapping_add(2);
                self.push_word(ret);
                let f: u8 = self.get_flags();
                self.push(f);
                let v: u16 = self.irq_vector();
                self.cpu.pc = v;
                self.clock_ticks = 7;
            }
            _ => {
                // unreachable: the precondition admits only the rows above
                proof {
                    assert(false);
                }
            }
        }
    }

    /// Execute one of the register loads LDA, LDX and LDY.
    fn exec_loads(&mut self, opcode: u8)
        requires
            sizes_wf(old(self)@),
            is_load_op(opcode),
            opcode == spec_read(old(self)@, old(self)@.cpu.pc),
        ensures
            sizes_wf(final(self)@),
            final(self)@ == (MachineView {
                mem: final(self)@.mem,
                rom_on: final(self)@.rom_on,
                cfg: final(self)@.cfg,
                t_on: final(self)@.t_on,
                cpu: final(self)@.cpu,
                ticks: final(self)@.ticks,
                ..old(self)@
            }),
            2 <= final(self)@.ticks <= 7,
            final(self)@ == spec_instruction(old(self)@),
    {
        if opcode == 0xA1 || opcode == 0xA5 || opcode == 0xA9 || opcode == 0xAD || opcode == 0xB1
        || opcode == 0xB5 || opcode == 0xB9 || opcode == 0xBD {
            self.exec_lda(opcode);
        } else if opcode == 0xA2 || opcode == 0xA6 || opcode == 0xAE || opcode == 0xB6 || opcode == 0xBE {
            self.exec_ldx(opcode);
        } else {
            self.exec_ldy(opcode);
        }
    }

    /// Execute one of the register stores STA, STX and STY.
    fn exec_stores(&mut self, opcode: u8)
        requires
            sizes_wf(old(self)@),
            is_store_op(opcode),
            opcode == spec_read(old(self)@, old(self)@.cpu.pc),
        ensures
            sizes_wf(final(self)@),
            final(self)@ == (MachineView {
                mem: final(self)@.mem,
                rom_on: final(self)@.rom_on,
                cfg: final(self)@.cfg,
                t_on: final(self)@.t_on,
                cpu: final(self)@.cpu,
                ticks: final(self)@.ticks,
                ..old(self)@
            }),
            2 <= final(self)@.ticks <= 7,
            final(self)@ == spec_instruction(old(self)@),
    {
        if opcode == 0x81 || opcode == 0x85 || opcode == 0x8D || opcode == 0x91 || opcode == 0x95
        || opcode == 0x99 || opcode == 0x9D {
            self.exec_sta(opcode);
        } else {
            self.exec_stx_sty(opcode);
        }
    }

    /// Execute one of the implied-mode register moves, flag operations and NOPs.
    fn exec_implied(&mut self, opcode: u8)
        requires
            sizes_wf(old(self)@),
            is_implied_op(opcode),
            opcode == spec_read(old(self)@, old(self)@.cpu.pc),
        ensures
            sizes_wf(final(self)@),
            final(self)@ == (MachineView {
                mem: final(self)@.mem,
                rom_on: final(self)@.rom_on,
                cfg: final(self)@.cfg,
                t_on: final(self)@.t_on,
                cpu: final(self)@.cpu,
                ticks: final(self)@.ticks,
                ..old(self)@
            }),
            2 <= final(self)@.ticks <= 7,
            final(self)@ == spec_instruction(old(self)@),
    {
        if opcode == 0x88 || opcode == 0x8A || opcode == 0x98 || opcode == 0x9A || opcode == 0xA8
        || opcode == 0xAA || opcode == 0xBA || opcode == 0xC8 || opcode == 0xCA || opcode == 0xE8 {
            self.exec_moves(opcode);
        } else if opcode == 0x18 || opcode == 0x38 || opcode == 0x58 || opcode == 0x78 || opcode == 0xB8
        || opcode == 0xD8 || opcode == 0xF8 {
            self.exec_flag_ops(opcode);
        } else {
            self.exec_nop_ops(opcode);
        }
    }

    /// Execute one of the bitwise AND, ORA and EOR forms.
    fn exec_logic(&mut self, opcode: u8)
        requires
            sizes_wf(old(self)@),
            is_logic_op(opcode),
            opcode == spec_read(old(self)@, old(self)@.cpu.pc),
        ensures
            sizes_wf(final(self)@),
            final(self)@ == (MachineView {
                mem: final(self)@.mem,
                rom_on: final(self)@.rom_on,
                cfg: final(self)@.cfg,
                t_on: final(self)@.t_on,
                cpu: final(self)@.cpu,
                ticks: final(self)@.ticks,
                ..old(self)@
            }),
            2 <= final(self)@.ticks <= 7,
            final(self)@ == spec_instruction(old(self)@),
    {
        if opcode == 0x21 || opcode == 0x25 || opcode == 0x29 || opcode == 0x2D || opcode == 0x31
        || opcode == 0x35 || opcode == 0x39 || opcode == 0x3D {
            self.exec_and_ops(opcode);
        } else if opcode == 0x01 || opcode == 0x05 || opcode == 0x09 || opcode == 0x0D || opcode == 0x11
        || opcode == 0x15 || opcode == 0x19 || opcode == 0x1D {
            self.exec_ora_ops(opcode);
        } else {
            self.exec_eor_ops(opcode);
        }
    }

    /// Execute one of the CMP, CPX, CPY and BIT forms.
    fn exec_compare(&mut self, opcode: u8)
        requires
            sizes_wf(old(self)@),
            is_compare_op(opcode),
            opcode == spec_read(old(self)@, old(self)@.cpu.pc),
        ensures
            sizes_wf(final(self)@),
            final(self)@ == (MachineView {
                mem: final(self)@.mem,
                rom_on: final(self)@.rom_on,
                cfg: final(self)@.cfg,
                t_on: final(self)@.t_on,
                cpu: final(self)@.cpu,
                ticks: final(self)@.ticks,
                ..old(self)@
            }),
            2 <= final(self)@.ticks <= 7,
            final(self)@ == spec_instruction(old(self)@),
    {
        if opcode == 0xC1 || opcode == 0xC5 || opcode == 0xC9 || opcode == 0xCD || opcode == 0xD1
        || opcode == 0xD5 || opcode == 0xD9 || opcode == 0xDD {
            self.exec_cmp_ops(opcode);
        } else {
            self.exec_cpx_cpy_bit(opcode);
        }
    }

    /// Execute one of the ADC and SBC forms.
    fn exec_arith(&mut self, opcode: u8)
        requires
            sizes_wf(old(self)@),
            is_arith_op(opcode),
            opcode == spec_read(old(self)@, old(self)@.cpu.pc),
            !(is_adc_op(opcode) && old(self)@.cpu.d),
        ensures
            sizes_wf(final(self)@),
            final(self)@ == (MachineView {
                mem: final(self)@.mem,
                rom_on: final(self)@.rom_on,
                cfg: final(self)@.cfg,
                t_on: final(self)@.t_on,
                cpu: final(self)@.cpu,
                ticks: final(self)@.ticks,
                ..old(self)@
            }),
            2 <= final(self)@.ticks <= 7,
            final(self)@ == spec_instruction(old(self)@),
    {
        if opcode == 0x61 || opcode == 0x65 || opcode == 0x69 || opcode == 0x6D || opcode == 0x71
        || opcode == 0x75 || opcode == 0x79 || opcode == 0x7D {
            self.exec_adc_ops(opcode);
        } else {
            self.exec_sbc_ops(opcode);
        }
    }

    /// Execute one of the shifts, rotates and memory increments and decrements.
    fn exec_rmw(&mut self, opcode: u8)
        requires
            sizes_wf(old(self)@),
            is_rmw_op(opcode),
            opcode == spec_read(old(self)@, old(self)@.cpu.pc),
        ensures
            sizes_wf(final(self)@),
            final(self)@ == (MachineView {
                mem: final(self)@.mem,
                rom_on: final(self)@.rom_on,
                cfg: final(self)@.cfg,
                t_on: final(self)@.t_on,
                cpu: final(self)@.cpu,
                ticks: final(self)@.ticks,
                ..old(self)@
            }),
            2 <= final(self)@.ticks <= 7,
            final(self)@ == spec_instruction(old(self)@),
    {
        if opcode == 0x06 || opcode == 0x0A || opcode == 0x0E || opcode == 0x16 || opcode == 0x1E {
            self.exec_asl_ops(opcode);
        } else if opcode == 0x46 || opcode == 0x4A || opcode == 0x4E || opcode == 0x56 || opcode == 0x5E {
            self.exec_lsr_ops(opcode);
        } else if opcode == 0x26 || opcode == 0x2A || opcode == 0x2E || opcode == 0x36 || opcode == 0x3E {
            self.exec_rol_ops(opcode);
        } else if opcode == 0x66 || opcode == 0x6A || opcode == 0x6E || opcode == 0x76 || opcode == 0x7E {
            self.exec_ror_ops(opcode);
        } else {
            self.exec_inc_dec(opcode);
        }
    }

    /// Execute one of the stack, jump, branch and interrupt opcodes.
    fn exec_flow(&mut self, opcode: u8)
        requires
            sizes_wf(old(self)@),
            is_flow_op(opcode),
            opcode == spec_read(old(self)@, old(self)@.cpu.pc),
        ensures
            sizes_wf(final(self)@),
            final(self)@ == (MachineView {
                mem: final(self)@.mem,
                rom_on: final(self)@.rom_on,
                cfg: final(self)@.cfg,
                t_on: final(self)@.t_on,
                cpu: final(self)@.cpu,
                ticks: final(self)@.ticks,
                ..old(self)@
            }),
            2 <= final(self)@.ticks <= 7,
            final(self)@ == spec_instruction(old(self)@),
    {
        if opcode == 0x08 || opcode == 0x20 || opcode == 0x28 || opcode == 0x40 || opcode == 0x48
        || opcode == 0x4C || opcode == 0x60 || opcode == 0x68 || opcode == 0x6C {
            self.exec_stack_jump(opcode);
        } else {
            self.exec_branch_brk(opcode);
        }
    }

    /// Execute the instruction at PC: decode the opcode, perform the
    /// addressing-mode fetches against the bus, apply the ALU and bus
    /// effects, advance PC past the instruction and record its cycle count.
    ///
    /// ADC in decimal mode is refused with the machine untouched; a byte
    /// outside the executed set advances PC one byte and reports an unknown
    /// opcode.  Either way the memories, timing and frame buffer the
    /// instruction does not address stay exactly as they were, and the
    /// flow-control and stack opcodes follow their spec transitions.
    pub fn execute_instruction(&mut self) -> (r: Result<(), EmuError>)
        requires
            old(self).wf(),
        ensures
            final(self).wf(),
            final(self)@ == (MachineView {
                mem: final(self)@.mem,
                rom_on: final(self)@.rom_on,
                cfg: final(self)@.cfg,
                t_on: final(self)@.t_on,
                cpu: final(self)@.cpu,
                ticks: final(self)@.ticks,
                ..old(self)@
            }),
            r != Err::<(), EmuError>(EmuError::UnsupportedMode) ==> 2 <= final(self)@.ticks <= 7,
            ({
                let op = spec_read(old(self)@, old(self)@.cpu.pc);
                &&& (r == Err::<(), EmuError>(EmuError::UnsupportedMode) <==> is_adc_op(op)
                    && old(self)@.cpu.d)
                &&& (r == Err::<(), EmuError>(EmuError::UnknownOpcode) <==> !is_documented(op))
                &&& (is_documented(op) && !(is_adc_op(op) && old(self)@.cpu.d) ==> r == Ok::<
                    (),
                    EmuError,
                >(()))
                &&& (r == Err::<(), EmuError>(EmuError::UnsupportedMode) ==> final(self)@
                    == old(self)@)
                &&& (!(is_adc_op(op) && old(self)@.cpu.d) ==> final(self)@ == spec_instruction(
                    old(self)@,
                ))
            }),
    {
        let opcode: u8 = self.peek(self.cpu.pc);
        if self.cpu.d && (opcode == 0x69 || opcode == 0x65 || opcode == 0x75 || opcode == 0x6D
            || opcode == 0x7D || opcode == 0x79 || opcode == 0x61 || opcode == 0x71) {
            return Err(EmuError::UnsupportedMode);
        }
        if opcode == 0xA0 || opcode == 0xA1 || opcode == 0xA2 || opcode == 0xA4 || opcode == 0xA5
            || opcode == 0xA6 || opcode == 0xA9 || opcode == 0xAC || opcode == 0xAD || opcode == 0xAE
            || opcode == 0xB1 || opcode == 0xB4 || opcode == 0xB5 || opcode == 0xB6 || opcode == 0xB9
            || opcode == 0xBC || opcode == 0xBD || opcode == 0xBE {
            self.exec_loads(opcode);
        } else if opcode == 0x81 || opcode == 0x84 || opcode == 0x85 || opcode == 0x86 || opcode == 0x8C
            || opcode == 0x8D || opcode == 0x8E || opcode == 0x91 || opcode == 0x94 || opcode == 0x95
            || opcode == 0x96 || opcode == 0x99 || opcode == 0x9D {
            self.exec_stores(opcode);
        } else if opcode == 0x07 || opcode == 0x18 || opcode == 0x1A || opcode == 0x38 || opcode == 0x3A
            || opcode == 0x3F || opcode == 0x58 || opcode == 0x5A || opcode == 0x78 || opcode == 0x7A
            || opcode == 0x7F || opcode == 0x88 || opcode == 0x8A || opcode == 0x98 || opcode == 0x9A
            || opcode == 0xA8 || opcode == 0xAA || opcode == 0xB8 || opcode == 0xBA || opcode == 0xC8
            || opcode == 0xCA || opcode == 0xD8 || opcode == 0xDA || opcode == 0xE8 || opcode == 0xEA
            || opcode == 0xF8 || opcode == 0xFA || opcode == 0xFC {
            self.exec_implied(opcode);
        } else if opcode == 0x01 || opcode == 0x05 || opcode == 0x09 || opcode == 0x0D || opcode == 0x11
            || opcode == 0x15 || opcode == 0x19 || opcode == 0x1D || opcode == 0x21 || opcode == 0x25
            || opcode == 0x29 || opcode == 0x2D || opcode == 0x31 || opcode == 0x35 || opcode == 0x39
            || opcode == 0x3D || opcode == 0x41 || opcode == 0x45 || opcode == 0x49 || opcode == 0x4D
            || opcode == 0x51 || opcode == 0x55 || opcode == 0x59 || opcode == 0x5D {
            self.exec_logic(opcode);
        } else if opcode == 0x24 || opcode == 0x2C || opcode == 0xC0 || opcode == 0xC1 || opcode == 0xC4
            || opcode == 0xC5 || opcode == 0xC9 || opcode == 0xCC || opcode == 0xCD || opcode == 0xD1
            || opcode == 0xD5 || opcode == 0xD9 || opcode == 0xDD || opcode == 0xE0 || opcode == 0xE4
            || opcode == 0xEC {
            self.exec_compare(opcode);
        } else if opcode == 0x61 || opcode == 0x65 || opcode == 0x69 || opcode == 0x6D || opcode == 0x71
            || opcode == 0x75 || opcode == 0x79 || opcode == 0x7D || opcode == 0xE1 || opcode == 0xE5
            || opcode == 0xE9 || opcode == 0xED || opcode == 0xF1 || opcode == 0xF5 || opcode == 0xF9
            || opcode == 0xFD {
            self.exec_arith(opcode);
        } else if opcode == 0x06 || opcode == 0x0A || opcode == 0x0E || opcode == 0x16 || opcode == 0x1E
            || opcode == 0x26 || opcode == 0x2A || opcode == 0x2E || opcode == 0x36 || opcode == 0x3E
            || opcode == 0x46 || opcode == 0x4A || opcode == 0x4E || opcode == 0x56 || opcode == 0x5E
            || opcode == 0x66 || opcode == 0x6A || opcode == 0x6E || opcode == 0x76 || opcode == 0x7E
            || opcode == 0xC6 || opcode == 0xCE || opcode == 0xD6 || opcode == 0xDE || opcode == 0xE6
            || opcode == 0xEE || opcode == 0xF6 || opcode == 0xFE {
            self.exec_rmw(opcode);
        } else if opcode == 0x00 || opcode == 0x08 || opcode == 0x10 || opcode == 0x20 || opcode == 0x28
            || opcode == 0x30 || opcode == 0x40 || opcode == 0x48 || opcode == 0x4C || opcode == 0x50
            || opcode == 0x60 || opcode == 0x68 || opcode == 0x6C || opcode == 0x70 || opcode == 0x90
            || opcode == 0xB0 || opcode == 0xD0 || opcode == 0xF0 {
            self.exec_flow(opcode);
        } else {
            // An undocumented byte outside the NOP list: recover locally by
            // stepping over it.
            proof {
                crate::interp::lemma_instr_unknown(old(self)@, opcode);
            }
            self.cpu.incr_pc(1);
            self.clock_ticks = 2;
            return Err(EmuError::UnknownOpcode);
        }
        Ok(())
    }
}

/// A write anywhere in the bank-select window sets the ROM configuration to
/// the low nibble of the address.
pub proof fn lemma_bank_select(m: MachineView, addr: u16, v: u8)
    requires
        0xFDD0 <= addr <= 0xFDDF,
    ensures
        spec_poke(m, addr, v).cfg == addr & 0xF,
{
    assert(addr % 16 == addr & 0xF) by (bit_vector);
}

/// Writes to 0xFF3E and 0xFF3F switch ROM visibility on and off, and a
/// subsequent read of a ROM-covered address reflects the switch: with ROM
/// on the selected bank is served, with ROM off the underlying RAM byte is.
pub proof fn lemma_rom_switch_visibility(m: MachineView, v: u8, a: u16)
    requires
        view_wf(m),
        0x8000 <= a < 0xC000,
    ensures
        spec_poke(m, 0xFF3E, v).rom_on,
        !spec_poke(m, 0xFF3F, v).rom_on,
        spec_read(spec_poke(m, 0xFF3E, v), a) == (if m.cfg & 3 == 0 {
            m.rom[a - 0x8000]
        } else if m.cfg & 3 == 1 {
            m.sec[a - 0x8000]
        } else {
            0u8
        }),
        spec_read(spec_poke(m, 0xFF3F, v), a) == m.mem[a as int],
{
}

/// A byte written into an I/O window is read back unchanged, except at the
/// derived matrix response 0xFF08 and at the interrupt request register
/// 0xFF09, whose write acknowledges pending bits instead of storing.
pub proof fn lemma_io_write_readable(m: MachineView, a: u16, v: u8)
    requires
        view_wf(m),
        (0xFD00 <= a <= 0xFDFF) || (0xFF00 <= a <= 0xFF3F),
        a != 0xFF08,
        a != 0xFF09,
    ensures
        spec_read(spec_poke(m, a, v), a) == v,
{
}

/// A write to the interrupt request register acknowledges pending bits:
/// exactly the bits set in the written value are cleared, and the pending
/// bits not named in the write stay pending.
pub proof fn lemma_irr_acknowledge(m: MachineView, v: u8)
    requires
        view_wf(m),
    ensures
        spec_poke(m, 0xFF09, v).mem[0xFF09] == m.mem[0xFF09] & !v,
        spec_read(spec_poke(m, 0xFF09, v), 0xFF09) == m.mem[0xFF09] & !v,
{
}

/// A write to 0xFF08 never stores the written byte there: the location
/// holds the derived matrix response, whatever was written.
pub proof fn lemma_matrix_response_derived(m: MachineView, v: u8)
    requires
        view_wf(m),
    ensures
        spec_poke(m, 0xFF08, v).mem[0xFF08] == key_response(m.keys, m.mem[0xFD30]),
        spec_read(spec_poke(m, 0xFF08, v), 0xFF08) == key_response(m.keys, m.mem[0xFD30]),
{
}


/// The clock multiplier: two in double-clock mode (bit 4 of 0xFF06), one
/// otherwise.
pub open spec fn clock_mult(m: MachineView) -> u32 {
    if m.mem[0xFF06] & 16 != 0 {
        2u32
    } else {
        1u32
    }
}

/// The cursor-blink bookkeeping: the counter accumulates the instruction's
/// cycles times the clock multiplier and, on reaching the blink interval,
/// resets and toggles the phase.
pub open spec fn spec_flash(m: MachineView) -> MachineView {
    if m.flash_count + m.ticks * clock_mult(m) >= TICKS_PER_BLINK_INTERVAL {
        MachineView { flash_count: 0u32, flash_on: !m.flash_on, ..m }
    } else {
        MachineView { flash_count: (m.flash_count + m.ticks * clock_mult(m)) as u32, ..m }
    }
}

/// The 16-bit value of a timer, little-endian in its register pair.
pub open spec fn timer_value(m: MachineView, i: int) -> u16 {
    word16(m.mem[0xFF00 + 2 * i], m.mem[0xFF01 + 2 * i])
}

/// One timer's countdown: an enabled timer loses `dt`, wrapping, overflows
/// exactly when its value was below `dt`, and the first timer additionally
/// loses the reload offset 0xC60E on overflow; a disabled timer only has
/// its overflow edge cleared.
pub open spec fn spec_timer_countdown(m: MachineView, i: int, dt: u16) -> MachineView {
    if m.t_on[i] {
        let v = timer_value(m, i);
        let ovf = v < dt;
        let nv = if ovf && i == 0 {
            v.wrapping_sub(dt).wrapping_sub(0xC60E)
        } else {
            v.wrapping_sub(dt)
        };
        MachineView {
            mem: m.mem.update(0xFF00 + 2 * i, (nv % 256) as u8).update(
                0xFF01 + 2 * i,
                (nv / 256) as u8,
            ),
            t_ovf: m.t_ovf.update(i, ovf),
            ..m
        }
    } else {
        MachineView { t_ovf: m.t_ovf.update(i, false), ..m }
    }
}

/// The interrupt-request bit of each timer: bits 3, 4 and 6.
pub open spec fn timer_irq_bit(i: int) -> u8 {
    if i == 0 {
        8u8
    } else if i == 1 {
        16u8
    } else {
        64u8
    }
}

/// Taking an interrupt: PC is pushed high byte first, then the status byte
/// with B clear as a hardware interrupt pushes it, I is set, and control
/// vectors through the IRQ vector of the system ROM.
pub open spec fn spec_irq_service(m: MachineView) -> MachineView {
    MachineView {
        mem: m.mem.update(0x100 + m.cpu.sp, (m.cpu.pc / 256) as u8).update(
            0x100 + m.cpu.sp.wrapping_sub(1),
            (m.cpu.pc % 256) as u8,
        ).update(0x100 + m.cpu.sp.wrapping_sub(2), flags_to_byte(m.cpu) & 0xEF),
        cpu: (CpuState {
            i: true,
            pc: word16(m.rom[0x7FFE], m.rom[0x7FFF]),
            sp: m.cpu.sp.wrapping_sub(3),
            ..m.cpu
        }),
        ..m
    }
}

/// A timer that overflowed raises its request bit together with the master
/// bit; the interrupt is taken when I is clear and the mask register
/// enables that timer.
pub open spec fn spec_timer_irq(m: MachineView, i: int) -> MachineView {
    if m.t_on[i] && m.t_ovf[i] {
        let bit = timer_irq_bit(i);
        let m1 = MachineView { mem: m.mem.update(0xFF09, m.mem[0xFF09] | bit | 128), ..m };
        if !m.cpu.i && m.mem[0xFF0A] & bit != 0 {
            spec_irq_service(m1)
        } else {
            m1
        }
    } else {
        m
    }
}

/// The 9-bit raster-compare line: bit 0 of the mask register above the low
/// byte in 0xFF0B.
pub open spec fn raster_compare(m: MachineView) -> int {
    (m.mem[0xFF0A] & 1) * 256 + m.mem[0xFF0B]
}

/// The video matrix base address.
pub open spec fn vm_base(m: MachineView) -> int {
    (m.mem[0xFF14] & 0xF8) * 256
}

/// The character generator base address.
pub open spec fn charset_base(m: MachineView) -> int {
    (m.mem[0xFF13] & 0xFC) * 256
}

/// The cursor cell, an offset into the video matrix.
pub open spec fn cursor_addr(m: MachineView) -> int {
    m.mem[0xFF0C] * 256 + m.mem[0xFF0D]
}

/// A character generator fetch: from the system ROM when bit 2 of 0xFF12
/// is set (addresses outside the ROM window read as zero), from RAM
/// otherwise.
pub open spec fn char_fetch(m: MachineView, addr: int) -> u8 {
    if m.mem[0xFF12] & 4 != 0 {
        if 0x8000 <= addr && addr < 0x10000 {
            m.rom[addr - 0x8000]
        } else {
            0u8
        }
    } else {
        m.mem[addr % 0x10000]
    }
}

/// The character code of a text cell, with the cursor cell shown in
/// reverse video while the blink phase is on (text mode only).
pub open spec fn text_cell_code(m: MachineView, line: int, col: int) -> u8 {
    let offset = (line / 8) * 40 + col;
    let c = m.mem[(vm_base(m) + 1024 + offset) % 0x10000];
    if cursor_addr(m) == offset && m.flash_on && m.mem[0xFF06] & 32 == 0 {
        c ^ 0x80
    } else {
        c
    }
}

/// The bitmap byte of a text cell's pixel row.  With the 256-character set
/// (bit 7 of 0xFF07) the code indexes the generator directly; in
/// 128-character mode codes above 127 show the inverted bitmap of the code
/// less 128.
pub open spec fn text_cell_data(m: MachineView, line: int, col: int) -> u8 {
    let code = text_cell_code(m, line, col);
    let pr = line % 8;
    if m.mem[0xFF07] & 128 != 0 {
        char_fetch(m, charset_base(m) + code * 8 + pr)
    } else if code > 127 {
        !char_fetch(m, charset_base(m) + (code - 128) * 8 + pr)
    } else {
        char_fetch(m, charset_base(m) + code * 8 + pr)
    }
}

/// One text-mode pixel: the cell's colour where the bitmap bit (MSB first)
/// is set, the background colour elsewhere; both are 7-bit colour indices.
pub open spec fn text_pixel(m: MachineView, line: int, col: int, bit: int) -> u8 {
    let data = text_cell_data(m, line, col);
    if data & (0x80u8 >> bit) != 0 {
        m.mem[(vm_base(m) + (line / 8) * 40 + col) % 0x10000] & 0x7F
    } else {
        m.mem[0xFF15] & 0x7F
    }
}

/// The frame buffer after the current raster line is rendered: only the
/// 200 visible lines draw, bitmap mode yields a black line, text mode
/// yields [`text_pixel`] for each of the 320 positions.
pub open spec fn rendered_frame(m: MachineView) -> Seq<u8> {
    if FIRST_SCREEN_LINE <= m.raster && m.raster < FIRST_SCREEN_LINE + SCREEN_HEIGHT {
        let line = m.raster - FIRST_SCREEN_LINE;
        Seq::new(
            64000,
            |j: int|
                if line * 320 <= j < line * 320 + 320 {
                    if m.mem[0xFF06] & 32 != 0 {
                        0u8
                    } else {
                        text_pixel(m, line, (j - line * 320) / 8, (j - line * 320) % 8)
                    }
                } else {
                    m.pixels[j]
                },
        )
    } else {
        m.pixels
    }
}

/// The raster advance after a line is rendered: the line counter steps
/// modulo 312; when the new line equals the raster compare the raster
/// request bit and the master bit are raised, and the interrupt is taken
/// when I is clear and the mask enables it.
pub open spec fn spec_raster_advance(m: MachineView) -> MachineView {
    let raster2 = if m.raster + 1 >= RASTER_LINES {
        0u32
    } else {
        (m.raster + 1) as u32
    };
    let m1 = MachineView { raster: raster2, ..m };
    if raster2 == raster_compare(m) {
        let m2 = MachineView { mem: m1.mem.update(0xFF09, m1.mem[0xFF09] | 130u8), ..m1 };
        if !m.cpu.i && m.mem[0xFF0A] & 2 != 0 {
            spec_irq_service(m2)
        } else {
            m2
        }
    } else {
        m1
    }
}

/// One whole raster line: render, then advance.
pub open spec fn spec_raster_step(m: MachineView) -> MachineView {
    spec_raster_advance(MachineView { pixels: rendered_frame(m), ..m })
}

/// The TED pass that follows each executed instruction: the clock counter
/// accumulates the instruction's cycles times the clock multiplier, the
/// blink counter advances, the three timers count down and raise their
/// interrupts in order, and once a raster line's budget of 114 cycles is
/// reached the line is rendered and the raster advances.
pub open spec fn spec_ted(m: MachineView) -> MachineView {
    let dt = (m.ticks * clock_mult(m)) as u16;
    let mc = MachineView { counter: (m.counter + m.ticks * clock_mult(m)) as u32, ..m };
    let mf = spec_flash(mc);
    let mt = spec_timer_countdown(
        spec_timer_countdown(spec_timer_countdown(mf, 0, dt), 1, dt),
        2,
        dt,
    );
    let mi = spec_timer_irq(spec_timer_irq(spec_timer_irq(mt, 0), 1), 2);
    if mi.counter >= TICKS_PER_RASTER_LINE {
        spec_raster_step(MachineView { counter: (mi.counter - TICKS_PER_RASTER_LINE) as u32, ..mi })
    } else {
        mi
    }
}

impl Plus4 {
    /// A character generator fetch against the current charset source.
    fn char_fetch_byte(&self, addr: usize) -> (r: u8)
        requires
            sizes_wf(self@),
        ensures
            r == char_fetch(self@, addr as int),
    {
        if self.ram[0xFF12] & 4 != 0 {
            if addr >= 0x8000 && addr < 0x10000 {
                self.rom[addr - 0x8000]
            } else {
                0
            }
        } else {
            self.ram[addr % 0x10000]
        }
    }

    /// Render one visible text line into the frame buffer.
    fn render_text_line(&mut self, line: usize)
        requires
            sizes_wf(old(self)@),
            line < SCREEN_HEIGHT,
        ensures
            sizes_wf(final(self)@),
            old(self).wf() ==> final(self).wf(),
            final(self)@ == (MachineView { pixels: final(self)@.pixels, ..old(self)@ }),
            forall|j: int|
                line * 320 <= j < line * 320 + 320 ==> #[trigger] final(self)@.pixels[j]
                    == text_pixel(
                    old(self)@,
                    line as int,
                    (j - line * 320) / 8,
                    (j - line * 320) % 8,
                ),
            forall|j: int|
                0 <= j < 64000 && !(line * 320 <= j < line * 320 + 320)
                    ==> #[trigger] final(self)@.pixels[j] == old(self)@.pixels[j],
    {
        let ghost m0: MachineView = self@;
        let char_row: usize = line / 8;
        let pixel_row: usize = line % 8;
        let vm: usize = ((self.ram[0xFF14] & 0xF8) as usize) * 256;
        let bg: u8 = self.ram[0xFF15] & 0x7F;
        let cbase: usize = ((self.ram[0xFF13] & 0xFC) as usize) * 256;
        let c256: bool = (self.ram[0xFF07] & 128) != 0;
        let cursor: usize = (self.ram[0xFF0C] as usize) * 256 + self.ram[0xFF0D] as usize;
        let bitmap: bool = (self.ram[0xFF06] & 32) != 0;
        let mut x: usize = 0;
        while x < 320
            invariant
                sizes_wf(self@),
                x <= 320,
                line < SCREEN_HEIGHT,
                self@ == (MachineView { pixels: self@.pixels, ..m0 }),
                char_row == line / 8,
                pixel_row == line % 8,
                vm == vm_base(m0),
                bg == m0.mem[0xFF15] & 0x7F,
                cbase == charset_base(m0),
                c256 == (m0.mem[0xFF07] & 128 != 0),
                cursor == cursor_addr(m0),
                bitmap == (m0.mem[0xFF06] & 32 != 0),
                forall|j: int|
                    line * 320 <= j < line * 320 + x ==> #[trigger] self@.pixels[j] == text_pixel(
                        m0,
                        line as int,
                        (j - line * 320) / 8,
                        (j - line * 320) % 8,
                    ),
                forall|j: int|
                    0 <= j < 64000 && !(line * 320 <= j < line * 320 + x)
                        ==> #[trigger] self@.pixels[j] == m0.pixels[j],
            decreases 320 - x,
        {
            let col: usize = x / 8;
            let bit: usize = x % 8;
            let offset: usize = char_row * 40 + col;
            let code0: u8 = self.ram[(vm + 1024 + offset) % 0x10000];
            let code: u8 = if cursor == offset && self.flash_on && !bitmap {
                code0 ^ 0x80
            } else {
                code0
            };
            let color: u8 = self.ram[(vm + offset) % 0x10000] & 0x7F;
            let data: u8 = if c256 {
                self.char_fetch_byte(cbase + (code as usize) * 8 + pixel_row)
            } else if code > 127 {
                !self.char_fetch_byte(cbase + ((code as usize) - 128) * 8 + pixel_row)
            } else {
                self.char_fetch_byte(cbase + (code as usize) * 8 + pixel_row)
            };
            let px: u8 = if (data & (0x80u8 >> bit)) != 0 {
                color
            } else {
                bg
            };
            self.pixels[line * 320 + x] = px;
            proof {
                assert(x as int / 8 == col && x as int % 8 == bit);
                assert(px == text_pixel(m0, line as int, col as int, bit as int));
            }
            x = x + 1;
        }
    }

    /// Render the current raster line (a no-op off screen, a black line in
    /// bitmap mode), then advance the raster and raise the raster
    /// interrupt when the new line matches the compare register.
    fn render_raster_line(&mut self)
        requires
            sizes_wf(old(self)@),
            old(self)@.raster < RASTER_LINES,
        ensures
            sizes_wf(final(self)@),
            old(self).wf() ==> final(self).wf(),
            final(self)@ == spec_raster_step(old(self)@),
    {
        let ghost m0: MachineView = self@;
        if self.raster_line >= 3 && self.raster_line < 203 {
            let line: usize = (self.raster_line - 3) as usize;
            let bitmap_mode: bool = (self.ram[0xFF06] & 32) != 0;
            if bitmap_mode {
                let mut x: usize = 0;
                while x < 320
                    invariant
                        sizes_wf(self@),
                        x <= 320,
                        line < 200,
                        self@ == (MachineView { pixels: self@.pixels, ..m0 }),
                        forall|j: int|
                            line * 320 <= j < line * 320 + x ==> #[trigger] self@.pixels[j] == 0u8,
                        forall|j: int|
                            0 <= j < 64000 && !(line * 320 <= j < line * 320 + x)
                                ==> #[trigger] self@.pixels[j] == m0.pixels[j],
                    decreases 320 - x,
                {
                    self.pixels[line * 320 + x] = 0;
                    x = x + 1;
                }
            } else {
                self.render_text_line(line);
            }
            proof {
                assert(self@.pixels =~= rendered_frame(m0));
            }
        }
        proof {
            assert(self@ == (MachineView { pixels: rendered_frame(m0), ..m0 }));
        }
        self.raster_line = self.raster_line + 1;
        if self.raster_line >= RASTER_LINES {
            self.raster_line = 0;
        }
        let cmp: u32 = ((self.ram[0xFF0A] & 1) as u32) * 256 + self.ram[0xFF0B] as u32;
        if self.raster_line == cmp {
            let cur: u8 = self.ram[0xFF09];
            self.ram[0xFF09] = cur | 130;
            if !self.cpu.i && (self.ram[0xFF0A] & 2) != 0 {
                self.irq_service();
            }
        }
    }

    /// Take an interrupt now: push PC and the status byte with B clear,
    /// set I and vector through the system ROM's IRQ vector.
    fn irq_service(&mut self)
        requires
            sizes_wf(old(self)@),
        ensures
            sizes_wf(final(self)@),
            old(self).wf() ==> final(self).wf(),
            final(self)@ == spec_irq_service(old(self)@),
    {
        let pc: u16 = self.cpu.pc;
        self.push((pc / 256) as u8);
        self.push((pc % 256) as u8);
        let f: u8 = self.get_flags() & 0xEF;
        self.push(f);
        self.cpu.i = true;
        let v: u16 = self.irq_vector();
        self.cpu.pc = v;
    }

    /// One timer's countdown by `dt` cycles.
    fn timer_countdown(&mut self, i: usize, dt: u16)
        requires
            sizes_wf(old(self)@),
            i < 3,
        ensures
            sizes_wf(final(self)@),
            old(self).wf() ==> final(self).wf(),
            final(self)@ == spec_timer_countdown(old(self)@, i as int, dt),
    {
        self.timer_overflow.set(i, false);
        if self.timer_on[i] {
            let lo: u16 = self.ram[0xFF00 + 2 * i] as u16;
            let hi: u16 = self.ram[0xFF01 + 2 * i] as u16;
            let v: u16 = lo + hi * 256;
            let ovf: bool = v < dt;
            self.timer_overflow.set(i, ovf);
            let mut nv: u16 = v.wrapping_sub(dt);
            if ovf && i == 0 {
                nv = nv.wrapping_sub(0xC60E);
            }
            self.ram[0xFF00 + 2 * i] = (nv % 256) as u8;
            self.ram[0xFF01 + 2 * i] = (nv / 256) as u8;
            assert(final(self)@ =~= spec_timer_countdown(old(self)@, i as int, dt));
        } else {
            assert(final(self)@ =~= spec_timer_countdown(old(self)@, i as int, dt));
        }
    }

    /// One timer's interrupt generation after its countdown.
    fn timer_irq(&mut self, i: usize)
        requires
            sizes_wf(old(self)@),
            i < 3,
        ensures
            sizes_wf(final(self)@),
            old(self).wf() ==> final(self).wf(),
            final(self)@ == spec_timer_irq(old(self)@, i as int),
    {
        if self.timer_on[i] && self.timer_overflow[i] {
            let bit: u8 = if i == 0 {
                8
            } else if i == 1 {
                16
            } else {
                64
            };
            let cur: u8 = self.ram[0xFF09];
            self.ram[0xFF09] = cur | bit | 128;
            if !self.cpu.i && (self.ram[0xFF0A] & bit) != 0 {
                self.irq_service();
            }
        }
    }

    /// The TED pass after one instruction: clock, blink, timers,
    /// interrupts and, when a raster line's cycle budget is full, the
    /// rendered line and raster advance.
    #[verifier::rlimit(100)]
    #[verifier::spinoff_prover]
    fn ted_tick(&mut self)
        requires
            old(self).wf(),
            old(self)@.ticks <= 7,
        ensures
            final(self).wf(),
            final(self)@ == spec_ted(old(self)@),
    {
        let mult: u32 = if (self.ram[0xFF06] & 16) != 0 {
            2
        } else {
            1
        };
        let dt: u16 = (self.clock_ticks * mult) as u16;
        self.clock_counter = self.clock_counter + self.clock_ticks * mult;
        self.flash_counter = self.flash_counter + self.clock_ticks * mult;
        if self.flash_counter >= TICKS_PER_BLINK_INTERVAL {
            self.flash_counter = 0;
            self.flash_on = !self.flash_on;
        }
        self.timer_countdown(0, dt);
        self.timer_countdown(1, dt);
        self.timer_countdown(2, dt);
        self.timer_irq(0);
        self.timer_irq(1);
        self.timer_irq(2);
        if self.clock_counter >= TICKS_PER_RASTER_LINE {
            self.clock_counter = self.clock_counter - TICKS_PER_RASTER_LINE;
            self.render_raster_line();
        }
    }

    /// Advance the machine one instruction plus its TED side effects and
    /// report the cycles consumed.  Before any ROM images are installed
    /// the step fails fast and changes nothing; ADC in decimal mode stops
    /// emulation with the machine unchanged; an undocumented opcode is
    /// stepped over and emulation continues.
    pub fn step(&mut self) -> (r: Result<u32, EmuError>)
        requires
            old(self).wf(),
        ensures
            final(self).wf(),
            !old(self)@.roms_loaded ==> r == Err::<u32, EmuError>(EmuError::RomMissing)
                && final(self)@ == old(self)@,
            ({
                let op = spec_read(old(self)@, old(self)@.cpu.pc);
                let loaded = old(self)@.roms_loaded;
                &&& (r == Err::<u32, EmuError>(EmuError::UnsupportedMode) <==> loaded && is_adc_op(
                    op,
                ) && old(self)@.cpu.d)
                &&& (r == Err::<u32, EmuError>(EmuError::UnsupportedMode) ==> final(self)@
                    == old(self)@)
                &&& (loaded && !(is_adc_op(op) && old(self)@.cpu.d) ==> r == Ok::<u32, EmuError>(
                    final(self)@.ticks,
                ) && 2 <= final(self)@.ticks <= 7)
                &&& (loaded && !(is_adc_op(op) && old(self)@.cpu.d) ==> final(self)@
                    == spec_ted(spec_instruction(old(self)@)))
            }),
    {
        if !self.roms_loaded {
            return Err(EmuError::RomMissing);
        }
        let res: Result<(), EmuError> = self.execute_instruction();
        if let Err(e) = res {
            if let EmuError::UnsupportedMode = e {
                return Err(EmuError::UnsupportedMode);
            }
        }
        self.ted_tick();
        Ok(self.clock_ticks)
    }
}


/// The total of a sequence of per-pass cycle amounts.
pub open spec fn seq_sum(dts: Seq<u16>) -> int
    decreases dts.len(),
{
    if dts.len() == 0 {
        0
    } else {
        dts[0] + seq_sum(dts.drop_first())
    }
}

/// A timer's value after a sequence of countdowns, each wrapping as the
/// hardware does.
pub open spec fn timer_run(v: u16, dts: Seq<u16>) -> u16
    decreases dts.len(),
{
    if dts.len() == 0 {
        v
    } else {
        timer_run(v.wrapping_sub(dts[0]), dts.drop_first())
    }
}

/// Whether any countdown of the run overflowed: an overflow is a pass
/// whose cycle amount exceeded the value the timer still had.
pub open spec fn timer_run_overflows(v: u16, dts: Seq<u16>) -> bool
    decreases dts.len(),
{
    if dts.len() == 0 {
        false
    } else {
        v < dts[0] || timer_run_overflows(v.wrapping_sub(dts[0]), dts.drop_first())
    }
}

proof fn lemma_seq_sum_nonneg(dts: Seq<u16>)
    ensures
        seq_sum(dts) >= 0,
    decreases dts.len(),
{
    if dts.len() > 0 {
        lemma_seq_sum_nonneg(dts.drop_first());
    }
}

/// A timer started at `v` and run down by amounts totalling no more than
/// `v` never overflows and ends at exactly `v` less the total.
pub proof fn lemma_timer_run(v: u16, dts: Seq<u16>)
    requires
        seq_sum(dts) <= v,
    ensures
        timer_run(v, dts) == v - seq_sum(dts),
        !timer_run_overflows(v, dts),
    decreases dts.len(),
{
    if dts.len() > 0 {
        lemma_seq_sum_nonneg(dts.drop_first());
        assert(dts[0] <= v);
        lemma_timer_run(v.wrapping_sub(dts[0]), dts.drop_first());
    }
}

/// One TED pass on the first timer while its value covers the cycles:
/// the value drops by exactly the cycles, no overflow edge rises, and the
/// interrupt request register is untouched.
pub proof fn lemma_timer_tick_in_range(m: MachineView, dt: u16)
    requires
        view_wf(m),
        m.t_on[0],
        dt <= timer_value(m, 0),
    ensures
        ({
            let m1 = spec_timer_irq(spec_timer_countdown(m, 0, dt), 0);
            timer_value(m1, 0) == timer_value(m, 0) - dt && !m1.t_ovf[0] && m1.mem[0xFF09]
                == m.mem[0xFF09]
        }),
{
    let v = timer_value(m, 0);
    let nv = v.wrapping_sub(dt);
    assert(word16((nv % 256) as u8, (nv / 256) as u8) == nv);
}

/// One TED pass on the first timer whose value falls short of the cycles:
/// the overflow edge rises, its request bit and the master bit land in
/// the interrupt request register, and when I is clear and the mask
/// enables the timer the interrupt pushes three bytes, leaving the stack
/// pointer three lower.
pub proof fn lemma_timer_tick_overflow(m: MachineView, dt: u16)
    requires
        view_wf(m),
        m.t_on[0],
        timer_value(m, 0) < dt,
    ensures
        ({
            let m1 = spec_timer_irq(spec_timer_countdown(m, 0, dt), 0);
            let masked = !m.cpu.i && m.mem[0xFF0A] & 8 != 0;
            m1.t_ovf[0] && m1.mem[0xFF09] == (m.mem[0xFF09] | 8 | 128) && (masked ==> m1.cpu.sp
                == m.cpu.sp.wrapping_sub(3) && m1.cpu.i)
        }),
{
}

/// The machine after `n` NOP instructions, each with its TED pass.
pub open spec fn nop_steps(m: MachineView, n: nat) -> MachineView
    decreases n,
{
    if n == 0 {
        m
    } else {
        nop_steps(spec_ted(spec_nop(m)), (n - 1) as nat)
    }
}

/// A run of NOPs in single-clock mode with the timers disabled adds
/// exactly two cycles per instruction to the clock counter, while the run
/// stays within one raster line's budget, and stores nothing.
pub proof fn lemma_nop_run_clock(m: MachineView, n: nat)
    requires
        view_wf(m),
        m.mem[0xFF06] & 16 == 0,
        !m.t_on[0],
        !m.t_on[1],
        !m.t_on[2],
        m.counter + 2 * n < TICKS_PER_RASTER_LINE,
    ensures
        nop_steps(m, n).counter == m.counter + 2 * n,
        nop_steps(m, n).mem == m.mem,
        nop_steps(m, n).pixels == m.pixels,
        nop_steps(m, n).raster == m.raster,
    decreases n,
{
    if n > 0 {
        let m1 = spec_ted(spec_nop(m));
        assert(m1.counter == m.counter + 2);
        assert(m1.mem == m.mem);
        assert(view_wf(m1));
        lemma_nop_run_clock(m1, (n - 1) as nat);
    }
}

/// One NOP step in single-clock mode with the timers disabled, within a
/// raster line's budget: it consumes two cycles, advances the clock
/// counter by exactly two, and moves PC one byte on.
pub proof fn lemma_nop_step_clock(m: MachineView)
    requires
        view_wf(m),
        m.mem[0xFF06] & 16 == 0,
        !m.t_on[0],
        !m.t_on[1],
        !m.t_on[2],
        m.counter + 2 < TICKS_PER_RASTER_LINE,
    ensures
        spec_ted(spec_nop(m)).ticks == 2,
        spec_ted(spec_nop(m)).counter == m.counter + 2,
        spec_ted(spec_nop(m)).cpu.pc == m.cpu.pc.wrapping_add(1),
        spec_ted(spec_nop(m)).mem == m.mem,
{
}

/// With the timers disabled, a TED pass raises the raster interrupt
/// request exactly when it completes a raster line that lands on the
/// compare line: a pass that completes no line, or completes one
/// elsewhere, leaves the request register alone.  Once per frame the
/// advancing raster meets the compare line, so the request rises exactly
/// once per 312 completed lines.
pub proof fn lemma_raster_irq_edge(m: MachineView)
    requires
        view_wf(m),
        m.ticks <= 7,
        !m.t_on[0],
        !m.t_on[1],
        !m.t_on[2],
    ensures
        ({
            let dt = m.ticks * clock_mult(m);
            let next = if m.raster + 1 >= RASTER_LINES {
                0int
            } else {
                m.raster + 1
            };
            let m2 = spec_ted(m);
            &&& (m.counter + dt < TICKS_PER_RASTER_LINE ==> m2.raster == m.raster
                && m2.mem[0xFF09] == m.mem[0xFF09])
            &&& (m.counter + dt >= TICKS_PER_RASTER_LINE ==> m2.raster == next)
            &&& (m.counter + dt >= TICKS_PER_RASTER_LINE && next != raster_compare(m)
                ==> m2.mem[0xFF09] == m.mem[0xFF09])
            &&& (m.counter + dt >= TICKS_PER_RASTER_LINE && next == raster_compare(m)
                ==> m2.mem[0xFF09] == (m.mem[0xFF09] | 130))
        }),
{
}

/// One NOP step in single-clock mode with only the first timer enabled
/// and enough value left: the step consumes two cycles of the timer and
/// raises no interrupt request.
pub proof fn lemma_nop_step_timer(m: MachineView)
    requires
        view_wf(m),
        m.mem[0xFF06] & 16 == 0,
        m.t_on[0],
        !m.t_on[1],
        !m.t_on[2],
        2 <= timer_value(m, 0),
        m.counter + 2 < TICKS_PER_RASTER_LINE,
    ensures
        timer_value(spec_ted(spec_nop(m)), 0) == timer_value(m, 0) - 2,
        spec_ted(spec_nop(m)).mem[0xFF09] == m.mem[0xFF09],
        !spec_ted(spec_nop(m)).t_ovf[0],
{
    let v = timer_value(m, 0);
    let nv = v.wrapping_sub(2);
    assert(word16((nv % 256) as u8, (nv / 256) as u8) == nv);
}

} // verus!
