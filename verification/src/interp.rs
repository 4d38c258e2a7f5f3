//! The 6510 instruction interpreter: one documented opcode per step, with
//! the addressing-mode effective-address computations and the exact
//! transitions of the flow-control and stack opcodes as spec functions.

use vstd::prelude::*;
use crate::cpu_state::{CpuState, bit7, flags_to_byte, flags_from_byte, rol_result,
    ror_result, adc_cpu, sbc_cpu, and_cpu, ora_cpu, eor_cpu, cmp_cpu, bit_cpu, asl_cpu,
    lsr_cpu, rol_cpu, ror_cpu, inx_cpu, dex_cpu, iny_cpu, dey_cpu, tax_cpu, txa_cpu,
    tay_cpu, tya_cpu, tsx_cpu, txs_cpu};
use crate::plus4::{MachineView, spec_read, spec_poke, word16, view_wf};

verus! {

/// Effective address of zero-page addressing: the operand byte.
pub open spec fn ea_zp(m: MachineView) -> u16 {
    spec_read(m, m.cpu.pc.wrapping_add(1)) as u16
}

/// Effective address of zero-page,X addressing: the operand byte plus X,
/// wrapping within the zero page.
pub open spec fn ea_zp_x(m: MachineView) -> u16 {
    spec_read(m, m.cpu.pc.wrapping_add(1)).wrapping_add(m.cpu.xr) as u16
}

/// Effective address of zero-page,Y addressing: the operand byte plus Y,
/// wrapping within the zero page.
pub open spec fn ea_zp_y(m: MachineView) -> u16 {
    spec_read(m, m.cpu.pc.wrapping_add(1)).wrapping_add(m.cpu.yr) as u16
}

/// Effective address of absolute addressing: the little-endian operand word.
pub open spec fn ea_abs(m: MachineView) -> u16 {
    word16(spec_read(m, m.cpu.pc.wrapping_add(1)), spec_read(m, m.cpu.pc.wrapping_add(2)))
}

/// Effective address of absolute,X addressing.
pub open spec fn ea_abs_x(m: MachineView) -> u16 {
    ea_abs(m).wrapping_add(m.cpu.xr as u16)
}

/// Effective address of absolute,Y addressing.
pub open spec fn ea_abs_y(m: MachineView) -> u16 {
    ea_abs(m).wrapping_add(m.cpu.yr as u16)
}

/// Effective address of (indirect,X) addressing: the pointer sits in the
/// zero page at operand plus X, and both pointer bytes wrap within the
/// zero page.
pub open spec fn ea_ind_x(m: MachineView) -> u16 {
    let base = spec_read(m, m.cpu.pc.wrapping_add(1)).wrapping_add(m.cpu.xr);
    word16(spec_read(m, base as u16), spec_read(m, base.wrapping_add(1) as u16))
}

/// Effective address of (indirect),Y addressing: the zero-page pointer is
/// fetched (wrapping on its second byte) and Y is added to the word.
pub open spec fn ea_ind_y(m: MachineView) -> u16 {
    let base = spec_read(m, m.cpu.pc.wrapping_add(1));
    word16(spec_read(m, base as u16), spec_read(m, base.wrapping_add(1) as u16)).wrapping_add(
        m.cpu.yr as u16,
    )
}

/// The branch destination: the offset byte is sign-extended and added to
/// the address of the following instruction.
pub open spec fn branch_dest(pc2: u16, off: u8) -> u16 {
    pc2.wrapping_add_signed(((off - (if off >= 128 {
        256int
    } else {
        0int
    })) as i16))
}

/// The bytes treated as a two-cycle NOP: the documented 0xEA and the
/// undocumented bytes this machine's software relies on.
pub open spec fn is_nop_op(op: u8) -> bool {
    op == 0xEA || op == 0x1A || op == 0x3A || op == 0x5A || op == 0x7A || op == 0xDA || op == 0xFA
        || op == 0xFC || op == 0x3F || op == 0x7F || op == 0x07
}

/// The eight ADC opcodes, the ones that refuse decimal mode.
pub open spec fn is_adc_op(op: u8) -> bool {
    op == 0x69 || op == 0x65 || op == 0x75 || op == 0x6D || op == 0x7D || op == 0x79 || op == 0x61
        || op == 0x71
}

/// The opcodes of the register loads LDA, LDX and LDY.
pub open spec fn is_load_op(op: u8) -> bool {
    op == 0xA0 || op == 0xA1 || op == 0xA2 || op == 0xA4 || op == 0xA5 || op == 0xA6
        || op == 0xA9 || op == 0xAC || op == 0xAD || op == 0xAE || op == 0xB1 || op == 0xB4
        || op == 0xB5 || op == 0xB6 || op == 0xB9 || op == 0xBC || op == 0xBD || op == 0xBE
}

/// The opcodes of the register stores STA, STX and STY.
pub open spec fn is_store_op(op: u8) -> bool {
    op == 0x81 || op == 0x84 || op == 0x85 || op == 0x86 || op == 0x8C || op == 0x8D
        || op == 0x8E || op == 0x91 || op == 0x94 || op == 0x95 || op == 0x96 || op == 0x99
        || op == 0x9D
}

/// The opcodes of the implied-mode register moves, flag operations and NOPs.
pub open spec fn is_implied_op(op: u8) -> bool {
    op == 0x07 || op == 0x18 || op == 0x1A || op == 0x38 || op == 0x3A || op == 0x3F
        || op == 0x58 || op == 0x5A || op == 0x78 || op == 0x7A || op == 0x7F || op == 0x88
        || op == 0x8A || op == 0x98 || op == 0x9A || op == 0xA8 || op == 0xAA || op == 0xB8
        || op == 0xBA || op == 0xC8 || op == 0xCA || op == 0xD8 || op == 0xDA || op == 0xE8
        || op == 0xEA || op == 0xF8 || op == 0xFA || op == 0xFC
}

/// The opcodes of the bitwise AND, ORA and EOR forms.
pub open spec fn is_logic_op(op: u8) -> bool {
    op == 0x01 || op == 0x05 || op == 0x09 || op == 0x0D || op == 0x11 || op == 0x15
        || op == 0x19 || op == 0x1D || op == 0x21 || op == 0x25 || op == 0x29 || op == 0x2D
        || op == 0x31 || op == 0x35 || op == 0x39 || op == 0x3D || op == 0x41 || op == 0x45
        || op == 0x49 || op == 0x4D || op == 0x51 || op == 0x55 || op == 0x59 || op == 0x5D
}

/// The opcodes of the CMP, CPX, CPY and BIT forms.
pub open spec fn is_compare_op(op: u8) -> bool {
    op == 0x24 || op == 0x2C || op == 0xC0 || op == 0xC1 || op == 0xC4 || op == 0xC5
        || op == 0xC9 || op == 0xCC || op == 0xCD || op == 0xD1 || op == 0xD5 || op == 0xD9
        || op == 0xDD || op == 0xE0 || op == 0xE4 || op == 0xEC
}

/// The opcodes of the ADC and SBC forms.
pub open spec fn is_arith_op(op: u8) -> bool {
    op == 0x61 || op == 0x65 || op == 0x69 || op == 0x6D || op == 0x71 || op == 0x75
        || op == 0x79 || op == 0x7D || op == 0xE1 || op == 0xE5 || op == 0xE9 || op == 0xED
        || op == 0xF1 || op == 0xF5 || op == 0xF9 || op == 0xFD
}

/// The opcodes of the shifts, rotates and memory increments and decrements.
pub open spec fn is_rmw_op(op: u8) -> bool {
    op == 0x06 || op == 0x0A || op == 0x0E || op == 0x16 || op == 0x1E || op == 0x26
        || op == 0x2A || op == 0x2E || op == 0x36 || op == 0x3E || op == 0x46 || op == 0x4A
        || op == 0x4E || op == 0x56 || op == 0x5E || op == 0x66 || op == 0x6A || op == 0x6E
        || op == 0x76 || op == 0x7E || op == 0xC6 || op == 0xCE || op == 0xD6 || op == 0xDE
        || op == 0xE6 || op == 0xEE || op == 0xF6 || op == 0xFE
}

/// The opcodes of the stack, jump, branch and interrupt opcodes.
pub open spec fn is_flow_op(op: u8) -> bool {
    op == 0x00 || op == 0x08 || op == 0x10 || op == 0x20 || op == 0x28 || op == 0x30
        || op == 0x40 || op == 0x48 || op == 0x4C || op == 0x50 || op == 0x60 || op == 0x68
        || op == 0x6C || op == 0x70 || op == 0x90 || op == 0xB0 || op == 0xD0 || op == 0xF0
}

/// Every byte the interpreter executes: the documented opcode set plus the
/// undocumented NOP bytes.  Anything else reports an unknown opcode.
pub open spec fn is_documented(op: u8) -> bool {
    is_load_op(op) || is_store_op(op) || is_implied_op(op) || is_logic_op(op) || is_compare_op(op)
        || is_arith_op(op) || is_rmw_op(op) || is_flow_op(op)
}

/// The transition of a NOP: the program counter advances one byte and two
/// cycles elapse.
pub open spec fn spec_nop(m: MachineView) -> MachineView {
    MachineView {
        cpu: (CpuState { pc: m.cpu.pc.wrapping_add(1), ..m.cpu }),
        ticks: 2u32,
        ..m
    }
}

/// The transition of PHA: the accumulator lands at the stack pointer's
/// address in the stack page and the pointer steps down.
pub open spec fn spec_pha(m: MachineView) -> MachineView {
    MachineView {
        mem: m.mem.update(0x100 + m.cpu.sp, m.cpu.acc),
        cpu: (CpuState {
            sp: m.cpu.sp.wrapping_sub(1),
            pc: m.cpu.pc.wrapping_add(1),
            ..m.cpu
        }),
        ticks: 3u32,
        ..m
    }
}

/// The transition of PLA: the byte above the stack pointer is pulled into
/// the accumulator, and N and Z follow it.
pub open spec fn spec_pla(m: MachineView) -> MachineView {
    let v = m.mem[0x100 + m.cpu.sp.wrapping_add(1)];
    MachineView {
        cpu: (CpuState {
            acc: v,
            z: v == 0,
            n: bit7(v),
            sp: m.cpu.sp.wrapping_add(1),
            pc: m.cpu.pc.wrapping_add(1),
            ..m.cpu
        }),
        ticks: 4u32,
        ..m
    }
}

/// The transition of PHP: the packed status byte is pushed.
pub open spec fn spec_php(m: MachineView) -> MachineView {
    MachineView {
        mem: m.mem.update(0x100 + m.cpu.sp, flags_to_byte(m.cpu)),
        cpu: (CpuState {
            sp: m.cpu.sp.wrapping_sub(1),
            pc: m.cpu.pc.wrapping_add(1),
            ..m.cpu
        }),
        ticks: 3u32,
        ..m
    }
}

/// The transition of PLP: the byte above the stack pointer is unpacked
/// into the seven flags.
pub open spec fn spec_plp(m: MachineView) -> MachineView {
    let v = m.mem[0x100 + m.cpu.sp.wrapping_add(1)];
    MachineView {
        cpu: (CpuState {
            sp: m.cpu.sp.wrapping_add(1),
            pc: m.cpu.pc.wrapping_add(1),
            ..flags_from_byte(m.cpu, v)
        }),
        ticks: 4u32,
        ..m
    }
}

/// The transition of JSR: the address of the third instruction byte is
/// pushed (high byte at the higher stack address) and control moves to the
/// absolute operand.
pub open spec fn spec_jsr(m: MachineView) -> MachineView {
    let ret = m.cpu.pc.wrapping_add(2);
    MachineView {
        mem: m.mem.update(0x100 + m.cpu.sp, (ret / 256) as u8).update(
            0x100 + m.cpu.sp.wrapping_sub(1),
            (ret % 256) as u8,
        ),
        cpu: (CpuState { pc: ea_abs(m), sp: m.cpu.sp.wrapping_sub(2), ..m.cpu }),
        ticks: 6u32,
        ..m
    }
}

/// The transition of RTS: a word is pulled and control resumes one byte
/// past it.
pub open spec fn spec_rts(m: MachineView) -> MachineView {
    let lo = m.mem[0x100 + m.cpu.sp.wrapping_add(1)];
    let hi = m.mem[0x100 + m.cpu.sp.wrapping_add(2)];
    MachineView {
        cpu: (CpuState {
            pc: word16(lo, hi).wrapping_add(1),
            sp: m.cpu.sp.wrapping_add(2),
            ..m.cpu
        }),
        ticks: 6u32,
        ..m
    }
}

/// The transition of a conditional branch: past the two instruction bytes,
/// and onward by the sign-extended offset when `taken`.
pub open spec fn spec_branch(m: MachineView, taken: bool) -> MachineView {
    let off = spec_read(m, m.cpu.pc.wrapping_add(1));
    let pc2 = m.cpu.pc.wrapping_add(2);
    if taken {
        MachineView {
            cpu: (CpuState { pc: branch_dest(pc2, off), ..m.cpu }),
            ticks: 3u32,
            ..m
        }
    } else {
        MachineView { cpu: (CpuState { pc: pc2, ..m.cpu }), ticks: 2u32, ..m }
    }
}

/// The transition of BRK: I and B are set, the address two past the opcode
/// and then the status byte are pushed, and control vectors through the
/// IRQ/BRK vector of the system ROM.
pub open spec fn spec_brk(m: MachineView) -> MachineView {
    let cpu1 = CpuState { i: true, b: true, ..m.cpu };
    let ret = m.cpu.pc.wrapping_add(2);
    MachineView {
        mem: m.mem.update(0x100 + m.cpu.sp, (ret / 256) as u8).update(
            0x100 + m.cpu.sp.wrapping_sub(1),
            (ret % 256) as u8,
        ).update(0x100 + m.cpu.sp.wrapping_sub(2), flags_to_byte(cpu1)),
        cpu: (CpuState {
            pc: word16(m.rom[0x7FFE], m.rom[0x7FFF]),
            sp: m.cpu.sp.wrapping_sub(3),
            ..cpu1
        }),
        ticks: 7u32,
        ..m
    }
}


/// The transition of a register load into the accumulator: the byte at
/// `addr` lands in A with N and Z following it.
pub open spec fn spec_load_a(m: MachineView, addr: u16, pcinc: u16, ticks: u32) -> MachineView {
    let v = spec_read(m, addr);
    MachineView {
        cpu: (CpuState {
            acc: v,
            z: v == 0,
            n: bit7(v),
            pc: m.cpu.pc.wrapping_add(pcinc),
            ..m.cpu
        }),
        ticks,
        ..m
    }
}

/// The transition of a register load into X.
pub open spec fn spec_load_x(m: MachineView, addr: u16, pcinc: u16, ticks: u32) -> MachineView {
    let v = spec_read(m, addr);
    MachineView {
        cpu: (CpuState {
            xr: v,
            z: v == 0,
            n: bit7(v),
            pc: m.cpu.pc.wrapping_add(pcinc),
            ..m.cpu
        }),
        ticks,
        ..m
    }
}

/// The transition of a register load into Y.
pub open spec fn spec_load_y(m: MachineView, addr: u16, pcinc: u16, ticks: u32) -> MachineView {
    let v = spec_read(m, addr);
    MachineView {
        cpu: (CpuState {
            yr: v,
            z: v == 0,
            n: bit7(v),
            pc: m.cpu.pc.wrapping_add(pcinc),
            ..m.cpu
        }),
        ticks,
        ..m
    }
}

/// The transition of a register store: `v` goes through the write path of
/// the bus with all its side effects.
pub open spec fn spec_store(m: MachineView, addr: u16, v: u8, pcinc: u16, ticks: u32) -> MachineView {
    let m1 = spec_poke(m, addr, v);
    MachineView { cpu: (CpuState { pc: m.cpu.pc.wrapping_add(pcinc), ..m.cpu }), ticks, ..m1 }
}

/// An ALU instruction against memory: the new register file, with PC past
/// the instruction.
pub open spec fn spec_cpu_op(m: MachineView, cpu2: CpuState, pcinc: u16, ticks: u32) -> MachineView {
    MachineView { cpu: (CpuState { pc: m.cpu.pc.wrapping_add(pcinc), ..cpu2 }), ticks, ..m }
}

/// The transition of AND against the byte at `addr`.
pub open spec fn spec_and_op(m: MachineView, addr: u16, pcinc: u16, ticks: u32) -> MachineView {
    spec_cpu_op(m, and_cpu(m.cpu, spec_read(m, addr)), pcinc, ticks)
}

/// The transition of ORA against the byte at `addr`.
pub open spec fn spec_ora_op(m: MachineView, addr: u16, pcinc: u16, ticks: u32) -> MachineView {
    spec_cpu_op(m, ora_cpu(m.cpu, spec_read(m, addr)), pcinc, ticks)
}

/// The transition of EOR against the byte at `addr`.
pub open spec fn spec_eor_op(m: MachineView, addr: u16, pcinc: u16, ticks: u32) -> MachineView {
    spec_cpu_op(m, eor_cpu(m.cpu, spec_read(m, addr)), pcinc, ticks)
}

/// The transition of a compare of `reg` against the byte at `addr`.
pub open spec fn spec_cmp_op(m: MachineView, reg: u8, addr: u16, pcinc: u16, ticks: u32) -> MachineView {
    spec_cpu_op(m, cmp_cpu(m.cpu, reg, spec_read(m, addr)), pcinc, ticks)
}

/// The transition of ADC (binary mode) against the byte at `addr`.
pub open spec fn spec_adc_op(m: MachineView, addr: u16, pcinc: u16, ticks: u32) -> MachineView {
    spec_cpu_op(m, adc_cpu(m.cpu, spec_read(m, addr)), pcinc, ticks)
}

/// The transition of SBC against the byte at `addr`.
pub open spec fn spec_sbc_op(m: MachineView, addr: u16, pcinc: u16, ticks: u32) -> MachineView {
    spec_cpu_op(m, sbc_cpu(m.cpu, spec_read(m, addr)), pcinc, ticks)
}

/// The transition of BIT against the byte at `addr`.
pub open spec fn spec_bit_op(m: MachineView, addr: u16, pcinc: u16, ticks: u32) -> MachineView {
    spec_cpu_op(m, bit_cpu(m.cpu, spec_read(m, addr)), pcinc, ticks)
}

/// A shift or rotate of the accumulator: two cycles, one instruction byte.
pub open spec fn spec_shift_acc(m: MachineView, cpu2: CpuState, r: u8) -> MachineView {
    MachineView {
        cpu: (CpuState { acc: r, pc: m.cpu.pc.wrapping_add(1), ..cpu2 }),
        ticks: 2u32,
        ..m
    }
}

/// A read-modify-write instruction: the flags from `cpu2`, the result byte
/// written back through the bus, PC past the instruction.
pub open spec fn spec_rmw(m: MachineView, addr: u16, cpu2: CpuState, r: u8, pcinc: u16, ticks: u32) -> MachineView {
    let m1 = spec_poke(m, addr, r);
    MachineView { cpu: (CpuState { pc: m.cpu.pc.wrapping_add(pcinc), ..cpu2 }), ticks, ..m1 }
}

/// The transition of ASL on memory.
pub open spec fn spec_asl_mem(m: MachineView, addr: u16, pcinc: u16, ticks: u32) -> MachineView {
    let x = spec_read(m, addr);
    spec_rmw(m, addr, asl_cpu(m.cpu, x), (x << 1), pcinc, ticks)
}

/// The transition of LSR on memory.
pub open spec fn spec_lsr_mem(m: MachineView, addr: u16, pcinc: u16, ticks: u32) -> MachineView {
    let x = spec_read(m, addr);
    spec_rmw(m, addr, lsr_cpu(m.cpu, x), (x >> 1), pcinc, ticks)
}

/// The transition of ROL on memory.
pub open spec fn spec_rol_mem(m: MachineView, addr: u16, pcinc: u16, ticks: u32) -> MachineView {
    let x = spec_read(m, addr);
    spec_rmw(m, addr, rol_cpu(m.cpu, x), rol_result(x, m.cpu.c), pcinc, ticks)
}

/// The transition of ROR on memory.
pub open spec fn spec_ror_mem(m: MachineView, addr: u16, pcinc: u16, ticks: u32) -> MachineView {
    let x = spec_read(m, addr);
    spec_rmw(m, addr, ror_cpu(m.cpu, x), ror_result(x, m.cpu.c), pcinc, ticks)
}

/// The transition of INC on memory: N and Z follow the incremented byte.
pub open spec fn spec_inc_mem(m: MachineView, addr: u16, pcinc: u16, ticks: u32) -> MachineView {
    let r = spec_read(m, addr).wrapping_add(1);
    spec_rmw(m, addr, (CpuState { n: bit7(r), z: r == 0, ..m.cpu }), r, pcinc, ticks)
}

/// The transition of DEC on memory: N and Z follow the decremented byte.
pub open spec fn spec_dec_mem(m: MachineView, addr: u16, pcinc: u16, ticks: u32) -> MachineView {
    let r = spec_read(m, addr).wrapping_sub(1);
    spec_rmw(m, addr, (CpuState { n: bit7(r), z: r == 0, ..m.cpu }), r, pcinc, ticks)
}

/// An implied-mode instruction: the new register file, PC past the one
/// instruction byte, two cycles.
pub open spec fn spec_implied(m: MachineView, cpu2: CpuState) -> MachineView {
    MachineView {
        cpu: (CpuState { pc: m.cpu.pc.wrapping_add(1), ..cpu2 }),
        ticks: 2u32,
        ..m
    }
}

/// The transition of JMP absolute.
pub open spec fn spec_jmp_abs(m: MachineView) -> MachineView {
    MachineView { cpu: (CpuState { pc: ea_abs(m), ..m.cpu }), ticks: 3u32, ..m }
}

/// The transition of JMP indirect: the target word is fetched through the
/// bus at the absolute operand.
pub open spec fn spec_jmp_ind(m: MachineView) -> MachineView {
    let ptr = ea_abs(m);
    MachineView {
        cpu: (CpuState {
            pc: word16(spec_read(m, ptr), spec_read(m, ptr.wrapping_add(1))),
            ..m.cpu
        }),
        ticks: 5u32,
        ..m
    }
}

/// The transition of RTI: the status byte and then the return address are
/// pulled, and I ends up clear.
pub open spec fn spec_rti(m: MachineView) -> MachineView {
    let f = m.mem[0x100 + m.cpu.sp.wrapping_add(1)];
    let lo = m.mem[0x100 + m.cpu.sp.wrapping_add(2)];
    let hi = m.mem[0x100 + m.cpu.sp.wrapping_add(3)];
    MachineView {
        cpu: (CpuState {
            pc: word16(lo, hi),
            sp: m.cpu.sp.wrapping_add(3),
            i: false,
            ..flags_from_byte(m.cpu, f)
        }),
        ticks: 6u32,
        ..m
    }
}

/// The complete small-step semantics of the interpreter: the machine
/// after the instruction whose opcode sits at PC.  A byte outside the
/// executed set behaves as a NOP, as the interpreter recovers from an
/// unknown opcode by stepping over it.  ADC is given here in binary
/// mode; the interpreter refuses it with the decimal flag set before
/// anything changes.
#[verifier::opaque]
pub open spec fn spec_instruction(m: MachineView) -> MachineView {
    let op = spec_read(m, m.cpu.pc);
    if op == 0xA9 {
        spec_load_a(m, m.cpu.pc.wrapping_add(1), 2, 2)
    } else if op == 0xA5 {
        spec_load_a(m, ea_zp(m), 2, 3)
    } else if op == 0xB5 {
        spec_load_a(m, ea_zp_x(m), 2, 4)
    } else if op == 0xAD {
        spec_load_a(m, ea_abs(m), 3, 4)
    } else if op == 0xBD {
        spec_load_a(m, ea_abs_x(m), 3, 4)
    } else if op == 0xB9 {
        spec_load_a(m, ea_abs_y(m), 3, 4)
    } else if op == 0xA1 {
        spec_load_a(m, ea_ind_x(m), 2, 6)
    } else if op == 0xB1 {
        spec_load_a(m, ea_ind_y(m), 2, 5)
    } else if op == 0xA2 {
        spec_load_x(m, m.cpu.pc.wrapping_add(1), 2, 2)
    } else if op == 0xA6 {
        spec_load_x(m, ea_zp(m), 2, 3)
    } else if op == 0xB6 {
        spec_load_x(m, ea_zp_y(m), 2, 4)
    } else if op == 0xAE {
        spec_load_x(m, ea_abs(m), 3, 4)
    } else if op == 0xBE {
        spec_load_x(m, ea_abs_y(m), 3, 4)
    } else if op == 0xA0 {
        spec_load_y(m, m.cpu.pc.wrapping_add(1), 2, 2)
    } else if op == 0xA4 {
        spec_load_y(m, ea_zp(m), 2, 3)
    } else if op == 0xB4 {
        spec_load_y(m, ea_zp_x(m), 2, 4)
    } else if op == 0xAC {
        spec_load_y(m, ea_abs(m), 3, 4)
    } else if op == 0xBC {
        spec_load_y(m, ea_abs_x(m), 3, 4)
    } else if op == 0x85 {
        spec_store(m, ea_zp(m), m.cpu.acc, 2, 3)
    } else if op == 0x95 {
        spec_store(m, ea_zp_x(m), m.cpu.acc, 2, 4)
    } else if op == 0x8D {
        spec_store(m, ea_abs(m), m.cpu.acc, 3, 4)
    } else if op == 0x9D {
        spec_store(m, ea_abs_x(m), m.cpu.acc, 3, 5)
    } else if op == 0x99 {
        spec_store(m, ea_abs_y(m), m.cpu.acc, 3, 5)
    } else if op == 0x81 {
        spec_store(m, ea_ind_x(m), m.cpu.acc, 2, 6)
    } else if op == 0x91 {
        spec_store(m, ea_ind_y(m), m.cpu.acc, 2, 6)
    } else if op == 0x86 {
        spec_store(m, ea_zp(m), m.cpu.xr, 2, 3)
    } else if op == 0x96 {
        spec_store(m, ea_zp_y(m), m.cpu.xr, 2, 4)
    } else if op == 0x8E {
        spec_store(m, ea_abs(m), m.cpu.xr, 3, 4)
    } else if op == 0x84 {
        spec_store(m, ea_zp(m), m.cpu.yr, 2, 3)
    } else if op == 0x94 {
        spec_store(m, ea_zp_x(m), m.cpu.yr, 2, 4)
    } else if op == 0x8C {
        spec_store(m, ea_abs(m), m.cpu.yr, 3, 4)
    } else if op == 0x29 {
        spec_and_op(m, m.cpu.pc.wrapping_add(1), 2, 2)
    } else if op == 0x25 {
        spec_and_op(m, ea_zp(m), 2, 3)
    } else if op == 0x35 {
        spec_and_op(m, ea_zp_x(m), 2, 4)
    } else if op == 0x2D {
        spec_and_op(m, ea_abs(m), 3, 4)
    } else if op == 0x3D {
        spec_and_op(m, ea_abs_x(m), 3, 4)
    } else if op == 0x39 {
        spec_and_op(m, ea_abs_y(m), 3, 4)
    } else if op == 0x21 {
        spec_and_op(m, ea_ind_x(m), 2, 6)
    } else if op == 0x31 {
        spec_and_op(m, ea_ind_y(m), 2, 5)
    } else if op == 0x09 {
        spec_ora_op(m, m.cpu.pc.wrapping_add(1), 2, 2)
    } else if op == 0x05 {
        spec_ora_op(m, ea_zp(m), 2, 3)
    } else if op == 0x15 {
        spec_ora_op(m, ea_zp_x(m), 2, 4)
    } else if op == 0x0D {
        spec_ora_op(m, ea_abs(m), 3, 4)
    } else if op == 0x1D {
        spec_ora_op(m, ea_abs_x(m), 3, 4)
    } else if op == 0x19 {
        spec_ora_op(m, ea_abs_y(m), 3, 4)
    } else if op == 0x01 {
        spec_ora_op(m, ea_ind_x(m), 2, 6)
    } else if op == 0x11 {
        spec_ora_op(m, ea_ind_y(m), 2, 5)
    } else if op == 0x49 {
        spec_eor_op(m, m.cpu.pc.wrapping_add(1), 2, 2)
    } else if op == 0x45 {
        spec_eor_op(m, ea_zp(m), 2, 3)
    } else if op == 0x55 {
        spec_eor_op(m, ea_zp_x(m), 2, 4)
    } else if op == 0x4D {
        spec_eor_op(m, ea_abs(m), 3, 4)
    } else if op == 0x5D {
        spec_eor_op(m, ea_abs_x(m), 3, 4)
    } else if op == 0x59 {
        spec_eor_op(m, ea_abs_y(m), 3, 4)
    } else if op == 0x41 {
        spec_eor_op(m, ea_ind_x(m), 2, 6)
    } else if op == 0x51 {
        spec_eor_op(m, ea_ind_y(m), 2, 5)
    } else if op == 0xC9 {
        spec_cmp_op(m, m.cpu.acc, m.cpu.pc.wrapping_add(1), 2, 2)
    } else if op == 0xC5 {
        spec_cmp_op(m, m.cpu.acc, ea_zp(m), 2, 3)
    } else if op == 0xD5 {
        spec_cmp_op(m, m.cpu.acc, ea_zp_x(m), 2, 4)
    } else if op == 0xCD {
        spec_cmp_op(m, m.cpu.acc, ea_abs(m), 3, 4)
    } else if op == 0xD9 {
        spec_cmp_op(m, m.cpu.acc, ea_abs_y(m), 3, 4)
    } else if op == 0xDD {
        spec_cmp_op(m, m.cpu.acc, ea_abs_x(m), 3, 4)
    } else if op == 0xC1 {
        spec_cmp_op(m, m.cpu.acc, ea_ind_x(m), 2, 6)
    } else if op == 0xD1 {
        spec_cmp_op(m, m.cpu.acc, ea_ind_y(m), 2, 5)
    } else if op == 0xE0 {
        spec_cmp_op(m, m.cpu.xr, m.cpu.pc.wrapping_add(1), 2, 2)
    } else if op == 0xE4 {
        spec_cmp_op(m, m.cpu.xr, ea_zp(m), 2, 3)
    } else if op == 0xEC {
        spec_cmp_op(m, m.cpu.xr, ea_abs(m), 3, 4)
    } else if op == 0xC0 {
        spec_cmp_op(m, m.cpu.yr, m.cpu.pc.wrapping_add(1), 2, 2)
    } else if op == 0xC4 {
        spec_cmp_op(m, m.cpu.yr, ea_zp(m), 2, 3)
    } else if op == 0xCC {
        spec_cmp_op(m, m.cpu.yr, ea_abs(m), 3, 4)
    } else if op == 0x69 {
        spec_adc_op(m, m.cpu.pc.wrapping_add(1), 2, 2)
    } else if op == 0x65 {
        spec_adc_op(m, ea_zp(m), 2, 3)
    } else if op == 0x75 {
        spec_adc_op(m, ea_zp_x(m), 2, 4)
    } else if op == 0x6D {
        spec_adc_op(m, ea_abs(m), 3, 4)
    } else if op == 0x7D {
        spec_adc_op(m, ea_abs_x(m), 3, 4)
    } else if op == 0x79 {
        spec_adc_op(m, ea_abs_y(m), 3, 4)
    } else if op == 0x61 {
        spec_adc_op(m, ea_ind_x(m), 2, 6)
    } else if op == 0x71 {
        spec_adc_op(m, ea_ind_y(m), 2, 5)
    } else if op == 0xE9 {
        spec_sbc_op(m, m.cpu.pc.wrapping_add(1), 2, 2)
    } else if op == 0xE5 {
        spec_sbc_op(m, ea_zp(m), 2, 3)
    } else if op == 0xF5 {
        spec_sbc_op(m, ea_zp_x(m), 2, 4)
    } else if op == 0xED {
        spec_sbc_op(m, ea_abs(m), 3, 4)
    } else if op == 0xFD {
        spec_sbc_op(m, ea_abs_x(m), 3, 4)
    } else if op == 0xF9 {
        spec_sbc_op(m, ea_abs_y(m), 3, 4)
    } else if op == 0xE1 {
        spec_sbc_op(m, ea_ind_x(m), 2, 6)
    } else if op == 0xF1 {
        spec_sbc_op(m, ea_ind_y(m), 2, 5)
    } else if op == 0x24 {
        spec_bit_op(m, ea_zp(m), 2, 3)
    } else if op == 0x2C {
        spec_bit_op(m, ea_abs(m), 3, 4)
    } else if op == 0x0A {
        spec_shift_acc(m, asl_cpu(m.cpu, m.cpu.acc), (m.cpu.acc << 1))
    } else if op == 0x06 {
        spec_asl_mem(m, ea_zp(m), 2, 5)
    } else if op == 0x16 {
        spec_asl_mem(m, ea_zp_x(m), 2, 6)
    } else if op == 0x0E {
        spec_asl_mem(m, ea_abs(m), 3, 6)
    } else if op == 0x1E {
        spec_asl_mem(m, ea_abs_x(m), 3, 7)
    } else if op == 0x4A {
        spec_shift_acc(m, lsr_cpu(m.cpu, m.cpu.acc), (m.cpu.acc >> 1))
    } else if op == 0x46 {
        spec_lsr_mem(m, ea_zp(m), 2, 5)
    } else if op == 0x56 {
        spec_lsr_mem(m, ea_zp_x(m), 2, 6)
    } else if op == 0x4E {
        spec_lsr_mem(m, ea_abs(m), 3, 6)
    } else if op == 0x5E {
        spec_lsr_mem(m, ea_abs_x(m), 3, 7)
    } else if op == 0x2A {
        spec_shift_acc(m, rol_cpu(m.cpu, m.cpu.acc), rol_result(m.cpu.acc, m.cpu.c))
    } else if op == 0x26 {
        spec_rol_mem(m, ea_zp(m), 2, 5)
    } else if op == 0x36 {
        spec_rol_mem(m, ea_zp_x(m), 2, 6)
    } else if op == 0x2E {
        spec_rol_mem(m, ea_abs(m), 3, 6)
    } else if op == 0x3E {
        spec_rol_mem(m, ea_abs_x(m), 3, 7)
    } else if op == 0x6A {
        spec_shift_acc(m, ror_cpu(m.cpu, m.cpu.acc), ror_result(m.cpu.acc, m.cpu.c))
    } else if op == 0x66 {
        spec_ror_mem(m, ea_zp(m), 2, 5)
    } else if op == 0x76 {
        spec_ror_mem(m, ea_zp_x(m), 2, 6)
    } else if op == 0x6E {
        spec_ror_mem(m, ea_abs(m), 3, 6)
    } else if op == 0x7E {
        spec_ror_mem(m, ea_abs_x(m), 3, 7)
    } else if op == 0xE6 {
        spec_inc_mem(m, ea_zp(m), 2, 5)
    } else if op == 0xF6 {
        spec_inc_mem(m, ea_zp_x(m), 2, 6)
    } else if op == 0xEE {
        spec_inc_mem(m, ea_abs(m), 3, 6)
    } else if op == 0xFE {
        spec_inc_mem(m, ea_abs_x(m), 3, 7)
    } else if op == 0xC6 {
        spec_dec_mem(m, ea_zp(m), 2, 5)
    } else if op == 0xD6 {
        spec_dec_mem(m, ea_zp_x(m), 2, 6)
    } else if op == 0xCE {
        spec_dec_mem(m, ea_abs(m), 3, 6)
    } else if op == 0xDE {
        spec_dec_mem(m, ea_abs_x(m), 3, 7)
    } else if op == 0xAA {
        spec_implied(m, tax_cpu(m.cpu))
    } else if op == 0x8A {
        spec_implied(m, txa_cpu(m.cpu))
    } else if op == 0xA8 {
        spec_implied(m, tay_cpu(m.cpu))
    } else if op == 0x98 {
        spec_implied(m, tya_cpu(m.cpu))
    } else if op == 0xBA {
        spec_implied(m, tsx_cpu(m.cpu))
    } else if op == 0x9A {
        spec_implied(m, txs_cpu(m.cpu))
    } else if op == 0xE8 {
        spec_implied(m, inx_cpu(m.cpu))
    } else if op == 0xCA {
        spec_implied(m, dex_cpu(m.cpu))
    } else if op == 0xC8 {
        spec_implied(m, iny_cpu(m.cpu))
    } else if op == 0x88 {
        spec_implied(m, dey_cpu(m.cpu))
    } else if op == 0x48 {
        spec_pha(m)
    } else if op == 0x68 {
        spec_pla(m)
    } else if op == 0x08 {
        spec_php(m)
    } else if op == 0x28 {
        spec_plp(m)
    } else if op == 0x4C {
        spec_jmp_abs(m)
    } else if op == 0x6C {
        spec_jmp_ind(m)
    } else if op == 0x20 {
        spec_jsr(m)
    } else if op == 0x60 {
        spec_rts(m)
    } else if op == 0x40 {
        spec_rti(m)
    } else if op == 0x90 {
        spec_branch(m, !m.cpu.c)
    } else if op == 0xB0 {
        spec_branch(m, m.cpu.c)
    } else if op == 0xF0 {
        spec_branch(m, m.cpu.z)
    } else if op == 0xD0 {
        spec_branch(m, !m.cpu.z)
    } else if op == 0x30 {
        spec_branch(m, m.cpu.n)
    } else if op == 0x10 {
        spec_branch(m, !m.cpu.n)
    } else if op == 0x50 {
        spec_branch(m, !m.cpu.v)
    } else if op == 0x70 {
        spec_branch(m, m.cpu.v)
    } else if op == 0x18 {
        spec_implied(m, (CpuState { c: false, ..m.cpu }))
    } else if op == 0x38 {
        spec_implied(m, (CpuState { c: true, ..m.cpu }))
    } else if op == 0x58 {
        spec_implied(m, (CpuState { i: false, ..m.cpu }))
    } else if op == 0x78 {
        spec_implied(m, (CpuState { i: true, ..m.cpu }))
    } else if op == 0xD8 {
        spec_implied(m, (CpuState { d: false, ..m.cpu }))
    } else if op == 0xF8 {
        spec_implied(m, (CpuState { d: true, ..m.cpu }))
    } else if op == 0xB8 {
        spec_implied(m, (CpuState { v: false, ..m.cpu }))
    } else if op == 0xEA {
        spec_nop(m)
    } else if op == 0x1A {
        spec_nop(m)
    } else if op == 0x3A {
        spec_nop(m)
    } else if op == 0x5A {
        spec_nop(m)
    } else if op == 0x7A {
        spec_nop(m)
    } else if op == 0xDA {
        spec_nop(m)
    } else if op == 0xFA {
        spec_nop(m)
    } else if op == 0xFC {
        spec_nop(m)
    } else if op == 0x3F {
        spec_nop(m)
    } else if op == 0x7F {
        spec_nop(m)
    } else if op == 0x07 {
        spec_nop(m)
    } else if op == 0x00 {
        spec_brk(m)
    } else {
        spec_nop(m)
    }
}

/// What [`spec_instruction`] means on the opcodes of this group.
#[verifier::rlimit(100)]
pub proof fn lemma_instr_loads(m: MachineView, op: u8)
    requires
        is_load_op(op),
        op == spec_read(m, m.cpu.pc),
    ensures
        spec_instruction(m) == ({
            if op == 0xA9 {
                spec_load_a(m, m.cpu.pc.wrapping_add(1), 2, 2)
            } else if op == 0xA5 {
                spec_load_a(m, ea_zp(m), 2, 3)
            } else if op == 0xB5 {
                spec_load_a(m, ea_zp_x(m), 2, 4)
            } else if op == 0xAD {
                spec_load_a(m, ea_abs(m), 3, 4)
            } else if op == 0xBD {
                spec_load_a(m, ea_abs_x(m), 3, 4)
            } else if op == 0xB9 {
                spec_load_a(m, ea_abs_y(m), 3, 4)
            } else if op == 0xA1 {
                spec_load_a(m, ea_ind_x(m), 2, 6)
            } else if op == 0xB1 {
                spec_load_a(m, ea_ind_y(m), 2, 5)
            } else if op == 0xA2 {
                spec_load_x(m, m.cpu.pc.wrapping_add(1), 2, 2)
            } else if op == 0xA6 {
                spec_load_x(m, ea_zp(m), 2, 3)
            } else if op == 0xB6 {
                spec_load_x(m, ea_zp_y(m), 2, 4)
            } else if op == 0xAE {
                spec_load_x(m, ea_abs(m), 3, 4)
            } else if op == 0xBE {
                spec_load_x(m, ea_abs_y(m), 3, 4)
            } else if op == 0xA0 {
                spec_load_y(m, m.cpu.pc.wrapping_add(1), 2, 2)
            } else if op == 0xA4 {
                spec_load_y(m, ea_zp(m), 2, 3)
            } else if op == 0xB4 {
                spec_load_y(m, ea_zp_x(m), 2, 4)
            } else if op == 0xAC {
                spec_load_y(m, ea_abs(m), 3, 4)
            } else if op == 0xBC {
                spec_load_y(m, ea_abs_x(m), 3, 4)
            } else {
                spec_nop(m)
            }
        }),
{
    reveal(spec_instruction);
}

/// What [`spec_instruction`] means on the opcodes of this group.
#[verifier::rlimit(100)]
pub proof fn lemma_instr_stores(m: MachineView, op: u8)
    requires
        is_store_op(op),
        op == spec_read(m, m.cpu.pc),
    ensures
        spec_instruction(m) == ({
            if op == 0x85 {
                spec_store(m, ea_zp(m), m.cpu.acc, 2, 3)
            } else if op == 0x95 {
                spec_store(m, ea_zp_x(m), m.cpu.acc, 2, 4)
            } else if op == 0x8D {
                spec_store(m, ea_abs(m), m.cpu.acc, 3, 4)
            } else if op == 0x9D {
                spec_store(m, ea_abs_x(m), m.cpu.acc, 3, 5)
            } else if op == 0x99 {
                spec_store(m, ea_abs_y(m), m.cpu.acc, 3, 5)
            } else if op == 0x81 {
                spec_store(m, ea_ind_x(m), m.cpu.acc, 2, 6)
            } else if op == 0x91 {
                spec_store(m, ea_ind_y(m), m.cpu.acc, 2, 6)
            } else if op == 0x86 {
                spec_store(m, ea_zp(m), m.cpu.xr, 2, 3)
            } else if op == 0x96 {
                spec_store(m, ea_zp_y(m), m.cpu.xr, 2, 4)
            } else if op == 0x8E {
                spec_store(m, ea_abs(m), m.cpu.xr, 3, 4)
            } else if op == 0x84 {
                spec_store(m, ea_zp(m), m.cpu.yr, 2, 3)
            } else if op == 0x94 {
                spec_store(m, ea_zp_x(m), m.cpu.yr, 2, 4)
            } else if op == 0x8C {
                spec_store(m, ea_abs(m), m.cpu.yr, 3, 4)
            } else {
                spec_nop(m)
            }
        }),
{
    reveal(spec_instruction);
}

/// What [`spec_instruction`] means on the opcodes of this group.
#[verifier::rlimit(100)]
pub proof fn lemma_instr_implied(m: MachineView, op: u8)
    requires
        is_implied_op(op),
        op == spec_read(m, m.cpu.pc),
    ensures
        spec_instruction(m) == ({
            if op == 0xAA {
                spec_implied(m, tax_cpu(m.cpu))
            } else if op == 0x8A {
                spec_implied(m, txa_cpu(m.cpu))
            } else if op == 0xA8 {
                spec_implied(m, tay_cpu(m.cpu))
            } else if op == 0x98 {
                spec_implied(m, tya_cpu(m.cpu))
            } else if op == 0xBA {
                spec_implied(m, tsx_cpu(m.cpu))
            } else if op == 0x9A {
                spec_implied(m, txs_cpu(m.cpu))
            } else if op == 0xE8 {
                spec_implied(m, inx_cpu(m.cpu))
            } else if op == 0xCA {
                spec_implied(m, dex_cpu(m.cpu))
            } else if op == 0xC8 {
                spec_implied(m, iny_cpu(m.cpu))
            } else if op == 0x88 {
                spec_implied(m, dey_cpu(m.cpu))
            } else if op == 0x18 {
                spec_implied(m, (CpuState { c: false, ..m.cpu }))
            } else if op == 0x38 {
                spec_implied(m, (CpuState { c: true, ..m.cpu }))
            } else if op == 0x58 {
                spec_implied(m, (CpuState { i: false, ..m.cpu }))
            } else if op == 0x78 {
                spec_implied(m, (CpuState { i: true, ..m.cpu }))
            } else if op == 0xD8 {
                spec_implied(m, (CpuState { d: false, ..m.cpu }))
            } else if op == 0xF8 {
                spec_implied(m, (CpuState { d: true, ..m.cpu }))
            } else if op == 0xB8 {
                spec_implied(m, (CpuState { v: false, ..m.cpu }))
            } else if op == 0xEA {
                spec_nop(m)
            } else if op == 0x1A {
                spec_nop(m)
            } else if op == 0x3A {
                spec_nop(m)
            } else if op == 0x5A {
                spec_nop(m)
            } else if op == 0x7A {
                spec_nop(m)
            } else if op == 0xDA {
                spec_nop(m)
            } else if op == 0xFA {
                spec_nop(m)
            } else if op == 0xFC {
                spec_nop(m)
            } else if op == 0x3F {
                spec_nop(m)
            } else if op == 0x7F {
                spec_nop(m)
            } else if op == 0x07 {
                spec_nop(m)
            } else {
                spec_nop(m)
            }
        }),
{
    reveal(spec_instruction);
}

/// What [`spec_instruction`] means on the opcodes of this group.
#[verifier::rlimit(100)]
pub proof fn lemma_instr_logic(m: MachineView, op: u8)
    requires
        is_logic_op(op),
        op == spec_read(m, m.cpu.pc),
    ensures
        spec_instruction(m) == ({
            if op == 0x29 {
                spec_and_op(m, m.cpu.pc.wrapping_add(1), 2, 2)
            } else if op == 0x25 {
                spec_and_op(m, ea_zp(m), 2, 3)
            } else if op == 0x35 {
                spec_and_op(m, ea_zp_x(m), 2, 4)
            } else if op == 0x2D {
                spec_and_op(m, ea_abs(m), 3, 4)
            } else if op == 0x3D {
                spec_and_op(m, ea_abs_x(m), 3, 4)
            } else if op == 0x39 {
                spec_and_op(m, ea_abs_y(m), 3, 4)
            } else if op == 0x21 {
                spec_and_op(m, ea_ind_x(m), 2, 6)
            } else if op == 0x31 {
                spec_and_op(m, ea_ind_y(m), 2, 5)
            } else if op == 0x09 {
                spec_ora_op(m, m.cpu.pc.wrapping_add(1), 2, 2)
            } else if op == 0x05 {
                spec_ora_op(m, ea_zp(m), 2, 3)
            } else if op == 0x15 {
                spec_ora_op(m, ea_zp_x(m), 2, 4)
            } else if op == 0x0D {
                spec_ora_op(m, ea_abs(m), 3, 4)
            } else if op == 0x1D {
                spec_ora_op(m, ea_abs_x(m), 3, 4)
            } else if op == 0x19 {
                spec_ora_op(m, ea_abs_y(m), 3, 4)
            } else if op == 0x01 {
                spec_ora_op(m, ea_ind_x(m), 2, 6)
            } else if op == 0x11 {
                spec_ora_op(m, ea_ind_y(m), 2, 5)
            } else if op == 0x49 {
                spec_eor_op(m, m.cpu.pc.wrapping_add(1), 2, 2)
            } else if op == 0x45 {
                spec_eor_op(m, ea_zp(m), 2, 3)
            } else if op == 0x55 {
                spec_eor_op(m, ea_zp_x(m), 2, 4)
            } else if op == 0x4D {
                spec_eor_op(m, ea_abs(m), 3, 4)
            } else if op == 0x5D {
                spec_eor_op(m, ea_abs_x(m), 3, 4)
            } else if op == 0x59 {
                spec_eor_op(m, ea_abs_y(m), 3, 4)
            } else if op == 0x41 {
                spec_eor_op(m, ea_ind_x(m), 2, 6)
            } else if op == 0x51 {
                spec_eor_op(m, ea_ind_y(m), 2, 5)
            } else {
                spec_nop(m)
            }
        }),
{
    reveal(spec_instruction);
}

/// What [`spec_instruction`] means on the opcodes of this group.
#[verifier::rlimit(100)]
pub proof fn lemma_instr_compare(m: MachineView, op: u8)
    requires
        is_compare_op(op),
        op == spec_read(m, m.cpu.pc),
    ensures
        spec_instruction(m) == ({
            if op == 0xC9 {
                spec_cmp_op(m, m.cpu.acc, m.cpu.pc.wrapping_add(1), 2, 2)
            } else if op == 0xC5 {
                spec_cmp_op(m, m.cpu.acc, ea_zp(m), 2, 3)
            } else if op == 0xD5 {
                spec_cmp_op(m, m.cpu.acc, ea_zp_x(m), 2, 4)
            } else if op == 0xCD {
                spec_cmp_op(m, m.cpu.acc, ea_abs(m), 3, 4)
            } else if op == 0xD9 {
                spec_cmp_op(m, m.cpu.acc, ea_abs_y(m), 3, 4)
            } else if op == 0xDD {
                spec_cmp_op(m, m.cpu.acc, ea_abs_x(m), 3, 4)
            } else if op == 0xC1 {
                spec_cmp_op(m, m.cpu.acc, ea_ind_x(m), 2, 6)
            } else if op == 0xD1 {
                spec_cmp_op(m, m.cpu.acc, ea_ind_y(m), 2, 5)
            } else if op == 0xE0 {
                spec_cmp_op(m, m.cpu.xr, m.cpu.pc.wrapping_add(1), 2, 2)
            } else if op == 0xE4 {
                spec_cmp_op(m, m.cpu.xr, ea_zp(m), 2, 3)
            } else if op == 0xEC {
                spec_cmp_op(m, m.cpu.xr, ea_abs(m), 3, 4)
            } else if op == 0xC0 {
                spec_cmp_op(m, m.cpu.yr, m.cpu.pc.wrapping_add(1), 2, 2)
            } else if op == 0xC4 {
                spec_cmp_op(m, m.cpu.yr, ea_zp(m), 2, 3)
            } else if op == 0xCC {
                spec_cmp_op(m, m.cpu.yr, ea_abs(m), 3, 4)
            } else if op == 0x24 {
                spec_bit_op(m, ea_zp(m), 2, 3)
            } else if op == 0x2C {
                spec_bit_op(m, ea_abs(m), 3, 4)
            } else {
                spec_nop(m)
            }
        }),
{
    reveal(spec_instruction);
}

/// What [`spec_instruction`] means on the opcodes of this group.
#[verifier::rlimit(100)]
pub proof fn lemma_instr_arith(m: MachineView, op: u8)
    requires
        is_arith_op(op),
        op == spec_read(m, m.cpu.pc),
    ensures
        spec_instruction(m) == ({
            if op == 0x69 {
                spec_adc_op(m, m.cpu.pc.wrapping_add(1), 2, 2)
            } else if op == 0x65 {
                spec_adc_op(m, ea_zp(m), 2, 3)
            } else if op == 0x75 {
                spec_adc_op(m, ea_zp_x(m), 2, 4)
            } else if op == 0x6D {
                spec_adc_op(m, ea_abs(m), 3, 4)
            } else if op == 0x7D {
                spec_adc_op(m, ea_abs_x(m), 3, 4)
            } else if op == 0x79 {
                spec_adc_op(m, ea_abs_y(m), 3, 4)
            } else if op == 0x61 {
                spec_adc_op(m, ea_ind_x(m), 2, 6)
            } else if op == 0x71 {
                spec_adc_op(m, ea_ind_y(m), 2, 5)
            } else if op == 0xE9 {
                spec_sbc_op(m, m.cpu.pc.wrapping_add(1), 2, 2)
            } else if op == 0xE5 {
                spec_sbc_op(m, ea_zp(m), 2, 3)
            } else if op == 0xF5 {
                spec_sbc_op(m, ea_zp_x(m), 2, 4)
            } else if op == 0xED {
                spec_sbc_op(m, ea_abs(m), 3, 4)
            } else if op == 0xFD {
                spec_sbc_op(m, ea_abs_x(m), 3, 4)
            } else if op == 0xF9 {
                spec_sbc_op(m, ea_abs_y(m), 3, 4)
            } else if op == 0xE1 {
                spec_sbc_op(m, ea_ind_x(m), 2, 6)
            } else if op == 0xF1 {
                spec_sbc_op(m, ea_ind_y(m), 2, 5)
            } else {
                spec_nop(m)
            }
        }),
{
    reveal(spec_instruction);
}

/// What [`spec_instruction`] means on the opcodes of this group.
#[verifier::rlimit(100)]
pub proof fn lemma_instr_rmw(m: MachineView, op: u8)
    requires
        is_rmw_op(op),
        op == spec_read(m, m.cpu.pc),
    ensures
        spec_instruction(m) == ({
            if op == 0x0A {
                spec_shift_acc(m, asl_cpu(m.cpu, m.cpu.acc), (m.cpu.acc << 1))
            } else if op == 0x06 {
                spec_asl_mem(m, ea_zp(m), 2, 5)
            } else if op == 0x16 {
                spec_asl_mem(m, ea_zp_x(m), 2, 6)
            } else if op == 0x0E {
                spec_asl_mem(m, ea_abs(m), 3, 6)
            } else if op == 0x1E {
                spec_asl_mem(m, ea_abs_x(m), 3, 7)
            } else if op == 0x4A {
                spec_shift_acc(m, lsr_cpu(m.cpu, m.cpu.acc), (m.cpu.acc >> 1))
            } else if op == 0x46 {
                spec_lsr_mem(m, ea_zp(m), 2, 5)
            } else if op == 0x56 {
                spec_lsr_mem(m, ea_zp_x(m), 2, 6)
            } else if op == 0x4E {
                spec_lsr_mem(m, ea_abs(m), 3, 6)
            } else if op == 0x5E {
                spec_lsr_mem(m, ea_abs_x(m), 3, 7)
            } else if op == 0x2A {
                spec_shift_acc(m, rol_cpu(m.cpu, m.cpu.acc), rol_result(m.cpu.acc, m.cpu.c))
            } else if op == 0x26 {
                spec_rol_mem(m, ea_zp(m), 2, 5)
            } else if op == 0x36 {
                spec_rol_mem(m, ea_zp_x(m), 2, 6)
            } else if op == 0x2E {
                spec_rol_mem(m, ea_abs(m), 3, 6)
            } else if op == 0x3E {
                spec_rol_mem(m, ea_abs_x(m), 3, 7)
            } else if op == 0x6A {
                spec_shift_acc(m, ror_cpu(m.cpu, m.cpu.acc), ror_result(m.cpu.acc, m.cpu.c))
            } else if op == 0x66 {
                spec_ror_mem(m, ea_zp(m), 2, 5)
            } else if op == 0x76 {
                spec_ror_mem(m, ea_zp_x(m), 2, 6)
            } else if op == 0x6E {
                spec_ror_mem(m, ea_abs(m), 3, 6)
            } else if op == 0x7E {
                spec_ror_mem(m, ea_abs_x(m), 3, 7)
            } else if op == 0xE6 {
                spec_inc_mem(m, ea_zp(m), 2, 5)
            } else if op == 0xF6 {
                spec_inc_mem(m, ea_zp_x(m), 2, 6)
            } else if op == 0xEE {
                spec_inc_mem(m, ea_abs(m), 3, 6)
            } else if op == 0xFE {
                spec_inc_mem(m, ea_abs_x(m), 3, 7)
            } else if op == 0xC6 {
                spec_dec_mem(m, ea_zp(m), 2, 5)
            } else if op == 0xD6 {
                spec_dec_mem(m, ea_zp_x(m), 2, 6)
            } else if op == 0xCE {
                spec_dec_mem(m, ea_abs(m), 3, 6)
            } else if op == 0xDE {
                spec_dec_mem(m, ea_abs_x(m), 3, 7)
            } else {
                spec_nop(m)
            }
        }),
{
    reveal(spec_instruction);
}

/// What [`spec_instruction`] means on the opcodes of this group.
#[verifier::rlimit(100)]
pub proof fn lemma_instr_flow(m: MachineView, op: u8)
    requires
        is_flow_op(op),
        op == spec_read(m, m.cpu.pc),
    ensures
        spec_instruction(m) == ({
            if op == 0x48 {
                spec_pha(m)
            } else if op == 0x68 {
                spec_pla(m)
            } else if op == 0x08 {
                spec_php(m)
            } else if op == 0x28 {
                spec_plp(m)
            } else if op == 0x4C {
                spec_jmp_abs(m)
            } else if op == 0x6C {
                spec_jmp_ind(m)
            } else if op == 0x20 {
                spec_jsr(m)
            } else if op == 0x60 {
                spec_rts(m)
            } else if op == 0x40 {
                spec_rti(m)
            } else if op == 0x90 {
                spec_branch(m, !m.cpu.c)
            } else if op == 0xB0 {
                spec_branch(m, m.cpu.c)
            } else if op == 0xF0 {
                spec_branch(m, m.cpu.z)
            } else if op == 0xD0 {
                spec_branch(m, !m.cpu.z)
            } else if op == 0x30 {
                spec_branch(m, m.cpu.n)
            } else if op == 0x10 {
                spec_branch(m, !m.cpu.n)
            } else if op == 0x50 {
                spec_branch(m, !m.cpu.v)
            } else if op == 0x70 {
                spec_branch(m, m.cpu.v)
            } else if op == 0x00 {
                spec_brk(m)
            } else {
                spec_nop(m)
            }
        }),
{
    reveal(spec_instruction);
}

/// A byte outside the executed set behaves as a NOP.
#[verifier::rlimit(100)]
pub proof fn lemma_instr_unknown(m: MachineView, op: u8)
    requires
        !is_documented(op),
        op == spec_read(m, m.cpu.pc),
    ensures
        spec_instruction(m) == spec_nop(m),
{
    reveal(spec_instruction);
}

/// A subroutine call returns to the instruction after it: JSR at `R`
/// pushes `R + 2`, and an RTS that finds those two stack bytes and the
/// same stack pointer — whatever the subroutine did elsewhere in memory —
/// resumes at `R + 3` with the stack pointer restored.
pub proof fn lemma_jsr_rts(m: MachineView, mid: MachineView)
    requires
        view_wf(m),
        view_wf(mid),
        mid.cpu.sp == spec_jsr(m).cpu.sp,
        mid.mem[0x100 + m.cpu.sp] == spec_jsr(m).mem[0x100 + m.cpu.sp],
        mid.mem[0x100 + m.cpu.sp.wrapping_sub(1)] == spec_jsr(m).mem[0x100
            + m.cpu.sp.wrapping_sub(1)],
    ensures
        spec_rts(mid).cpu.pc == m.cpu.pc.wrapping_add(3),
        spec_rts(mid).cpu.sp == m.cpu.sp,
{
    let ret = m.cpu.pc.wrapping_add(2);
    assert(m.cpu.sp.wrapping_sub(2).wrapping_add(1) == m.cpu.sp.wrapping_sub(1));
    assert(m.cpu.sp.wrapping_sub(2).wrapping_add(2) == m.cpu.sp);
    assert(0x100 + m.cpu.sp.wrapping_sub(1) != 0x100 + m.cpu.sp);
    assert(spec_rts(mid).cpu.pc == word16((ret % 256) as u8, (ret / 256) as u8).wrapping_add(1));
    assert(word16((ret % 256) as u8, (ret / 256) as u8) == ret);
}

/// PHA followed by PLA restores the accumulator and the stack pointer; the
/// pull sets N and Z from the restored value.
pub proof fn lemma_pha_pla(m: MachineView)
    requires
        view_wf(m),
    ensures
        spec_pla(spec_pha(m)).cpu.acc == m.cpu.acc,
        spec_pla(spec_pha(m)).cpu.sp == m.cpu.sp,
        spec_pla(spec_pha(m)).cpu.pc == m.cpu.pc.wrapping_add(2),
        spec_pla(spec_pha(m)).cpu.z == (m.cpu.acc == 0),
        spec_pla(spec_pha(m)).cpu.n == bit7(m.cpu.acc),
        spec_pla(spec_pha(m)).mem == spec_pha(m).mem,
{
    assert(m.cpu.sp.wrapping_sub(1).wrapping_add(1) == m.cpu.sp);
}

/// PHP followed by PLP restores all seven status flags and the stack
/// pointer; on this machine even the B bit round-trips, which is at least
/// as strong as the 6502 convention of ignoring it.
pub proof fn lemma_php_plp(m: MachineView)
    requires
        view_wf(m),
    ensures
        ({
            let r = spec_plp(spec_php(m)).cpu;
            r.c == m.cpu.c && r.z == m.cpu.z && r.i == m.cpu.i && r.d == m.cpu.d && r.b == m.cpu.b
                && r.v == m.cpu.v && r.n == m.cpu.n && r.sp == m.cpu.sp && r.pc
                == m.cpu.pc.wrapping_add(2) && r.acc == m.cpu.acc && r.xr == m.cpu.xr && r.yr
                == m.cpu.yr
        }),
{
    assert(m.cpu.sp.wrapping_sub(1).wrapping_add(1) == m.cpu.sp);
    crate::cpu_state::lemma_flags_roundtrip(m.cpu, m.cpu);
}

/// A taken branch with offset 0xFE (minus two) lands back on its own
/// opcode: BNE at `A` loops forever exactly while Z stays clear, and falls
/// through to `A + 2` once Z is set.
pub proof fn lemma_branch_minus_two_self_loop(m: MachineView)
    requires
        view_wf(m),
        spec_read(m, m.cpu.pc.wrapping_add(1)) == 0xFE,
    ensures
        !m.cpu.z ==> spec_branch(m, !m.cpu.z).cpu.pc == m.cpu.pc,
        m.cpu.z ==> spec_branch(m, !m.cpu.z).cpu.pc == m.cpu.pc.wrapping_add(2),
{
    assert(branch_dest(m.cpu.pc.wrapping_add(2), 0xFE) == m.cpu.pc);
}

} // verus!
