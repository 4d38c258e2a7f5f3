//! The 6510 register file and the ALU primitives that update its flags.
//!
//! Every primitive states its complete effect: the new register value, the
//! exact flag outcomes, and that nothing else moves.

use vstd::prelude::*;

verus! {

/// True iff bit 7 (the sign bit) of `x` is set.
pub open spec fn bit7(x: u8) -> bool {
    x & 0x80 != 0
}

/// Result byte of rotate-left: the byte shifts left one position and the
/// incoming carry enters at bit 0.
pub open spec fn rol_result(x: u8, c: bool) -> u8 {
    (x << 1) | (if c {
        1u8
    } else {
        0u8
    })
}

/// Result byte of rotate-right: the byte shifts right one position and the
/// incoming carry enters at bit 7.
pub open spec fn ror_result(x: u8, c: bool) -> u8 {
    (x >> 1) | (if c {
        0x80u8
    } else {
        0u8
    })
}

/// The canonical status byte: C at bit 0, Z at 1, I at 2, D at 3, B at 4,
/// the reserved bit 5 always one, V at 6, N at 7.
pub open spec fn flags_to_byte(s: CpuState) -> u8 {
    32u8 | (if s.c {
        1u8
    } else {
        0u8
    }) | (if s.z {
        2u8
    } else {
        0u8
    }) | (if s.i {
        4u8
    } else {
        0u8
    }) | (if s.d {
        8u8
    } else {
        0u8
    }) | (if s.b {
        16u8
    } else {
        0u8
    }) | (if s.v {
        64u8
    } else {
        0u8
    }) | (if s.n {
        128u8
    } else {
        0u8
    })
}

/// The register file with the seven status flags unpacked from `f`; the
/// reserved bit is never exposed to callers.
pub open spec fn flags_from_byte(s: CpuState, f: u8) -> CpuState {
    CpuState {
        c: f & 1 != 0,
        z: f & 2 != 0,
        i: f & 4 != 0,
        d: f & 8 != 0,
        b: f & 16 != 0,
        v: f & 64 != 0,
        n: f & 128 != 0,
        ..s
    }
}

/// The running total of the decimal-mode SBC nibble-adjust algorithm, offset
/// by 256 so that a final borrow shows as a total below 256: the low nibbles
/// are subtracted with a correction of 6 on a nibble borrow, which also
/// borrows 0x10 out of the high-nibble difference.
pub open spec fn sbc_dec_total(a: u8, d: u8, bw: int) -> int {
    let al = a as int % 16;
    let dl = d as int % 16;
    if al < dl + bw {
        (a - al + 256 - (d - dl) - 16) + ((al + 26 - dl - bw) % 16)
    } else {
        (a - al + 256 - (d - dl)) + (al - dl - bw)
    }
}

/// The accumulator after a decimal-mode SBC: 0x60 is subtracted from the
/// total on a final borrow.
pub open spec fn sbc_dec_result(a: u8, d: u8, bw: int) -> u8 {
    let t = sbc_dec_total(a, d, bw);
    if t < 256 {
        ((t + 160) % 256) as u8
    } else {
        (t % 256) as u8
    }
}

/// The power-on register file: everything zero but the stack pointer, which
/// starts at the top of the stack page.
pub open spec fn power_on_cpu() -> CpuState {
    CpuState {
        pc: 0u16,
        acc: 0u8,
        xr: 0u8,
        yr: 0u8,
        sp: 0xFFu8,
        c: false,
        z: false,
        n: false,
        b: false,
        v: false,
        i: false,
        d: false,
    }
}


/// The register file after a binary-mode ADC of `data`.
pub open spec fn adc_cpu(s: CpuState, data: u8) -> CpuState {
    let cin: int = if s.c {
        1
    } else {
        0
    };
    let sum = ((s.acc + data + cin) % 256) as u8;
    CpuState {
        acc: sum,
        c: s.acc + data + cin > 255,
        z: sum == 0,
        n: bit7(sum),
        v: (s.acc ^ sum) & (data ^ sum) & 0x80 != 0,
        ..s
    }
}

/// The register file after an SBC of `data`, in whichever mode the
/// decimal flag selects.
pub open spec fn sbc_cpu(s: CpuState, data: u8) -> CpuState {
    let bw: int = if s.c {
        0
    } else {
        1
    };
    let res: u8 = if s.d {
        sbc_dec_result(s.acc, data, bw)
    } else {
        ((s.acc - data - bw) % 256) as u8
    };
    CpuState {
        acc: res,
        c: if s.d {
            sbc_dec_total(s.acc, data, bw) >= 256
        } else {
            s.acc >= data + bw
        },
        z: res == 0,
        n: bit7(res),
        v: (s.acc ^ data) & (s.acc ^ res) & 0x80 != 0,
        ..s
    }
}

/// The register file after AND.
pub open spec fn and_cpu(s: CpuState, data: u8) -> CpuState {
    let r = s.acc & data;
    CpuState { acc: r, z: r == 0, n: bit7(r), ..s }
}

/// The register file after ORA.
pub open spec fn ora_cpu(s: CpuState, data: u8) -> CpuState {
    let r = s.acc | data;
    CpuState { acc: r, z: r == 0, n: bit7(r), ..s }
}

/// The register file after EOR.
pub open spec fn eor_cpu(s: CpuState, data: u8) -> CpuState {
    let r = s.acc ^ data;
    CpuState { acc: r, z: r == 0, n: bit7(r), ..s }
}

/// The register file after a compare of `reg` with `data`.
pub open spec fn cmp_cpu(s: CpuState, reg: u8, data: u8) -> CpuState {
    CpuState { c: reg >= data, z: reg == data, n: reg.wrapping_sub(data) > 0x7F, ..s }
}

/// The register file after BIT.
pub open spec fn bit_cpu(s: CpuState, data: u8) -> CpuState {
    CpuState { v: data & 64 != 0, n: data & 128 != 0, z: data & s.acc == 0, ..s }
}

/// The flags after an ASL of `x`; the shifted byte itself is `x << 1`.
pub open spec fn asl_cpu(s: CpuState, x: u8) -> CpuState {
    CpuState { c: bit7(x), z: (x << 1) == 0, n: bit7((x << 1)), ..s }
}

/// The flags after an LSR of `x`; the shifted byte itself is `x >> 1`.
pub open spec fn lsr_cpu(s: CpuState, x: u8) -> CpuState {
    CpuState { c: x & 1 != 0, z: (x >> 1) == 0, n: false, ..s }
}

/// The flags after a ROL of `x`; the rotated byte is [`rol_result`].
pub open spec fn rol_cpu(s: CpuState, x: u8) -> CpuState {
    let r = rol_result(x, s.c);
    CpuState { c: bit7(x), z: r == 0, n: bit7(r), ..s }
}

/// The flags after a ROR of `x`; the rotated byte is [`ror_result`].
pub open spec fn ror_cpu(s: CpuState, x: u8) -> CpuState {
    let r = ror_result(x, s.c);
    CpuState { c: x & 1 != 0, z: r == 0, n: bit7(r), ..s }
}

/// The register file after INX.
pub open spec fn inx_cpu(s: CpuState) -> CpuState {
    let r = s.xr.wrapping_add(1);
    CpuState { xr: r, z: r == 0, n: bit7(r), ..s }
}

/// The register file after DEX.
pub open spec fn dex_cpu(s: CpuState) -> CpuState {
    let r = s.xr.wrapping_sub(1);
    CpuState { xr: r, z: r == 0, n: bit7(r), ..s }
}

/// The register file after INY.
pub open spec fn iny_cpu(s: CpuState) -> CpuState {
    let r = s.yr.wrapping_add(1);
    CpuState { yr: r, z: r == 0, n: bit7(r), ..s }
}

/// The register file after DEY.
pub open spec fn dey_cpu(s: CpuState) -> CpuState {
    let r = s.yr.wrapping_sub(1);
    CpuState { yr: r, z: r == 0, n: bit7(r), ..s }
}

/// The register file after TAX.
pub open spec fn tax_cpu(s: CpuState) -> CpuState {
    CpuState { xr: s.acc, z: s.acc == 0, n: bit7(s.acc), ..s }
}

/// The register file after TXA.
pub open spec fn txa_cpu(s: CpuState) -> CpuState {
    CpuState { acc: s.xr, z: s.xr == 0, n: bit7(s.xr), ..s }
}

/// The register file after TAY.
pub open spec fn tay_cpu(s: CpuState) -> CpuState {
    CpuState { yr: s.acc, z: s.acc == 0, n: bit7(s.acc), ..s }
}

/// The register file after TYA.
pub open spec fn tya_cpu(s: CpuState) -> CpuState {
    CpuState { acc: s.yr, z: s.yr == 0, n: bit7(s.yr), ..s }
}

/// The register file after TSX.
pub open spec fn tsx_cpu(s: CpuState) -> CpuState {
    CpuState { xr: s.sp, z: s.sp == 0, n: bit7(s.sp), ..s }
}

/// The register file after TXS: no flag moves.
pub open spec fn txs_cpu(s: CpuState) -> CpuState {
    CpuState { sp: s.xr, ..s }
}

/// The register file of the 6510: program counter, accumulator, the X and Y
/// index registers, the stack pointer and the seven status flags.
#[derive(Clone, Copy, Debug)]
pub struct CpuState {
    pub pc: u16,
    pub acc: u8,
    pub xr: u8,
    pub yr: u8,
    pub sp: u8,
    pub c: bool,
    pub z: bool,
    pub n: bool,
    pub b: bool,
    pub v: bool,
    pub i: bool,
    pub d: bool,
}

impl Default for CpuState {
    /// The power-on register file: everything zero but the stack pointer,
    /// which starts at the top of the stack page.
    fn default() -> (s: Self)
        ensures
            s == power_on_cpu(),
    {
        CpuState {
            pc: 0,
            acc: 0,
            xr: 0,
            yr: 0,
            sp: 0xFF,
            c: false,
            z: false,
            n: false,
            b: false,
            v: false,
            i: false,
            d: false,
        }
    }
}

impl CpuState {
    pub fn new() -> (s: Self)
        ensures
            s == power_on_cpu(),
    {
        Self::default()
    }

    /// Advance the program counter by `inc`, wrapping at the top of the
    /// 16-bit address space.
    pub fn incr_pc(&mut self, inc: u16)
        ensures
            final(self).pc == old(self).pc.wrapping_add(inc),
            *final(self) == (CpuState { pc: final(self).pc, ..*old(self) }),
    {
        self.pc = self.pc.wrapping_add(inc);
    }

    /// Increment the stack pointer, wrapping within the stack page.
    pub fn incr_sp(&mut self)
        ensures
            final(self).sp == old(self).sp.wrapping_add(1),
            *final(self) == (CpuState { sp: final(self).sp, ..*old(self) }),
    {
        self.sp = self.sp.wrapping_add(1);
    }

    /// Decrement the stack pointer, wrapping within the stack page.
    pub fn decr_sp(&mut self)
        ensures
            final(self).sp == old(self).sp.wrapping_sub(1),
            *final(self) == (CpuState { sp: final(self).sp, ..*old(self) }),
    {
        self.sp = self.sp.wrapping_sub(1);
    }

    /// Set N from bit 7 of `byte`.
    pub fn neg_flag(&mut self, byte: u8)
        ensures
            final(self).n == bit7(byte),
            *final(self) == (CpuState { n: final(self).n, ..*old(self) }),
    {
        self.n = (byte & 0x80) != 0;
    }

    /// Set Z iff `byte` is zero.
    pub fn zero_flag(&mut self, byte: u8)
        ensures
            final(self).z == (byte == 0),
            *final(self) == (CpuState { z: final(self).z, ..*old(self) }),
    {
        self.z = byte == 0;
    }

    /// ADC: binary-mode add with carry.  The sum is reduced modulo 256 into
    /// the accumulator, C reports the carry out of bit 7, and V reports
    /// signed overflow: it is set exactly when the operands agree in sign
    /// and the result does not.  Decimal mode is rejected upstream, so this
    /// primitive demands the decimal flag clear.
    pub fn do_adc(&mut self, data: u8)
        requires
            !old(self).d,
        ensures
            final(self).acc as int == (old(self).acc + data + (if old(self).c {
                1int
            } else {
                0int
            })) % 256,
            final(self).c == (old(self).acc + data + (if old(self).c {
                1int
            } else {
                0int
            }) > 255),
            final(self).z == (final(self).acc == 0),
            final(self).n == bit7(final(self).acc),
            final(self).v == ((old(self).acc ^ final(self).acc) & (data ^ final(self).acc) & 0x80
                != 0),
            *final(self) == (CpuState {
                acc: final(self).acc,
                c: final(self).c,
                z: final(self).z,
                n: final(self).n,
                v: final(self).v,
                ..*old(self)
            }),
    {
        let old_acc: u8 = self.acc;
        let raw: u16 = old_acc as u16 + data as u16 + if self.c {
            1
        } else {
            0
        };
        let sum: u8 = (raw % 256) as u8;
        self.acc = sum;
        self.c = raw > 255;
        self.z = sum == 0;
        self.n = (sum & 0x80) != 0;
        self.v = ((old_acc ^ sum) & (data ^ sum) & 0x80) != 0;
    }

    /// AND: bitwise-and the accumulator with `second`; N and Z follow the
    /// result.
    pub fn do_and(&mut self, second: u8)
        ensures
            final(self).acc == (old(self).acc & second),
            final(self).z == (final(self).acc == 0),
            final(self).n == bit7(final(self).acc),
            *final(self) == (CpuState {
                acc: final(self).acc,
                z: final(self).z,
                n: final(self).n,
                ..*old(self)
            }),
    {
        self.acc = self.acc & second;
        let r: u8 = self.acc;
        self.n = (r & 0x80) != 0;
        self.z = r == 0;
    }

    /// ASL: shift `data` left one bit; C receives the bit shifted out of
    /// bit 7, N and Z follow the result.
    pub fn do_asl(&mut self, data: u8) -> (r: u8)
        ensures
            r == (data << 1),
            final(self).c == bit7(data),
            final(self).z == (r == 0),
            final(self).n == bit7(r),
            *final(self) == (CpuState {
                c: final(self).c,
                z: final(self).z,
                n: final(self).n,
                ..*old(self)
            }),
    {
        self.c = (data & 0x80) != 0;
        let result: u8 = data << 1u8;
        self.z = result == 0;
        self.n = (result & 0x80) != 0;
        result
    }

    /// BIT: Z from the accumulator masked with `data`; N and V copy bits 7
    /// and 6 of `data`.
    pub fn do_bit(&mut self, data: u8)
        ensures
            final(self).v == (data & 64 != 0),
            final(self).n == (data & 128 != 0),
            final(self).z == (data & old(self).acc == 0),
            *final(self) == (CpuState {
                v: final(self).v,
                n: final(self).n,
                z: final(self).z,
                ..*old(self)
            }),
    {
        self.v = (data & 64) != 0;
        self.n = (data & 128) != 0;
        self.z = (data & self.acc) == 0;
    }

    /// CMP/CPX/CPY: compare `reg` with `data`.  C iff `reg >= data`, Z iff
    /// equal, N follows bit 7 of the wrapped difference.
    pub fn do_cmp(&mut self, reg: u8, data: u8)
        ensures
            final(self).c == (reg >= data),
            final(self).z == (reg == data),
            final(self).n == (reg.wrapping_sub(data) > 0x7F),
            *final(self) == (CpuState {
                c: final(self).c,
                z: final(self).z,
                n: final(self).n,
                ..*old(self)
            }),
    {
        self.c = reg >= data;
        self.z = data == reg;
        self.n = reg.wrapping_sub(data) > 0x7F;
    }

    /// EOR: exclusive-or the accumulator with `value`; N and Z follow the
    /// result.
    pub fn do_eor(&mut self, value: u8)
        ensures
            final(self).acc == (old(self).acc ^ value),
            final(self).z == (final(self).acc == 0),
            final(self).n == bit7(final(self).acc),
            *final(self) == (CpuState {
                acc: final(self).acc,
                z: final(self).z,
                n: final(self).n,
                ..*old(self)
            }),
    {
        self.acc = self.acc ^ value;
        let r: u8 = self.acc;
        self.n = (r & 0x80) != 0;
        self.z = r == 0;
    }

    /// LSR: shift `data` right one bit; C receives the bit shifted out of
    /// bit 0, N is always cleared, Z follows the result.
    pub fn do_lsr(&mut self, data: u8) -> (r: u8)
        ensures
            r == (data >> 1),
            final(self).c == (data & 1 != 0),
            final(self).z == (r == 0),
            !final(self).n,
            *final(self) == (CpuState {
                c: final(self).c,
                z: final(self).z,
                n: false,
                ..*old(self)
            }),
    {
        self.c = (data & 0x01) != 0;
        let result: u8 = data >> 1u8;
        self.z = result == 0;
        self.n = false;
        result
    }

    /// ORA: bitwise-or the accumulator with `value`; N and Z follow the
    /// result.
    pub fn do_ora(&mut self, value: u8)
        ensures
            final(self).acc == (old(self).acc | value),
            final(self).z == (final(self).acc == 0),
            final(self).n == bit7(final(self).acc),
            *final(self) == (CpuState {
                acc: final(self).acc,
                z: final(self).z,
                n: final(self).n,
                ..*old(self)
            }),
    {
        self.acc = self.acc | value;
        let r: u8 = self.acc;
        self.n = (r & 0x80) != 0;
        self.z = r == 0;
    }

    /// ROL: rotate `data` left through the carry; C receives the old bit 7.
    pub fn do_rol(&mut self, data: u8) -> (r: u8)
        ensures
            r == rol_result(data, old(self).c),
            final(self).c == bit7(data),
            final(self).z == (r == 0),
            final(self).n == bit7(r),
            *final(self) == (CpuState {
                c: final(self).c,
                z: final(self).z,
                n: final(self).n,
                ..*old(self)
            }),
    {
        let new_c: bool = (data & 0x80) != 0;
        let result: u8 = (data << 1u8) | if self.c {
            1
        } else {
            0
        };
        self.c = new_c;
        self.n = (result & 0x80) != 0;
        self.z = result == 0;
        result
    }

    /// ROR: rotate `data` right through the carry; C receives the old bit 0.
    pub fn do_ror(&mut self, data: u8) -> (r: u8)
        ensures
            r == ror_result(data, old(self).c),
            final(self).c == (data & 1 != 0),
            final(self).z == (r == 0),
            final(self).n == bit7(r),
            *final(self) == (CpuState {
                c: final(self).c,
                z: final(self).z,
                n: final(self).n,
                ..*old(self)
            }),
    {
        let new_c: bool = (data & 1) != 0;
        let result: u8 = (data >> 1u8) | if self.c {
            0x80
        } else {
            0
        };
        self.c = new_c;
        self.n = (result & 0x80) != 0;
        self.z = result == 0;
        result
    }

    /// SBC: subtract with borrow.  In binary mode the difference is reduced
    /// modulo 256 into the accumulator and C reports the absence of a
    /// borrow.  In decimal mode the nibble-adjust algorithm applies: the low
    /// nibble is corrected by 6 on a nibble borrow, which borrows 0x10 into
    /// the high nibble, and 0x60 is subtracted on a final borrow.  In both
    /// modes V reports signed overflow of the subtraction and N and Z follow
    /// the result byte.
    pub fn do_sbc(&mut self, data: u8)
        ensures
            final(self).acc as int == (if old(self).d {
                sbc_dec_result(old(self).acc, data, if old(self).c {
                    0int
                } else {
                    1int
                }) as int
            } else {
                (old(self).acc - data - (if old(self).c {
                    0int
                } else {
                    1int
                })) % 256
            }),
            final(self).c == (if old(self).d {
                sbc_dec_total(old(self).acc, data, if old(self).c {
                    0int
                } else {
                    1int
                }) >= 256
            } else {
                old(self).acc >= data + (if old(self).c {
                    0int
                } else {
                    1int
                })
            }),
            final(self).z == (final(self).acc == 0),
            final(self).n == bit7(final(self).acc),
            final(self).v == ((old(self).acc ^ data) & (old(self).acc ^ final(self).acc) & 0x80
                != 0),
            *final(self) == (CpuState {
                acc: final(self).acc,
                c: final(self).c,
                z: final(self).z,
                n: final(self).n,
                v: final(self).v,
                ..*old(self)
            }),
    {
        let old_acc: u8 = self.acc;
        let borrow: u8 = if self.c {
            0
        } else {
            1
        };
        let result: u8;
        if self.d {
            let a16: u16 = old_acc as u16;
            let d16: u16 = data as u16;
            let bw: u16 = borrow as u16;
            let al: u16 = a16 % 16;
            let dl: u16 = d16 % 16;
            let total: u16 = if al < dl + bw {
                (a16 - al + 256 - (d16 - dl) - 16) + ((al + 26 - dl - bw) % 16)
            } else {
                (a16 - al + 256 - (d16 - dl)) + (al - dl - bw)
            };
            result = if total < 256 {
                ((total + 160) % 256) as u8
            } else {
                (total % 256) as u8
            };
            self.c = total >= 256;
        } else {
            result = old_acc.wrapping_sub(data).wrapping_sub(borrow);
            self.c = old_acc as u16 >= data as u16 + borrow as u16;
        }
        self.acc = result;
        self.z = result == 0;
        self.n = (result & 0x80) != 0;
        self.v = ((old_acc ^ data) & (old_acc ^ result) & 0x80) != 0;
    }

    /// DEY: decrement Y with wrap; N and Z follow the result.
    pub fn dey(&mut self)
        ensures
            final(self).yr == old(self).yr.wrapping_sub(1),
            final(self).z == (final(self).yr == 0),
            final(self).n == bit7(final(self).yr),
            *final(self) == (CpuState {
                yr: final(self).yr,
                z: final(self).z,
                n: final(self).n,
                ..*old(self)
            }),
    {
        self.yr = self.yr.wrapping_sub(1);
        let r: u8 = self.yr;
        self.n = (r & 0x80) != 0;
        self.z = r == 0;
    }

    /// INY: increment Y with wrap; N and Z follow the result.
    pub fn iny(&mut self)
        ensures
            final(self).yr == old(self).yr.wrapping_add(1),
            final(self).z == (final(self).yr == 0),
            final(self).n == bit7(final(self).yr),
            *final(self) == (CpuState {
                yr: final(self).yr,
                z: final(self).z,
                n: final(self).n,
                ..*old(self)
            }),
    {
        self.yr = self.yr.wrapping_add(1);
        let r: u8 = self.yr;
        self.n = (r & 0x80) != 0;
        self.z = r == 0;
    }

    /// DEX: decrement X with wrap; N and Z follow the result.
    pub fn dex(&mut self)
        ensures
            final(self).xr == old(self).xr.wrapping_sub(1),
            final(self).z == (final(self).xr == 0),
            final(self).n == bit7(final(self).xr),
            *final(self) == (CpuState {
                xr: final(self).xr,
                z: final(self).z,
                n: final(self).n,
                ..*old(self)
            }),
    {
        self.xr = self.xr.wrapping_sub(1);
        let r: u8 = self.xr;
        self.n = (r & 0x80) != 0;
        self.z = r == 0;
    }

    /// INX: increment X with wrap; N and Z follow the result.
    pub fn inx(&mut self)
        ensures
            final(self).xr == old(self).xr.wrapping_add(1),
            final(self).z == (final(self).xr == 0),
            final(self).n == bit7(final(self).xr),
            *final(self) == (CpuState {
                xr: final(self).xr,
                z: final(self).z,
                n: final(self).n,
                ..*old(self)
            }),
    {
        self.xr = self.xr.wrapping_add(1);
        let r: u8 = self.xr;
        self.n = (r & 0x80) != 0;
        self.z = r == 0;
    }

    /// TXA: copy X to the accumulator; N and Z follow the value.
    pub fn txa(&mut self)
        ensures
            final(self).acc == old(self).xr,
            final(self).z == (final(self).acc == 0),
            final(self).n == bit7(final(self).acc),
            *final(self) == (CpuState {
                acc: final(self).acc,
                z: final(self).z,
                n: final(self).n,
                ..*old(self)
            }),
    {
        self.acc = self.xr;
        let r: u8 = self.acc;
        self.n = (r & 0x80) != 0;
        self.z = r == 0;
    }

    /// TAX: copy the accumulator to X; N and Z follow the value.
    pub fn tax(&mut self)
        ensures
            final(self).xr == old(self).acc,
            final(self).z == (final(self).xr == 0),
            final(self).n == bit7(final(self).xr),
            *final(self) == (CpuState {
                xr: final(self).xr,
                z: final(self).z,
                n: final(self).n,
                ..*old(self)
            }),
    {
        self.xr = self.acc;
        let r: u8 = self.xr;
        self.n = (r & 0x80) != 0;
        self.z = r == 0;
    }

    /// TYA: copy Y to the accumulator; N and Z follow the value.
    pub fn tya(&mut self)
        ensures
            final(self).acc == old(self).yr,
            final(self).z == (final(self).acc == 0),
            final(self).n == bit7(final(self).acc),
            *final(self) == (CpuState {
                acc: final(self).acc,
                z: final(self).z,
                n: final(self).n,
                ..*old(self)
            }),
    {
        self.acc = self.yr;
        let r: u8 = self.acc;
        self.n = (r & 0x80) != 0;
        self.z = r == 0;
    }

    /// TAY: copy the accumulator to Y; N and Z follow the value.
    pub fn tay(&mut self)
        ensures
            final(self).yr == old(self).acc,
            final(self).z == (final(self).yr == 0),
            final(self).n == bit7(final(self).yr),
            *final(self) == (CpuState {
                yr: final(self).yr,
                z: final(self).z,
                n: final(self).n,
                ..*old(self)
            }),
    {
        self.yr = self.acc;
        let r: u8 = self.yr;
        self.n = (r & 0x80) != 0;
        self.z = r == 0;
    }

    /// TSX: copy the stack pointer to X; N and Z follow the value.
    pub fn tsx(&mut self)
        ensures
            final(self).xr == old(self).sp,
            final(self).z == (final(self).xr == 0),
            final(self).n == bit7(final(self).xr),
            *final(self) == (CpuState {
                xr: final(self).xr,
                z: final(self).z,
                n: final(self).n,
                ..*old(self)
            }),
    {
        self.xr = self.sp;
        let r: u8 = self.xr;
        self.n = (r & 0x80) != 0;
        self.z = r == 0;
    }

    /// TXS: copy X to the stack pointer; no flag moves.
    pub fn txs(&mut self)
        ensures
            final(self).sp == old(self).xr,
            *final(self) == (CpuState { sp: final(self).sp, ..*old(self) }),
    {
        self.sp = self.xr;
    }
}

/// Rotating a byte left through the carry and then right through the carry
/// that came out returns the original byte and carry; with the converse
/// below, the rotations are mutually inverse bijections on (byte, carry)
/// pairs.
pub proof fn lemma_rol_then_ror(x: u8, c: bool)
    ensures
        ror_result(rol_result(x, c), bit7(x)) == x,
        (rol_result(x, c) & 1 != 0) == c,
{
    assert(((((x << 1) | (if c {
        1u8
    } else {
        0u8
    })) >> 1) | (if x & 0x80 != 0 {
        0x80u8
    } else {
        0u8
    })) == x && (((x << 1) | (if c {
        1u8
    } else {
        0u8
    })) & 1 != 0) == c) by (bit_vector);
}

/// Rotating a byte right through the carry and then left through the carry
/// that came out returns the original byte and carry.
pub proof fn lemma_ror_then_rol(x: u8, c: bool)
    ensures
        rol_result(ror_result(x, c), x & 1 != 0) == x,
        bit7(ror_result(x, c)) == c,
{
    assert(((((x >> 1) | (if c {
        0x80u8
    } else {
        0u8
    })) << 1) | (if x & 1 != 0 {
        1u8
    } else {
        0u8
    })) == x && (((x >> 1) | (if c {
        0x80u8
    } else {
        0u8
    })) & 0x80 != 0) == c) by (bit_vector);
}

/// The N flag computed by a compare equals bit 7 of the wrapped difference
/// of the two operands.
pub proof fn lemma_cmp_n_is_bit7(reg: u8, data: u8)
    ensures
        (reg.wrapping_sub(data) > 0x7F) == bit7(reg.wrapping_sub(data)),
{
    let diff = reg.wrapping_sub(data);
    assert((diff > 0x7F) == (diff & 0x80 != 0)) by (bit_vector);
}

/// Packing the flags into the status byte and unpacking that byte restores
/// all seven flags; the registers of the state the byte lands in are
/// untouched.
pub proof fn lemma_flags_roundtrip(s: CpuState, t: CpuState)
    ensures
        ({
            let r = flags_from_byte(t, flags_to_byte(s));
            r.c == s.c && r.z == s.z && r.i == s.i && r.d == s.d && r.b == s.b && r.v == s.v
                && r.n == s.n && r.pc == t.pc && r.acc == t.acc && r.xr == t.xr && r.yr == t.yr
                && r.sp == t.sp
        }),
{
    lemma_flag_bits(s.c, s.z, s.i, s.d, s.b, s.v, s.n);
}

/// Each flag is recovered from its own bit of the packed status byte.
proof fn lemma_flag_bits(c: bool, z: bool, i: bool, d: bool, b: bool, v: bool, n: bool)
    ensures
        ({
            let g = 32u8 | (if c {
                1u8
            } else {
                0u8
            }) | (if z {
                2u8
            } else {
                0u8
            }) | (if i {
                4u8
            } else {
                0u8
            }) | (if d {
                8u8
            } else {
                0u8
            }) | (if b {
                16u8
            } else {
                0u8
            }) | (if v {
                64u8
            } else {
                0u8
            }) | (if n {
                128u8
            } else {
                0u8
            });
            (g & 1 != 0) == c && (g & 2 != 0) == z && (g & 4 != 0) == i && (g & 8 != 0) == d && (g
                & 16 != 0) == b && (g & 64 != 0) == v && (g & 128 != 0) == n
        }),
{
    assert({
        let g = 32u8 | (if c {
            1u8
        } else {
            0u8
        }) | (if z {
            2u8
        } else {
            0u8
        }) | (if i {
            4u8
        } else {
            0u8
        }) | (if d {
            8u8
        } else {
            0u8
        }) | (if b {
            16u8
        } else {
            0u8
        }) | (if v {
            64u8
        } else {
            0u8
        }) | (if n {
            128u8
        } else {
            0u8
        });
        (g & 1 != 0) == c && (g & 2 != 0) == z && (g & 4 != 0) == i && (g & 8 != 0) == d && (g & 16
            != 0) == b && (g & 64 != 0) == v && (g & 128 != 0) == n
    }) by (bit_vector);
}

} // verus!
