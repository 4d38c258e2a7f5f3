//! Exhaustive and spot checks of the CPU ALU primitives.

use plus4::CpuState;

fn fresh() -> CpuState {
    CpuState::new()
}

#[test]
fn adc_exhaustive_truth_table() {
    for a in 0..256u32 {
        for b in 0..256u32 {
            for c in 0..2u32 {
                let mut s = fresh();
                s.acc = a as u8;
                s.c = c == 1;
                s.do_adc(b as u8);
                let sum = (a + b + c) & 0xFF;
                assert_eq!(s.acc as u32, sum);
                assert_eq!(s.c, a + b + c > 255);
                assert_eq!(s.z, sum == 0);
                assert_eq!(s.n, sum & 0x80 != 0);
                let v = ((a ^ sum) & (b ^ sum) & 0x80) != 0;
                assert_eq!(s.v, v);
            }
        }
    }
}

#[test]
fn cmp_exhaustive() {
    for a in 0..256u32 {
        for b in 0..256u32 {
            let mut s = fresh();
            s.do_cmp(a as u8, b as u8);
            assert_eq!(s.c, a >= b);
            assert_eq!(s.z, a == b);
            assert_eq!(s.n, (a.wrapping_sub(b) & 0xFF) & 0x80 != 0);
        }
    }
}

#[test]
fn rol_ror_roundtrip_exhaustive() {
    for x in 0..256u32 {
        for c in 0..2u32 {
            let mut s = fresh();
            s.c = c == 1;
            let r1 = s.do_rol(x as u8);
            // carry out of the ROL is bit 7 of the original byte
            assert_eq!(s.c, x & 0x80 != 0);
            let r2 = s.do_ror(r1);
            assert_eq!(r2 as u32, x);
            assert_eq!(s.c, c == 1);

            let mut t = fresh();
            t.c = c == 1;
            let q1 = t.do_ror(x as u8);
            assert_eq!(t.c, x & 1 != 0);
            let q2 = t.do_rol(q1);
            assert_eq!(q2 as u32, x);
            assert_eq!(t.c, c == 1);
        }
    }
}

#[test]
fn asl_lsr_exhaustive() {
    for x in 0..256u32 {
        let mut s = fresh();
        let r = s.do_asl(x as u8);
        assert_eq!(r as u32, (x << 1) & 0xFF);
        assert_eq!(s.c, x & 0x80 != 0);
        assert_eq!(s.z, r == 0);
        assert_eq!(s.n, r & 0x80 != 0);

        let mut t = fresh();
        let q = t.do_lsr(x as u8);
        assert_eq!(q as u32, x >> 1);
        assert_eq!(t.c, x & 1 != 0);
        assert_eq!(t.z, q == 0);
        assert!(!t.n);
    }
}

#[test]
fn sbc_binary_cases() {
    // 0x50 - 0x10 with no borrow pending
    let mut s = fresh();
    s.acc = 0x50;
    s.c = true;
    s.do_sbc(0x10);
    assert_eq!(s.acc, 0x40);
    assert!(s.c);
    assert!(!s.v);

    // borrow result wraps and clears carry
    let mut s = fresh();
    s.acc = 0x10;
    s.c = true;
    s.do_sbc(0x20);
    assert_eq!(s.acc, 0xF0);
    assert!(!s.c);
    assert!(s.n);

    // signed overflow: 0x50 - 0xB0 = 0xA0 overflows int8
    let mut s = fresh();
    s.acc = 0x50;
    s.c = true;
    s.do_sbc(0xB0);
    assert_eq!(s.acc, 0xA0);
    assert!(s.v);
}

#[test]
fn sbc_decimal_cases() {
    // 46 - 12 = 34 in BCD
    let mut s = fresh();
    s.d = true;
    s.acc = 0x46;
    s.c = true;
    s.do_sbc(0x12);
    assert_eq!(s.acc, 0x34);
    assert!(s.c);

    // 20 - 01 = 19 exercises the low-nibble correction
    let mut s = fresh();
    s.d = true;
    s.acc = 0x20;
    s.c = true;
    s.do_sbc(0x01);
    assert_eq!(s.acc, 0x19);
    assert!(s.c);

    // 12 - 21 borrows: 91 with carry clear
    let mut s = fresh();
    s.d = true;
    s.acc = 0x12;
    s.c = true;
    s.do_sbc(0x21);
    assert_eq!(s.acc, 0x91);
    assert!(!s.c);
}

#[test]
fn register_moves_set_flags() {
    let mut s = fresh();
    s.xr = 0xFF;
    s.inx();
    assert_eq!(s.xr, 0);
    assert!(s.z);
    assert!(!s.n);
    s.dex();
    assert_eq!(s.xr, 0xFF);
    assert!(s.n);
    s.acc = 0x80;
    s.tax();
    assert_eq!(s.xr, 0x80);
    assert!(s.n);
    s.txs();
    assert_eq!(s.sp, 0x80);
    s.tsx();
    assert_eq!(s.xr, 0x80);
}

#[test]
fn bit_sets_v_and_n_from_operand() {
    let mut s = fresh();
    s.acc = 0x0F;
    s.do_bit(0xC0);
    assert!(s.v);
    assert!(s.n);
    assert!(s.z);
    s.do_bit(0x01);
    assert!(!s.v);
    assert!(!s.n);
    assert!(!s.z);
}
