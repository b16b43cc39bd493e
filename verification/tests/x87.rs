use assembler::address::Address;
use assembler::assembler::Assembler;
use assembler::features::CpuFeatures;
use assembler::registers::Register;

fn features(use_avx: u8) -> CpuFeatures {
    CpuFeatures {
        use_avx,
        use_address_nop: true,
        debug_build: false,
        is_intel: true,
        is_amd_family: false,
        is_zx: false,
        sse: true,
        sse2: true,
        sse3: true,
        ssse3: true,
        sse4_1: true,
        sse4_2: true,
        cmov: true,
        mmx: true,
        popcnt: true,
        lzcnt: true,
        bmi1: true,
        bmi2: true,
        aes: true,
        clmul: true,
        sha: true,
        fma: true,
        f16c: true,
        adx: true,
        gfni: true,
        prefetchw_3dnow: true,
        clflush: true,
        clflushopt: true,
        clwb: true,
        vzeroupper: true,
        avx512vl: true,
        avx512bw: true,
        avx512dq: true,
        avx512cd: true,
        avx512ifma: true,
        avx512_vbmi: true,
        avx512_vbmi2: true,
        avx512_vpopcntdq: true,
        avx512_bitalg: true,
        avx512_vaes: true,
        avx512_vpclmulqdq: true,
        avx512_vnni: true,
    }
}

fn fresh() -> Assembler {
    Assembler::new(features(0))
}

#[test]
fn x87_constants_and_unary() {
    let mut a = fresh();
    a.fld1();
    a.fldz();
    a.fchs();
    a.fsqrt();
    assert_eq!(a.code, vec![0xD9, 0xE8, 0xD9, 0xEE, 0xD9, 0xE0, 0xD9, 0xFA]);
}

#[test]
fn x87_stack_register_operands() {
    let mut a = fresh();
    a.fadd(1);
    a.faddp(2);
    a.fxch(3);
    assert_eq!(a.code, vec![0xD8, 0xC1, 0xDE, 0xC2, 0xD9, 0xCB]);
}

#[test]
fn x87_memory_operands() {
    let mut a = fresh();
    a.fld_s(Address::base_disp(Register::new(0), 0));
    assert_eq!(a.code, vec![0xD9, 0x00]);
    let mut b = fresh();
    b.fstp_d(Address::base_disp(Register::new(4), 8));
    assert_eq!(b.code, vec![0xDD, 0x5C, 0x24, 0x08]);
}

#[test]
fn x87_second_byte_wraps() {
    let mut a = fresh();
    a.emit_farith(0xD8, 0xFF, 1);
    assert_eq!(a.code, vec![0xD8, 0x00]);
    let mut b = fresh();
    b.emit_farith(0xDC, 0xF8, 7);
    assert_eq!(b.code, vec![0xDC, 0xFF]);
}
