use assembler::address::Address;
use assembler::assembler::Assembler;
use assembler::attributes::{AVX_128BIT, AVX_256BIT, AVX_512BIT};
use assembler::features::CpuFeatures;
use assembler::registers::{KRegister, Register, XMMRegister};

fn features(use_avx: u8) -> CpuFeatures {
    CpuFeatures {
        use_avx,
        use_address_nop: true,
        debug_build: false,
        is_intel: true,
        is_amd_family: false,
        is_zx: false,
        sse: true,
        sse2: true,
        sse3: true,
        ssse3: true,
        sse4_1: true,
        sse4_2: true,
        cmov: true,
        mmx: true,
        popcnt: true,
        lzcnt: true,
        bmi1: true,
        bmi2: true,
        aes: true,
        clmul: true,
        sha: true,
        fma: true,
        f16c: true,
        adx: true,
        gfni: true,
        prefetchw_3dnow: true,
        clflush: true,
        clflushopt: true,
        clwb: true,
        vzeroupper: true,
        avx512vl: true,
        avx512bw: true,
        avx512dq: true,
        avx512cd: true,
        avx512ifma: true,
        avx512_vbmi: true,
        avx512_vbmi2: true,
        avx512_vpopcntdq: true,
        avx512_bitalg: true,
        avx512_vaes: true,
        avx512_vpclmulqdq: true,
        avx512_vnni: true,
    }
}

fn x(n: u8) -> XMMRegister {
    XMMRegister::new(n)
}

fn r(n: u8) -> Register {
    Register::new(n)
}

#[test]
fn addsd_without_avx_is_sse_encoded() {
    let mut a = Assembler::new(features(0));
    a.addsd(x(1), x(2));
    assert_eq!(a.code, vec![0xF2, 0x0F, 0x58, 0xCA]);
    let mut b = Assembler::new(features(0));
    b.addsd(x(9), x(2));
    assert_eq!(b.code, vec![0xF2, 0x44, 0x0F, 0x58, 0xCA]);
}

#[test]
fn addsd_with_avx_is_vex_encoded() {
    let mut a = Assembler::new(features(1));
    a.addsd(x(1), x(2));
    assert_eq!(a.code, vec![0xC5, 0xF3, 0x58, 0xCA]);
}

#[test]
fn vaddsd_two_byte_vex() {
    let mut a = Assembler::new(features(1));
    a.vaddsd(x(0), x(1), x(2));
    assert_eq!(a.code, vec![0xC5, 0xF3, 0x58, 0xC2]);
}

#[test]
fn vaddsd_three_byte_vex_for_extended_source() {
    let mut a = Assembler::new(features(1));
    a.vaddsd(x(0), x(1), x(10));
    assert_eq!(a.code, vec![0xC4, 0xC1, 0x73, 0x58, 0xC2]);
}

#[test]
fn vaddsd_falls_back_to_vex_on_avx512() {
    let mut a = Assembler::new(features(3));
    a.vaddsd(x(0), x(1), x(2));
    assert_eq!(a.code, vec![0xC5, 0xF3, 0x58, 0xC2]);
}

#[test]
fn vaddsd_upper_registers_need_evex() {
    let mut a = Assembler::new(features(3));
    a.vaddsd(x(16), x(1), x(2));
    assert_eq!(a.code, vec![0x62, 0xE1, 0xF7, 0x08, 0x58, 0xC2]);
}

#[test]
fn vpaddd_256_bit_vex() {
    let mut a = Assembler::new(features(2));
    a.vpaddd(x(1), x(2), x(3), AVX_256BIT);
    assert_eq!(a.code, vec![0xC5, 0xED, 0xFE, 0xCB]);
    let mut b = Assembler::new(features(2));
    b.vpaddd(x(1), x(2), x(3), AVX_128BIT);
    assert_eq!(b.code, vec![0xC5, 0xE9, 0xFE, 0xCB]);
}

#[test]
fn evpaddd_masked_zeroing_and_merging() {
    let mut a = Assembler::new(features(3));
    a.evpaddd(x(1), KRegister::new(1), x(2), x(3), false, AVX_512BIT);
    assert_eq!(a.code, vec![0x62, 0xF1, 0x6D, 0xC9, 0xFE, 0xCB]);
    let mut b = Assembler::new(features(3));
    b.evpaddd(x(1), KRegister::new(1), x(2), x(3), true, AVX_512BIT);
    assert_eq!(b.code, vec![0x62, 0xF1, 0x6D, 0x49, 0xFE, 0xCB]);
}

#[test]
fn evex_displacement_is_compressed() {
    let mut a = Assembler::new(features(3));
    a.vpaddd_xxm(x(1), x(2), Address::base_disp(r(0), 64), AVX_512BIT);
    assert_eq!(a.code, vec![0x62, 0xF1, 0x6D, 0x48, 0xFE, 0x48, 0x01]);
}

#[test]
fn evex_displacement_not_a_multiple_stays_long() {
    let mut a = Assembler::new(features(3));
    a.vpaddd_xxm(x(1), x(2), Address::base_disp(r(0), 65), AVX_512BIT);
    assert_eq!(a.code, vec![0x62, 0xF1, 0x6D, 0x48, 0xFE, 0x88, 0x41, 0x00, 0x00, 0x00]);
}

#[test]
fn vex_displacement_is_not_compressed() {
    let mut a = Assembler::new(features(2));
    a.vpaddd_xxm(x(1), x(2), Address::base_disp(r(0), 64), AVX_256BIT);
    assert_eq!(a.code, vec![0xC5, 0xED, 0xFE, 0x48, 0x40]);
}

#[test]
fn kmovwl_is_vex_encoded() {
    let mut a = Assembler::new(features(3));
    a.kmovwl(KRegister::new(1), r(0));
    assert_eq!(a.code, vec![0xC5, 0xF8, 0x92, 0xC8]);
}

#[test]
fn vzeroupper_when_supported() {
    let mut a = Assembler::new(features(1));
    a.vzeroupper();
    assert_eq!(a.code, vec![0xC5, 0xF8, 0x77]);
    let mut f = features(1);
    f.vzeroupper = false;
    let mut b = Assembler::new(f);
    b.vzeroupper();
    assert!(b.code.is_empty());
}

#[test]
fn evpandd_merge_and_zero_masking_differ_in_z_bit() {
    let mut m = Assembler::new(features(3));
    m.evpandd(x(1), KRegister::new(1), x(2), x(3), true, AVX_512BIT);
    let mut z = Assembler::new(features(3));
    z.evpandd(x(1), KRegister::new(1), x(2), x(3), false, AVX_512BIT);
    assert_eq!(m.code, vec![0x62, 0xF1, 0x6D, 0x49, 0xDB, 0xCB]);
    assert_eq!(z.code, vec![0x62, 0xF1, 0x6D, 0xC9, 0xDB, 0xCB]);
    let mut k0m = Assembler::new(features(3));
    k0m.evpandd(x(1), KRegister::new(0), x(2), x(3), true, AVX_512BIT);
    let mut k0z = Assembler::new(features(3));
    k0z.evpandd(x(1), KRegister::new(0), x(2), x(3), false, AVX_512BIT);
    assert_eq!(k0m.code, k0z.code);
}

#[test]
fn evmovdqub_unmasked_is_masked_with_k0() {
    let mut a = Assembler::new(features(3));
    a.evmovdqub(x(1), x(2), AVX_512BIT);
    let mut b = Assembler::new(features(3));
    b.evmovdqub_xkx(x(1), KRegister::new(0), x(2), false, AVX_512BIT);
    assert_eq!(a.code, b.code);
    assert_eq!(a.code, vec![0x62, 0xF1, 0x7F, 0x48, 0x6F, 0xCA]);
}
