use assembler::assembler::Assembler;
use assembler::features::CpuFeatures;

fn features(use_avx: u8) -> CpuFeatures {
    CpuFeatures {
        use_avx,
        use_address_nop: true,
        debug_build: false,
        is_intel: true,
        is_amd_family: false,
        is_zx: false,
        sse: true,
        sse2: true,
        sse3: true,
        ssse3: true,
        sse4_1: true,
        sse4_2: true,
        cmov: true,
        mmx: true,
        popcnt: true,
        lzcnt: true,
        bmi1: true,
        bmi2: true,
        aes: true,
        clmul: true,
        sha: true,
        fma: true,
        f16c: true,
        adx: true,
        gfni: true,
        prefetchw_3dnow: true,
        clflush: true,
        clflushopt: true,
        clwb: true,
        vzeroupper: true,
        avx512vl: true,
        avx512bw: true,
        avx512dq: true,
        avx512cd: true,
        avx512ifma: true,
        avx512_vbmi: true,
        avx512_vbmi2: true,
        avx512_vpopcntdq: true,
        avx512_bitalg: true,
        avx512_vaes: true,
        avx512_vpclmulqdq: true,
        avx512_vnni: true,
    }
}

fn intel() -> CpuFeatures {
    features(0)
}

fn amd() -> CpuFeatures {
    let mut f = features(0);
    f.is_intel = false;
    f.is_amd_family = true;
    f
}

fn plain() -> CpuFeatures {
    let mut f = features(0);
    f.use_address_nop = false;
    f
}

fn nops(f: CpuFeatures, i: i32) -> Vec<u8> {
    let mut a = Assembler::new(f);
    a.nop(i);
    a.code
}

#[test]
fn nop_length_is_exact_for_every_target() {
    for f in [intel(), amd(), plain()] {
        for i in 0..64 {
            assert_eq!(nops(f, i).len(), i as usize);
        }
    }
}

#[test]
fn single_byte_nop() {
    assert_eq!(nops(intel(), 1), vec![0x90]);
    assert_eq!(nops(amd(), 1), vec![0x90]);
    assert_eq!(nops(plain(), 1), vec![0x90]);
}

#[test]
fn zero_nop_emits_nothing() {
    assert!(nops(intel(), 0).is_empty());
    assert!(nops(plain(), 0).is_empty());
}

#[test]
fn intel_address_nops() {
    assert_eq!(nops(intel(), 3), vec![0x66, 0x66, 0x90]);
    assert_eq!(nops(intel(), 4), vec![0x0F, 0x1F, 0x40, 0x00]);
    assert_eq!(nops(intel(), 5), vec![0x0F, 0x1F, 0x44, 0x00, 0x00]);
    assert_eq!(nops(intel(), 6), vec![0x66, 0x0F, 0x1F, 0x44, 0x00, 0x00]);
    assert_eq!(nops(intel(), 7), vec![0x0F, 0x1F, 0x80, 0x00, 0x00, 0x00, 0x00]);
    assert_eq!(nops(intel(), 8), vec![0x0F, 0x1F, 0x84, 0x00, 0x00, 0x00, 0x00, 0x00]);
    assert_eq!(
        nops(intel(), 15),
        vec![0x66, 0x66, 0x66, 0x0F, 0x1F, 0x84, 0x00, 0x00, 0x00, 0x00, 0x00, 0x66, 0x66, 0x66, 0x90]
    );
}

#[test]
fn plain_nops_use_size_prefixes_only() {
    for i in 1..40 {
        let code = nops(plain(), i);
        assert!(code.iter().all(|b| *b == 0x66 || *b == 0x90));
        assert_eq!(*code.last().unwrap(), 0x90);
    }
}

#[test]
fn address_nop_helpers() {
    let mut a = Assembler::new(intel());
    a.addr_nop_4();
    a.addr_nop_5();
    a.addr_nop_7();
    a.addr_nop_8();
    assert_eq!(a.code.len(), 24);
    assert_eq!(a.code[0..4].to_vec(), vec![0x0F, 0x1F, 0x40, 0x00]);
    assert_eq!(a.code[16..24].to_vec(), vec![0x0F, 0x1F, 0x84, 0x00, 0x00, 0x00, 0x00, 0x00]);
}

#[test]
fn debug_build_pads_with_single_byte_nops() {
    let mut f = intel();
    f.debug_build = true;
    for i in 1..20 {
        assert_eq!(nops(f, i), vec![0x90; i as usize]);
    }
}
