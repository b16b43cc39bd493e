use assembler::assembler::Assembler;
use assembler::features::CpuFeatures;

fn features(use_avx: u8) -> CpuFeatures {
    CpuFeatures {
        use_avx,
        use_address_nop: true,
        debug_build: false,
        is_intel: true,
        is_amd_family: false,
        is_zx: false,
        sse: true,
        sse2: true,
        sse3: true,
        ssse3: true,
        sse4_1: true,
        sse4_2: true,
        cmov: true,
        mmx: true,
        popcnt: true,
        lzcnt: true,
        bmi1: true,
        bmi2: true,
        aes: true,
        clmul: true,
        sha: true,
        fma: true,
        f16c: true,
        adx: true,
        gfni: true,
        prefetchw_3dnow: true,
        clflush: true,
        clflushopt: true,
        clwb: true,
        vzeroupper: true,
        avx512vl: true,
        avx512bw: true,
        avx512dq: true,
        avx512cd: true,
        avx512ifma: true,
        avx512_vbmi: true,
        avx512_vbmi2: true,
        avx512_vpopcntdq: true,
        avx512_bitalg: true,
        avx512_vaes: true,
        avx512_vpclmulqdq: true,
        avx512_vnni: true,
    }
}

#[test]
fn pusha_reserves_and_stores() {
    let mut a = Assembler::new(features(0));
    a.pusha();
    assert_eq!(a.code.len(), 81);
    assert_eq!(a.code[0..7].to_vec(), vec![0x48, 0x81, 0xEC, 0x80, 0x00, 0x00, 0x00]);
    // movq [rsp + 120], rax
    assert_eq!(a.code[7..12].to_vec(), vec![0x48, 0x89, 0x44, 0x24, 0x78]);
    // movq [rsp], r15
    assert_eq!(a.code[77..81].to_vec(), vec![0x4C, 0x89, 0x3C, 0x24]);
}

#[test]
fn popa_loads_and_releases() {
    let mut a = Assembler::new(features(0));
    a.popa();
    assert_eq!(a.code.len(), 81);
    // movq r15, [rsp]
    assert_eq!(a.code[0..4].to_vec(), vec![0x4C, 0x8B, 0x3C, 0x24]);
    assert_eq!(a.code[74..81].to_vec(), vec![0x48, 0x81, 0xC4, 0x80, 0x00, 0x00, 0x00]);
}

#[test]
fn uncached_forms_match() {
    let mut a = Assembler::new(features(1));
    a.pusha();
    a.popa();
    a.vzeroupper();
    let mut b = Assembler::new(features(1));
    b.pusha_uncached();
    b.popa_uncached();
    b.vzeroupper_uncached();
    assert_eq!(a.code, b.code);
}

#[test]
fn precomputed_code_matches_emitted_code() {
    for avx in [0u8, 1, 3] {
        let a = Assembler::new(features(avx));
        let p = a.precompute_instructions();
        assert!(a.code.is_empty());
        let mut b = Assembler::new(features(avx));
        b.popa();
        assert_eq!(p.popa, b.code);
        let mut c = Assembler::new(features(avx));
        c.pusha();
        assert_eq!(p.pusha, c.code);
        let mut d = Assembler::new(features(avx));
        d.vzeroupper();
        assert_eq!(p.vzeroupper, d.code);
    }
    let p = Assembler::new(features(0)).precompute_instructions();
    assert!(p.vzeroupper.is_empty());
}
