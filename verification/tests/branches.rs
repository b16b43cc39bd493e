use assembler::assembler::{Assembler, RelocType, Relocation};
use assembler::features::CpuFeatures;
use assembler::label::Label;

fn features(use_avx: u8) -> CpuFeatures {
    CpuFeatures {
        use_avx,
        use_address_nop: true,
        debug_build: false,
        is_intel: true,
        is_amd_family: false,
        is_zx: false,
        sse: true,
        sse2: true,
        sse3: true,
        ssse3: true,
        sse4_1: true,
        sse4_2: true,
        cmov: true,
        mmx: true,
        popcnt: true,
        lzcnt: true,
        bmi1: true,
        bmi2: true,
        aes: true,
        clmul: true,
        sha: true,
        fma: true,
        f16c: true,
        adx: true,
        gfni: true,
        prefetchw_3dnow: true,
        clflush: true,
        clflushopt: true,
        clwb: true,
        vzeroupper: true,
        avx512vl: true,
        avx512bw: true,
        avx512dq: true,
        avx512cd: true,
        avx512ifma: true,
        avx512_vbmi: true,
        avx512_vbmi2: true,
        avx512_vpopcntdq: true,
        avx512_bitalg: true,
        avx512_vaes: true,
        avx512_vpclmulqdq: true,
        avx512_vnni: true,
    }
}

fn fresh_at(pc: usize) -> Assembler {
    let mut a = Assembler::new(features(0));
    a.nop(pc as i32);
    assert_eq!(a.pc(), pc);
    a
}

/// The offset a relative branch at `pc` lands on.
fn landing(code: &[u8], pc: usize) -> i64 {
    let len = code.len() as i64;
    if len == 2 {
        pc as i64 + len + (code[1] as i8) as i64
    } else {
        let n = code.len();
        let d = i32::from_le_bytes([code[n - 4], code[n - 3], code[n - 2], code[n - 1]]);
        pc as i64 + len + d as i64
    }
}

#[test]
fn jcc_backward_short() {
    let mut a = fresh_at(0);
    let mut l = Label::bound_at(0);
    a.jcc(4, &mut l, true);
    assert_eq!(a.code, vec![0x74, 0xFE]);
    assert!(l.patches.is_empty());
}

#[test]
fn jcc_short_not_allowed_uses_long_form() {
    let mut a = fresh_at(0);
    let mut l = Label::bound_at(0);
    a.jcc(4, &mut l, false);
    assert_eq!(a.code, vec![0x0F, 0x84, 0xFA, 0xFF, 0xFF, 0xFF]);
}

#[test]
fn jcc_far_target_uses_long_form() {
    let mut a = fresh_at(0);
    let mut l = Label::bound_at(1000);
    a.jcc(5, &mut l, true);
    assert_eq!(a.code, vec![0x0F, 0x85, 0xE2, 0x03, 0x00, 0x00]);
    assert_eq!(landing(&a.code, 0), 1000);
}

#[test]
fn jcc_unbound_label_is_recorded() {
    let mut a = fresh_at(3);
    let mut l = Label::new();
    a.jcc(0xC, &mut l, true);
    assert_eq!(a.code[3..].to_vec(), vec![0x0F, 0x8C, 0x00, 0x00, 0x00, 0x00]);
    assert_eq!(l.patches, vec![3]);
    assert!(!l.is_bound());
}

#[test]
fn short_branch_reach_limits() {
    // rel8 reaches 127 bytes forward of the end of the instruction
    let mut a = fresh_at(0);
    let mut l = Label::bound_at(129);
    a.jmp_label(&mut l, true);
    assert_eq!(a.code, vec![0xEB, 0x7F]);
    assert_eq!(landing(&a.code, 0), 129);
    let mut b = fresh_at(0);
    let mut m = Label::bound_at(130);
    b.jmp_label(&mut m, true);
    assert_eq!(b.code, vec![0xE9, 0x7D, 0x00, 0x00, 0x00]);
    assert_eq!(landing(&b.code, 0), 130);
}

#[test]
fn backward_branch_lands_on_label() {
    let mut a = fresh_at(200);
    let mut l = Label::bound_at(10);
    a.jmp_label(&mut l, true);
    let code = a.code[200..].to_vec();
    assert_eq!(code, vec![0xE9, 0x3D, 0xFF, 0xFF, 0xFF]);
    assert_eq!(landing(&code, 200), 10);
    let mut b = fresh_at(100);
    let mut m = Label::bound_at(50);
    b.jcc(2, &mut m, true);
    let code = b.code[100..].to_vec();
    assert_eq!(code, vec![0x72, 0xCC]);
    assert_eq!(landing(&code, 100), 50);
}

#[test]
fn short_only_branches() {
    let mut a = fresh_at(4);
    let mut l = Label::bound_at(0);
    a.jccb_0(4, &mut l, "file", 1);
    assert_eq!(a.code[4..].to_vec(), vec![0x74, 0xFA]);
    let mut b = fresh_at(0);
    let mut m = Label::new();
    b.jmpb_0(&mut m, "file", 2);
    assert_eq!(b.code, vec![0xEB, 0x00]);
    assert_eq!(m.patches, vec![0]);
}

#[test]
fn call_and_xbegin() {
    let mut a = fresh_at(16);
    let mut l = Label::bound_at(0);
    a.call_label(&mut l, RelocType::RuntimeCall);
    assert_eq!(a.code[16..].to_vec(), vec![0xE8, 0xEB, 0xFF, 0xFF, 0xFF]);
    let mut b = fresh_at(0);
    let mut abort = Label::new();
    b.xbegin(&mut abort, RelocType::NoRelocation);
    assert_eq!(b.code, vec![0xC7, 0xF8, 0x00, 0x00, 0x00, 0x00]);
    assert_eq!(abort.patches, vec![0]);
}

#[test]
fn call_and_jump_to_offsets() {
    let mut a = fresh_at(0);
    a.call_literal(0x100, RelocType::StaticCall);
    assert_eq!(a.code, vec![0xE8, 0xFB, 0x00, 0x00, 0x00]);
    let mut b = fresh_at(8);
    b.jmp_literal(0, RelocType::NoRelocation);
    assert_eq!(b.code[8..].to_vec(), vec![0xE9, 0xF3, 0xFF, 0xFF, 0xFF]);
}

#[test]
fn label_records_each_reference() {
    let mut l = Label::new();
    l.add_patch_at(4);
    l.add_patch_at(9);
    assert_eq!(l.patches, vec![4, 9]);
    assert!(!l.is_bound());
    assert!(Label::bound_at(3).is_bound());
}

#[test]
fn calls_record_their_relocation() {
    let mut a = fresh_at(0x3000);
    let mut l = Label::bound_at(0x2F00);
    a.call_label(&mut l, RelocType::RuntimeCall);
    assert_eq!(a.code[0x3000..].to_vec(), vec![0xE8, 0xFB, 0xFE, 0xFF, 0xFF]);
    assert_eq!(a.relocs, vec![Relocation { offset: 0x3000, kind: RelocType::RuntimeCall }]);
    a.call_literal(0x100, RelocType::StaticCall);
    assert_eq!(a.relocs[1], Relocation { offset: 0x3005, kind: RelocType::StaticCall });
    let before = a.relocs.len();
    a.jmp_literal(0, RelocType::NoRelocation);
    assert_eq!(a.relocs.len(), before);
}

#[test]
fn unbound_call_and_xbegin_record_relocation() {
    let mut a = fresh_at(0);
    let mut l = Label::new();
    a.call_label(&mut l, RelocType::OptVirtualCall);
    assert_eq!(a.code, vec![0xE8, 0x00, 0x00, 0x00, 0x00]);
    assert_eq!(l.patches, vec![0]);
    let mut abort = Label::new();
    a.xbegin(&mut abort, RelocType::InternalWord);
    assert_eq!(
        a.relocs,
        vec![
            Relocation { offset: 0, kind: RelocType::OptVirtualCall },
            Relocation { offset: 5, kind: RelocType::InternalWord }
        ]
    );
}
