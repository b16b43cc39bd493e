use assembler::address::Address;
use assembler::assembler::{Assembler, RelocType, Relocation};
use assembler::features::CpuFeatures;
use assembler::registers::Register;

fn features(use_avx: u8) -> CpuFeatures {
    CpuFeatures {
        use_avx,
        use_address_nop: true,
        debug_build: false,
        is_intel: true,
        is_amd_family: false,
        is_zx: false,
        sse: true,
        sse2: true,
        sse3: true,
        ssse3: true,
        sse4_1: true,
        sse4_2: true,
        cmov: true,
        mmx: true,
        popcnt: true,
        lzcnt: true,
        bmi1: true,
        bmi2: true,
        aes: true,
        clmul: true,
        sha: true,
        fma: true,
        f16c: true,
        adx: true,
        gfni: true,
        prefetchw_3dnow: true,
        clflush: true,
        clflushopt: true,
        clwb: true,
        vzeroupper: true,
        avx512vl: true,
        avx512bw: true,
        avx512dq: true,
        avx512cd: true,
        avx512ifma: true,
        avx512_vbmi: true,
        avx512_vbmi2: true,
        avx512_vpopcntdq: true,
        avx512_bitalg: true,
        avx512_vaes: true,
        avx512_vpclmulqdq: true,
        avx512_vnni: true,
    }
}

fn fresh() -> Assembler {
    Assembler::new(features(0))
}

fn r(n: u8) -> Register {
    Register::new(n)
}

#[test]
fn new_assembler_is_empty() {
    let a = fresh();
    assert_eq!(a.pc(), 0);
    assert!(a.code.is_empty());
}

#[test]
fn opcodes_append_bytes_in_order() {
    let mut a = fresh();
    a.opcode(0x90);
    a.opcode2(0x0F, 0xA2);
    a.opcode3(0x0F, 0x38, 0xF0);
    a.write_byte(0xCC);
    assert_eq!(a.code, vec![0x90, 0x0F, 0xA2, 0x0F, 0x38, 0xF0, 0xCC]);
    assert_eq!(a.pc(), 7);
}

#[test]
fn addl_register_register() {
    let mut a = fresh();
    a.addl(r(0), r(1));
    assert_eq!(a.code, vec![0x03, 0xC1]);
}

#[test]
fn addl_extended_registers_get_rex() {
    let mut a = fresh();
    a.addl(r(8), r(1));
    assert_eq!(a.code, vec![0x44, 0x03, 0xC1]);
    let mut b = fresh();
    b.addl(r(1), r(15));
    assert_eq!(b.code, vec![0x41, 0x03, 0xCF]);
    let mut c = fresh();
    c.addl(r(9), r(10));
    assert_eq!(c.code, vec![0x45, 0x03, 0xCA]);
}

#[test]
fn arith_immediate_short_form() {
    let mut a = fresh();
    a.addl_ri(r(1), 1);
    assert_eq!(a.code, vec![0x83, 0xC1, 0x01]);
    let mut b = fresh();
    b.addl_ri(r(1), -1);
    assert_eq!(b.code, vec![0x83, 0xC1, 0xFF]);
    let mut c = fresh();
    c.subl_ri(r(2), 5);
    assert_eq!(c.code, vec![0x83, 0xEA, 0x05]);
}

#[test]
fn arith_immediate_accumulator_form() {
    let mut a = fresh();
    a.addl_ri(r(0), 1000);
    assert_eq!(a.code, vec![0x05, 0xE8, 0x03, 0x00, 0x00]);
    let mut b = fresh();
    b.cmpl_ri(r(0), 0x12345678);
    assert_eq!(b.code, vec![0x3D, 0x78, 0x56, 0x34, 0x12]);
}

#[test]
fn arith_immediate_long_form() {
    let mut a = fresh();
    a.addl_ri(r(1), 1000);
    assert_eq!(a.code, vec![0x81, 0xC1, 0xE8, 0x03, 0x00, 0x00]);
    let mut b = fresh();
    b.addl_ri(r(1), 128);
    assert_eq!(b.code, vec![0x81, 0xC1, 0x80, 0x00, 0x00, 0x00]);
    let mut c = fresh();
    c.addl_ri(r(1), -128);
    assert_eq!(c.code, vec![0x83, 0xC1, 0x80]);
}

#[test]
fn movl_immediate() {
    let mut a = fresh();
    a.movl_ri(r(9), 0x12345678);
    assert_eq!(a.code, vec![0x41, 0xB9, 0x78, 0x56, 0x34, 0x12]);
    let mut b = fresh();
    b.movl_ri(r(0), -1);
    assert_eq!(b.code, vec![0xB8, 0xFF, 0xFF, 0xFF, 0xFF]);
}

#[test]
fn ret_with_and_without_pop() {
    let mut a = fresh();
    a.ret(0);
    assert_eq!(a.code, vec![0xC3]);
    let mut b = fresh();
    b.ret(8);
    assert_eq!(b.code, vec![0xC2, 0x08, 0x00]);
}

#[test]
fn fixed_instructions() {
    let mut a = fresh();
    a.hlt();
    a.cpuid();
    a.pause();
    a.mfence();
    a.lock();
    assert_eq!(a.code, vec![0xF4, 0x0F, 0xA2, 0xF3, 0x90, 0x0F, 0xAE, 0xF0, 0xF0]);
}

#[test]
fn memory_operand_rsp_base_needs_sib() {
    let mut a = fresh();
    a.movl_rm(r(0), Address::base_disp(r(4), 8));
    assert_eq!(a.code, vec![0x8B, 0x44, 0x24, 0x08]);
    let mut b = fresh();
    b.movl_rm(r(0), Address::base_disp(r(4), 0));
    assert_eq!(b.code, vec![0x8B, 0x04, 0x24]);
}

#[test]
fn memory_operand_rbp_base_needs_displacement() {
    let mut a = fresh();
    a.movl_rm(r(0), Address::base_disp(r(5), 0));
    assert_eq!(a.code, vec![0x8B, 0x45, 0x00]);
    let mut b = fresh();
    b.movl_rm(r(0), Address::base_disp(r(13), 0));
    assert_eq!(b.code, vec![0x41, 0x8B, 0x45, 0x00]);
}

#[test]
fn memory_operand_r12_base_needs_sib() {
    let mut a = fresh();
    a.movl_rm(r(0), Address::base_disp(r(12), 0));
    assert_eq!(a.code, vec![0x41, 0x8B, 0x04, 0x24]);
}

#[test]
fn memory_operand_plain_base() {
    let mut a = fresh();
    a.movl_mr(Address::base_disp(r(0), 0), r(1));
    assert_eq!(a.code, vec![0x89, 0x08]);
    let mut b = fresh();
    b.movl_rm(r(2), Address::base_disp(r(3), -8));
    assert_eq!(b.code, vec![0x8B, 0x53, 0xF8]);
}

#[test]
fn memory_operand_displacement_limits() {
    let mut a = fresh();
    a.movl_rm(r(0), Address::base_disp(r(1), 127));
    assert_eq!(a.code, vec![0x8B, 0x41, 0x7F]);
    let mut b = fresh();
    b.movl_rm(r(0), Address::base_disp(r(1), 128));
    assert_eq!(b.code, vec![0x8B, 0x81, 0x80, 0x00, 0x00, 0x00]);
    let mut c = fresh();
    c.movl_rm(r(0), Address::base_disp(r(1), -128));
    assert_eq!(c.code, vec![0x8B, 0x41, 0x80]);
    let mut d = fresh();
    d.movl_rm(r(0), Address::base_disp(r(1), -129));
    assert_eq!(d.code, vec![0x8B, 0x81, 0x7F, 0xFF, 0xFF, 0xFF]);
}

#[test]
fn memory_operand_base_index_scale() {
    let mut a = fresh();
    a.movl_rm(r(1), Address::base_index(r(0), r(3), 2, 0x100));
    assert_eq!(a.code, vec![0x8B, 0x8C, 0x98, 0x00, 0x01, 0x00, 0x00]);
    let mut b = fresh();
    b.movl_rm(r(1), Address::base_index(r(0), r(3), 3, 0));
    assert_eq!(b.code, vec![0x8B, 0x0C, 0xD8]);
}

#[test]
fn memory_operand_extended_index_and_base() {
    let mut a = fresh();
    a.movl_rm(r(0), Address::base_index(r(8), r(12), 0, 0));
    assert_eq!(a.code, vec![0x43, 0x8B, 0x04, 0x20]);
    let mut b = fresh();
    b.movl_rm(r(9), Address::base_index(r(13), r(1), 1, 0));
    assert_eq!(b.code, vec![0x45, 0x8B, 0x4C, 0x4D, 0x00]);
}

#[test]
fn memory_operand_absolute() {
    let mut a = fresh();
    a.movl_rm(r(0), Address::absolute(0x1000));
    assert_eq!(a.code, vec![0x8B, 0x04, 0x25, 0x00, 0x10, 0x00, 0x00]);
}

#[test]
fn arith_memory_immediate() {
    let mut a = fresh();
    a.addl_mi(Address::base_disp(r(0), 0), 1);
    assert_eq!(a.code, vec![0x83, 0x00, 0x01]);
    let mut b = fresh();
    b.addl_mi(Address::base_disp(r(0), 0), 1000);
    assert_eq!(b.code, vec![0x81, 0x00, 0xE8, 0x03, 0x00, 0x00]);
}

#[test]
fn byte_register_forces_rex() {
    let mut a = fresh();
    a.movb_mr(Address::base_disp(r(0), 0), r(6));
    assert_eq!(a.code, vec![0x40, 0x88, 0x30]);
    let mut b = fresh();
    b.movb_mr(Address::base_disp(r(0), 0), r(3));
    assert_eq!(b.code, vec![0x88, 0x18]);
}

#[test]
fn emissions_concatenate() {
    let mut a = fresh();
    a.addl(r(0), r(1));
    a.ret(0);
    a.movl_ri(r(0), 7);
    assert_eq!(a.code, vec![0x03, 0xC1, 0xC3, 0xB8, 0x07, 0x00, 0x00, 0x00]);
    assert_eq!(a.pc(), 8);
}

#[test]
fn emit_integers_little_endian() {
    let mut a = fresh();
    a.emit_i16(0x1234);
    a.emit_i32(-2);
    a.emit_i64(0x0102030405060708);
    assert_eq!(
        a.code,
        vec![0x34, 0x12, 0xFE, 0xFF, 0xFF, 0xFF, 0x08, 0x07, 0x06, 0x05, 0x04, 0x03, 0x02, 0x01]
    );
}

#[test]
fn crc32_register_forms() {
    let mut a = fresh();
    a.crc32(r(0), r(1), 4);
    assert_eq!(a.code, vec![0xF2, 0x0F, 0x38, 0xF1, 0xC1]);
    let mut b = fresh();
    b.crc32(r(0), r(1), 1);
    assert_eq!(b.code, vec![0xF2, 0x0F, 0x38, 0xF0, 0xC1]);
    let mut c = fresh();
    c.crc32(r(0), r(9), 8);
    assert_eq!(c.code, vec![0xF2, 0x49, 0x0F, 0x38, 0xF1, 0xC1]);
}

#[test]
fn literals_record_relocations_at_instruction_start() {
    let mut a = fresh();
    a.ret(0);
    a.mov_literal32_ri(r(9), 0x10, RelocType::Oop);
    assert_eq!(a.code[1..].to_vec(), vec![0x41, 0xB9, 0x10, 0x00, 0x00, 0x00]);
    a.mov64(r(0), 0x1122334455667788, RelocType::ExternalWord);
    assert_eq!(
        a.code[7..].to_vec(),
        vec![0x48, 0xB8, 0x88, 0x77, 0x66, 0x55, 0x44, 0x33, 0x22, 0x11]
    );
    a.push_literal32(5, RelocType::NoRelocation);
    assert_eq!(a.code[17..].to_vec(), vec![0x68, 0x05, 0x00, 0x00, 0x00]);
    a.cmp_narrow_oop_mi(Address::base_disp(r(0), 0), 7, RelocType::Oop);
    assert_eq!(a.code[22..].to_vec(), vec![0x81, 0x00, 0x07, 0x00, 0x00, 0x00]);
    assert_eq!(
        a.relocs,
        vec![
            Relocation { offset: 1, kind: RelocType::Oop },
            Relocation { offset: 7, kind: RelocType::ExternalWord },
            Relocation { offset: 22, kind: RelocType::Oop }
        ]
    );
}

#[test]
fn plain_emitters_record_no_relocation() {
    let mut a = fresh();
    a.addl(r(0), r(1));
    a.movl_rm(r(0), Address::absolute(0x1000));
    assert!(a.relocs.is_empty());
}
