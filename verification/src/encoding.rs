use vstd::prelude::*;
use crate::address::Address;
use crate::attributes::{InstructionAttr, AVX_512BIT, VEX_OPCODE_0F, VEX_OPCODE_0F_38, VEX_OPCODE_0F_3A, VEX_SIMD_66, VEX_SIMD_F2, VEX_SIMD_F3, VEX_W};
use crate::features::CpuFeatures;

verus! {

// ---------------------------------------------------------------------------
// Integers as little-endian bytes.

pub open spec fn le16(v: i16) -> Seq<u8> {
    let u = v as u16;
    seq![(u & 0xff) as u8, ((u >> 8) & 0xff) as u8]
}

pub open spec fn le32(v: i32) -> Seq<u8> {
    let u = v as u32;
    seq![(u & 0xff) as u8, ((u >> 8) & 0xff) as u8, ((u >> 16) & 0xff) as u8, ((u >> 24) & 0xff) as u8]
}

pub open spec fn le64(v: i64) -> Seq<u8> {
    let u = v as u64;
    seq![
        (u & 0xff) as u8,
        ((u >> 8) & 0xff) as u8,
        ((u >> 16) & 0xff) as u8,
        ((u >> 24) & 0xff) as u8,
        ((u >> 32) & 0xff) as u8,
        ((u >> 40) & 0xff) as u8,
        ((u >> 48) & 0xff) as u8,
        ((u >> 56) & 0xff) as u8,
    ]
}

/// The low byte of a value (two's complement).
pub open spec fn low8(v: i32) -> u8 {
    ((v as u32) & 0xff) as u8
}

/// The byte of an 8-bit immediate.
pub open spec fn imm_byte(v: i8) -> u8 {
    low8(v as i32)
}

pub fn low8_exec(v: i32) -> (r: u8)
    ensures
        r == low8(v),
{
    ((v as u32) & 0xff) as u8
}

pub fn imm_byte_exec(v: i8) -> (r: u8)
    ensures
        r == imm_byte(v),
{
    let w: i32 = v as i32;
    ((w as u32) & 0xff) as u8
}

/// Fits a sign-extended 8-bit immediate or displacement.
pub open spec fn is8bit(v: int) -> bool {
    -128 <= v < 128
}

// ---------------------------------------------------------------------------
// REX prefix.

pub open spec fn rex_byte(w: bool, r: bool, x: bool, b: bool) -> u8 {
    (0x40 + (if w { 8int } else { 0 }) + (if r { 4int } else { 0 }) + (if x { 2int } else { 0 })
        + (if b { 1int } else { 0 })) as u8
}

/// The REX prefix with the given bits, present when a bit is set or when
/// `force` demands it (byte access to spl, bpl, sil or dil).
pub open spec fn rex_opt(w: bool, r: bool, x: bool, b: bool, force: bool) -> Seq<u8> {
    if w || r || x || b || force {
        seq![rex_byte(w, r, x, b)]
    } else {
        seq![]
    }
}

/// REX prefix for an instruction whose ModRM reg field holds `reg` and whose
/// r/m field holds the address `adr`.
pub open spec fn rex_for_adr(w: bool, reg: u8, adr: Address, byteinst: bool) -> Seq<u8> {
    rex_opt(w, reg >= 8, adr.spec_index_needs_rex(), adr.spec_base_needs_rex(), byteinst && reg >= 4)
}

/// REX prefix for a register-to-register instruction.
pub open spec fn rex_for_rr(w: bool, reg: u8, rm: u8, reg_is_byte: bool, rm_is_byte: bool) -> Seq<u8> {
    rex_opt(w, reg >= 8, false, rm >= 8, (reg_is_byte && reg >= 4) || (rm_is_byte && rm >= 4))
}

// ---------------------------------------------------------------------------
// ModRM and SIB.

/// The reg and r/m fields of a register-direct ModRM byte, without the mod
/// bits.
pub open spec fn rr_bits(reg: u8, rm: u8) -> u8 {
    ((reg & 7) << 3) | (rm & 7)
}

pub open spec fn modrm(md: u8, reg: u8, rm: u8) -> u8 {
    (md << 6) | ((reg & 7) << 3) | (rm & 7)
}

pub open spec fn sib(scale: u8, index: u8, base: u8) -> u8 {
    (scale << 6) | ((index & 7) << 3) | (base & 7)
}

/// Displacements are stored compressed (as `disp8 * N`): the instruction
/// is EVEX encoded with a vector length.
pub open spec fn compressing(f: CpuFeatures, attr: Option<InstructionAttr>) -> bool {
    &&& f.use_avx >= 3
    &&& attr is Some
    &&& attr->0.is_evex_instruction
    &&& attr->0.vector_len <= 2
}

/// Encoding of an 8-bit displacement, after EVEX compression where the
/// instruction is EVEX encoded: the stored value when the short form applies.
pub open spec fn disp8(f: CpuFeatures, attr: Option<InstructionAttr>, disp: i32) -> Option<int> {
    if compressing(f, attr) {
        let n = attr->0.disp_factor() as int;
        let m = if disp >= 0 { disp as int } else { -(disp as int) };
        if n != 0 && m % n == 0 {
            let q = if disp >= 0 { m / n } else { -(m / n) };
            if is8bit(q) {
                Some(q)
            } else {
                None
            }
        } else {
            None
        }
    } else if is8bit(disp as int) {
        Some(disp as int)
    } else {
        None
    }
}

/// A displacement after a ModRM (and SIB) byte whose mod field is 01 or 10.
pub open spec fn disp_tail(d8: Option<int>, disp: i32) -> Seq<u8> {
    match d8 {
        Some(d) => seq![low8(d as i32)],
        None => le32(disp),
    }
}

pub open spec fn mod_for(d8: Option<int>) -> u8 {
    if d8 is Some {
        1
    } else {
        2
    }
}

/// The ModRM, SIB and displacement bytes that address `[base + index *
/// 2^scale + disp]`, with `reg` in the reg field.
pub open spec fn operand_bytes(
    reg: u8,
    base: Option<u8>,
    index: Option<u8>,
    scale: u8,
    disp: i32,
    d8: Option<int>,
) -> Seq<u8> {
    match base {
        Some(b) => match index {
            Some(i) => if disp == 0 && b != 5 && b != 13 {
                seq![modrm(0, reg, 4), sib(scale, i, b)]
            } else {
                seq![modrm(mod_for(d8), reg, 4), sib(scale, i, b)] + disp_tail(d8, disp)
            },
            None => if b == 4 || b == 12 {
                if disp == 0 {
                    seq![modrm(0, reg, 4), sib(0, 4, 4)]
                } else {
                    seq![modrm(mod_for(d8), reg, 4), sib(0, 4, 4)] + disp_tail(d8, disp)
                }
            } else if disp == 0 && b != 5 && b != 13 {
                seq![modrm(0, reg, b)]
            } else {
                seq![modrm(mod_for(d8), reg, b)] + disp_tail(d8, disp)
            },
        },
        None => match index {
            Some(i) => seq![modrm(0, reg, 4), sib(scale, i, 5)] + le32(disp),
            None => seq![modrm(0, reg, 4), sib(0, 4, 5)] + le32(disp),
        },
    }
}

/// The index register encoding of an address, taking a vector index into
/// account when `xmm` says the operand allows one.
pub open spec fn index_enc(adr: Address, xmm: bool) -> Option<u8> {
    match adr.index {
        Some(i) => Some(i.encoding),
        None => if xmm {
            match adr.xmmindex {
                Some(x) => Some(x.encoding),
                None => None,
            }
        } else {
            None
        },
    }
}

pub open spec fn base_enc(adr: Address) -> Option<u8> {
    match adr.base {
        Some(b) => Some(b.encoding),
        None => None,
    }
}

/// The memory operand encoding of `adr` with `reg` in the ModRM reg field;
/// `attr` carries the EVEX attributes that decide displacement compression
/// (none for instructions without them).
pub open spec fn address_bytes(
    f: CpuFeatures,
    attr: Option<InstructionAttr>,
    reg: u8,
    adr: Address,
    xmm: bool,
) -> Seq<u8> {
    operand_bytes(reg, base_enc(adr), index_enc(adr, xmm), adr.scale, adr.disp, disp8(f, attr, adr.disp))
}

// ---------------------------------------------------------------------------
// Legacy SSE prefixes.

pub open spec fn simd_pre_bytes(pre: u8) -> Seq<u8> {
    if pre == VEX_SIMD_66 {
        seq![0x66]
    } else if pre == VEX_SIMD_F3 {
        seq![0xF3]
    } else if pre == VEX_SIMD_F2 {
        seq![0xF2]
    } else {
        seq![]
    }
}

pub open spec fn simd_opc_bytes(opc: u8) -> Seq<u8> {
    if opc == VEX_OPCODE_0F {
        seq![0x0F]
    } else if opc == VEX_OPCODE_0F_38 {
        seq![0x0F, 0x38]
    } else if opc == VEX_OPCODE_0F_3A {
        seq![0x0F, 0x3A]
    } else {
        seq![]
    }
}

// ---------------------------------------------------------------------------
// VEX and EVEX prefixes.

/// The two- or three-byte VEX prefix. The three-byte form is needed for the
/// X, B and W bits and for the 0F 38 and 0F 3A opcode maps.
pub open spec fn vex_bytes(a: InstructionAttr, r: bool, b: bool, x: bool, nds: u8, pre: u8, opc: u8) -> Seq<u8> {
    let w = a.rex_vex_w;
    let l: u8 = if a.vector_len > 0 { 4 } else { 0 };
    if b || x || w || opc == VEX_OPCODE_0F_38 || opc == VEX_OPCODE_0F_3A {
        let byte1: u8 = ((!((if r { 0x80u8 } else { 0 }) | (if x { 0x40u8 } else { 0 }) | (if b { 0x20u8 } else { 0 })))
            & 0xE0) | opc;
        let byte2: u8 = (((!nds) & 0xf) << 3) | (if w { 0x80u8 } else { 0 }) | l | pre;
        seq![0xC4, byte1, byte2]
    } else {
        let byte1: u8 = ((!(if r { 0x80u8 } else { 0 })) & 0x80) | (((!nds) & 0xf) << 3) | l | pre;
        seq![0xC5, byte1]
    }
}

/// The four-byte EVEX prefix; `a` is the attribute state when it is emitted.
pub open spec fn evex_bytes(
    a: InstructionAttr,
    r: bool,
    b: bool,
    x: bool,
    evex_r: bool,
    evex_v: bool,
    nds: u8,
    pre: u8,
    opc: u8,
) -> Seq<u8> {
    let byte2: u8 = ((!((if r { 0x80u8 } else { 0 }) | (if x { 0x40u8 } else { 0 }) | (if b { 0x20u8 } else { 0 })
        | (if evex_r { 0x10u8 } else { 0 }))) & 0xF0) | opc;
    let byte3: u8 = (((!nds) & 0xf) << 3) | 0x04 | (if a.rex_vex_w { 0x80u8 } else { 0 }) | pre;
    let byte4: u8 = (if a.no_reg_mask { 0u8 } else { a.embedded_opmask }) | (if evex_v { 0u8 } else { 0x08 })
        | (if a.is_extended_context { 0x10u8 } else { 0 }) | ((a.vector_len & 3) << 5) | (if !a.no_reg_mask
        && a.embedded_opmask != 0 && a.is_clear_context { 0x80u8 } else { 0 });
    seq![0x62, byte2, byte3, byte4]
}

/// Whether the attributes end up selecting the EVEX encoding.
pub open spec fn uses_evex(f: CpuFeatures, a: InstructionAttr) -> bool {
    f.use_avx > 2 && !a.legacy_mode
}

/// Attribute state after choosing between VEX and EVEX for a
/// register-to-register form: an instruction that could be EVEX encoded
/// falls back to VEX when nothing in it needs EVEX.
pub open spec fn vex_rr_attr(f: CpuFeatures, a: InstructionAttr, dst: u8, nds: u8, src: u8) -> InstructionAttr {
    let a1 = if !a.legacy_mode && f.use_avx > 2 && !a.is_evex_instruction && (!a.uses_vl || a.vector_len
        != AVX_512BIT) && dst < 16 && nds < 16 && src < 16 {
        InstructionAttr { legacy_mode: true, ..a }
    } else {
        a
    };
    vex_final_attr(f, a1)
}

/// Attribute state after choosing between VEX and EVEX for a form with a
/// memory operand.
pub open spec fn vex_adr_attr(f: CpuFeatures, a: InstructionAttr, nds: u8, xreg: u8) -> InstructionAttr {
    let a1 = if !a.legacy_mode && f.use_avx > 2 && !a.is_evex_instruction && a.vector_len != AVX_512BIT && nds
        < 16 && xreg < 16 {
        InstructionAttr { legacy_mode: true, ..a }
    } else {
        a
    };
    vex_final_attr(f, a1)
}

pub open spec fn vex_final_attr(f: CpuFeatures, a1: InstructionAttr) -> InstructionAttr {
    if f.use_avx > 2 && !a1.legacy_mode {
        InstructionAttr {
            is_evex_instruction: true,
            evex_encoding: if a1.rex_vex_w { VEX_W } else { 0 },
            ..a1
        }
    } else if f.use_avx > 2 && a1.rex_vex_w_reverted {
        InstructionAttr { rex_vex_w: false, ..a1 }
    } else {
        a1
    }
}

/// The register operands can be encoded with the chosen prefix: registers
/// 16-31 only exist with AVX-512 and need the EVEX form, and vector-length
/// forms below 512 bits need AVX512VL to be EVEX encoded.
pub open spec fn vex_regs_ok(f: CpuFeatures, a1: InstructionAttr, small: bool) -> bool {
    &&& (f.use_avx <= 2 ==> small)
    &&& (f.use_avx > 2 ==> (!a1.uses_vl || a1.vector_len == AVX_512BIT || !f.spec_legacy_mode_vl() || a1.legacy_mode))
    &&& (f.use_avx > 2 ==> (small || !a1.legacy_mode))
}

pub open spec fn vex_rr_ok(f: CpuFeatures, a: InstructionAttr, dst: u8, nds: u8, src: u8) -> bool {
    &&& dst < 32 && nds < 32 && src < 32
    &&& vex_regs_ok(f, vex_rr_attr(f, a, dst, nds, src), dst < 16 && nds < 16 && src < 16)
}

pub open spec fn vex_adr_ok(f: CpuFeatures, a: InstructionAttr, nds: u8, xreg: u8, adr: Address) -> bool {
    &&& nds < 32 && xreg < 32 && adr.wf()
    &&& vex_regs_ok(f, vex_adr_attr(f, a, nds, xreg), nds < 16 && xreg < 16 && (f.use_avx <= 2 ==> (
    adr.xmmindex matches Some(xi) ==> xi.encoding < 16)))
}

/// The VEX or EVEX prefix of a register-to-register form.
pub open spec fn vex_rr_bytes(f: CpuFeatures, a: InstructionAttr, dst: u8, nds: u8, src: u8, pre: u8, opc: u8) -> Seq<u8> {
    let a1 = vex_rr_attr(f, a, dst, nds, src);
    if uses_evex(f, a1) {
        evex_bytes(a1, dst & 8 == 8, src & 8 == 8, src >= 16, dst >= 16, nds >= 16, nds, pre, opc)
    } else {
        vex_bytes(a1, dst & 8 == 8, src & 8 == 8, false, nds, pre, opc)
    }
}

/// The VEX or EVEX prefix of a form with a memory operand.
pub open spec fn vex_adr_bytes(f: CpuFeatures, a: InstructionAttr, adr: Address, nds: u8, xreg: u8, pre: u8, opc: u8) -> Seq<u8> {
    let a1 = vex_adr_attr(f, a, nds, xreg);
    let r = xreg & 8 == 8;
    let b = adr.spec_base_needs_rex();
    let x = if adr.xmmindex is Some {
        adr.spec_xmmindex_needs_rex()
    } else {
        adr.spec_index_needs_rex()
    };
    if uses_evex(f, a1) {
        let v = match adr.xmmindex {
            Some(xi) => xi.encoding > 15,
            None => nds >= 16,
        };
        evex_bytes(a1, r, b, x, xreg >= 16, v, nds, pre, opc)
    } else {
        vex_bytes(a1, r, b, x, nds, pre, opc)
    }
}

// ---------------------------------------------------------------------------
// SIMD prefixes: legacy SSE encoding without AVX, VEX/EVEX with it.

pub open spec fn nds_enc(nds: Option<u8>) -> u8 {
    match nds {
        Some(n) => n,
        None => 0,
    }
}

pub open spec fn simd_rr_attr(f: CpuFeatures, a: InstructionAttr, dst: u8, nds: Option<u8>, src: u8) -> InstructionAttr {
    if f.use_avx > 0 {
        vex_rr_attr(f, a, dst, nds_enc(nds), src)
    } else {
        a
    }
}

pub open spec fn simd_rr_ok(f: CpuFeatures, a: InstructionAttr, dst: u8, nds: Option<u8>, src: u8) -> bool {
    if f.use_avx > 0 {
        vex_rr_ok(f, a, dst, nds_enc(nds), src)
    } else {
        &&& dst < 16 && src < 16
        &&& (nds matches Some(n) ==> n == dst || n == src)
    }
}

pub open spec fn simd_rr_bytes(f: CpuFeatures, a: InstructionAttr, dst: u8, nds: Option<u8>, src: u8, pre: u8, opc: u8) -> Seq<u8> {
    if f.use_avx > 0 {
        vex_rr_bytes(f, a, dst, nds_enc(nds), src, pre, opc)
    } else {
        simd_pre_bytes(pre) + rex_for_rr(a.rex_vex_w, dst, src, false, false) + simd_opc_bytes(opc)
    }
}

pub open spec fn simd_adr_attr(f: CpuFeatures, a: InstructionAttr, xreg: u8, nds: Option<u8>) -> InstructionAttr {
    if f.use_avx > 0 {
        vex_adr_attr(f, a, nds_enc(nds), xreg)
    } else {
        a
    }
}

pub open spec fn simd_adr_ok(f: CpuFeatures, a: InstructionAttr, xreg: u8, nds: Option<u8>, adr: Address) -> bool {
    if f.use_avx > 0 {
        vex_adr_ok(f, a, nds_enc(nds), xreg, adr)
    } else {
        &&& xreg < 16 && adr.wf()
        &&& (nds matches Some(n) ==> n == xreg)
        &&& (adr.xmmindex matches Some(xi) ==> xi.encoding < 16)
    }
}

pub open spec fn simd_adr_bytes(f: CpuFeatures, a: InstructionAttr, xreg: u8, nds: Option<u8>, adr: Address, pre: u8, opc: u8) -> Seq<u8> {
    if f.use_avx > 0 {
        vex_adr_bytes(f, a, adr, nds_enc(nds), xreg, pre, opc)
    } else {
        simd_pre_bytes(pre) + rex_for_adr(a.rex_vex_w, xreg, adr, false) + simd_opc_bytes(opc)
    }
}

} // verus!
