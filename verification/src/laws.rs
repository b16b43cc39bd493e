//! What a processor reads back from the bytes the assembler writes: decoders
//! for the encodings, and the laws that they recover what was encoded.
use vstd::prelude::*;
use crate::address::Address;
use crate::attributes::{
    InstructionAttr, EVEX_64BIT, EVEX_DUP, EVEX_FV, EVEX_FVM, EVEX_HV, EVEX_HVM, EVEX_M128, EVEX_OVM, EVEX_QVM, EVEX_RB,
    EVEX_T1F, EVEX_T1S, EVEX_T2, EVEX_T4, EVEX_T8, VEX_OPCODE_0F, VEX_OPCODE_0F_38, VEX_OPCODE_0F_3A, VEX_SIMD_66, VEX_SIMD_F2, VEX_SIMD_F3, VEX_W,
};
use crate::encoding::{
    address_bytes, base_enc, compressing, disp8, disp_tail, evex_bytes, index_enc, is8bit, le32, low8, modrm, nds_enc,
    operand_bytes, rex_byte, rex_for_adr, rex_for_rr, rex_opt, sib, simd_opc_bytes, simd_pre_bytes, simd_rr_attr, simd_rr_bytes,
    simd_rr_ok, uses_evex, vex_adr_attr, vex_bytes, vex_rr_attr, vex_rr_bytes,
};
use crate::assembler::Assembler;
use crate::features::CpuFeatures;
use crate::instructions::branches::{branch_bytes, branch_ok};
use crate::operands::{arith_imm_bytes, encode, is_arith_op2, rax_imm_opcode};
use crate::registers::Register;
use crate::instructions::stack::{load_slot, popa_bytes, popa_loads, pusha_bytes, pusha_stores, rsp_slot, store_slot};

verus! {

// ---------------------------------------------------------------------------
// Reading integers back.

/// The value of a byte read as a signed 8-bit integer.
pub open spec fn sext8(b: u8) -> int {
    if b >= 128 {
        b - 256
    } else {
        b as int
    }
}

/// The value of four little-endian bytes read as a signed 32-bit integer.
pub open spec fn read_i32(s: Seq<u8>) -> int {
    let u = s[0] + 256 * s[1] + 65536 * s[2] + 16777216 * s[3];
    if u >= 0x8000_0000 {
        u - 0x1_0000_0000
    } else {
        u
    }
}

/// An 8-bit displacement or immediate reads back as the value it was taken
/// from.
pub proof fn lemma_sext8_low8(v: i32)
    requires
        -128 <= v < 128,
    ensures
        sext8(low8(v)) == v,
{
    assert({
        let b = ((v as u32) & 0xff) as u8;
        &&& b >= 128 ==> b - 256 == v
        &&& b < 128 ==> b == v
    }) by (bit_vector)
        requires
            -128 <= v < 128,
    ;
}

/// Four little-endian bytes read back as the 32-bit value they were taken
/// from.
pub proof fn lemma_read_le32(v: i32)
    ensures
        le32(v).len() == 4,
        read_i32(le32(v)) == v,
{
    let u = v as u32;
    assert(((u & 0xff) as u8) + 256 * (((u >> 8) & 0xff) as u8) + 65536 * (((u >> 16) & 0xff) as u8)
        + 16777216 * (((u >> 24) & 0xff) as u8) == u) by (bit_vector);
    assert({
        let w = v as u32;
        &&& w >= 0x8000_0000 ==> w - 0x1_0000_0000 == v
        &&& w < 0x8000_0000 ==> w == v
    }) by (bit_vector);
}


// ---------------------------------------------------------------------------
// Memory operands: ModRM, SIB and displacement.

/// A memory operand as a processor reads it, with the REX bits applied to
/// the register fields: the ModRM reg field, `[base + index * 2^scale +
/// disp]`, whether the displacement was stored in one byte, and how many
/// bytes the operand took.
pub struct MemOperand {
    pub reg: int,
    pub base: Option<int>,
    pub index: Option<int>,
    pub scale: int,
    pub disp: int,
    pub short_disp: bool,
    pub len: int,
}

/// A 3-bit register field extended by its REX bit.
pub open spec fn rex_ext(field: u8, bit: bool) -> int {
    field + if bit { 8int } else { 0 }
}

/// The displacement that follows the ModRM (and SIB) byte at offset `o`:
/// none for mod 00, one signed byte for mod 01, four bytes for mod 10 or
/// when `disp32` says the form has no base register.
pub open spec fn read_disp(md: u8, disp32: bool, o: int, s: Seq<u8>) -> Option<(int, bool, int)> {
    if md == 1 && !disp32 {
        if s.len() >= o + 1 {
            Some((sext8(s[o]), true, o + 1))
        } else {
            None
        }
    } else if md == 2 || disp32 {
        if s.len() >= o + 4 {
            Some((read_i32(s.subrange(o, o + 4)), false, o + 4))
        } else {
            None
        }
    } else {
        Some((0, false, o))
    }
}

/// Decodes the memory operand at the start of `s`, given the REX.R, REX.X
/// and REX.B bits. Register-direct and RIP-relative forms are not memory
/// operands of this kind and decode to `None`.
pub open spec fn decode_memory_operand(r: bool, x: bool, b: bool, s: Seq<u8>) -> Option<MemOperand> {
    if s.len() < 1 {
        None
    } else {
        let m = s[0];
        let md = m >> 6;
        let reg = rex_ext((m >> 3) & 7, r);
        let rm = m & 7;
        if md == 3 {
            None
        } else if rm == 4 {
            if s.len() < 2 {
                None
            } else {
                let sb = s[1];
                let idx = (sb >> 3) & 7;
                let bs = sb & 7;
                let no_base = bs == 5 && md == 0;
                let index = if idx == 4 && !x { None } else { Some(rex_ext(idx, x)) };
                let base = if no_base { None } else { Some(rex_ext(bs, b)) };
                match read_disp(md, no_base, 2, s) {
                    Some((d, short, len)) => Some(
                        MemOperand { reg, base, index, scale: (sb >> 6) as int, disp: d, short_disp: short, len },
                    ),
                    None => None,
                }
            }
        } else if rm == 5 && md == 0 {
            None
        } else {
            match read_disp(md, false, 1, s) {
                Some((d, short, len)) => Some(
                    MemOperand { reg, base: Some(rex_ext(rm, b)), index: None, scale: 0, disp: d, short_disp: short, len },
                ),
                None => None,
            }
        }
    }
}

pub open spec fn opt_int(v: Option<u8>) -> Option<int> {
    match v {
        Some(x) => Some(x as int),
        None => None,
    }
}

proof fn lemma_modrm_fields(md: u8, reg: u8, rm: u8)
    requires
        md < 4,
    ensures
        modrm(md, reg, rm) >> 6 == md,
        (modrm(md, reg, rm) >> 3) & 7 == reg & 7,
        modrm(md, reg, rm) & 7 == rm & 7,
        sib(md, reg, rm) >> 6 == md,
        (sib(md, reg, rm) >> 3) & 7 == reg & 7,
        sib(md, reg, rm) & 7 == rm & 7,
        reg < 8 ==> reg & 7 == reg,
        rm < 8 ==> rm & 7 == rm,
{
    assert({
        let v = (md << 6) | ((reg & 7) << 3) | (rm & 7);
        &&& v >> 6 == md
        &&& (v >> 3) & 7 == reg & 7
        &&& v & 7 == rm & 7
        &&& reg < 8 ==> reg & 7 == reg
        &&& rm < 8 ==> rm & 7 == rm
    }) by (bit_vector)
        requires
            md < 4,
    ;
}

proof fn lemma_rex_ext(v: u8)
    requires
        v < 16,
    ensures
        rex_ext(v & 7, v >= 8) == v,
        v & 7 == 4 ==> v == 4 || v == 12,
        v & 7 == 5 ==> v == 5 || v == 13,
{
    assert({
        &&& (v & 7) + (if v >= 8 { 8u8 } else { 0u8 }) == v
        &&& v & 7 == 4 ==> v == 4 || v == 12
        &&& v & 7 == 5 ==> v == 5 || v == 13
    }) by (bit_vector)
        requires
            v < 16,
    ;
}

proof fn lemma_tail_reads(pre: Seq<u8>, d8: Option<int>, disp: i32, rest: Seq<u8>)
    requires
        d8 matches Some(d) ==> is8bit(d),
    ensures
        ({
            let s = pre + disp_tail(d8, disp) + rest;
            let o = pre.len() as int;
            match d8 {
                Some(d) => s.len() >= o + 1 && sext8(s[o]) == d,
                None => s.len() >= o + 4 && read_i32(s.subrange(o, o + 4)) == disp,
            }
        }),
{
    let s = pre + disp_tail(d8, disp) + rest;
    let o = pre.len() as int;
    match d8 {
        Some(d) => {
            lemma_sext8_low8(d as i32);
            assert(s[o] == low8(d as i32));
        },
        None => {
            lemma_read_le32(disp);
            assert(s.subrange(o, o + 4) =~= le32(disp));
        },
    }
}

/// The operand `decode_memory_operand` is expected to find for
/// `operand_bytes(reg, base, index, scale, disp, d8)`.
pub open spec fn expected_operand(
    reg: u8,
    base: Option<u8>,
    index: Option<u8>,
    scale: u8,
    disp: i32,
    d8: Option<int>,
) -> MemOperand {
    let s = operand_bytes(reg, base, index, scale, disp, d8);
    let no_disp = disp == 0 && (base matches Some(bb) && bb != 5 && bb != 13);
    let short = !no_disp && base is Some && d8 is Some;
    MemOperand {
        reg: reg as int,
        base: opt_int(base),
        index: opt_int(index),
        scale: if index is Some { scale as int } else { 0 },
        disp: if short { d8->0 } else { disp as int },
        short_disp: short,
        len: s.len() as int,
    }
}

pub open spec fn operand_args_ok(reg: u8, base: Option<u8>, index: Option<u8>, scale: u8, d8: Option<int>) -> bool {
    &&& reg < 16
    &&& base matches Some(bb) ==> bb < 16
    &&& index matches Some(i) ==> i < 16 && i != 4
    &&& scale <= 3
    &&& d8 matches Some(d) ==> is8bit(d)
}

pub open spec fn decodes_operand_bytes(
    reg: u8,
    base: Option<u8>,
    index: Option<u8>,
    scale: u8,
    disp: i32,
    d8: Option<int>,
    rest: Seq<u8>,
) -> bool {
    let r = reg >= 8;
    let x = index matches Some(i) && i >= 8;
    let b = base matches Some(bb) && bb >= 8;
    decode_memory_operand(r, x, b, operand_bytes(reg, base, index, scale, disp, d8) + rest) == Some(
        expected_operand(reg, base, index, scale, disp, d8),
    )
}

proof fn lemma_decode_base_index(reg: u8, bb: u8, i: u8, scale: u8, disp: i32, d8: Option<int>, rest: Seq<u8>)
    requires
        operand_args_ok(reg, Some(bb), Some(i), scale, d8),
    ensures
        decodes_operand_bytes(reg, Some(bb), Some(i), scale, disp, d8, rest),
{
    let t = operand_bytes(reg, Some(bb), Some(i), scale, disp, d8) + rest;
    let md1: u8 = if d8 is Some { 1 } else { 2 };
    lemma_rex_ext(reg);
    lemma_rex_ext(bb);
    lemma_rex_ext(i);
    lemma_modrm_fields(scale, i, bb);
    if disp == 0 && bb != 5 && bb != 13 {
        lemma_modrm_fields(0, reg, 4);
        assert(t[0] == modrm(0, reg, 4) && t[1] == sib(scale, i, bb));
    } else {
        lemma_modrm_fields(md1, reg, 4);
        lemma_tail_reads(seq![modrm(md1, reg, 4), sib(scale, i, bb)], d8, disp, rest);
        assert(t =~= seq![modrm(md1, reg, 4), sib(scale, i, bb)] + disp_tail(d8, disp) + rest);
    }
}

proof fn lemma_decode_base(reg: u8, bb: u8, scale: u8, disp: i32, d8: Option<int>, rest: Seq<u8>)
    requires
        operand_args_ok(reg, Some(bb), None, scale, d8),
    ensures
        decodes_operand_bytes(reg, Some(bb), None, scale, disp, d8, rest),
{
    let t = operand_bytes(reg, Some(bb), None, scale, disp, d8) + rest;
    let md1: u8 = if d8 is Some { 1 } else { 2 };
    lemma_rex_ext(reg);
    lemma_rex_ext(bb);
    if bb == 4 || bb == 12 {
        lemma_modrm_fields(0, 4, 4);
        if disp == 0 {
            lemma_modrm_fields(0, reg, 4);
            assert(t[0] == modrm(0, reg, 4) && t[1] == sib(0, 4, 4));
        } else {
            lemma_modrm_fields(md1, reg, 4);
            lemma_tail_reads(seq![modrm(md1, reg, 4), sib(0, 4, 4)], d8, disp, rest);
            assert(t =~= seq![modrm(md1, reg, 4), sib(0, 4, 4)] + disp_tail(d8, disp) + rest);
        }
    } else if disp == 0 && bb != 5 && bb != 13 {
        lemma_modrm_fields(0, reg, bb);
        assert(t[0] == modrm(0, reg, bb));
    } else {
        lemma_modrm_fields(md1, reg, bb);
        lemma_tail_reads(seq![modrm(md1, reg, bb)], d8, disp, rest);
        assert(t =~= seq![modrm(md1, reg, bb)] + disp_tail(d8, disp) + rest);
    }
}

proof fn lemma_decode_no_base(reg: u8, index: Option<u8>, scale: u8, disp: i32, d8: Option<int>, rest: Seq<u8>)
    requires
        operand_args_ok(reg, None, index, scale, d8),
    ensures
        decodes_operand_bytes(reg, None, index, scale, disp, d8, rest),
{
    let t = operand_bytes(reg, None, index, scale, disp, d8) + rest;
    lemma_rex_ext(reg);
    lemma_read_le32(disp);
    lemma_modrm_fields(0, reg, 4);
    assert(t.subrange(2, 6) =~= le32(disp));
    match index {
        Some(i) => {
            lemma_rex_ext(i);
            lemma_modrm_fields(scale, i, 5);
            assert(t[0] == modrm(0, reg, 4) && t[1] == sib(scale, i, 5));
        },
        None => {
            lemma_modrm_fields(0, 4, 5);
            assert(t[0] == modrm(0, reg, 4) && t[1] == sib(0, 4, 5));
        },
    }
}

/// The ModRM/SIB/displacement encoding of a memory operand is read back as
/// that operand: the register in the reg field and `[base + index * 2^scale
/// + disp]`, with REX.R, REX.X and REX.B holding the registers' high bits;
/// a displacement stored in one byte is the value `d8` picked for it. The
/// encoding is self-delimiting: whatever follows it does not change what it
/// decodes to or where it ends.
pub proof fn law_operand_bytes_decode(
    reg: u8,
    base: Option<u8>,
    index: Option<u8>,
    scale: u8,
    disp: i32,
    d8: Option<int>,
    rest: Seq<u8>,
)
    requires
        operand_args_ok(reg, base, index, scale, d8),
    ensures
        decodes_operand_bytes(reg, base, index, scale, disp, d8, rest),
        expected_operand(reg, base, index, scale, disp, d8).reg == reg,
        expected_operand(reg, base, index, scale, disp, d8).base == opt_int(base),
        expected_operand(reg, base, index, scale, disp, d8).index == opt_int(index),
{
    match base {
        Some(bb) => match index {
            Some(i) => lemma_decode_base_index(reg, bb, i, scale, disp, d8, rest),
            None => lemma_decode_base(reg, bb, scale, disp, d8, rest),
        },
        None => lemma_decode_no_base(reg, index, scale, disp, d8, rest),
    }
}

/// The one-byte displacement chosen for `disp`: without EVEX compression it
/// is `disp` itself, and it is chosen exactly when `disp` fits in a signed
/// byte; with compression (EVEX disp8*N) it is `disp / N`, chosen exactly
/// when `N` divides `disp` and the quotient fits in a signed byte.
pub proof fn law_disp8(f: CpuFeatures, attr: Option<InstructionAttr>, disp: i32)
    ensures
        disp8(f, attr, disp) matches Some(d) ==> is8bit(d),
        !compressing(f, attr) ==> (disp8(f, attr, disp) is Some <==> is8bit(disp as int)),
        !compressing(f, attr) && disp8(f, attr, disp) is Some ==> disp8(f, attr, disp) == Some(disp as int),
        compressing(f, attr) && disp8(f, attr, disp) is Some ==> disp8(f, attr, disp)->0 * attr->0.disp_factor()
            == disp,
        compressing(f, attr) ==> (disp8(f, attr, disp) is Some <==> ({
            let n = attr->0.disp_factor() as int;
            n != 0 && (disp as int) % n == 0 && is8bit((disp as int) / n)
        })),
{
    if compressing(f, attr) {
        let n = attr->0.disp_factor() as int;
        let m = if disp >= 0 { disp as int } else { -(disp as int) };
        if n != 0 {
            let q0 = m / n;
            let r0 = m % n;
            vstd::arithmetic::div_mod::lemma_fundamental_div_mod(m, n);
            assert(m == q0 * n + r0 && 0 <= r0 < n) by (nonlinear_arith)
                requires
                    m == n * (m / n) + m % n,
                    q0 == m / n,
                    r0 == m % n,
                    n > 0,
                    0 <= m % n < n,
            ;
            if disp < 0 {
                if r0 == 0 {
                    assert((disp as int) == (-q0) * n + 0) by (nonlinear_arith)
                        requires
                            m == q0 * n + r0,
                            r0 == 0,
                            disp == -m,
                    ;
                    vstd::arithmetic::div_mod::lemma_fundamental_div_mod_converse(disp as int, n, -q0, 0);
                } else {
                    assert((disp as int) == (-q0 - 1) * n + (n - r0)) by (nonlinear_arith)
                        requires
                            m == q0 * n + r0,
                            disp == -m,
                    ;
                    vstd::arithmetic::div_mod::lemma_fundamental_div_mod_converse(disp as int, n, -q0 - 1, n - r0);
                }
            }
        }
    }
}

/// A memory operand as the assembler encodes it decodes back to the
/// address: the register in the reg field, the base and index registers,
/// the scale where there is an index, and the displacement. Where an EVEX
/// instruction stores the displacement compressed in one byte, that byte
/// times the compression factor `N` is the displacement. The encoding ends
/// where the decoder stops reading.
pub proof fn law_memory_operand_decode(
    f: CpuFeatures,
    attr: Option<InstructionAttr>,
    reg: u8,
    adr: Address,
    rest: Seq<u8>,
)
    requires
        reg < 16,
        adr.wf(),
    ensures
        ({
            let s = address_bytes(f, attr, reg, adr, false);
            decode_memory_operand(reg >= 8, adr.spec_index_needs_rex(), adr.spec_base_needs_rex(), s + rest) matches Some(m)
                && m.reg == reg && m.base == opt_int(base_enc(adr)) && m.index == opt_int(index_enc(adr, false))
                && (adr.index is Some ==> m.scale == adr.scale) && m.len == s.len() && if m.short_disp && compressing(
                f,
                attr,
            ) {
                m.disp * attr->0.disp_factor() == adr.disp
            } else {
                m.disp == adr.disp
            }
        }),
{
    let d8 = disp8(f, attr, adr.disp);
    law_disp8(f, attr, adr.disp);
    law_operand_bytes_decode(reg, base_enc(adr), index_enc(adr, false), adr.scale, adr.disp, d8, rest);
}

// ---------------------------------------------------------------------------
// REX prefixes and register operands.

/// A REX prefix byte: 0100WRXB.
pub open spec fn is_rex(byte: u8) -> bool {
    byte >> 4 == 4
}

/// The W, R, X and B bits that a (possibly empty) REX prefix carries; all
/// clear when there is none.
pub open spec fn rex_bits(p: Seq<u8>) -> (bool, bool, bool, bool) {
    if p.len() == 1 {
        let v = p[0];
        ((v >> 3) & 1 == 1, (v >> 2) & 1 == 1, (v >> 1) & 1 == 1, v & 1 == 1)
    } else {
        (false, false, false, false)
    }
}

/// The REX prefix the assembler writes carries exactly the requested W, R,
/// X and B bits; it is left out only when none is set and none is forced
/// (a byte access to spl, bpl, sil or dil forces one).
pub proof fn law_rex_prefix(w: bool, r: bool, x: bool, b: bool, force: bool)
    ensures
        rex_opt(w, r, x, b, force).len() <= 1,
        rex_opt(w, r, x, b, force).len() == 1 ==> is_rex(rex_opt(w, r, x, b, force)[0]),
        rex_opt(w, r, x, b, force).len() == 0 <==> !(w || r || x || b || force),
        rex_bits(rex_opt(w, r, x, b, force)) == (w, r, x, b),
{
    assert({
        let v = (0x40 + (if w { 8int } else { 0 }) + (if r { 4int } else { 0 }) + (if x { 2int } else { 0 })
            + (if b { 1int } else { 0 })) as u8;
        &&& v >> 4 == 4
        &&& ((v >> 3) & 1 == 1) == w
        &&& ((v >> 2) & 1 == 1) == r
        &&& ((v >> 1) & 1 == 1) == x
        &&& (v & 1 == 1) == b
    }) by (bit_vector);
}

/// The REX bits of a memory-operand instruction are the high bits of the
/// ModRM reg register and of the index and base registers.
pub proof fn law_rex_for_address(w: bool, reg: u8, adr: Address, byteinst: bool)
    ensures
        rex_bits(rex_for_adr(w, reg, adr, byteinst)) == (w, reg >= 8, adr.spec_index_needs_rex(), adr.spec_base_needs_rex()),
{
    law_rex_prefix(w, reg >= 8, adr.spec_index_needs_rex(), adr.spec_base_needs_rex(), byteinst && reg >= 4);
}

/// The two registers of a register-direct ModRM byte (mod 11), with the REX
/// bits that extend them; `None` for a memory form.
pub open spec fn decode_register_operand(r: bool, b: bool, m: u8) -> Option<(int, int)> {
    if m >> 6 == 3 {
        Some((rex_ext((m >> 3) & 7, r), rex_ext(m & 7, b)))
    } else {
        None
    }
}

/// A register-to-register instruction's REX prefix and ModRM byte decode
/// back to its two registers.
pub proof fn law_register_operands_decode(w: bool, reg: u8, rm: u8, reg_is_byte: bool, rm_is_byte: bool)
    requires
        reg < 16,
        rm < 16,
    ensures
        ({
            let bits = rex_bits(rex_for_rr(w, reg, rm, reg_is_byte, rm_is_byte));
            &&& bits.0 == w
            &&& decode_register_operand(bits.1, bits.3, 0xC0 | (((reg & 7) << 3) | (rm & 7))) == Some(
                (reg as int, rm as int),
            )
        }),
{
    law_rex_prefix(w, reg >= 8, false, rm >= 8, (reg_is_byte && reg >= 4) || (rm_is_byte && rm >= 4));
    lemma_rex_ext(reg);
    lemma_rex_ext(rm);
    assert({
        let m = 0xC0u8 | (((reg & 7) << 3) | (rm & 7));
        &&& m >> 6 == 3
        &&& (m >> 3) & 7 == reg & 7
        &&& m & 7 == rm & 7
    }) by (bit_vector);
}

// ---------------------------------------------------------------------------
// VEX and EVEX prefixes.

/// The fields of a VEX prefix, with the inverted bits read back upright:
/// the register extensions R, X and B, the opcode map, W, the extra source
/// register `vvvv`, the vector length bit L and the implied legacy prefix
/// `pp`, and the prefix length.
pub struct VexPrefix {
    pub r: bool,
    pub x: bool,
    pub b: bool,
    pub map: u8,
    pub w: bool,
    pub vvvv: u8,
    pub l: bool,
    pub pp: u8,
    pub len: int,
}

/// Decodes a two-byte (C5) or three-byte (C4) VEX prefix at the start of
/// `s`. The two-byte form implies X = B = 0, W = 0 and the 0F map.
pub open spec fn decode_vex(s: Seq<u8>) -> Option<VexPrefix> {
    if s.len() >= 2 && s[0] == 0xC5 {
        let v = s[1];
        Some(
            VexPrefix {
                r: v & 0x80 == 0,
                x: false,
                b: false,
                map: 1,
                w: false,
                vvvv: ((!v) >> 3) & 0xf,
                l: (v >> 2) & 1 == 1,
                pp: v & 3,
                len: 2,
            },
        )
    } else if s.len() >= 3 && s[0] == 0xC4 {
        let v1 = s[1];
        let v2 = s[2];
        Some(
            VexPrefix {
                r: v1 & 0x80 == 0,
                x: v1 & 0x40 == 0,
                b: v1 & 0x20 == 0,
                map: v1 & 0x1f,
                w: v2 & 0x80 != 0,
                vvvv: ((!v2) >> 3) & 0xf,
                l: (v2 >> 2) & 1 == 1,
                pp: v2 & 3,
                len: 3,
            },
        )
    } else {
        None
    }
}

/// The VEX prefix the assembler writes decodes back to the fields it was
/// given: register extensions, opcode map, W, the extra source register,
/// the vector length (128 or 256 bits) and the implied SIMD prefix. The
/// short two-byte form is used only where it can say all of them.
pub proof fn law_vex_prefix_decode(
    a: InstructionAttr,
    r: bool,
    b: bool,
    x: bool,
    nds: u8,
    pre: u8,
    opc: u8,
    rest: Seq<u8>,
)
    requires
        nds < 16,
        pre < 4,
        1 <= opc <= 3,
    ensures
        decode_vex(vex_bytes(a, r, b, x, nds, pre, opc) + rest) matches Some(d) && d.r == r && d.x == x && d.b == b
            && d.map == opc && d.w == a.rex_vex_w && d.vvvv == nds && d.l == (a.vector_len > 0) && d.pp == pre
            && d.len == vex_bytes(a, r, b, x, nds, pre, opc).len(),
{
    let w = a.rex_vex_w;
    let lb = a.vector_len > 0;
    let s = vex_bytes(a, r, b, x, nds, pre, opc);
    let t = s + rest;
    if b || x || w || opc == 2 || opc == 3 {
        assert({
            let l: u8 = if lb { 4 } else { 0 };
            let byte1: u8 = ((!((if r { 0x80u8 } else { 0 }) | (if x { 0x40u8 } else { 0 }) | (if b { 0x20u8 } else {
                0
            }))) & 0xE0) | opc;
            let byte2: u8 = (((!nds) & 0xf) << 3) | (if w { 0x80u8 } else { 0 }) | l | pre;
            &&& (byte1 & 0x80 == 0) == r
            &&& (byte1 & 0x40 == 0) == x
            &&& (byte1 & 0x20 == 0) == b
            &&& byte1 & 0x1f == opc
            &&& (byte2 & 0x80 != 0) == w
            &&& ((!byte2) >> 3) & 0xf == nds
            &&& ((byte2 >> 2) & 1 == 1) == lb
            &&& byte2 & 3 == pre
        }) by (bit_vector)
            requires
                nds < 16,
                pre < 4,
                1 <= opc <= 3,
        ;
        assert(t[0] == 0xC4 && t[1] == s[1] && t[2] == s[2]);
    } else {
        assert({
            let l: u8 = if lb { 4 } else { 0 };
            let byte1: u8 = ((!(if r { 0x80u8 } else { 0 })) & 0x80) | (((!nds) & 0xf) << 3) | l | pre;
            &&& (byte1 & 0x80 == 0) == r
            &&& ((!byte1) >> 3) & 0xf == nds
            &&& ((byte1 >> 2) & 1 == 1) == lb
            &&& byte1 & 3 == pre
        }) by (bit_vector)
            requires
                nds < 16,
                pre < 4,
        ;
        assert(t[0] == 0xC5 && t[1] == s[1]);
    }
}

/// The fields of an EVEX prefix, with the inverted bits read back upright:
/// R, X, B and R' extend the registers, V' extends `vvvv`, `aaa` names the
/// opmask register, `z` selects zeroing, `ll` is the vector length and
/// `bc` the broadcast / rounding bit.
pub struct EvexPrefix {
    pub r: bool,
    pub x: bool,
    pub b: bool,
    pub r_hi: bool,
    pub map: u8,
    pub w: bool,
    pub vvvv: u8,
    pub pp: u8,
    pub z: bool,
    pub ll: u8,
    pub bc: bool,
    pub v_hi: bool,
    pub aaa: u8,
}

/// Decodes the four-byte EVEX prefix (62 P0 P1 P2) at the start of `s`.
pub open spec fn decode_evex(s: Seq<u8>) -> Option<EvexPrefix> {
    if s.len() >= 4 && s[0] == 0x62 {
        let p0 = s[1];
        let p1 = s[2];
        let p2 = s[3];
        Some(
            EvexPrefix {
                r: p0 & 0x80 == 0,
                x: p0 & 0x40 == 0,
                b: p0 & 0x20 == 0,
                r_hi: p0 & 0x10 == 0,
                map: p0 & 3,
                w: p1 & 0x80 != 0,
                vvvv: ((!p1) >> 3) & 0xf,
                pp: p1 & 3,
                z: p2 & 0x80 != 0,
                ll: (p2 >> 5) & 3,
                bc: p2 & 0x10 != 0,
                v_hi: p2 & 0x08 == 0,
                aaa: p2 & 7,
            },
        )
    } else {
        None
    }
}

/// The EVEX prefix the assembler writes decodes back to the fields it was
/// given: register extensions (R, X, B, R', and V' over the four bits of
/// `vvvv`), opcode map, W, the implied SIMD prefix, the opmask register
/// (k0 where the instruction takes none), zeroing (only with a mask other
/// than k0), the vector length and the broadcast / rounding bit.
pub proof fn law_evex_prefix_decode(
    a: InstructionAttr,
    r: bool,
    b: bool,
    x: bool,
    evex_r: bool,
    evex_v: bool,
    nds: u8,
    pre: u8,
    opc: u8,
    rest: Seq<u8>,
)
    requires
        pre < 4,
        opc < 4,
        a.embedded_opmask < 8,
        a.vector_len < 4,
    ensures
        decode_evex(evex_bytes(a, r, b, x, evex_r, evex_v, nds, pre, opc) + rest) matches Some(d) && d.r == r && d.x
            == x && d.b == b && d.r_hi == evex_r && d.map == opc && d.w == a.rex_vex_w && d.vvvv == nds & 0xf && d.pp
            == pre && d.v_hi == evex_v && d.aaa == (if a.no_reg_mask { 0 } else { a.embedded_opmask }) && d.z == (
        !a.no_reg_mask && a.embedded_opmask != 0 && a.is_clear_context) && d.ll == a.vector_len && d.bc
            == a.is_extended_context,
        evex_bytes(a, r, b, x, evex_r, evex_v, nds, pre, opc).len() == 4,
{
    let w = a.rex_vex_w;
    let nrm = a.no_reg_mask;
    let k = a.embedded_opmask;
    let ext = a.is_extended_context;
    let vl = a.vector_len;
    let clr = a.is_clear_context;
    assert({
        let byte2: u8 = ((!((if r { 0x80u8 } else { 0 }) | (if x { 0x40u8 } else { 0 }) | (if b { 0x20u8 } else { 0 })
            | (if evex_r { 0x10u8 } else { 0 }))) & 0xF0) | opc;
        let byte3: u8 = (((!nds) & 0xf) << 3) | 0x04 | (if w { 0x80u8 } else { 0 }) | pre;
        let byte4: u8 = (if nrm { 0u8 } else { k }) | (if evex_v { 0u8 } else { 0x08 }) | (if ext { 0x10u8 } else { 0 })
            | ((vl & 3) << 5) | (if !nrm && k != 0 && clr { 0x80u8 } else { 0 });
        &&& (byte2 & 0x80 == 0) == r
        &&& (byte2 & 0x40 == 0) == x
        &&& (byte2 & 0x20 == 0) == b
        &&& (byte2 & 0x10 == 0) == evex_r
        &&& byte2 & 3 == opc
        &&& (byte3 & 0x80 != 0) == w
        &&& ((!byte3) >> 3) & 0xf == nds & 0xf
        &&& byte3 & 3 == pre
        &&& (byte4 & 0x80 != 0) == (!nrm && k != 0 && clr)
        &&& (byte4 >> 5) & 3 == vl
        &&& (byte4 & 0x10 != 0) == ext
        &&& (byte4 & 0x08 == 0) == evex_v
        &&& byte4 & 7 == (if nrm { 0u8 } else { k })
    }) by (bit_vector)
        requires
            pre < 4,
            opc < 4,
            k < 8,
            vl < 4,
    ;
}

/// A vector register number from its low three bits and the two prefix
/// bits that extend it to 16 and 32 registers.
pub open spec fn reg5(low3: u8, bit3: bool, bit4: bool) -> int {
    low3 + (if bit3 { 8int } else { 0 }) + (if bit4 { 16int } else { 0 })
}

proof fn lemma_reg5(v: u8)
    requires
        v < 32,
    ensures
        reg5(v & 7, v & 8 == 8, v >= 16) == v,
        (v & 0xf) + (if v >= 16 { 16int } else { 0 }) == v,
        v < 16 ==> v & 0xf == v,
        v < 16 ==> (v & 8 == 8) == (v >= 8),
{
    assert({
        &&& (v & 7) + (if v & 8 == 8 { 8u8 } else { 0 }) + (if v >= 16 { 16u8 } else { 0 }) == v
        &&& (v & 0xf) + (if v >= 16 { 16u8 } else { 0 }) == v
        &&& v < 16 ==> v & 0xf == v
        &&& v < 16 ==> (v & 8 == 8) == (v >= 8)
    }) by (bit_vector)
        requires
            v < 32,
    ;
}

/// How a register-to-register SIMD instruction is prefixed: without AVX in
/// the legacy SSE encoding, which holds no VEX or EVEX prefix; with AVX in
/// a VEX prefix, or an EVEX one where the instruction needs it, and in
/// either case the prefix, with the low three bits of the ModRM fields,
/// names the destination, the extra source (`nds`, or register 0 when the
/// form has none) and the source register, and carries the opcode map and
/// the SIMD prefix it was given.
pub proof fn law_simd_register_prefix(
    f: CpuFeatures,
    a: InstructionAttr,
    dst: u8,
    nds: Option<u8>,
    src: u8,
    pre: u8,
    opc: u8,
    rest: Seq<u8>,
)
    requires
        simd_rr_ok(f, a, dst, nds, src),
        pre < 4,
        1 <= opc <= 3,
        a.embedded_opmask < 8,
        a.vector_len < 4,
    ensures
        ({
            let s = simd_rr_bytes(f, a, dst, nds, src, pre, opc) + rest;
            let a1 = simd_rr_attr(f, a, dst, nds, src);
            let n = nds_enc(nds);
            &&& f.use_avx == 0 ==> decode_vex(s) is None && decode_evex(s) is None
            &&& f.use_avx > 0 && uses_evex(f, a1) ==> (decode_evex(s) matches Some(d) && reg5(dst & 7, d.r, d.r_hi)
                == dst && reg5(src & 7, d.b, d.x) == src && d.vvvv + (if d.v_hi { 16int } else { 0 }) == n && d.map
                == opc && d.pp == pre && d.w == a1.rex_vex_w && d.ll == a1.vector_len)
            &&& f.use_avx > 0 && !uses_evex(f, a1) ==> (decode_vex(s) matches Some(d) && rex_ext(dst & 7, d.r) == dst
                && rex_ext(src & 7, d.b) == src && d.vvvv == n && d.map == opc && d.pp == pre && d.w == a1.rex_vex_w)
        }),
{
    let s = simd_rr_bytes(f, a, dst, nds, src, pre, opc) + rest;
    let n = nds_enc(nds);
    if f.use_avx == 0 {
        let p = simd_pre_bytes(pre);
        let r = rex_for_rr(a.rex_vex_w, dst, src, false, false);
        law_rex_prefix(a.rex_vex_w, dst >= 8, false, src >= 8, false);
        assert(s =~= p + r + simd_opc_bytes(opc) + rest);
        if p.len() == 0 && r.len() == 1 {
            let v = r[0];
            assert(s[0] == v);
            assert(is_rex(v));
            assert(v != 0xC4 && v != 0xC5 && v != 0x62) by (bit_vector)
                requires
                    v >> 4 == 4,
            ;
        } else if p.len() == 0 {
            assert(s[0] == 0x0F);
        }
    } else {
        let a1 = vex_rr_attr(f, a, dst, n, src);
        lemma_reg5(dst);
        lemma_reg5(src);
        lemma_reg5(n);
        if uses_evex(f, a1) {
            law_evex_prefix_decode(a1, dst & 8 == 8, src & 8 == 8, src >= 16, dst >= 16, n >= 16, n, pre, opc, rest);
        } else {
            lemma_rex_ext(dst);
            lemma_rex_ext(src);
            law_vex_prefix_decode(a1, dst & 8 == 8, src & 8 == 8, false, n, pre, opc, rest);
        }
    }
}

/// Merge-masking and zero-masking forms of an EVEX instruction differ only
/// in the z bit of the last prefix byte: the merging form never sets it,
/// and the zeroing form sets it exactly when the instruction is masked by
/// an opmask register other than k0.
pub proof fn law_evex_merge_masking(
    f: CpuFeatures,
    a: InstructionAttr,
    dst: u8,
    nds: u8,
    src: u8,
    pre: u8,
    opc: u8,
)
    requires
        f.use_avx > 2,
        !a.legacy_mode,
        a.is_evex_instruction,
        a.is_clear_context,
        a.embedded_opmask < 8,
        a.vector_len < 4,
    ensures
        ({
            let m = vex_rr_bytes(f, a.merging(), dst, nds, src, pre, opc);
            let z = vex_rr_bytes(f, a, dst, nds, src, pre, opc);
            &&& m.len() == 4 && z.len() == 4
            &&& forall|k: int| 0 <= k < 3 ==> m[k] == z[k]
            &&& m[3] & 0x80 == 0
            &&& z[3] == if !a.no_reg_mask && a.embedded_opmask != 0 { m[3] | 0x80 } else { m[3] }
        }),
{
    let nrm = a.no_reg_mask;
    let k = a.embedded_opmask;
    let ext = a.is_extended_context;
    let vl = a.vector_len;
    let v = nds >= 16;
    assert({
        let base: u8 = (if nrm { 0u8 } else { k }) | (if v { 0u8 } else { 0x08 }) | (if ext { 0x10u8 } else { 0 })
            | ((vl & 3) << 5);
        let zb: u8 = base | (if !nrm && k != 0 && true { 0x80u8 } else { 0 });
        let mb: u8 = base | (if !nrm && k != 0 && false { 0x80u8 } else { 0 });
        &&& mb & 0x80 == 0
        &&& zb == if !nrm && k != 0 { mb | 0x80 } else { mb }
    }) by (bit_vector)
        requires
            k < 8,
            vl < 4,
    ;
}

// ---------------------------------------------------------------------------
// Immediates and branches.

/// An `op r32, imm32` instruction carries its immediate so that it reads
/// back as `imm32`: sign-extended from one byte after opcode 0x83 where it
/// fits, in four bytes after the accumulator opcode for `eax`, else in four
/// bytes after opcode 0x81. The ModRM byte of the long and short forms
/// names the operation in its reg field and `dst` in its r/m field.
pub proof fn law_arith_immediate(op2: u8, dst: Register, imm32: i32)
    requires
        is_arith_op2(op2),
        dst.wf(),
    ensures
        ({
            let s = arith_imm_bytes(0x81, op2, dst, imm32);
            let m = op2 | encode(dst);
            let rm_ok = decode_register_operand(false, dst.encoding >= 8, m) == Some(
                (((op2 >> 3) & 7) as int, dst.encoding as int),
            );
            if is8bit(imm32 as int) {
                s.len() == 3 && s[0] == 0x83 && s[1] == m && rm_ok && sext8(s[2]) == imm32
            } else if dst.encoding == 0 {
                s.len() == 5 && s[0] == rax_imm_opcode(op2) && read_i32(s.subrange(1, 5)) == imm32
            } else {
                s.len() == 6 && s[0] == 0x81 && s[1] == m && rm_ok && read_i32(s.subrange(2, 6)) == imm32
            }
        }),
{
    let e = dst.encoding;
    lemma_rex_ext(e);
    assert({
        let m = op2 | (e & 7);
        &&& 0x81u8 | 0x02u8 == 0x83u8
        &&& m >> 6 == 3
        &&& (m >> 3) & 7 == (op2 >> 3) & 7
        &&& m & 7 == e & 7
    }) by (bit_vector)
        requires
            op2 == 0xD0 || op2 == 0xC0 || op2 == 0xE0 || op2 == 0xF8 || op2 == 0xC8 || op2 == 0xD8 || op2 == 0xE8
                || op2 == 0xF0,
            e < 16,
    ;
    lemma_read_le32(imm32);
    let s = arith_imm_bytes(0x81, op2, dst, imm32);
    if is8bit(imm32 as int) {
        lemma_sext8_low8(imm32);
    } else if e == 0 {
        assert(s.subrange(1, 5) =~= le32(imm32));
    } else {
        assert(s.subrange(2, 6) =~= le32(imm32));
    }
}

/// Where a relative branch of `bytes`, placed at `pc`, transfers control:
/// the end of the instruction plus the displacement it stores, one signed
/// byte in the short form and four bytes in the long form.
pub open spec fn branch_target(bytes: Seq<u8>, short_op: Seq<u8>, long_op: Seq<u8>, pc: int) -> int {
    if bytes.len() == short_op.len() + 1 {
        pc + bytes.len() + sext8(bytes.last())
    } else {
        pc + bytes.len() + read_i32(bytes.subrange(long_op.len() as int, long_op.len() + 4int))
    }
}

/// A branch to a bound label lands on the label: it is the short form
/// (`short_op rel8`) where that is allowed and reaches, else the long form
/// (`long_op rel32`), and in either form its displacement, taken from the
/// end of the instruction, leads to the label's offset.
pub proof fn law_branch_reaches_target(short_op: Seq<u8>, long_op: Seq<u8>, pc: int, target: usize, maybe_short: bool)
    requires
        1 <= long_op.len() <= 2,
        short_op.len() <= 1,
        !maybe_short || short_op.len() == 1,
        branch_ok(short_op.len() + 1int, long_op.len() + 4int, pc, Some(target), maybe_short),
    ensures
        ({
            let s = branch_bytes(short_op, long_op, pc, Some(target), maybe_short);
            &&& s.len() == short_op.len() + 1 ==> s.subrange(0, short_op.len() as int) == short_op
            &&& s.len() != short_op.len() + 1 ==> s.len() == long_op.len() + 4 && s.subrange(
                0,
                long_op.len() as int,
            ) == long_op
            &&& (s.len() == short_op.len() + 1 <==> maybe_short && is8bit(target - pc - (short_op.len() + 1)))
            &&& branch_target(s, short_op, long_op, pc) == target
        }),
{
    let s = branch_bytes(short_op, long_op, pc, Some(target), maybe_short);
    let ss = short_op.len() + 1;
    let ls = long_op.len() + 4;
    if maybe_short && is8bit(target - pc - ss) {
        let d = (target - pc - ss) as i32;
        lemma_sext8_low8(d);
        assert(s.subrange(0, short_op.len() as int) =~= short_op);
    } else {
        let d = (target - pc - ls) as i32;
        lemma_read_le32(d);
        assert(s.subrange(long_op.len() as int, long_op.len() + 4int) =~= le32(d));
        assert(s.subrange(0, long_op.len() as int) =~= long_op);
    }
}

// ---------------------------------------------------------------------------
// The code buffer.

/// Emitting only ever appends: two emissions in a row leave the bytes of the
/// first followed by those of the second, under the same configuration.
pub proof fn law_appends_compose(a: Assembler, b: Assembler, c: Assembler, first: Seq<u8>, second: Seq<u8>)
    requires
        b.appends(a, first),
        c.appends(b, second),
    ensures
        c.appends(a, first + second),
        c@.len() == a@.len() + first.len() + second.len(),
{
    assert(c.code@ =~= a.code@ + (first + second));
}

// ---------------------------------------------------------------------------
// Compressed displacement scale (EVEX disp8*N).

/// The size in bytes of a vector of length code `vl` (128, 256, 512 bits).
pub open spec fn vector_bytes(vl: u8) -> int {
    if vl == 0 {
        16
    } else if vl == 1 {
        32
    } else {
        64
    }
}

/// The scale `N` of a compressed EVEX displacement is the size of the
/// memory operand the instruction reads, as the tuple type defines it:
/// the whole vector for full-vector forms (one element when broadcasting,
/// 4 or 8 bytes by EVEX.W), half of it for half-vector forms, a quarter or
/// an eighth for the quarter and eighth forms, 16 bytes for M128, the
/// operand size for scalar (T1S) forms and 4 or 8 bytes for T1F.
pub proof fn law_disp_factor(a: InstructionAttr)
    requires
        a.vector_len <= 2,
    ensures
        ({
            let vl = a.vector_len;
            let w = a.evex_encoding & VEX_W == VEX_W;
            let bc = a.evex_encoding & EVEX_RB == EVEX_RB;
            let n = a.disp_factor() as int;
            &&& a.tuple_type == EVEX_FV && !bc ==> n == vector_bytes(vl)
            &&& a.tuple_type == EVEX_FV && bc ==> n == if w { 8int } else { 4 }
            &&& a.tuple_type == EVEX_HV && !bc ==> n * 2 == vector_bytes(vl)
            &&& a.tuple_type == EVEX_HV && bc ==> n == 4
            &&& a.tuple_type == EVEX_FVM ==> n == vector_bytes(vl)
            &&& a.tuple_type == EVEX_HVM ==> n * 2 == vector_bytes(vl)
            &&& a.tuple_type == EVEX_QVM ==> n * 4 == vector_bytes(vl)
            &&& a.tuple_type == EVEX_OVM ==> n * 8 == vector_bytes(vl)
            &&& a.tuple_type == EVEX_M128 ==> n == 16
            &&& a.tuple_type == EVEX_T1S && a.input_size_in_bits <= 3 ==> n == if a.input_size_in_bits == 0 {
                1int
            } else if a.input_size_in_bits == 1 {
                2
            } else if a.input_size_in_bits == 2 {
                4
            } else {
                8
            }
            &&& a.tuple_type == EVEX_T1F ==> n == if a.input_size_in_bits == EVEX_64BIT { 8int } else { 4 }
            &&& a.tuple_type == EVEX_DUP ==> n == if vl == 0 { 8int } else { vector_bytes(vl) }
            &&& a.tuple_type == EVEX_T2 && a.input_size_in_bits != EVEX_64BIT ==> n == 8
            &&& a.tuple_type == EVEX_T2 && a.input_size_in_bits == EVEX_64BIT && vl >= 1 ==> n == 16
            &&& a.tuple_type == EVEX_T4 && a.input_size_in_bits != EVEX_64BIT && vl >= 1 ==> n == 16
            &&& a.tuple_type == EVEX_T4 && a.input_size_in_bits == EVEX_64BIT && vl == 2 ==> n == 32
            &&& a.tuple_type == EVEX_T8 && vl == 2 ==> n == 32
        }),
{
    let vl = a.vector_len;
    let t: Seq<u8> = seq![
        16, 32, 64, 4, 4, 4, 16, 32, 64, 8, 8, 8, 8, 16, 32, 4, 4, 4, 16, 32, 64, 1, 1, 1, 2, 2, 2,
        4, 4, 4, 8, 8, 8, 4, 4, 4, 8, 8, 8, 8, 8, 8, 0, 16, 16, 0, 16, 16, 0, 0, 32, 0, 0, 32, 8, 16,
        32, 4, 8, 16, 2, 4, 8, 16, 16, 16, 8, 32, 64, 0, 0, 0,
    ];
    assert(forall|row: u8| row <= 23 ==> #[trigger] crate::attributes::tuple_table(row, vl) == t[row * 3 + vl]);
}

// ---------------------------------------------------------------------------
// The W bit through the VEX / EVEX choice.

/// The W bit an instruction asks for survives the choice between VEX and
/// EVEX: it is dropped only when the instruction marked it revertible and
/// an AVX-512 target falls back to the VEX form, and an EVEX form always
/// keeps it.
pub proof fn law_vex_w_kept(f: CpuFeatures, a: InstructionAttr, dst: u8, nds: u8, src: u8, xreg: u8)
    ensures
        ({
            let r = vex_rr_attr(f, a, dst, nds, src);
            &&& !a.rex_vex_w_reverted ==> r.rex_vex_w == a.rex_vex_w
            &&& uses_evex(f, r) ==> r.rex_vex_w == a.rex_vex_w
            &&& f.use_avx <= 2 ==> r.rex_vex_w == a.rex_vex_w
            &&& !uses_evex(f, r) && f.use_avx > 2 && a.rex_vex_w_reverted ==> !r.rex_vex_w
        }),
        ({
            let r = vex_adr_attr(f, a, nds, xreg);
            &&& !a.rex_vex_w_reverted ==> r.rex_vex_w == a.rex_vex_w
            &&& uses_evex(f, r) ==> r.rex_vex_w == a.rex_vex_w
            &&& f.use_avx <= 2 ==> r.rex_vex_w == a.rex_vex_w
            &&& !uses_evex(f, r) && f.use_avx > 2 && a.rex_vex_w_reverted ==> !r.rex_vex_w
        }),
{
}

/// The W bit of the emitted VEX or EVEX prefix of a register form is the
/// one the instruction asked for, unless it marked it revertible.
pub proof fn law_vex_w_emitted(
    f: CpuFeatures,
    a: InstructionAttr,
    dst: u8,
    nds: u8,
    src: u8,
    pre: u8,
    opc: u8,
    rest: Seq<u8>,
)
    requires
        f.use_avx > 0,
        crate::encoding::vex_rr_ok(f, a, dst, nds, src),
        !a.rex_vex_w_reverted,
        pre < 4,
        1 <= opc <= 3,
        a.embedded_opmask < 8,
        a.vector_len < 4,
    ensures
        ({
            let s = vex_rr_bytes(f, a, dst, nds, src, pre, opc) + rest;
            &&& uses_evex(f, vex_rr_attr(f, a, dst, nds, src)) ==> (decode_evex(s) matches Some(d) && d.w
                == a.rex_vex_w)
            &&& !uses_evex(f, vex_rr_attr(f, a, dst, nds, src)) ==> (decode_vex(s) matches Some(d) && d.w
                == a.rex_vex_w)
        }),
{
    law_vex_w_kept(f, a, dst, nds, src, 0);
    law_simd_register_prefix(f, a, dst, Some(nds), src, pre, opc, rest);
    assert(simd_rr_bytes(f, a, dst, Some(nds), src, pre, opc) == vex_rr_bytes(f, a, dst, nds, src, pre, opc));
    assert(simd_rr_attr(f, a, dst, Some(nds), src) == vex_rr_attr(f, a, dst, nds, src));
}

// ---------------------------------------------------------------------------
// Legacy SSE mandatory prefixes.

/// The SIMD prefix code a legacy mandatory prefix byte stands for (the `pp`
/// field of VEX and EVEX): 66 is 1, F3 is 2, F2 is 3.
pub open spec fn legacy_prefix_code(b: u8) -> u8 {
    if b == 0x66 {
        1
    } else if b == 0xF3 {
        2
    } else if b == 0xF2 {
        3
    } else {
        0
    }
}

/// Without AVX a SIMD instruction carries the legacy mandatory prefix that
/// its `pp` code names (66, F3 or F2), and none for code 0, and the escape
/// bytes of the opcode map that VEX and EVEX name by number (0F, 0F 38,
/// 0F 3A), so the legacy and the VEX/EVEX forms select the same operation.
pub proof fn law_legacy_simd_prefix(pre: u8)
    requires
        pre < 4,
    ensures
        simd_pre_bytes(VEX_SIMD_66) == seq![0x66u8],
        simd_pre_bytes(VEX_SIMD_F3) == seq![0xF3u8],
        simd_pre_bytes(VEX_SIMD_F2) == seq![0xF2u8],
        pre == 0 <==> simd_pre_bytes(pre).len() == 0,
        pre != 0 ==> simd_pre_bytes(pre).len() == 1 && legacy_prefix_code(simd_pre_bytes(pre)[0]) == pre,
        simd_opc_bytes(VEX_OPCODE_0F) == seq![0x0Fu8],
        simd_opc_bytes(VEX_OPCODE_0F_38) == seq![0x0Fu8, 0x38],
        simd_opc_bytes(VEX_OPCODE_0F_3A) == seq![0x0Fu8, 0x3A],
{
}

// ---------------------------------------------------------------------------
// The accumulator short form.

/// The accumulator form of `op eax, imm32` names the same ALU operation as
/// the general form `81 /op`: its opcode is `op * 8 + 5`, where `op` is the
/// reg field of the general form's ModRM byte.
pub proof fn law_accumulator_opcode(op2: u8)
    requires
        is_arith_op2(op2),
    ensures
        rax_imm_opcode(op2) == (((op2 >> 3) & 7) << 3) | 5,
{
    assert((op2 == 0xD0 ==> (((op2 >> 3) & 7) << 3) | 5 == 0x15) && (op2 == 0xC0 ==> (((op2 >> 3) & 7) << 3) | 5
        == 0x05) && (op2 == 0xE0 ==> (((op2 >> 3) & 7) << 3) | 5 == 0x25) && (op2 == 0xF8 ==> (((op2 >> 3) & 7) << 3)
        | 5 == 0x3D) && (op2 == 0xC8 ==> (((op2 >> 3) & 7) << 3) | 5 == 0x0D) && (op2 == 0xD8 ==> (((op2 >> 3) & 7)
        << 3) | 5 == 0x1D) && (op2 == 0xE8 ==> (((op2 >> 3) & 7) << 3) | 5 == 0x2D) && (op2 == 0xF0 ==> (((op2 >> 3)
        & 7) << 3) | 5 == 0x35)) by (bit_vector);
}

// ---------------------------------------------------------------------------
// Saving and restoring all registers.

/// Decodes a run of 64-bit moves between a register and a stack slot
/// `[rsp + disp]` (`REX.W opcode ModRM SIB disp`; opcode 8B loads the
/// register, 89 stores it) into (register, displacement) pairs. The run
/// ends at the first instruction of another kind.
pub open spec fn decode_stack_moves(s: Seq<u8>, opcode: u8) -> Seq<(int, int)>
    decreases s.len(),
{
    if s.len() >= 2 && is_rex(s[0]) && rex_bits(seq![s[0]]).0 && s[1] == opcode {
        let bits = rex_bits(seq![s[0]]);
        match decode_memory_operand(bits.1, bits.2, bits.3, s.subrange(2, s.len() as int)) {
            Some(m) => {
                if m.base == Some(4int) && m.index is None && 0 < m.len <= s.len() - 2 {
                    seq![(m.reg, m.disp)] + decode_stack_moves(s.subrange(2 + m.len, s.len() as int), opcode)
                } else {
                    seq![]
                }
            },
            None => seq![],
        }
    } else {
        seq![]
    }
}

/// Some move in `moves` names register `r`.
pub open spec fn moves_register(moves: Seq<(int, int)>, r: int) -> bool {
    exists|i: int| 0 <= i < moves.len() && #[trigger] moves[i].0 == r
}

proof fn lemma_decode_stack_move(f: CpuFeatures, k: int, r: u8, opcode: u8, rest: Seq<u8>)
    requires
        0 <= k < 16,
        r < 16,
    ensures
        decode_stack_moves(
            seq![rex_byte(true, r >= 8, false, false), opcode] + address_bytes(f, None, r, rsp_slot(k), false) + rest,
            opcode,
        ) == seq![(r as int, 8 * k)] + decode_stack_moves(rest, opcode),
{
    let a = address_bytes(f, None, r, rsp_slot(k), false);
    let rb = rex_byte(true, r >= 8, false, false);
    let s = seq![rb, opcode] + a + rest;
    law_rex_prefix(true, r >= 8, false, false, false);
    assert(rex_opt(true, r >= 8, false, false, false) =~= seq![rb]);
    law_memory_operand_decode(f, None, r, rsp_slot(k), rest);
    law_operand_bytes_decode(r, base_enc(rsp_slot(k)), index_enc(rsp_slot(k), false), 0, (8 * k) as i32,
        disp8(f, None, (8 * k) as i32), rest);
    assert(s.subrange(2, s.len() as int) =~= a + rest);
    let m = decode_memory_operand(r >= 8, false, false, a + rest)->0;
    assert(s.subrange(2 + m.len, s.len() as int) =~= rest);
}

/// The (register, displacement) pairs of `popa`'s first `n` load steps.
spec fn restored(n: int) -> Seq<(int, int)>
    decreases n,
{
    if n <= 0 {
        seq![]
    } else {
        restored(n - 1) + if 15 - (n - 1) == 4 {
            seq![]
        } else {
            seq![(15 - (n - 1), 8 * (n - 1))]
        }
    }
}

/// The (register, displacement) pairs of `pusha`'s first `n` store steps.
spec fn stored(n: int) -> Seq<(int, int)>
    decreases n,
{
    if n <= 0 {
        seq![]
    } else {
        stored(n - 1) + if n - 1 == 4 {
            seq![]
        } else {
            seq![(n - 1, 8 * (15 - (n - 1)))]
        }
    }
}

proof fn lemma_popa_loads_decode(f: CpuFeatures, n: int, rest: Seq<u8>)
    requires
        0 <= n <= 16,
    ensures
        decode_stack_moves(popa_loads(f, n) + rest, 0x8B) == restored(n) + decode_stack_moves(rest, 0x8B),
    decreases n,
{
    if n == 0 {
        assert(popa_loads(f, 0) + rest =~= rest);
        assert(restored(0) + decode_stack_moves(rest, 0x8B) =~= decode_stack_moves(rest, 0x8B));
    } else {
        let k = n - 1;
        let r = 15 - k;
        if r == 4 {
            assert(popa_loads(f, n) =~= popa_loads(f, k));
            lemma_popa_loads_decode(f, k, rest);
            assert(restored(n) =~= restored(k));
        } else {
            let step = load_slot(f, k, r as u8);
            lemma_decode_stack_move(f, k, r as u8, 0x8B, rest);
            assert(step + rest =~= seq![rex_byte(true, (r as u8) >= 8, false, false), 0x8Bu8] + address_bytes(
                f,
                None,
                r as u8,
                rsp_slot(k),
                false,
            ) + rest);
            lemma_popa_loads_decode(f, k, step + rest);
            assert(popa_loads(f, n) + rest =~= popa_loads(f, k) + (step + rest));
            assert(restored(n) + decode_stack_moves(rest, 0x8B) =~= restored(k) + (seq![(r, 8 * k)]
                + decode_stack_moves(rest, 0x8B)));
        }
    }
}

proof fn lemma_pusha_stores_decode(f: CpuFeatures, n: int, rest: Seq<u8>)
    requires
        0 <= n <= 16,
    ensures
        decode_stack_moves(pusha_stores(f, n) + rest, 0x89) == stored(n) + decode_stack_moves(rest, 0x89),
    decreases n,
{
    if n == 0 {
        assert(pusha_stores(f, 0) + rest =~= rest);
        assert(stored(0) + decode_stack_moves(rest, 0x89) =~= decode_stack_moves(rest, 0x89));
    } else {
        let r = n - 1;
        let k = 15 - r;
        if r == 4 {
            assert(pusha_stores(f, n) =~= pusha_stores(f, r));
            lemma_pusha_stores_decode(f, r, rest);
            assert(stored(n) =~= stored(r));
        } else {
            let step = store_slot(f, k, r as u8);
            lemma_decode_stack_move(f, k, r as u8, 0x89, rest);
            assert(step + rest =~= seq![rex_byte(true, (r as u8) >= 8, false, false), 0x89u8] + address_bytes(
                f,
                None,
                r as u8,
                rsp_slot(k),
                false,
            ) + rest);
            lemma_pusha_stores_decode(f, r, step + rest);
            assert(pusha_stores(f, n) + rest =~= pusha_stores(f, r) + (step + rest));
            assert(stored(n) + decode_stack_moves(rest, 0x89) =~= stored(r) + (seq![(r, 8 * k)]
                + decode_stack_moves(rest, 0x89)));
        }
    }
}

proof fn lemma_restored_props(n: int)
    requires
        0 <= n <= 16,
    ensures
        forall|i: int|
            0 <= i < restored(n).len() ==> #[trigger] restored(n)[i].0 != 4 && restored(n)[i].1 == 8 * (15
                - restored(n)[i].0) && 15 - n < restored(n)[i].0 < 16,
        forall|r: int| 15 - n < r < 16 && r != 4 ==> #[trigger] moves_register(restored(n), r),
    decreases n,
{
    if n > 0 {
        lemma_restored_props(n - 1);
        let p = restored(n - 1);
        let q = restored(n);
        if 15 - (n - 1) != 4 {
            assert(q[p.len() as int].0 == 15 - (n - 1));
            assert forall|r: int| 15 - n < r < 16 && r != 4 implies #[trigger] moves_register(q, r) by {
                if r == 15 - (n - 1) {
                    assert(q[p.len() as int].0 == r);
                    assert(0 <= p.len() < q.len());
                } else {
                    assert(moves_register(p, r));
                    let i = choose|i: int| 0 <= i < p.len() && #[trigger] p[i].0 == r;
                    assert(q[i] == p[i]);
                }
            }
            assert forall|i: int| 0 <= i < q.len() implies #[trigger] q[i].0 != 4 && q[i].1 == 8 * (15 - q[i].0)
                && 15 - n < q[i].0 < 16 by {
                if i < p.len() {
                    assert(q[i] == p[i]);
                }
            }
        } else {
            assert(q =~= p);
        }
    }
}

proof fn lemma_stored_props(n: int)
    requires
        0 <= n <= 16,
    ensures
        forall|i: int|
            0 <= i < stored(n).len() ==> #[trigger] stored(n)[i].0 != 4 && stored(n)[i].1 == 8 * (15 - stored(
                n,
            )[i].0) && 0 <= stored(n)[i].0 < n,
        forall|r: int| 0 <= r < n && r != 4 ==> #[trigger] moves_register(stored(n), r),
    decreases n,
{
    if n > 0 {
        lemma_stored_props(n - 1);
        let p = stored(n - 1);
        let q = stored(n);
        if n - 1 != 4 {
            assert(q[p.len() as int].0 == n - 1);
            assert forall|r: int| 0 <= r < n && r != 4 implies #[trigger] moves_register(q, r) by {
                if r == n - 1 {
                    assert(q[p.len() as int].0 == r);
                    assert(0 <= p.len() < q.len());
                } else {
                    assert(moves_register(p, r));
                    let i = choose|i: int| 0 <= i < p.len() && #[trigger] p[i].0 == r;
                    assert(q[i] == p[i]);
                }
            }
            assert forall|i: int| 0 <= i < q.len() implies #[trigger] q[i].0 != 4 && q[i].1 == 8 * (15 - q[i].0)
                && 0 <= q[i].0 < n by {
                if i < p.len() {
                    assert(q[i] == p[i]);
                }
            }
        } else {
            assert(q =~= p);
        }
    }
}

/// `popa` undoes `pusha`. `pusha` starts with `sub rsp, 128` and then
/// stores every register but rsp into the stack slot `[rsp + 8 * (15 -
/// r)]`; `popa` loads every register but rsp from that same slot, never
/// loads rsp, and ends with `add rsp, 128`.
pub proof fn law_popa_undoes_pusha(f: CpuFeatures)
    ensures
        ({
            let p = pusha_bytes(f);
            let q = popa_bytes(f);
            let stores = decode_stack_moves(p.subrange(7, p.len() as int), 0x89);
            let loads = decode_stack_moves(q, 0x8B);
            &&& p.len() >= 7 && q.len() >= 7
            &&& p.subrange(0, 7) == seq![0x48u8, 0x81, 0xEC, 0x80, 0x00, 0x00, 0x00]
            &&& q.subrange(q.len() - 7, q.len() as int) == seq![0x48u8, 0x81, 0xC4, 0x80, 0x00, 0x00, 0x00]
            &&& forall|i: int| 0 <= i < stores.len() ==> #[trigger] stores[i].0 != 4 && stores[i].1 == 8 * (15
                - stores[i].0)
            &&& forall|i: int| 0 <= i < loads.len() ==> #[trigger] loads[i].0 != 4 && loads[i].1 == 8 * (15
                - loads[i].0)
            &&& forall|r: int| 0 <= r < 16 && r != 4 ==> #[trigger] moves_register(stores, r)
            &&& forall|r: int| 0 <= r < 16 && r != 4 ==> #[trigger] moves_register(loads, r)
        }),
{
    let rsp = Register { encoding: 4 };
    assert({
        &&& (128u32 & 0xff) as u8 == 0x80
        &&& ((128u32 >> 8) & 0xff) as u8 == 0
        &&& ((128u32 >> 16) & 0xff) as u8 == 0
        &&& ((128u32 >> 24) & 0xff) as u8 == 0
        &&& 0xE8u8 | (4u8 & 7) == 0xEC
        &&& 0xC0u8 | (4u8 & 7) == 0xC4
    }) by (bit_vector);
    assert(le32(128) =~= seq![0x80u8, 0x00, 0x00, 0x00]);
    let sub = rex_opt(true, false, false, false, false) + arith_imm_bytes(0x81, 0xE8, rsp, 128);
    let add = rex_opt(true, false, false, false, false) + arith_imm_bytes(0x81, 0xC0, rsp, 128);
    assert(sub =~= seq![0x48u8, 0x81, 0xEC, 0x80, 0x00, 0x00, 0x00]);
    assert(add =~= seq![0x48u8, 0x81, 0xC4, 0x80, 0x00, 0x00, 0x00]);
    let p = pusha_bytes(f);
    let q = popa_bytes(f);
    assert(p.subrange(0, 7) =~= sub);
    assert(p.subrange(7, p.len() as int) =~= pusha_stores(f, 16) + Seq::<u8>::empty());
    assert(q =~= popa_loads(f, 16) + add);
    assert(q.subrange(q.len() - 7, q.len() as int) =~= add);
    lemma_pusha_stores_decode(f, 16, Seq::<u8>::empty());
    lemma_popa_loads_decode(f, 16, add);
    assert(decode_stack_moves(Seq::<u8>::empty(), 0x89) =~= Seq::<(int, int)>::empty());
    assert(decode_stack_moves(add, 0x8B) =~= Seq::<(int, int)>::empty());
    assert(stored(16) + Seq::<(int, int)>::empty() =~= stored(16));
    assert(restored(16) + Seq::<(int, int)>::empty() =~= restored(16));
    lemma_stored_props(16);
    lemma_restored_props(16);
}

} // verus!
