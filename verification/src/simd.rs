use vstd::prelude::*;
use crate::address::Address;
use crate::assembler::Assembler;
use crate::attributes::{InstructionAttr, AVX_512BIT, VEX_OPCODE_0F_38, VEX_OPCODE_0F_3A, VEX_SIMD_66, VEX_SIMD_F2, VEX_SIMD_F3, VEX_W};
use crate::encoding::{evex_bytes, nds_enc, rex_for_adr, rex_for_rr, rr_bits, simd_adr_attr, simd_adr_bytes, simd_adr_ok, simd_opc_bytes, simd_pre_bytes, simd_rr_attr, simd_rr_bytes, simd_rr_ok, vex_adr_attr, vex_adr_bytes, vex_adr_ok, vex_bytes, vex_final_attr, vex_rr_attr, vex_rr_bytes, vex_rr_ok};

verus! {

impl Assembler {
    /// The mandatory prefix byte of a legacy SSE instruction.
    fn emit_simd_pre(&mut self, pre: u8)
        ensures
            final(self).appends(*old(self), simd_pre_bytes(pre)),
    {
        if pre == VEX_SIMD_66 {
            self.emit_int8(0x66);
        } else if pre == VEX_SIMD_F3 {
            self.emit_int8(0xF3);
        } else if pre == VEX_SIMD_F2 {
            self.emit_int8(0xF2);
        }
    }

    /// The opcode escape bytes of a legacy SSE instruction.
    fn emit_simd_opc(&mut self, opc: u8)
        requires
            opc < 4,
        ensures
            final(self).appends(*old(self), simd_opc_bytes(opc)),
    {
        if opc > 0 {
            self.emit_int8(0x0F);
            if opc == VEX_OPCODE_0F_38 {
                self.emit_int8(0x38);
            } else if opc == VEX_OPCODE_0F_3A {
                self.emit_int8(0x3A);
            }
        }
    }

    /// Legacy SSE prefixes for a form with a memory operand: mandatory prefix,
    /// REX and opcode escape.
    pub fn rex_prefix(&mut self, adr: &Address, xreg: u8, pre: u8, opc: u8, rex_w: bool)
        requires
            xreg < 16,
            pre < 4,
            opc < 4,
        ensures
            final(self).appends(*old(self), simd_pre_bytes(pre) + rex_for_adr(rex_w, xreg, *adr, false) + simd_opc_bytes(opc)),
    {
        self.emit_simd_pre(pre);
        if rex_w {
            self.prefixq(adr, xreg);
        } else {
            self.prefix_adr_reg(adr, xreg, false);
        }
        self.emit_simd_opc(opc);
    }

    /// Legacy SSE prefixes for a register-to-register form; returns the reg
    /// and r/m bits of the ModRM byte.
    pub fn rex_prefix_and_encode(&mut self, dst: u8, src: u8, pre: u8, opc: u8, rex_w: bool) -> (e: u8)
        requires
            dst < 16,
            src < 16,
            pre < 4,
            opc < 4,
        ensures
            final(self).appends(*old(self), simd_pre_bytes(pre) + rex_for_rr(rex_w, dst, src, false, false) + simd_opc_bytes(opc)),
            e == rr_bits(dst, src),
    {
        self.emit_simd_pre(pre);
        let e = if rex_w {
            self.prefixq_and_encode_rr(dst, src)
        } else {
            self.prefix_and_encode_rr(dst, false, src, false)
        };
        self.emit_simd_opc(opc);
        e
    }

    /// Emits a two- or three-byte VEX prefix with the given R, B and X bits.
    pub fn vex_prefix_raw(&mut self, vex_r: bool, vex_b: bool, vex_x: bool, nds: u8, pre: u8, opc: u8, attr: &InstructionAttr)
        ensures
            final(self).appends(*old(self), vex_bytes(*attr, vex_r, vex_b, vex_x, nds, pre, opc)),
    {
        let vector_len = attr.vector_len;
        let vex_w = attr.rex_vex_w;
        let l: u8 = if vector_len > 0 { 4 } else { 0 };
        if vex_b || vex_x || vex_w || opc == VEX_OPCODE_0F_38 || opc == VEX_OPCODE_0F_3A {
            let byte1: u8 = ((!((if vex_r { 0x80u8 } else { 0 }) | (if vex_x { 0x40u8 } else { 0 }) | (if vex_b {
                0x20u8
            } else {
                0
            }))) & 0xE0) | opc;
            let byte2: u8 = (((!nds) & 0xf) << 3) | (if vex_w { 0x80u8 } else { 0 }) | l | pre;
            self.emit_int24(0xC4, byte1, byte2);
        } else {
            let byte1: u8 = ((!(if vex_r { 0x80u8 } else { 0 })) & 0x80) | (((!nds) & 0xf) << 3) | l | pre;
            self.emit_int16(0xC5, byte1);
        }
    }

    /// Emits a four-byte EVEX prefix and records the W bit for displacement
    /// compression.
    pub fn evex_prefix(
        &mut self,
        vex_r: bool,
        vex_b: bool,
        vex_x: bool,
        evex_r: bool,
        evex_v: bool,
        nds: u8,
        pre: u8,
        opc: u8,
        attr: &mut InstructionAttr,
    )
        ensures
            *final(attr) == (InstructionAttr { evex_encoding: if old(attr).rex_vex_w { VEX_W } else { 0 }, ..*old(attr) }),
            final(self).appends(*old(self), evex_bytes(*final(attr), vex_r, vex_b, vex_x, evex_r, evex_v, nds, pre, opc)),
    {
        let vex_w = attr.rex_vex_w;
        attr.evex_encoding = if vex_w { VEX_W } else { 0 };
        let byte2: u8 = ((!((if vex_r { 0x80u8 } else { 0 }) | (if vex_x { 0x40u8 } else { 0 }) | (if vex_b { 0x20u8 } else {
            0
        }) | (if evex_r { 0x10u8 } else { 0 }))) & 0xF0) | opc;
        let byte3: u8 = (((!nds) & 0xf) << 3) | 0x04 | (if vex_w { 0x80u8 } else { 0 }) | pre;
        let byte4: u8 = (if attr.no_reg_mask { 0u8 } else { attr.embedded_opmask }) | (if evex_v { 0u8 } else { 0x08 }) | (
        if attr.is_extended_context { 0x10u8 } else { 0 }) | ((attr.vector_len & 3) << 5) | (if !attr.no_reg_mask
            && attr.embedded_opmask != 0 && attr.is_clear_context { 0x80u8 } else { 0 });
        self.emit_int32(0x62, byte2, byte3, byte4);
    }

    /// Chooses the EVEX or VEX form of a register-to-register instruction and
    /// emits its prefix; returns the reg and r/m bits of the ModRM byte.
    pub fn vex_prefix_and_encode(&mut self, dst: u8, nds: u8, src: u8, pre: u8, opc: u8, attr: &mut InstructionAttr) -> (e: u8)
        requires
            vex_rr_ok(old(self).features, *old(attr), dst, nds, src),
        ensures
            *final(attr) == vex_rr_attr(old(self).features, *old(attr), dst, nds, src),
            final(self).appends(*old(self), vex_rr_bytes(old(self).features, *old(attr), dst, nds, src, pre, opc)),
            e == rr_bits(dst, src),
    {
        let vex_r = dst & 8 == 8;
        let vex_b = src & 8 == 8;
        let use_avx = self.features.use_avx;
        if !attr.legacy_mode {
            if use_avx > 2 && !attr.is_evex_instruction {
                if (!attr.uses_vl || attr.vector_len != AVX_512BIT) && dst < 16 && nds < 16 && src < 16 {
                    attr.legacy_mode = true;
                }
            }
        }
        if use_avx > 2 && !attr.legacy_mode {
            let evex_r = dst >= 16;
            let evex_v = nds >= 16;
            let vex_x = src >= 16;
            attr.is_evex_instruction = true;
            self.evex_prefix(vex_r, vex_b, vex_x, evex_r, evex_v, nds, pre, opc, attr);
        } else {
            if use_avx > 2 && attr.rex_vex_w_reverted {
                attr.rex_vex_w = false;
            }
            self.vex_prefix_raw(vex_r, vex_b, false, nds, pre, opc, attr);
        }
        ((dst & 7) << 3) | (src & 7)
    }

    /// Chooses the EVEX or VEX form of an instruction with a memory operand
    /// and emits its prefix.
    pub fn vex_prefix(&mut self, adr: &Address, nds: u8, xreg: u8, pre: u8, opc: u8, attr: &mut InstructionAttr)
        requires
            vex_adr_ok(old(self).features, *old(attr), nds, xreg, *adr),
        ensures
            *final(attr) == vex_adr_attr(old(self).features, *old(attr), nds, xreg),
            final(self).appends(*old(self), vex_adr_bytes(old(self).features, *old(attr), *adr, nds, xreg, pre, opc)),
    {
        let vex_r = xreg & 8 == 8;
        let vex_b = adr.base_needs_rex();
        let vex_x = if adr.isxmmindex() {
            adr.xmmindex_needs_rex()
        } else {
            adr.index_needs_rex()
        };
        let use_avx = self.features.use_avx;
        if !attr.legacy_mode {
            if use_avx > 2 && !attr.is_evex_instruction {
                if attr.vector_len != AVX_512BIT && nds < 16 && xreg < 16 {
                    attr.legacy_mode = true;
                }
            }
        }
        if use_avx > 2 && !attr.legacy_mode {
            let evex_r = xreg >= 16;
            let evex_v = match adr.xmmindex {
                Some(xi) => xi.encoding > 15,
                None => nds >= 16,
            };
            attr.is_evex_instruction = true;
            self.evex_prefix(vex_r, vex_b, vex_x, evex_r, evex_v, nds, pre, opc, attr);
        } else {
            if use_avx > 2 && attr.rex_vex_w_reverted {
                attr.rex_vex_w = false;
            }
            self.vex_prefix_raw(vex_r, vex_b, vex_x, nds, pre, opc, attr);
        }
    }

    /// The prefix of a SIMD instruction with a memory operand: legacy SSE
    /// without AVX (the bytes of `rex_prefix`), VEX or EVEX with it (the
    /// bytes of `vex_prefix`, with register 0 for an absent `nds`). `nds` is the extra source register
    /// of the three-operand AVX form.
    pub fn simd_prefix(&mut self, xreg: u8, nds: Option<u8>, adr: &Address, pre: u8, opc: u8, attr: &mut InstructionAttr)
        requires
            simd_adr_ok(old(self).features, *old(attr), xreg, nds, *adr),
            pre < 4,
            opc < 4,
        ensures
            *final(attr) == simd_adr_attr(old(self).features, *old(attr), xreg, nds),
            final(self).appends(*old(self), simd_adr_bytes(old(self).features, *old(attr), xreg, nds, *adr, pre, opc)),
            old(self).features.use_avx > 0 ==> final(self).appends(
                *old(self),
                vex_adr_bytes(old(self).features, *old(attr), *adr, nds_enc(nds), xreg, pre, opc),
            ),
            old(self).features.use_avx == 0 ==> final(self).appends(
                *old(self),
                simd_pre_bytes(pre) + rex_for_adr(old(attr).rex_vex_w, xreg, *adr, false) + simd_opc_bytes(opc),
            ),
    {
        if self.features.use_avx > 0 {
            let nds_enc: u8 = match nds {
                Some(n) => n,
                None => 0,
            };
            self.vex_prefix(adr, nds_enc, xreg, pre, opc, attr);
        } else {
            self.rex_prefix(adr, xreg, pre, opc, attr.rex_vex_w);
        }
    }

    /// The prefix of a register-to-register SIMD instruction: the bytes of
    /// `rex_prefix_and_encode` without AVX, of `vex_prefix_and_encode` with
    /// it; returns the reg and r/m bits of the ModRM byte.
    pub fn simd_prefix_and_encode(&mut self, dst: u8, nds: Option<u8>, src: u8, pre: u8, opc: u8, attr: &mut InstructionAttr) -> (e: u8)
        requires
            simd_rr_ok(old(self).features, *old(attr), dst, nds, src),
            pre < 4,
            opc < 4,
        ensures
            *final(attr) == simd_rr_attr(old(self).features, *old(attr), dst, nds, src),
            final(self).appends(*old(self), simd_rr_bytes(old(self).features, *old(attr), dst, nds, src, pre, opc)),
            old(self).features.use_avx > 0 ==> final(self).appends(
                *old(self),
                vex_rr_bytes(old(self).features, *old(attr), dst, nds_enc(nds), src, pre, opc),
            ),
            old(self).features.use_avx == 0 ==> final(self).appends(
                *old(self),
                simd_pre_bytes(pre) + rex_for_rr(old(attr).rex_vex_w, dst, src, false, false) + simd_opc_bytes(opc),
            ),
            e == rr_bits(dst, src),
    {
        if self.features.use_avx > 0 {
            let nds_enc: u8 = match nds {
                Some(n) => n,
                None => 0,
            };
            self.vex_prefix_and_encode(dst, nds_enc, src, pre, opc, attr)
        } else {
            self.rex_prefix_and_encode(dst, src, pre, opc, attr.rex_vex_w)
        }
    }
}

} // verus!
