//! VEX encoded instructions (AVX, AVX2, BMI and related extensions); on AVX-512 targets most may be promoted to EVEX.
use vstd::prelude::*;
use crate::address::Address;
use crate::assembler::Assembler;
use crate::attributes::{AVX_128BIT, AVX_256BIT, AVX_512BIT, EVEX_16BIT, EVEX_32BIT, EVEX_64BIT, EVEX_8BIT, EVEX_FV, EVEX_FVM, EVEX_HVM, EVEX_NOBIT, EVEX_T1S, EVEX_T4, InstructionAttr, VEX_OPCODE_0F, VEX_OPCODE_0F_38, VEX_OPCODE_0F_3A, VEX_SIMD_66, VEX_SIMD_F2, VEX_SIMD_F3, VEX_SIMD_NONE};
use crate::encoding::{address_bytes, imm_byte, imm_byte_exec, low8, low8_exec, rex_opt, rr_bits, vex_adr_attr, vex_adr_bytes, vex_adr_ok, vex_rr_bytes, vex_rr_ok};
use crate::registers::{Register, XMMRegister};

verus! {

impl Assembler {
    /// `andnl dst, src1, src2`
    pub fn andnl(&mut self, dst: Register, src1: Register, src2: Register)
        requires
            dst.wf(),
            src1.wf(),
            src2.wf(),
            ({
                let f = old(self).features;
                (f.supports_bmi1()) && ({ let a1 = InstructionAttr::spec_new(f, AVX_128BIT, false, true, true, false); (vex_rr_ok(f, a1, dst.encoding, src1.encoding, src2.encoding)) })
            }),
        ensures
            ({
                let f = old(self).features;
                final(self).appends(*old(self), ({ let a1 = InstructionAttr::spec_new(f, AVX_128BIT, false, true, true, false); vex_rr_bytes(f, a1, dst.encoding, src1.encoding, src2.encoding, VEX_SIMD_NONE, VEX_OPCODE_0F_38) + seq![0xF2, (0xC0 | rr_bits(dst.encoding, src2.encoding))] }))
            }),
    {
        let mut attributes = InstructionAttr::new(&self.features, AVX_128BIT, false, true, true, false);
        let encode = self.vex_prefix_and_encode(dst.encoding, src1.encoding, src2.encoding, VEX_SIMD_NONE, VEX_OPCODE_0F_38, &mut attributes);
        self.emit_int16(0xF2, (0xC0 | encode));
    }

    /// `andnl dst, src1, [src2]`
    pub fn andnl_rrm(&mut self, dst: Register, src1: Register, src2: Address)
        requires
            dst.wf(),
            src1.wf(),
            src2.wf(),
            ({
                let f = old(self).features;
                (f.supports_bmi1()) && ({ let a1 = InstructionAttr::spec_new(f, AVX_128BIT, false, true, true, false); (vex_adr_ok(f, a1, src1.encoding, dst.encoding, src2)) })
            }),
        ensures
            ({
                let f = old(self).features;
                final(self).appends(*old(self), ({ let a1 = InstructionAttr::spec_new(f, AVX_128BIT, false, true, true, false); vex_adr_bytes(f, a1, src2, src1.encoding, dst.encoding, VEX_SIMD_NONE, VEX_OPCODE_0F_38) + ({ let a2 = vex_adr_attr(f, a1, src1.encoding, dst.encoding); seq![0xF2] + address_bytes(f, Some(a2), dst.encoding, src2, false) }) }))
            }),
    {
        let mut attributes = InstructionAttr::new(&self.features, AVX_128BIT, false, true, true, false);
        self.vex_prefix(&src2, src1.encoding, dst.encoding, VEX_SIMD_NONE, VEX_OPCODE_0F_38, &mut attributes);
        self.emit_int8(0xF2);
        self.emit_operand_attr(dst.encoding, &src2, &attributes, false);
    }

    /// `blsil dst, src`
    pub fn blsil(&mut self, dst: Register, src: Register)
        requires
            dst.wf(),
            src.wf(),
            ({
                let f = old(self).features;
                (f.supports_bmi1()) && ({ let a1 = InstructionAttr::spec_new(f, AVX_128BIT, false, true, true, false); (vex_rr_ok(f, a1, 3, dst.encoding, src.encoding)) })
            }),
        ensures
            ({
                let f = old(self).features;
                final(self).appends(*old(self), ({ let a1 = InstructionAttr::spec_new(f, AVX_128BIT, false, true, true, false); vex_rr_bytes(f, a1, 3, dst.encoding, src.encoding, VEX_SIMD_NONE, VEX_OPCODE_0F_38) + seq![0xF3, (0xC0 | rr_bits(3, src.encoding))] }))
            }),
    {
        let mut attributes = InstructionAttr::new(&self.features, AVX_128BIT, false, true, true, false);
        let encode = self.vex_prefix_and_encode(3, dst.encoding, src.encoding, VEX_SIMD_NONE, VEX_OPCODE_0F_38, &mut attributes);
        self.emit_int16(0xF3, (0xC0 | encode));
    }

    /// `blsil dst, [src]`
    pub fn blsil_rm(&mut self, dst: Register, src: Address)
        requires
            dst.wf(),
            src.wf(),
            ({
                let f = old(self).features;
                (f.supports_bmi1()) && ({ let a1 = InstructionAttr::spec_new(f, AVX_128BIT, false, true, true, false); (vex_adr_ok(f, a1, dst.encoding, 3, src)) })
            }),
        ensures
            ({
                let f = old(self).features;
                final(self).appends(*old(self), ({ let a1 = InstructionAttr::spec_new(f, AVX_128BIT, false, true, true, false); vex_adr_bytes(f, a1, src, dst.encoding, 3, VEX_SIMD_NONE, VEX_OPCODE_0F_38) + ({ let a2 = vex_adr_attr(f, a1, dst.encoding, 3); seq![0xF3] + address_bytes(f, Some(a2), 3, src, false) }) }))
            }),
    {
        let mut attributes = InstructionAttr::new(&self.features, AVX_128BIT, false, true, true, false);
        self.vex_prefix(&src, dst.encoding, 3, VEX_SIMD_NONE, VEX_OPCODE_0F_38, &mut attributes);
        self.emit_int8(0xF3);
        self.emit_operand_attr(3, &src, &attributes, false);
    }

    /// `blsmskl dst, src`
    pub fn blsmskl(&mut self, dst: Register, src: Register)
        requires
            dst.wf(),
            src.wf(),
            ({
                let f = old(self).features;
                (f.supports_bmi1()) && ({ let a1 = InstructionAttr::spec_new(f, AVX_128BIT, false, true, true, false); (vex_rr_ok(f, a1, 2, dst.encoding, src.encoding)) })
            }),
        ensures
            ({
                let f = old(self).features;
                final(self).appends(*old(self), ({ let a1 = InstructionAttr::spec_new(f, AVX_128BIT, false, true, true, false); vex_rr_bytes(f, a1, 2, dst.encoding, src.encoding, VEX_SIMD_NONE, VEX_OPCODE_0F_38) + seq![0xF3, (0xC0 | rr_bits(2, src.encoding))] }))
            }),
    {
        let mut attributes = InstructionAttr::new(&self.features, AVX_128BIT, false, true, true, false);
        let encode = self.vex_prefix_and_encode(2, dst.encoding, src.encoding, VEX_SIMD_NONE, VEX_OPCODE_0F_38, &mut attributes);
        self.emit_int16(0xF3, (0xC0 | encode));
    }

    /// `blsmskl dst, [src]`
    pub fn blsmskl_rm(&mut self, dst: Register, src: Address)
        requires
            dst.wf(),
            src.wf(),
            ({
                let f = old(self).features;
                (f.supports_bmi1()) && ({ let a1 = InstructionAttr::spec_new(f, AVX_128BIT, false, true, true, false); (vex_adr_ok(f, a1, dst.encoding, 2, src)) })
            }),
        ensures
            ({
                let f = old(self).features;
                final(self).appends(*old(self), ({ let a1 = InstructionAttr::spec_new(f, AVX_128BIT, false, true, true, false); vex_adr_bytes(f, a1, src, dst.encoding, 2, VEX_SIMD_NONE, VEX_OPCODE_0F_38) + ({ let a2 = vex_adr_attr(f, a1, dst.encoding, 2); seq![0xF3] + address_bytes(f, Some(a2), 2, src, false) }) }))
            }),
    {
        let mut attributes = InstructionAttr::new(&self.features, AVX_128BIT, false, true, true, false);
        self.vex_prefix(&src, dst.encoding, 2, VEX_SIMD_NONE, VEX_OPCODE_0F_38, &mut attributes);
        self.emit_int8(0xF3);
        self.emit_operand_attr(2, &src, &attributes, false);
    }

    /// `blsrl dst, src`
    pub fn blsrl(&mut self, dst: Register, src: Register)
        requires
            dst.wf(),
            src.wf(),
            ({
                let f = old(self).features;
                (f.supports_bmi1()) && ({ let a1 = InstructionAttr::spec_new(f, AVX_128BIT, false, true, true, false); (vex_rr_ok(f, a1, 1, dst.encoding, src.encoding)) })
            }),
        ensures
            ({
                let f = old(self).features;
                final(self).appends(*old(self), ({ let a1 = InstructionAttr::spec_new(f, AVX_128BIT, false, true, true, false); vex_rr_bytes(f, a1, 1, dst.encoding, src.encoding, VEX_SIMD_NONE, VEX_OPCODE_0F_38) + seq![0xF3, (0xC0 | rr_bits(1, src.encoding))] }))
            }),
    {
        let mut attributes = InstructionAttr::new(&self.features, AVX_128BIT, false, true, true, false);
        let encode = self.vex_prefix_and_encode(1, dst.encoding, src.encoding, VEX_SIMD_NONE, VEX_OPCODE_0F_38, &mut attributes);
        self.emit_int16(0xF3, (0xC0 | encode));
    }

    /// `blsrl dst, [src]`
    pub fn blsrl_rm(&mut self, dst: Register, src: Address)
        requires
            dst.wf(),
            src.wf(),
            ({
                let f = old(self).features;
                (f.supports_bmi1()) && ({ let a1 = InstructionAttr::spec_new(f, AVX_128BIT, false, true, true, false); (vex_adr_ok(f, a1, dst.encoding, 1, src)) })
            }),
        ensures
            ({
                let f = old(self).features;
                final(self).appends(*old(self), ({ let a1 = InstructionAttr::spec_new(f, AVX_128BIT, false, true, true, false); vex_adr_bytes(f, a1, src, dst.encoding, 1, VEX_SIMD_NONE, VEX_OPCODE_0F_38) + ({ let a2 = vex_adr_attr(f, a1, dst.encoding, 1); seq![0xF3] + address_bytes(f, Some(a2), 1, src, false) }) }))
            }),
    {
        let mut attributes = InstructionAttr::new(&self.features, AVX_128BIT, false, true, true, false);
        self.vex_prefix(&src, dst.encoding, 1, VEX_SIMD_NONE, VEX_OPCODE_0F_38, &mut attributes);
        self.emit_int8(0xF3);
        self.emit_operand_attr(1, &src, &attributes, false);
    }

    /// `vcvtps2ph dst, src, imm8, vector_len`
    pub fn vcvtps2ph(&mut self, dst: XMMRegister, src: XMMRegister, imm8: i8, vector_len: u8)
        requires
            dst.wf(),
            src.wf(),
            ({
                let f = old(self).features;
                (f.supports_evex() || f.supports_f16c()) && ({ let a1 = InstructionAttr::spec_new(f, vector_len, false, false, true, true); (vex_rr_ok(f, a1, src.encoding, 0, dst.encoding)) })
            }),
        ensures
            ({
                let f = old(self).features;
                final(self).appends(*old(self), ({ let a1 = InstructionAttr::spec_new(f, vector_len, false, false, true, true); vex_rr_bytes(f, a1, src.encoding, 0, dst.encoding, VEX_SIMD_66, VEX_OPCODE_0F_3A) + seq![0x1D, (0xC0 | rr_bits(src.encoding, dst.encoding)), imm_byte(imm8)] }))
            }),
    {
        let mut attributes = InstructionAttr::new(&self.features, vector_len, false, false, true, true);
        let encode = self.vex_prefix_and_encode(src.encoding, 0, dst.encoding, VEX_SIMD_66, VEX_OPCODE_0F_3A, &mut attributes);
        self.emit_int24(0x1D, (0xC0 | encode), imm_byte_exec(imm8));
    }

    /// `vcvtps2ph [dst], src, imm8, vector_len`
    pub fn vcvtps2ph_mxi(&mut self, dst: Address, src: XMMRegister, imm8: i8, vector_len: u8)
        requires
            dst.wf(),
            src.wf(),
            ({
                let f = old(self).features;
                (f.supports_evex() || f.supports_f16c()) && ({ let a1 = InstructionAttr::spec_new(f, vector_len, false, false, true, true); let a2 = a1.with_address(f, EVEX_HVM, EVEX_NOBIT); (vex_adr_ok(f, a2, 0, src.encoding, dst)) })
            }),
        ensures
            ({
                let f = old(self).features;
                final(self).appends(*old(self), ({ let a1 = InstructionAttr::spec_new(f, vector_len, false, false, true, true); let a2 = a1.with_address(f, EVEX_HVM, EVEX_NOBIT); vex_adr_bytes(f, a2, dst, 0, src.encoding, VEX_SIMD_66, VEX_OPCODE_0F_3A) + ({ let a3 = vex_adr_attr(f, a2, 0, src.encoding); seq![0x1D] + address_bytes(f, Some(a3), src.encoding, dst, true) + seq![imm_byte(imm8)] }) }))
            }),
    {
        let mut attributes = InstructionAttr::new(&self.features, vector_len, false, false, true, true);
        attributes.set_address_attributes(&self.features, EVEX_HVM, EVEX_NOBIT);
        self.vex_prefix(&dst, 0, src.encoding, VEX_SIMD_66, VEX_OPCODE_0F_3A, &mut attributes);
        self.emit_int8(0x1D);
        self.emit_operand_attr(src.encoding, &dst, &attributes, true);
        self.emit_int8(imm_byte_exec(imm8));
    }

    /// `vcvtph2ps dst, src, vector_len`
    pub fn vcvtph2ps(&mut self, dst: XMMRegister, src: XMMRegister, vector_len: u8)
        requires
            dst.wf(),
            src.wf(),
            ({
                let f = old(self).features;
                (f.supports_evex() || f.supports_f16c()) && ({ let a1 = InstructionAttr::spec_new(f, vector_len, false, false, true, true); (vex_rr_ok(f, a1, dst.encoding, 0, src.encoding)) })
            }),
        ensures
            ({
                let f = old(self).features;
                final(self).appends(*old(self), ({ let a1 = InstructionAttr::spec_new(f, vector_len, false, false, true, true); vex_rr_bytes(f, a1, dst.encoding, 0, src.encoding, VEX_SIMD_66, VEX_OPCODE_0F_38) + seq![0x13, (0xC0 | rr_bits(dst.encoding, src.encoding))] }))
            }),
    {
        let mut attributes = InstructionAttr::new(&self.features, vector_len, false, false, true, true);
        let encode = self.vex_prefix_and_encode(dst.encoding, 0, src.encoding, VEX_SIMD_66, VEX_OPCODE_0F_38, &mut attributes);
        self.emit_int16(0x13, (0xC0 | encode));
    }

    /// `vcvtph2ps dst, [src], vector_len`
    pub fn vcvtph2ps_xm(&mut self, dst: XMMRegister, src: Address, vector_len: u8)
        requires
            dst.wf(),
            src.wf(),
            ({
                let f = old(self).features;
                (f.supports_evex() || f.supports_f16c()) && ({ let a1 = InstructionAttr::spec_new(f, vector_len, false, false, false, true); let a2 = a1.with_address(f, EVEX_HVM, EVEX_NOBIT); (vex_adr_ok(f, a2, 0, dst.encoding, src)) })
            }),
        ensures
            ({
                let f = old(self).features;
                final(self).appends(*old(self), ({ let a1 = InstructionAttr::spec_new(f, vector_len, false, false, false, true); let a2 = a1.with_address(f, EVEX_HVM, EVEX_NOBIT); vex_adr_bytes(f, a2, src, 0, dst.encoding, VEX_SIMD_66, VEX_OPCODE_0F_38) + ({ let a3 = vex_adr_attr(f, a2, 0, dst.encoding); seq![0x13] + address_bytes(f, Some(a3), dst.encoding, src, true) }) }))
            }),
    {
        let mut attributes = InstructionAttr::new(&self.features, vector_len, false, false, false, true);
        attributes.set_address_attributes(&self.features, EVEX_HVM, EVEX_NOBIT);
        self.vex_prefix(&src, 0, dst.encoding, VEX_SIMD_66, VEX_OPCODE_0F_38, &mut attributes);
        self.emit_int8(0x13);
        self.emit_operand_attr(dst.encoding, &src, &attributes, true);
    }

    /// `vpabsb dst, src, vector_len`
    pub fn vpabsb(&mut self, dst: XMMRegister, src: XMMRegister, vector_len: u8)
        requires
            dst.wf(),
            src.wf(),
            ({
                let f = old(self).features;
                (if (vector_len == AVX_128BIT) { f.supports_avx() } else { (if (vector_len == AVX_256BIT) { f.supports_avx2() } else { (if (vector_len == AVX_512BIT) { f.supports_avx512bw() } else { false }) }) }) && ({ let a1 = InstructionAttr::spec_new(f, vector_len, false, f.legacy_mode_bw(), true, true); (vex_rr_ok(f, a1, dst.encoding, 0, src.encoding)) })
            }),
        ensures
            ({
                let f = old(self).features;
                final(self).appends(*old(self), ({ let a1 = InstructionAttr::spec_new(f, vector_len, false, f.legacy_mode_bw(), true, true); vex_rr_bytes(f, a1, dst.encoding, 0, src.encoding, VEX_SIMD_66, VEX_OPCODE_0F_38) + seq![0x1C, (0xC0 | rr_bits(dst.encoding, src.encoding))] }))
            }),
    {
        let mut attributes = InstructionAttr::new(&self.features, vector_len, false, self.features.legacy_mode_bw(), true, true);
        let encode = self.vex_prefix_and_encode(dst.encoding, 0, src.encoding, VEX_SIMD_66, VEX_OPCODE_0F_38, &mut attributes);
        self.emit_int16(0x1C, (0xC0 | encode));
    }

    /// `vpabsw dst, src, vector_len`
    pub fn vpabsw(&mut self, dst: XMMRegister, src: XMMRegister, vector_len: u8)
        requires
            dst.wf(),
            src.wf(),
            ({
                let f = old(self).features;
                (if (vector_len == AVX_128BIT) { f.supports_avx() } else { (if (vector_len == AVX_256BIT) { f.supports_avx2() } else { (if (vector_len == AVX_512BIT) { f.supports_avx512bw() } else { false }) }) }) && ({ let a1 = InstructionAttr::spec_new(f, vector_len, false, f.legacy_mode_bw(), true, true); (vex_rr_ok(f, a1, dst.encoding, 0, src.encoding)) })
            }),
        ensures
            ({
                let f = old(self).features;
                final(self).appends(*old(self), ({ let a1 = InstructionAttr::spec_new(f, vector_len, false, f.legacy_mode_bw(), true, true); vex_rr_bytes(f, a1, dst.encoding, 0, src.encoding, VEX_SIMD_66, VEX_OPCODE_0F_38) + seq![0x1D, (0xC0 | rr_bits(dst.encoding, src.encoding))] }))
            }),
    {
        let mut attributes = InstructionAttr::new(&self.features, vector_len, false, self.features.legacy_mode_bw(), true, true);
        let encode = self.vex_prefix_and_encode(dst.encoding, 0, src.encoding, VEX_SIMD_66, VEX_OPCODE_0F_38, &mut attributes);
        self.emit_int16(0x1D, (0xC0 | encode));
    }

    /// `vpabsd dst, src, vector_len`
    pub fn vpabsd(&mut self, dst: XMMRegister, src: XMMRegister, vector_len: u8)
        requires
            dst.wf(),
            src.wf(),
            ({
                let f = old(self).features;
                (if (vector_len == AVX_128BIT) { f.supports_avx() } else { (if (vector_len == AVX_256BIT) { f.supports_avx2() } else { (if (vector_len == AVX_512BIT) { f.supports_evex() } else { false }) }) }) && ({ let a1 = InstructionAttr::spec_new(f, vector_len, false, false, true, true); (vex_rr_ok(f, a1, dst.encoding, 0, src.encoding)) })
            }),
        ensures
            ({
                let f = old(self).features;
                final(self).appends(*old(self), ({ let a1 = InstructionAttr::spec_new(f, vector_len, false, false, true, true); vex_rr_bytes(f, a1, dst.encoding, 0, src.encoding, VEX_SIMD_66, VEX_OPCODE_0F_38) + seq![0x1E, (0xC0 | rr_bits(dst.encoding, src.encoding))] }))
            }),
    {
        let mut attributes = InstructionAttr::new(&self.features, vector_len, false, false, true, true);
        let encode = self.vex_prefix_and_encode(dst.encoding, 0, src.encoding, VEX_SIMD_66, VEX_OPCODE_0F_38, &mut attributes);
        self.emit_int16(0x1E, (0xC0 | encode));
    }

    /// `vcvtps2pd dst, src, vector_len`
    pub fn vcvtps2pd(&mut self, dst: XMMRegister, src: XMMRegister, vector_len: u8)
        requires
            dst.wf(),
            src.wf(),
            ({
                let f = old(self).features;
                (if (vector_len <= AVX_256BIT) { f.supports_avx() } else { f.supports_evex() }) && ({ let a1 = InstructionAttr::spec_new(f, vector_len, false, false, true, true); (vex_rr_ok(f, a1, dst.encoding, 0, src.encoding)) })
            }),
        ensures
            ({
                let f = old(self).features;
                final(self).appends(*old(self), ({ let a1 = InstructionAttr::spec_new(f, vector_len, false, false, true, true); vex_rr_bytes(f, a1, dst.encoding, 0, src.encoding, VEX_SIMD_NONE, VEX_OPCODE_0F) + seq![0x5A, (0xC0 | rr_bits(dst.encoding, src.encoding))] }))
            }),
    {
        let mut attributes = InstructionAttr::new(&self.features, vector_len, false, false, true, true);
        let encode = self.vex_prefix_and_encode(dst.encoding, 0, src.encoding, VEX_SIMD_NONE, VEX_OPCODE_0F, &mut attributes);
        self.emit_int16(0x5A, (0xC0 | encode));
    }

    /// `vcvtpd2ps dst, src, vector_len`
    pub fn vcvtpd2ps(&mut self, dst: XMMRegister, src: XMMRegister, vector_len: u8)
        requires
            dst.wf(),
            src.wf(),
            ({
                let f = old(self).features;
                (if (vector_len <= AVX_256BIT) { f.supports_avx() } else { f.supports_evex() }) && ({ let a1 = InstructionAttr::spec_new(f, vector_len, f.supports_evex(), false, true, true); (vex_rr_ok(f, a1, dst.encoding, 0, src.encoding)) })
            }),
        ensures
            ({
                let f = old(self).features;
                final(self).appends(*old(self), ({ let a1 = InstructionAttr::spec_new(f, vector_len, f.supports_evex(), false, true, true); vex_rr_bytes(f, a1, dst.encoding, 0, src.encoding, VEX_SIMD_66, VEX_OPCODE_0F) + seq![0x5A, (0xC0 | rr_bits(dst.encoding, src.encoding))] }))
            }),
    {
        let mut attributes = InstructionAttr::new(&self.features, vector_len, self.features.supports_evex(), false, true, true);
        let encode = self.vex_prefix_and_encode(dst.encoding, 0, src.encoding, VEX_SIMD_66, VEX_OPCODE_0F, &mut attributes);
        attributes.set_rex_vex_w_reverted();
        self.emit_int16(0x5A, (0xC0 | encode));
    }

    /// `vcvttps2dq dst, src, vector_len`
    pub fn vcvttps2dq(&mut self, dst: XMMRegister, src: XMMRegister, vector_len: u8)
        requires
            dst.wf(),
            src.wf(),
            ({
                let f = old(self).features;
                (if (vector_len <= AVX_256BIT) { f.supports_avx() } else { f.supports_evex() }) && ({ let a1 = InstructionAttr::spec_new(f, vector_len, false, false, true, true); (vex_rr_ok(f, a1, dst.encoding, 0, src.encoding)) })
            }),
        ensures
            ({
                let f = old(self).features;
                final(self).appends(*old(self), ({ let a1 = InstructionAttr::spec_new(f, vector_len, false, false, true, true); vex_rr_bytes(f, a1, dst.encoding, 0, src.encoding, VEX_SIMD_F3, VEX_OPCODE_0F) + seq![0x5B, (0xC0 | rr_bits(dst.encoding, src.encoding))] }))
            }),
    {
        let mut attributes = InstructionAttr::new(&self.features, vector_len, false, false, true, true);
        let encode = self.vex_prefix_and_encode(dst.encoding, 0, src.encoding, VEX_SIMD_F3, VEX_OPCODE_0F, &mut attributes);
        self.emit_int16(0x5B, (0xC0 | encode));
    }

    /// `vcvttpd2dq dst, src, vector_len`
    pub fn vcvttpd2dq(&mut self, dst: XMMRegister, src: XMMRegister, vector_len: u8)
        requires
            dst.wf(),
            src.wf(),
            ({
                let f = old(self).features;
                (if (vector_len <= AVX_256BIT) { f.supports_avx() } else { f.supports_evex() }) && ({ let a1 = InstructionAttr::spec_new(f, vector_len, true, false, true, true); (vex_rr_ok(f, a1, dst.encoding, 0, src.encoding)) })
            }),
        ensures
            ({
                let f = old(self).features;
                final(self).appends(*old(self), ({ let a1 = InstructionAttr::spec_new(f, vector_len, true, false, true, true); vex_rr_bytes(f, a1, dst.encoding, 0, src.encoding, VEX_SIMD_66, VEX_OPCODE_0F) + seq![0xE6, (0xC0 | rr_bits(dst.encoding, src.encoding))] }))
            }),
    {
        let mut attributes = InstructionAttr::new(&self.features, vector_len, true, false, true, true);
        let encode = self.vex_prefix_and_encode(dst.encoding, 0, src.encoding, VEX_SIMD_66, VEX_OPCODE_0F, &mut attributes);
        self.emit_int16(0xE6, (0xC0 | encode));
    }

    /// `vcvtps2dq dst, src, vector_len`
    pub fn vcvtps2dq(&mut self, dst: XMMRegister, src: XMMRegister, vector_len: u8)
        requires
            dst.wf(),
            src.wf(),
            ({
                let f = old(self).features;
                (if (vector_len <= AVX_256BIT) { f.supports_avx() } else { f.supports_evex() }) && ({ let a1 = InstructionAttr::spec_new(f, vector_len, false, false, true, true); (vex_rr_ok(f, a1, dst.encoding, 0, src.encoding)) })
            }),
        ensures
            ({
                let f = old(self).features;
                final(self).appends(*old(self), ({ let a1 = InstructionAttr::spec_new(f, vector_len, false, false, true, true); vex_rr_bytes(f, a1, dst.encoding, 0, src.encoding, VEX_SIMD_66, VEX_OPCODE_0F) + seq![0x5B, (0xC0 | rr_bits(dst.encoding, src.encoding))] }))
            }),
    {
        let mut attributes = InstructionAttr::new(&self.features, vector_len, false, false, true, true);
        let encode = self.vex_prefix_and_encode(dst.encoding, 0, src.encoding, VEX_SIMD_66, VEX_OPCODE_0F, &mut attributes);
        self.emit_int16(0x5B, (0xC0 | encode));
    }

    /// `ldmxcsr [src]`
    pub fn ldmxcsr(&mut self, src: Address)
        requires
            src.wf(),
            ({
                let f = old(self).features;
                (if (f.use_avx > 0) { ({ let a1 = InstructionAttr::spec_new(f, AVX_128BIT, false, true, true, false); (vex_adr_ok(f, a1, 0, 0, src)) }) } else { true })
            }),
        ensures
            ({
                let f = old(self).features;
                final(self).appends(*old(self), (if (f.use_avx > 0) { ({ let a1 = InstructionAttr::spec_new(f, AVX_128BIT, false, true, true, false); vex_adr_bytes(f, a1, src, 0, 0, VEX_SIMD_NONE, VEX_OPCODE_0F) + ({ let a2 = vex_adr_attr(f, a1, 0, 0); seq![0xAE] + address_bytes(f, Some(a2), 2, src, false) }) }) } else { rex_opt(false, false, src.spec_index_needs_rex(), src.spec_base_needs_rex(), false) + seq![0x0F, 0xAE] + address_bytes(f, None, 2, src, false) }))
            }),
    {
        if self.features.use_avx > 0 {
            let mut attributes = InstructionAttr::new(&self.features, AVX_128BIT, false, true, true, false);
            self.vex_prefix(&src, 0, 0, VEX_SIMD_NONE, VEX_OPCODE_0F, &mut attributes);
            self.emit_int8(0xAE);
            self.emit_operand_attr(2, &src, &attributes, false);
        } else {
            self.prefix_adr(&src);
            self.emit_int16(0x0F, 0xAE);
            self.emit_operand(2, &src);
        }
    }

    /// `vmovdqu dst, src`
    pub fn vmovdqu(&mut self, dst: XMMRegister, src: XMMRegister)
        requires
            dst.wf(),
            src.wf(),
            ({
                let f = old(self).features;
                (f.use_avx > 0) && ({ let a1 = InstructionAttr::spec_new(f, AVX_256BIT, false, false, true, true); (vex_rr_ok(f, a1, dst.encoding, 0, src.encoding)) })
            }),
        ensures
            ({
                let f = old(self).features;
                final(self).appends(*old(self), ({ let a1 = InstructionAttr::spec_new(f, AVX_256BIT, false, false, true, true); vex_rr_bytes(f, a1, dst.encoding, 0, src.encoding, VEX_SIMD_F3, VEX_OPCODE_0F) + seq![0x6F, (0xC0 | rr_bits(dst.encoding, src.encoding))] }))
            }),
    {
        let mut attributes = InstructionAttr::new(&self.features, AVX_256BIT, false, false, true, true);
        let encode = self.vex_prefix_and_encode(dst.encoding, 0, src.encoding, VEX_SIMD_F3, VEX_OPCODE_0F, &mut attributes);
        self.emit_int16(0x6F, (0xC0 | encode));
    }

    /// `vmovdqu dst, [src]`
    pub fn vmovdqu_xm(&mut self, dst: XMMRegister, src: Address)
        requires
            dst.wf(),
            src.wf(),
            ({
                let f = old(self).features;
                (f.use_avx > 0) && ({ let a1 = InstructionAttr::spec_new(f, AVX_256BIT, false, false, true, true); let a2 = a1.with_address(f, EVEX_FVM, EVEX_NOBIT); (vex_adr_ok(f, a2, 0, dst.encoding, src)) })
            }),
        ensures
            ({
                let f = old(self).features;
                final(self).appends(*old(self), ({ let a1 = InstructionAttr::spec_new(f, AVX_256BIT, false, false, true, true); let a2 = a1.with_address(f, EVEX_FVM, EVEX_NOBIT); vex_adr_bytes(f, a2, src, 0, dst.encoding, VEX_SIMD_F3, VEX_OPCODE_0F) + ({ let a3 = vex_adr_attr(f, a2, 0, dst.encoding); seq![0x6F] + address_bytes(f, Some(a3), dst.encoding, src, true) }) }))
            }),
    {
        let mut attributes = InstructionAttr::new(&self.features, AVX_256BIT, false, false, true, true);
        attributes.set_address_attributes(&self.features, EVEX_FVM, EVEX_NOBIT);
        self.vex_prefix(&src, 0, dst.encoding, VEX_SIMD_F3, VEX_OPCODE_0F, &mut attributes);
        self.emit_int8(0x6F);
        self.emit_operand_attr(dst.encoding, &src, &attributes, true);
    }

    /// `vmovdqu [dst], src`
    pub fn vmovdqu_mx(&mut self, dst: Address, src: XMMRegister)
        requires
            dst.wf(),
            src.wf(),
            ({
                let f = old(self).features;
                (f.use_avx > 0) && ({ let a1 = InstructionAttr::spec_new(f, AVX_256BIT, false, false, true, true); let a2 = a1.with_address(f, EVEX_FVM, EVEX_NOBIT); let a3 = a2.merging(); (vex_adr_ok(f, a3, 0, src.encoding, dst)) })
            }),
        ensures
            ({
                let f = old(self).features;
                final(self).appends(*old(self), ({ let a1 = InstructionAttr::spec_new(f, AVX_256BIT, false, false, true, true); let a2 = a1.with_address(f, EVEX_FVM, EVEX_NOBIT); let a3 = a2.merging(); vex_adr_bytes(f, a3, dst, 0, src.encoding, VEX_SIMD_F3, VEX_OPCODE_0F) + ({ let a4 = vex_adr_attr(f, a3, 0, src.encoding); seq![0x7F] + address_bytes(f, Some(a4), src.encoding, dst, true) }) }))
            }),
    {
        let mut attributes = InstructionAttr::new(&self.features, AVX_256BIT, false, false, true, true);
        attributes.set_address_attributes(&self.features, EVEX_FVM, EVEX_NOBIT);
        attributes.reset_is_clear_context();
        self.vex_prefix(&dst, 0, src.encoding, VEX_SIMD_F3, VEX_OPCODE_0F, &mut attributes);
        self.emit_int8(0x7F);
        self.emit_operand_attr(src.encoding, &dst, &attributes, true);
    }

    /// `vpmaskmovd dst, mask, [src], vector_len`
    pub fn vpmaskmovd(&mut self, dst: XMMRegister, mask: XMMRegister, src: Address, vector_len: u8)
        requires
            dst.wf(),
            mask.wf(),
            src.wf(),
            ({
                let f = old(self).features;
                (f.supports_avx2() && (vector_len == AVX_256BIT)) && ({ let a1 = InstructionAttr::spec_new(f, vector_len, false, true, false, false); (vex_adr_ok(f, a1, mask.encoding, dst.encoding, src)) })
            }),
        ensures
            ({
                let f = old(self).features;
                final(self).appends(*old(self), ({ let a1 = InstructionAttr::spec_new(f, vector_len, false, true, false, false); vex_adr_bytes(f, a1, src, mask.encoding, dst.encoding, VEX_SIMD_66, VEX_OPCODE_0F_38) + ({ let a2 = vex_adr_attr(f, a1, mask.encoding, dst.encoding); seq![0x8C] + address_bytes(f, Some(a2), dst.encoding, src, true) }) }))
            }),
    {
        let mut attributes = InstructionAttr::new(&self.features, vector_len, false, true, false, false);
        self.vex_prefix(&src, mask.encoding, dst.encoding, VEX_SIMD_66, VEX_OPCODE_0F_38, &mut attributes);
        self.emit_int8(0x8C);
        self.emit_operand_attr(dst.encoding, &src, &attributes, true);
    }

    /// `vpmaskmovq dst, mask, [src], vector_len`
    pub fn vpmaskmovq(&mut self, dst: XMMRegister, mask: XMMRegister, src: Address, vector_len: u8)
        requires
            dst.wf(),
            mask.wf(),
            src.wf(),
            ({
                let f = old(self).features;
                (f.supports_avx2() && (vector_len == AVX_256BIT)) && ({ let a1 = InstructionAttr::spec_new(f, vector_len, true, true, false, false); (vex_adr_ok(f, a1, mask.encoding, dst.encoding, src)) })
            }),
        ensures
            ({
                let f = old(self).features;
                final(self).appends(*old(self), ({ let a1 = InstructionAttr::spec_new(f, vector_len, true, true, false, false); vex_adr_bytes(f, a1, src, mask.encoding, dst.encoding, VEX_SIMD_66, VEX_OPCODE_0F_38) + ({ let a2 = vex_adr_attr(f, a1, mask.encoding, dst.encoding); seq![0x8C] + address_bytes(f, Some(a2), dst.encoding, src, true) }) }))
            }),
    {
        let mut attributes = InstructionAttr::new(&self.features, vector_len, true, true, false, false);
        self.vex_prefix(&src, mask.encoding, dst.encoding, VEX_SIMD_66, VEX_OPCODE_0F_38, &mut attributes);
        self.emit_int8(0x8C);
        self.emit_operand_attr(dst.encoding, &src, &attributes, true);
    }

    /// `vmaskmovps dst, [src], mask, vector_len`
    pub fn vmaskmovps(&mut self, dst: XMMRegister, src: Address, mask: XMMRegister, vector_len: u8)
        requires
            dst.wf(),
            src.wf(),
            mask.wf(),
            ({
                let f = old(self).features;
                (f.use_avx > 0) && ({ let a1 = InstructionAttr::spec_new(f, vector_len, false, true, true, false); (vex_adr_ok(f, a1, mask.encoding, dst.encoding, src)) })
            }),
        ensures
            ({
                let f = old(self).features;
                final(self).appends(*old(self), ({ let a1 = InstructionAttr::spec_new(f, vector_len, false, true, true, false); vex_adr_bytes(f, a1, src, mask.encoding, dst.encoding, VEX_SIMD_66, VEX_OPCODE_0F_38) + ({ let a2 = vex_adr_attr(f, a1, mask.encoding, dst.encoding); seq![0x2C] + address_bytes(f, Some(a2), dst.encoding, src, true) }) }))
            }),
    {
        let mut attributes = InstructionAttr::new(&self.features, vector_len, false, true, true, false);
        self.vex_prefix(&src, mask.encoding, dst.encoding, VEX_SIMD_66, VEX_OPCODE_0F_38, &mut attributes);
        self.emit_int8(0x2C);
        self.emit_operand_attr(dst.encoding, &src, &attributes, true);
    }

    /// `vmaskmovpd dst, [src], mask, vector_len`
    pub fn vmaskmovpd(&mut self, dst: XMMRegister, src: Address, mask: XMMRegister, vector_len: u8)
        requires
            dst.wf(),
            src.wf(),
            mask.wf(),
            ({
                let f = old(self).features;
                (f.use_avx > 0) && ({ let a1 = InstructionAttr::spec_new(f, vector_len, false, true, true, false); (vex_adr_ok(f, a1, mask.encoding, dst.encoding, src)) })
            }),
        ensures
            ({
                let f = old(self).features;
                final(self).appends(*old(self), ({ let a1 = InstructionAttr::spec_new(f, vector_len, false, true, true, false); vex_adr_bytes(f, a1, src, mask.encoding, dst.encoding, VEX_SIMD_66, VEX_OPCODE_0F_38) + ({ let a2 = vex_adr_attr(f, a1, mask.encoding, dst.encoding); seq![0x2D] + address_bytes(f, Some(a2), dst.encoding, src, true) }) }))
            }),
    {
        let mut attributes = InstructionAttr::new(&self.features, vector_len, false, true, true, false);
        self.vex_prefix(&src, mask.encoding, dst.encoding, VEX_SIMD_66, VEX_OPCODE_0F_38, &mut attributes);
        self.emit_int8(0x2D);
        self.emit_operand_attr(dst.encoding, &src, &attributes, true);
    }

    /// `vmaskmovps [dst], src, mask, vector_len`
    pub fn vmaskmovps_mxx(&mut self, dst: Address, src: XMMRegister, mask: XMMRegister, vector_len: u8)
        requires
            dst.wf(),
            src.wf(),
            mask.wf(),
            ({
                let f = old(self).features;
                (f.use_avx > 0) && ({ let a1 = InstructionAttr::spec_new(f, vector_len, false, true, true, false); (vex_adr_ok(f, a1, mask.encoding, src.encoding, dst)) })
            }),
        ensures
            ({
                let f = old(self).features;
                final(self).appends(*old(self), ({ let a1 = InstructionAttr::spec_new(f, vector_len, false, true, true, false); vex_adr_bytes(f, a1, dst, mask.encoding, src.encoding, VEX_SIMD_66, VEX_OPCODE_0F_38) + ({ let a2 = vex_adr_attr(f, a1, mask.encoding, src.encoding); seq![0x2E] + address_bytes(f, Some(a2), src.encoding, dst, true) }) }))
            }),
    {
        let mut attributes = InstructionAttr::new(&self.features, vector_len, false, true, true, false);
        self.vex_prefix(&dst, mask.encoding, src.encoding, VEX_SIMD_66, VEX_OPCODE_0F_38, &mut attributes);
        self.emit_int8(0x2E);
        self.emit_operand_attr(src.encoding, &dst, &attributes, true);
    }

    /// `vmaskmovpd [dst], src, mask, vector_len`
    pub fn vmaskmovpd_mxx(&mut self, dst: Address, src: XMMRegister, mask: XMMRegister, vector_len: u8)
        requires
            dst.wf(),
            src.wf(),
            mask.wf(),
            ({
                let f = old(self).features;
                (f.use_avx > 0) && ({ let a1 = InstructionAttr::spec_new(f, vector_len, false, true, true, false); (vex_adr_ok(f, a1, mask.encoding, src.encoding, dst)) })
            }),
        ensures
            ({
                let f = old(self).features;
                final(self).appends(*old(self), ({ let a1 = InstructionAttr::spec_new(f, vector_len, false, true, true, false); vex_adr_bytes(f, a1, dst, mask.encoding, src.encoding, VEX_SIMD_66, VEX_OPCODE_0F_38) + ({ let a2 = vex_adr_attr(f, a1, mask.encoding, src.encoding); seq![0x2F] + address_bytes(f, Some(a2), src.encoding, dst, true) }) }))
            }),
    {
        let mut attributes = InstructionAttr::new(&self.features, vector_len, false, true, true, false);
        self.vex_prefix(&dst, mask.encoding, src.encoding, VEX_SIMD_66, VEX_OPCODE_0F_38, &mut attributes);
        self.emit_int8(0x2F);
        self.emit_operand_attr(src.encoding, &dst, &attributes, true);
    }

    /// `vpacksswb dst, nds, src, vector_len`
    pub fn vpacksswb(&mut self, dst: XMMRegister, nds: XMMRegister, src: XMMRegister, vector_len: u8)
        requires
            dst.wf(),
            nds.wf(),
            src.wf(),
            ({
                let f = old(self).features;
                (f.use_avx > 0) && ({ let a1 = InstructionAttr::spec_new(f, vector_len, false, f.legacy_mode_bw(), true, true); (vex_rr_ok(f, a1, dst.encoding, nds.encoding, src.encoding)) })
            }),
        ensures
            ({
                let f = old(self).features;
                final(self).appends(*old(self), ({ let a1 = InstructionAttr::spec_new(f, vector_len, false, f.legacy_mode_bw(), true, true); vex_rr_bytes(f, a1, dst.encoding, nds.encoding, src.encoding, VEX_SIMD_66, VEX_OPCODE_0F) + seq![0x63, (0xC0 | rr_bits(dst.encoding, src.encoding))] }))
            }),
    {
        let mut attributes = InstructionAttr::new(&self.features, vector_len, false, self.features.legacy_mode_bw(), true, true);
        let encode = self.vex_prefix_and_encode(dst.encoding, nds.encoding, src.encoding, VEX_SIMD_66, VEX_OPCODE_0F, &mut attributes);
        self.emit_int16(0x63, (0xC0 | encode));
    }

    /// `vpackssdw dst, nds, src, vector_len`
    pub fn vpackssdw(&mut self, dst: XMMRegister, nds: XMMRegister, src: XMMRegister, vector_len: u8)
        requires
            dst.wf(),
            nds.wf(),
            src.wf(),
            ({
                let f = old(self).features;
                (f.use_avx > 0) && ({ let a1 = InstructionAttr::spec_new(f, vector_len, false, f.legacy_mode_bw(), true, true); (vex_rr_ok(f, a1, dst.encoding, nds.encoding, src.encoding)) })
            }),
        ensures
            ({
                let f = old(self).features;
                final(self).appends(*old(self), ({ let a1 = InstructionAttr::spec_new(f, vector_len, false, f.legacy_mode_bw(), true, true); vex_rr_bytes(f, a1, dst.encoding, nds.encoding, src.encoding, VEX_SIMD_66, VEX_OPCODE_0F) + seq![0x6B, (0xC0 | rr_bits(dst.encoding, src.encoding))] }))
            }),
    {
        let mut attributes = InstructionAttr::new(&self.features, vector_len, false, self.features.legacy_mode_bw(), true, true);
        let encode = self.vex_prefix_and_encode(dst.encoding, nds.encoding, src.encoding, VEX_SIMD_66, VEX_OPCODE_0F, &mut attributes);
        self.emit_int16(0x6B, (0xC0 | encode));
    }

    /// `vpackuswb dst, nds, src, vector_len`
    pub fn vpackuswb(&mut self, dst: XMMRegister, nds: XMMRegister, src: XMMRegister, vector_len: u8)
        requires
            dst.wf(),
            nds.wf(),
            src.wf(),
            ({
                let f = old(self).features;
                (f.use_avx > 0) && ({ let a1 = InstructionAttr::spec_new(f, vector_len, false, f.legacy_mode_bw(), true, true); (vex_rr_ok(f, a1, dst.encoding, nds.encoding, src.encoding)) })
            }),
        ensures
            ({
                let f = old(self).features;
                final(self).appends(*old(self), ({ let a1 = InstructionAttr::spec_new(f, vector_len, false, f.legacy_mode_bw(), true, true); vex_rr_bytes(f, a1, dst.encoding, nds.encoding, src.encoding, VEX_SIMD_66, VEX_OPCODE_0F) + seq![0x67, (0xC0 | rr_bits(dst.encoding, src.encoding))] }))
            }),
    {
        let mut attributes = InstructionAttr::new(&self.features, vector_len, false, self.features.legacy_mode_bw(), true, true);
        let encode = self.vex_prefix_and_encode(dst.encoding, nds.encoding, src.encoding, VEX_SIMD_66, VEX_OPCODE_0F, &mut attributes);
        self.emit_int16(0x67, (0xC0 | encode));
    }

    /// `vpackusdw dst, nds, src, vector_len`
    pub fn vpackusdw(&mut self, dst: XMMRegister, nds: XMMRegister, src: XMMRegister, vector_len: u8)
        requires
            dst.wf(),
            nds.wf(),
            src.wf(),
            ({
                let f = old(self).features;
                (f.use_avx > 0) && ({ let a1 = InstructionAttr::spec_new(f, vector_len, false, f.legacy_mode_bw(), true, true); (vex_rr_ok(f, a1, dst.encoding, nds.encoding, src.encoding)) })
            }),
        ensures
            ({
                let f = old(self).features;
                final(self).appends(*old(self), ({ let a1 = InstructionAttr::spec_new(f, vector_len, false, f.legacy_mode_bw(), true, true); vex_rr_bytes(f, a1, dst.encoding, nds.encoding, src.encoding, VEX_SIMD_66, VEX_OPCODE_0F_38) + seq![0x2B, (0xC0 | rr_bits(dst.encoding, src.encoding))] }))
            }),
    {
        let mut attributes = InstructionAttr::new(&self.features, vector_len, false, self.features.legacy_mode_bw(), true, true);
        let encode = self.vex_prefix_and_encode(dst.encoding, nds.encoding, src.encoding, VEX_SIMD_66, VEX_OPCODE_0F_38, &mut attributes);
        self.emit_int16(0x2B, (0xC0 | encode));
    }

    /// `vpermq dst, src, imm8, vector_len`
    pub fn vpermq_xxi(&mut self, dst: XMMRegister, src: XMMRegister, imm8: i8, vector_len: u8)
        requires
            dst.wf(),
            src.wf(),
            ({
                let f = old(self).features;
                (f.supports_avx2()) && ((vector_len != AVX_128BIT) && ({ let a1 = InstructionAttr::spec_new(f, vector_len, true, false, true, true); (vex_rr_ok(f, a1, dst.encoding, 0, src.encoding)) }))
            }),
        ensures
            ({
                let f = old(self).features;
                final(self).appends(*old(self), ({ let a1 = InstructionAttr::spec_new(f, vector_len, true, false, true, true); vex_rr_bytes(f, a1, dst.encoding, 0, src.encoding, VEX_SIMD_66, VEX_OPCODE_0F_3A) + seq![0x00, (0xC0 | rr_bits(dst.encoding, src.encoding)), imm_byte(imm8)] }))
            }),
    {
        let mut attributes = InstructionAttr::new(&self.features, vector_len, true, false, true, true);
        let encode = self.vex_prefix_and_encode(dst.encoding, 0, src.encoding, VEX_SIMD_66, VEX_OPCODE_0F_3A, &mut attributes);
        self.emit_int24(0x00, (0xC0 | encode), imm_byte_exec(imm8));
    }

    /// `vpermd dst, nds, src, vector_len`
    pub fn vpermd(&mut self, dst: XMMRegister, nds: XMMRegister, src: XMMRegister, vector_len: u8)
        requires
            dst.wf(),
            nds.wf(),
            src.wf(),
            ({
                let f = old(self).features;
                (((vector_len == AVX_256BIT) && f.supports_avx2()) || ((vector_len == AVX_512BIT) && f.supports_evex())) && ({ let a1 = InstructionAttr::spec_new(f, vector_len, false, false, true, true); (vex_rr_ok(f, a1, dst.encoding, nds.encoding, src.encoding)) })
            }),
        ensures
            ({
                let f = old(self).features;
                final(self).appends(*old(self), ({ let a1 = InstructionAttr::spec_new(f, vector_len, false, false, true, true); vex_rr_bytes(f, a1, dst.encoding, nds.encoding, src.encoding, VEX_SIMD_66, VEX_OPCODE_0F_38) + seq![0x36, (0xC0 | rr_bits(dst.encoding, src.encoding))] }))
            }),
    {
        let mut attributes = InstructionAttr::new(&self.features, vector_len, false, false, true, true);
        let encode = self.vex_prefix_and_encode(dst.encoding, nds.encoding, src.encoding, VEX_SIMD_66, VEX_OPCODE_0F_38, &mut attributes);
        self.emit_int16(0x36, (0xC0 | encode));
    }

    /// `vpermd dst, nds, [src], vector_len`
    pub fn vpermd_xxm(&mut self, dst: XMMRegister, nds: XMMRegister, src: Address, vector_len: u8)
        requires
            dst.wf(),
            nds.wf(),
            src.wf(),
            ({
                let f = old(self).features;
                (((vector_len == AVX_256BIT) && f.supports_avx2()) || ((vector_len == AVX_512BIT) && f.supports_evex())) && ({ let a1 = InstructionAttr::spec_new(f, vector_len, false, false, true, true); (vex_adr_ok(f, a1, nds.encoding, dst.encoding, src)) })
            }),
        ensures
            ({
                let f = old(self).features;
                final(self).appends(*old(self), ({ let a1 = InstructionAttr::spec_new(f, vector_len, false, false, true, true); vex_adr_bytes(f, a1, src, nds.encoding, dst.encoding, VEX_SIMD_66, VEX_OPCODE_0F_38) + ({ let a2 = vex_adr_attr(f, a1, nds.encoding, dst.encoding); seq![0x36] + address_bytes(f, Some(a2), dst.encoding, src, true) }) }))
            }),
    {
        let mut attributes = InstructionAttr::new(&self.features, vector_len, false, false, true, true);
        self.vex_prefix(&src, nds.encoding, dst.encoding, VEX_SIMD_66, VEX_OPCODE_0F_38, &mut attributes);
        self.emit_int8(0x36);
        self.emit_operand_attr(dst.encoding, &src, &attributes, true);
    }

    /// `vpermps dst, nds, src, vector_len`
    pub fn vpermps(&mut self, dst: XMMRegister, nds: XMMRegister, src: XMMRegister, vector_len: u8)
        requires
            dst.wf(),
            nds.wf(),
            src.wf(),
            ({
                let f = old(self).features;
                (((vector_len == AVX_256BIT) && f.supports_avx2()) || ((vector_len == AVX_512BIT) && f.supports_evex())) && ({ let a1 = InstructionAttr::spec_new(f, vector_len, false, false, true, true); (vex_rr_ok(f, a1, dst.encoding, nds.encoding, src.encoding)) })
            }),
        ensures
            ({
                let f = old(self).features;
                final(self).appends(*old(self), ({ let a1 = InstructionAttr::spec_new(f, vector_len, false, false, true, true); vex_rr_bytes(f, a1, dst.encoding, nds.encoding, src.encoding, VEX_SIMD_66, VEX_OPCODE_0F_38) + seq![0x16, (0xC0 | rr_bits(dst.encoding, src.encoding))] }))
            }),
    {
        let mut attributes = InstructionAttr::new(&self.features, vector_len, false, false, true, true);
        let encode = self.vex_prefix_and_encode(dst.encoding, nds.encoding, src.encoding, VEX_SIMD_66, VEX_OPCODE_0F_38, &mut attributes);
        self.emit_int16(0x16, (0xC0 | encode));
    }

    /// `vperm2i128 dst, nds, src, imm8`
    pub fn vperm2i128(&mut self, dst: XMMRegister, nds: XMMRegister, src: XMMRegister, imm8: i8)
        requires
            dst.wf(),
            nds.wf(),
            src.wf(),
            ({
                let f = old(self).features;
                (f.supports_avx2()) && ({ let a1 = InstructionAttr::spec_new(f, AVX_256BIT, false, true, true, false); (vex_rr_ok(f, a1, dst.encoding, nds.encoding, src.encoding)) })
            }),
        ensures
            ({
                let f = old(self).features;
                final(self).appends(*old(self), ({ let a1 = InstructionAttr::spec_new(f, AVX_256BIT, false, true, true, false); vex_rr_bytes(f, a1, dst.encoding, nds.encoding, src.encoding, VEX_SIMD_66, VEX_OPCODE_0F_3A) + seq![0x46, (0xC0 | rr_bits(dst.encoding, src.encoding)), imm_byte(imm8)] }))
            }),
    {
        let mut attributes = InstructionAttr::new(&self.features, AVX_256BIT, false, true, true, false);
        let encode = self.vex_prefix_and_encode(dst.encoding, nds.encoding, src.encoding, VEX_SIMD_66, VEX_OPCODE_0F_3A, &mut attributes);
        self.emit_int24(0x46, (0xC0 | encode), imm_byte_exec(imm8));
    }

    /// `vperm2f128 dst, nds, src, imm8`
    pub fn vperm2f128(&mut self, dst: XMMRegister, nds: XMMRegister, src: XMMRegister, imm8: i8)
        requires
            dst.wf(),
            nds.wf(),
            src.wf(),
            ({
                let f = old(self).features;
                (f.supports_avx()) && ({ let a1 = InstructionAttr::spec_new(f, AVX_256BIT, false, true, true, false); (vex_rr_ok(f, a1, dst.encoding, nds.encoding, src.encoding)) })
            }),
        ensures
            ({
                let f = old(self).features;
                final(self).appends(*old(self), ({ let a1 = InstructionAttr::spec_new(f, AVX_256BIT, false, true, true, false); vex_rr_bytes(f, a1, dst.encoding, nds.encoding, src.encoding, VEX_SIMD_66, VEX_OPCODE_0F_3A) + seq![0x06, (0xC0 | rr_bits(dst.encoding, src.encoding)), imm_byte(imm8)] }))
            }),
    {
        let mut attributes = InstructionAttr::new(&self.features, AVX_256BIT, false, true, true, false);
        let encode = self.vex_prefix_and_encode(dst.encoding, nds.encoding, src.encoding, VEX_SIMD_66, VEX_OPCODE_0F_3A, &mut attributes);
        self.emit_int24(0x06, (0xC0 | encode), imm_byte_exec(imm8));
    }

    /// `vpermilps dst, src, imm8, vector_len`
    pub fn vpermilps_xxi(&mut self, dst: XMMRegister, src: XMMRegister, imm8: i8, vector_len: u8)
        requires
            dst.wf(),
            src.wf(),
            ({
                let f = old(self).features;
                (if (vector_len <= AVX_256BIT) { f.supports_avx() } else { f.supports_evex() }) && ({ let a1 = InstructionAttr::spec_new(f, vector_len, false, false, true, false); (vex_rr_ok(f, a1, dst.encoding, 0, src.encoding)) })
            }),
        ensures
            ({
                let f = old(self).features;
                final(self).appends(*old(self), ({ let a1 = InstructionAttr::spec_new(f, vector_len, false, false, true, false); vex_rr_bytes(f, a1, dst.encoding, 0, src.encoding, VEX_SIMD_66, VEX_OPCODE_0F_3A) + seq![0x04, (0xC0 | rr_bits(dst.encoding, src.encoding)), imm_byte(imm8)] }))
            }),
    {
        let mut attributes = InstructionAttr::new(&self.features, vector_len, false, false, true, false);
        let encode = self.vex_prefix_and_encode(dst.encoding, 0, src.encoding, VEX_SIMD_66, VEX_OPCODE_0F_3A, &mut attributes);
        self.emit_int24(0x04, (0xC0 | encode), imm_byte_exec(imm8));
    }

    /// `vpermilps dst, nds, src, vector_len`
    pub fn vpermilps(&mut self, dst: XMMRegister, nds: XMMRegister, src: XMMRegister, vector_len: u8)
        requires
            dst.wf(),
            nds.wf(),
            src.wf(),
            ({
                let f = old(self).features;
                (if (vector_len <= AVX_256BIT) { f.supports_avx() } else { f.supports_evex() }) && ({ let a1 = InstructionAttr::spec_new(f, vector_len, false, false, true, true); (vex_rr_ok(f, a1, dst.encoding, nds.encoding, src.encoding)) })
            }),
        ensures
            ({
                let f = old(self).features;
                final(self).appends(*old(self), ({ let a1 = InstructionAttr::spec_new(f, vector_len, false, false, true, true); vex_rr_bytes(f, a1, dst.encoding, nds.encoding, src.encoding, VEX_SIMD_66, VEX_OPCODE_0F_38) + seq![0x0C, (0xC0 | rr_bits(dst.encoding, src.encoding))] }))
            }),
    {
        let mut attributes = InstructionAttr::new(&self.features, vector_len, false, false, true, true);
        let encode = self.vex_prefix_and_encode(dst.encoding, nds.encoding, src.encoding, VEX_SIMD_66, VEX_OPCODE_0F_38, &mut attributes);
        self.emit_int16(0x0C, (0xC0 | encode));
    }

    /// `vpermilpd dst, src, imm8, vector_len`
    pub fn vpermilpd(&mut self, dst: XMMRegister, src: XMMRegister, imm8: i8, vector_len: u8)
        requires
            dst.wf(),
            src.wf(),
            ({
                let f = old(self).features;
                (if (vector_len <= AVX_256BIT) { f.supports_avx() } else { f.supports_evex() }) && ({ let a1 = InstructionAttr::spec_new(f, vector_len, f.supports_evex(), false, true, false); let a2 = a1.reverted(); (vex_rr_ok(f, a2, dst.encoding, 0, src.encoding)) })
            }),
        ensures
            ({
                let f = old(self).features;
                final(self).appends(*old(self), ({ let a1 = InstructionAttr::spec_new(f, vector_len, f.supports_evex(), false, true, false); let a2 = a1.reverted(); vex_rr_bytes(f, a2, dst.encoding, 0, src.encoding, VEX_SIMD_66, VEX_OPCODE_0F_3A) + seq![0x05, (0xC0 | rr_bits(dst.encoding, src.encoding)), imm_byte(imm8)] }))
            }),
    {
        let mut attributes = InstructionAttr::new(&self.features, vector_len, self.features.supports_evex(), false, true, false);
        attributes.set_rex_vex_w_reverted();
        let encode = self.vex_prefix_and_encode(dst.encoding, 0, src.encoding, VEX_SIMD_66, VEX_OPCODE_0F_3A, &mut attributes);
        self.emit_int24(0x05, (0xC0 | encode), imm_byte_exec(imm8));
    }

    /// `vpermpd dst, src, imm8, vector_len`
    pub fn vpermpd(&mut self, dst: XMMRegister, src: XMMRegister, imm8: i8, vector_len: u8)
        requires
            dst.wf(),
            src.wf(),
            ({
                let f = old(self).features;
                (if (vector_len <= AVX_256BIT) { f.supports_avx2() } else { f.supports_evex() }) && ({ let a1 = InstructionAttr::spec_new(f, vector_len, true, false, true, false); (vex_rr_ok(f, a1, dst.encoding, 0, src.encoding)) })
            }),
        ensures
            ({
                let f = old(self).features;
                final(self).appends(*old(self), ({ let a1 = InstructionAttr::spec_new(f, vector_len, true, false, true, false); vex_rr_bytes(f, a1, dst.encoding, 0, src.encoding, VEX_SIMD_66, VEX_OPCODE_0F_3A) + seq![0x01, (0xC0 | rr_bits(dst.encoding, src.encoding)), imm_byte(imm8)] }))
            }),
    {
        let mut attributes = InstructionAttr::new(&self.features, vector_len, true, false, true, false);
        let encode = self.vex_prefix_and_encode(dst.encoding, 0, src.encoding, VEX_SIMD_66, VEX_OPCODE_0F_3A, &mut attributes);
        self.emit_int24(0x01, (0xC0 | encode), imm_byte_exec(imm8));
    }

    /// `vpcmpCCbwd dst, nds, src, cond_encoding, vector_len`
    pub fn vpcmpCCbwd(&mut self, dst: XMMRegister, nds: XMMRegister, src: XMMRegister, cond_encoding: i32, vector_len: u8)
        requires
            dst.wf(),
            nds.wf(),
            src.wf(),
            ({
                let f = old(self).features;
                (if (vector_len == AVX_128BIT) { f.supports_avx() } else { f.supports_avx2() }) && ((vector_len <= AVX_256BIT) && ({ let a1 = InstructionAttr::spec_new(f, vector_len, false, true, true, false); (vex_rr_ok(f, a1, dst.encoding, nds.encoding, src.encoding)) }))
            }),
        ensures
            ({
                let f = old(self).features;
                final(self).appends(*old(self), ({ let a1 = InstructionAttr::spec_new(f, vector_len, false, true, true, false); vex_rr_bytes(f, a1, dst.encoding, nds.encoding, src.encoding, VEX_SIMD_66, VEX_OPCODE_0F) + seq![low8(cond_encoding), (0xC0 | rr_bits(dst.encoding, src.encoding))] }))
            }),
    {
        let mut attributes = InstructionAttr::new(&self.features, vector_len, false, true, true, false);
        let encode = self.vex_prefix_and_encode(dst.encoding, nds.encoding, src.encoding, VEX_SIMD_66, VEX_OPCODE_0F, &mut attributes);
        self.emit_int16(low8_exec(cond_encoding), (0xC0 | encode));
    }

    /// `vpcmpeqb dst, nds, src, vector_len`
    pub fn vpcmpeqb(&mut self, dst: XMMRegister, nds: XMMRegister, src: XMMRegister, vector_len: u8)
        requires
            dst.wf(),
            nds.wf(),
            src.wf(),
            ({
                let f = old(self).features;
                (if (vector_len == AVX_128BIT) { f.supports_avx() } else { f.supports_avx2() }) && ((vector_len <= AVX_256BIT) && ({ let a1 = InstructionAttr::spec_new(f, vector_len, false, true, true, false); (vex_rr_ok(f, a1, dst.encoding, nds.encoding, src.encoding)) }))
            }),
        ensures
            ({
                let f = old(self).features;
                final(self).appends(*old(self), ({ let a1 = InstructionAttr::spec_new(f, vector_len, false, true, true, false); vex_rr_bytes(f, a1, dst.encoding, nds.encoding, src.encoding, VEX_SIMD_66, VEX_OPCODE_0F) + seq![0x74, (0xC0 | rr_bits(dst.encoding, src.encoding))] }))
            }),
    {
        let mut attributes = InstructionAttr::new(&self.features, vector_len, false, true, true, false);
        let encode = self.vex_prefix_and_encode(dst.encoding, nds.encoding, src.encoding, VEX_SIMD_66, VEX_OPCODE_0F, &mut attributes);
        self.emit_int16(0x74, (0xC0 | encode));
    }

    /// `vpcmpeqw dst, nds, src, vector_len`
    pub fn vpcmpeqw(&mut self, dst: XMMRegister, nds: XMMRegister, src: XMMRegister, vector_len: u8)
        requires
            dst.wf(),
            nds.wf(),
            src.wf(),
            ({
                let f = old(self).features;
                (if (vector_len == AVX_128BIT) { f.supports_avx() } else { f.supports_avx2() }) && ((vector_len <= AVX_256BIT) && ({ let a1 = InstructionAttr::spec_new(f, vector_len, false, true, true, false); (vex_rr_ok(f, a1, dst.encoding, nds.encoding, src.encoding)) }))
            }),
        ensures
            ({
                let f = old(self).features;
                final(self).appends(*old(self), ({ let a1 = InstructionAttr::spec_new(f, vector_len, false, true, true, false); vex_rr_bytes(f, a1, dst.encoding, nds.encoding, src.encoding, VEX_SIMD_66, VEX_OPCODE_0F) + seq![0x75, (0xC0 | rr_bits(dst.encoding, src.encoding))] }))
            }),
    {
        let mut attributes = InstructionAttr::new(&self.features, vector_len, false, true, true, false);
        let encode = self.vex_prefix_and_encode(dst.encoding, nds.encoding, src.encoding, VEX_SIMD_66, VEX_OPCODE_0F, &mut attributes);
        self.emit_int16(0x75, (0xC0 | encode));
    }

    /// `vpcmpeqd dst, nds, src, vector_len`
    pub fn vpcmpeqd(&mut self, dst: XMMRegister, nds: XMMRegister, src: XMMRegister, vector_len: u8)
        requires
            dst.wf(),
            nds.wf(),
            src.wf(),
            ({
                let f = old(self).features;
                (if (vector_len == AVX_128BIT) { f.supports_avx() } else { f.supports_avx2() }) && ((vector_len <= AVX_256BIT) && ({ let a1 = InstructionAttr::spec_new(f, vector_len, false, true, true, false); (vex_rr_ok(f, a1, dst.encoding, nds.encoding, src.encoding)) }))
            }),
        ensures
            ({
                let f = old(self).features;
                final(self).appends(*old(self), ({ let a1 = InstructionAttr::spec_new(f, vector_len, false, true, true, false); vex_rr_bytes(f, a1, dst.encoding, nds.encoding, src.encoding, VEX_SIMD_66, VEX_OPCODE_0F) + seq![0x76, (0xC0 | rr_bits(dst.encoding, src.encoding))] }))
            }),
    {
        let mut attributes = InstructionAttr::new(&self.features, vector_len, false, true, true, false);
        let encode = self.vex_prefix_and_encode(dst.encoding, nds.encoding, src.encoding, VEX_SIMD_66, VEX_OPCODE_0F, &mut attributes);
        self.emit_int16(0x76, (0xC0 | encode));
    }

    /// `vpcmpCCq dst, nds, src, cond_encoding, vector_len`
    pub fn vpcmpCCq(&mut self, dst: XMMRegister, nds: XMMRegister, src: XMMRegister, cond_encoding: i32, vector_len: u8)
        requires
            dst.wf(),
            nds.wf(),
            src.wf(),
            ({
                let f = old(self).features;
                (f.supports_avx()) && ({ let a1 = InstructionAttr::spec_new(f, vector_len, false, true, true, false); (vex_rr_ok(f, a1, dst.encoding, nds.encoding, src.encoding)) })
            }),
        ensures
            ({
                let f = old(self).features;
                final(self).appends(*old(self), ({ let a1 = InstructionAttr::spec_new(f, vector_len, false, true, true, false); vex_rr_bytes(f, a1, dst.encoding, nds.encoding, src.encoding, VEX_SIMD_66, VEX_OPCODE_0F_38) + seq![low8(cond_encoding), (0xC0 | rr_bits(dst.encoding, src.encoding))] }))
            }),
    {
        let mut attributes = InstructionAttr::new(&self.features, vector_len, false, true, true, false);
        let encode = self.vex_prefix_and_encode(dst.encoding, nds.encoding, src.encoding, VEX_SIMD_66, VEX_OPCODE_0F_38, &mut attributes);
        self.emit_int16(low8_exec(cond_encoding), (0xC0 | encode));
    }

    /// `vpcmpeqq dst, nds, src, vector_len`
    pub fn vpcmpeqq(&mut self, dst: XMMRegister, nds: XMMRegister, src: XMMRegister, vector_len: u8)
        requires
            dst.wf(),
            nds.wf(),
            src.wf(),
            ({
                let f = old(self).features;
                (f.supports_avx()) && ({ let a1 = InstructionAttr::spec_new(f, vector_len, false, true, true, false); (vex_rr_ok(f, a1, dst.encoding, nds.encoding, src.encoding)) })
            }),
        ensures
            ({
                let f = old(self).features;
                final(self).appends(*old(self), ({ let a1 = InstructionAttr::spec_new(f, vector_len, false, true, true, false); vex_rr_bytes(f, a1, dst.encoding, nds.encoding, src.encoding, VEX_SIMD_66, VEX_OPCODE_0F_38) + seq![0x29, (0xC0 | rr_bits(dst.encoding, src.encoding))] }))
            }),
    {
        let mut attributes = InstructionAttr::new(&self.features, vector_len, false, true, true, false);
        let encode = self.vex_prefix_and_encode(dst.encoding, nds.encoding, src.encoding, VEX_SIMD_66, VEX_OPCODE_0F_38, &mut attributes);
        self.emit_int16(0x29, (0xC0 | encode));
    }

    /// `vpmovmskb dst, src, vec_enc`
    pub fn vpmovmskb(&mut self, dst: Register, src: XMMRegister, vec_enc: u8)
        requires
            dst.wf(),
            src.wf(),
            ({
                let f = old(self).features;
                ((f.supports_avx() && (vec_enc == AVX_128BIT)) || (f.supports_avx2() && (vec_enc == AVX_256BIT))) && ({ let a1 = InstructionAttr::spec_new(f, vec_enc, false, true, true, false); (vex_rr_ok(f, a1, dst.encoding, 0, src.encoding)) })
            }),
        ensures
            ({
                let f = old(self).features;
                final(self).appends(*old(self), ({ let a1 = InstructionAttr::spec_new(f, vec_enc, false, true, true, false); vex_rr_bytes(f, a1, dst.encoding, 0, src.encoding, VEX_SIMD_66, VEX_OPCODE_0F) + seq![0xD7, (0xC0 | rr_bits(dst.encoding, src.encoding))] }))
            }),
    {
        let mut attributes = InstructionAttr::new(&self.features, vec_enc, false, true, true, false);
        let encode = self.vex_prefix_and_encode(dst.encoding, 0, src.encoding, VEX_SIMD_66, VEX_OPCODE_0F, &mut attributes);
        self.emit_int16(0xD7, (0xC0 | encode));
    }

    /// `vmovmskps dst, src, vec_enc`
    pub fn vmovmskps(&mut self, dst: Register, src: XMMRegister, vec_enc: u8)
        requires
            dst.wf(),
            src.wf(),
            ({
                let f = old(self).features;
                (f.supports_avx()) && ({ let a1 = InstructionAttr::spec_new(f, vec_enc, false, true, true, false); (vex_rr_ok(f, a1, dst.encoding, 0, src.encoding)) })
            }),
        ensures
            ({
                let f = old(self).features;
                final(self).appends(*old(self), ({ let a1 = InstructionAttr::spec_new(f, vec_enc, false, true, true, false); vex_rr_bytes(f, a1, dst.encoding, 0, src.encoding, VEX_SIMD_NONE, VEX_OPCODE_0F) + seq![0x50, (0xC0 | rr_bits(dst.encoding, src.encoding))] }))
            }),
    {
        let mut attributes = InstructionAttr::new(&self.features, vec_enc, false, true, true, false);
        let encode = self.vex_prefix_and_encode(dst.encoding, 0, src.encoding, VEX_SIMD_NONE, VEX_OPCODE_0F, &mut attributes);
        self.emit_int16(0x50, (0xC0 | encode));
    }

    /// `vmovmskpd dst, src, vec_enc`
    pub fn vmovmskpd(&mut self, dst: Register, src: XMMRegister, vec_enc: u8)
        requires
            dst.wf(),
            src.wf(),
            ({
                let f = old(self).features;
                (f.supports_avx()) && ({ let a1 = InstructionAttr::spec_new(f, vec_enc, true, true, true, false); (vex_rr_ok(f, a1, dst.encoding, 0, src.encoding)) })
            }),
        ensures
            ({
                let f = old(self).features;
                final(self).appends(*old(self), ({ let a1 = InstructionAttr::spec_new(f, vec_enc, true, true, true, false); vex_rr_bytes(f, a1, dst.encoding, 0, src.encoding, VEX_SIMD_66, VEX_OPCODE_0F) + seq![0x50, (0xC0 | rr_bits(dst.encoding, src.encoding))] }))
            }),
    {
        let mut attributes = InstructionAttr::new(&self.features, vec_enc, true, true, true, false);
        let encode = self.vex_prefix_and_encode(dst.encoding, 0, src.encoding, VEX_SIMD_66, VEX_OPCODE_0F, &mut attributes);
        self.emit_int16(0x50, (0xC0 | encode));
    }

    /// `vpinsrd dst, nds, src, imm8`
    pub fn vpinsrd(&mut self, dst: XMMRegister, nds: XMMRegister, src: Register, imm8: i8)
        requires
            dst.wf(),
            nds.wf(),
            src.wf(),
            ({
                let f = old(self).features;
                (f.supports_avx()) && ({ let a1 = InstructionAttr::spec_new(f, AVX_128BIT, false, f.legacy_mode_dq(), true, false); (vex_rr_ok(f, a1, dst.encoding, nds.encoding, src.encoding)) })
            }),
        ensures
            ({
                let f = old(self).features;
                final(self).appends(*old(self), ({ let a1 = InstructionAttr::spec_new(f, AVX_128BIT, false, f.legacy_mode_dq(), true, false); vex_rr_bytes(f, a1, dst.encoding, nds.encoding, src.encoding, VEX_SIMD_66, VEX_OPCODE_0F_3A) + seq![0x22, (0xC0 | rr_bits(dst.encoding, src.encoding)), imm_byte(imm8)] }))
            }),
    {
        let mut attributes = InstructionAttr::new(&self.features, AVX_128BIT, false, self.features.legacy_mode_dq(), true, false);
        let encode = self.vex_prefix_and_encode(dst.encoding, nds.encoding, src.encoding, VEX_SIMD_66, VEX_OPCODE_0F_3A, &mut attributes);
        self.emit_int24(0x22, (0xC0 | encode), imm_byte_exec(imm8));
    }

    /// `vpinsrq dst, nds, src, imm8`
    pub fn vpinsrq(&mut self, dst: XMMRegister, nds: XMMRegister, src: Register, imm8: i8)
        requires
            dst.wf(),
            nds.wf(),
            src.wf(),
            ({
                let f = old(self).features;
                (f.supports_avx()) && ({ let a1 = InstructionAttr::spec_new(f, AVX_128BIT, true, f.legacy_mode_dq(), true, false); (vex_rr_ok(f, a1, dst.encoding, nds.encoding, src.encoding)) })
            }),
        ensures
            ({
                let f = old(self).features;
                final(self).appends(*old(self), ({ let a1 = InstructionAttr::spec_new(f, AVX_128BIT, true, f.legacy_mode_dq(), true, false); vex_rr_bytes(f, a1, dst.encoding, nds.encoding, src.encoding, VEX_SIMD_66, VEX_OPCODE_0F_3A) + seq![0x22, (0xC0 | rr_bits(dst.encoding, src.encoding)), imm_byte(imm8)] }))
            }),
    {
        let mut attributes = InstructionAttr::new(&self.features, AVX_128BIT, true, self.features.legacy_mode_dq(), true, false);
        let encode = self.vex_prefix_and_encode(dst.encoding, nds.encoding, src.encoding, VEX_SIMD_66, VEX_OPCODE_0F_3A, &mut attributes);
        self.emit_int24(0x22, (0xC0 | encode), imm_byte_exec(imm8));
    }

    /// `vpinsrw dst, nds, src, imm8`
    pub fn vpinsrw(&mut self, dst: XMMRegister, nds: XMMRegister, src: Register, imm8: i8)
        requires
            dst.wf(),
            nds.wf(),
            src.wf(),
            ({
                let f = old(self).features;
                (f.supports_avx()) && ({ let a1 = InstructionAttr::spec_new(f, AVX_128BIT, false, f.legacy_mode_bw(), true, false); (vex_rr_ok(f, a1, dst.encoding, nds.encoding, src.encoding)) })
            }),
        ensures
            ({
                let f = old(self).features;
                final(self).appends(*old(self), ({ let a1 = InstructionAttr::spec_new(f, AVX_128BIT, false, f.legacy_mode_bw(), true, false); vex_rr_bytes(f, a1, dst.encoding, nds.encoding, src.encoding, VEX_SIMD_66, VEX_OPCODE_0F) + seq![0xC4, (0xC0 | rr_bits(dst.encoding, src.encoding)), imm_byte(imm8)] }))
            }),
    {
        let mut attributes = InstructionAttr::new(&self.features, AVX_128BIT, false, self.features.legacy_mode_bw(), true, false);
        let encode = self.vex_prefix_and_encode(dst.encoding, nds.encoding, src.encoding, VEX_SIMD_66, VEX_OPCODE_0F, &mut attributes);
        self.emit_int24(0xC4, (0xC0 | encode), imm_byte_exec(imm8));
    }

    /// `vpinsrb dst, nds, src, imm8`
    pub fn vpinsrb(&mut self, dst: XMMRegister, nds: XMMRegister, src: Register, imm8: i8)
        requires
            dst.wf(),
            nds.wf(),
            src.wf(),
            ({
                let f = old(self).features;
                (f.supports_avx()) && ({ let a1 = InstructionAttr::spec_new(f, AVX_128BIT, false, f.legacy_mode_bw(), true, false); (vex_rr_ok(f, a1, dst.encoding, nds.encoding, src.encoding)) })
            }),
        ensures
            ({
                let f = old(self).features;
                final(self).appends(*old(self), ({ let a1 = InstructionAttr::spec_new(f, AVX_128BIT, false, f.legacy_mode_bw(), true, false); vex_rr_bytes(f, a1, dst.encoding, nds.encoding, src.encoding, VEX_SIMD_66, VEX_OPCODE_0F_3A) + seq![0x20, (0xC0 | rr_bits(dst.encoding, src.encoding)), imm_byte(imm8)] }))
            }),
    {
        let mut attributes = InstructionAttr::new(&self.features, AVX_128BIT, false, self.features.legacy_mode_bw(), true, false);
        let encode = self.vex_prefix_and_encode(dst.encoding, nds.encoding, src.encoding, VEX_SIMD_66, VEX_OPCODE_0F_3A, &mut attributes);
        self.emit_int24(0x20, (0xC0 | encode), imm_byte_exec(imm8));
    }

    /// `vinsertps dst, nds, src, imm8`
    pub fn vinsertps(&mut self, dst: XMMRegister, nds: XMMRegister, src: XMMRegister, imm8: i8)
        requires
            dst.wf(),
            nds.wf(),
            src.wf(),
            ({
                let f = old(self).features;
                (f.supports_avx()) && ({ let a1 = InstructionAttr::spec_new(f, AVX_128BIT, false, false, true, false); (vex_rr_ok(f, a1, dst.encoding, nds.encoding, src.encoding)) })
            }),
        ensures
            ({
                let f = old(self).features;
                final(self).appends(*old(self), ({ let a1 = InstructionAttr::spec_new(f, AVX_128BIT, false, false, true, false); vex_rr_bytes(f, a1, dst.encoding, nds.encoding, src.encoding, VEX_SIMD_66, VEX_OPCODE_0F_3A) + seq![0x21, (0xC0 | rr_bits(dst.encoding, src.encoding)), imm_byte(imm8)] }))
            }),
    {
        let mut attributes = InstructionAttr::new(&self.features, AVX_128BIT, false, false, true, false);
        let encode = self.vex_prefix_and_encode(dst.encoding, nds.encoding, src.encoding, VEX_SIMD_66, VEX_OPCODE_0F_3A, &mut attributes);
        self.emit_int24(0x21, (0xC0 | encode), imm_byte_exec(imm8));
    }

    /// `vpmovzxbw dst, [src], vector_len`
    pub fn vpmovzxbw_xm(&mut self, dst: XMMRegister, src: Address, vector_len: u8)
        requires
            dst.wf(),
            src.wf(),
            ({
                let f = old(self).features;
                (f.supports_avx()) && ({ let a1 = InstructionAttr::spec_new(f, vector_len, false, f.legacy_mode_bw(), true, true); let a2 = a1.with_address(f, EVEX_HVM, EVEX_NOBIT); (vex_adr_ok(f, a2, 0, dst.encoding, src)) })
            }),
        ensures
            ({
                let f = old(self).features;
                final(self).appends(*old(self), ({ let a1 = InstructionAttr::spec_new(f, vector_len, false, f.legacy_mode_bw(), true, true); let a2 = a1.with_address(f, EVEX_HVM, EVEX_NOBIT); vex_adr_bytes(f, a2, src, 0, dst.encoding, VEX_SIMD_66, VEX_OPCODE_0F_38) + ({ let a3 = vex_adr_attr(f, a2, 0, dst.encoding); seq![0x30] + address_bytes(f, Some(a3), dst.encoding, src, true) }) }))
            }),
    {
        let mut attributes = InstructionAttr::new(&self.features, vector_len, false, self.features.legacy_mode_bw(), true, true);
        attributes.set_address_attributes(&self.features, EVEX_HVM, EVEX_NOBIT);
        self.vex_prefix(&src, 0, dst.encoding, VEX_SIMD_66, VEX_OPCODE_0F_38, &mut attributes);
        self.emit_int8(0x30);
        self.emit_operand_attr(dst.encoding, &src, &attributes, true);
    }

    /// `vpmovzxbw dst, src, vector_len`
    pub fn vpmovzxbw(&mut self, dst: XMMRegister, src: XMMRegister, vector_len: u8)
        requires
            dst.wf(),
            src.wf(),
            ({
                let f = old(self).features;
                (if (vector_len == AVX_128BIT) { f.supports_avx() } else { (if (vector_len == AVX_256BIT) { f.supports_avx2() } else { (if (vector_len == AVX_512BIT) { f.supports_avx512bw() } else { false }) }) }) && ({ let a1 = InstructionAttr::spec_new(f, vector_len, false, f.legacy_mode_bw(), true, true); (vex_rr_ok(f, a1, dst.encoding, 0, src.encoding)) })
            }),
        ensures
            ({
                let f = old(self).features;
                final(self).appends(*old(self), ({ let a1 = InstructionAttr::spec_new(f, vector_len, false, f.legacy_mode_bw(), true, true); vex_rr_bytes(f, a1, dst.encoding, 0, src.encoding, VEX_SIMD_66, VEX_OPCODE_0F_38) + seq![0x30, (0xC0 | rr_bits(dst.encoding, src.encoding))] }))
            }),
    {
        let mut attributes = InstructionAttr::new(&self.features, vector_len, false, self.features.legacy_mode_bw(), true, true);
        let encode = self.vex_prefix_and_encode(dst.encoding, 0, src.encoding, VEX_SIMD_66, VEX_OPCODE_0F_38, &mut attributes);
        self.emit_int16(0x30, (0xC0 | encode));
    }

    /// `vpmovzxwd dst, src, vector_len`
    pub fn vpmovzxwd(&mut self, dst: XMMRegister, src: XMMRegister, vector_len: u8)
        requires
            dst.wf(),
            src.wf(),
            ({
                let f = old(self).features;
                (if (vector_len == AVX_128BIT) { f.supports_avx() } else { (if (vector_len == AVX_256BIT) { f.supports_avx2() } else { (if (vector_len == AVX_512BIT) { f.supports_evex() } else { false }) }) }) && ({ let a1 = InstructionAttr::spec_new(f, vector_len, false, false, true, true); (vex_rr_ok(f, a1, dst.encoding, 0, src.encoding)) })
            }),
        ensures
            ({
                let f = old(self).features;
                final(self).appends(*old(self), ({ let a1 = InstructionAttr::spec_new(f, vector_len, false, false, true, true); vex_rr_bytes(f, a1, dst.encoding, 0, src.encoding, VEX_SIMD_66, VEX_OPCODE_0F_38) + seq![0x33, (0xC0 | rr_bits(dst.encoding, src.encoding))] }))
            }),
    {
        let mut attributes = InstructionAttr::new(&self.features, vector_len, false, false, true, true);
        let encode = self.vex_prefix_and_encode(dst.encoding, 0, src.encoding, VEX_SIMD_66, VEX_OPCODE_0F_38, &mut attributes);
        self.emit_int16(0x33, (0xC0 | encode));
    }

    /// `vpmovzxwq dst, src, vector_len`
    pub fn vpmovzxwq(&mut self, dst: XMMRegister, src: XMMRegister, vector_len: u8)
        requires
            dst.wf(),
            src.wf(),
            ({
                let f = old(self).features;
                (if (vector_len == AVX_128BIT) { f.supports_avx() } else { (if (vector_len == AVX_256BIT) { f.supports_avx2() } else { (if (vector_len == AVX_512BIT) { f.supports_evex() } else { false }) }) }) && ({ let a1 = InstructionAttr::spec_new(f, vector_len, false, false, true, true); (vex_rr_ok(f, a1, dst.encoding, 0, src.encoding)) })
            }),
        ensures
            ({
                let f = old(self).features;
                final(self).appends(*old(self), ({ let a1 = InstructionAttr::spec_new(f, vector_len, false, false, true, true); vex_rr_bytes(f, a1, dst.encoding, 0, src.encoding, VEX_SIMD_66, VEX_OPCODE_0F_38) + seq![0x34, (0xC0 | rr_bits(dst.encoding, src.encoding))] }))
            }),
    {
        let mut attributes = InstructionAttr::new(&self.features, vector_len, false, false, true, true);
        let encode = self.vex_prefix_and_encode(dst.encoding, 0, src.encoding, VEX_SIMD_66, VEX_OPCODE_0F_38, &mut attributes);
        self.emit_int16(0x34, (0xC0 | encode));
    }

    /// `vshufpd dst, nds, src, imm8, vector_len`
    pub fn vshufpd(&mut self, dst: XMMRegister, nds: XMMRegister, src: XMMRegister, imm8: i8, vector_len: u8)
        requires
            dst.wf(),
            nds.wf(),
            src.wf(),
            ({
                let f = old(self).features;
                ({ let a1 = InstructionAttr::spec_new(f, vector_len, f.supports_evex(), false, true, true); let a2 = a1.reverted(); (vex_rr_ok(f, a2, dst.encoding, nds.encoding, src.encoding)) })
            }),
        ensures
            ({
                let f = old(self).features;
                final(self).appends(*old(self), ({ let a1 = InstructionAttr::spec_new(f, vector_len, f.supports_evex(), false, true, true); let a2 = a1.reverted(); vex_rr_bytes(f, a2, dst.encoding, nds.encoding, src.encoding, VEX_SIMD_66, VEX_OPCODE_0F) + seq![0xC6, (0xC0 | rr_bits(dst.encoding, src.encoding)), imm_byte(imm8)] }))
            }),
    {
        let mut attributes = InstructionAttr::new(&self.features, vector_len, self.features.supports_evex(), false, true, true);
        attributes.set_rex_vex_w_reverted();
        let encode = self.vex_prefix_and_encode(dst.encoding, nds.encoding, src.encoding, VEX_SIMD_66, VEX_OPCODE_0F, &mut attributes);
        self.emit_int24(0xC6, (0xC0 | encode), imm_byte_exec(imm8));
    }

    /// `vshufps dst, nds, src, imm8, vector_len`
    pub fn vshufps(&mut self, dst: XMMRegister, nds: XMMRegister, src: XMMRegister, imm8: i8, vector_len: u8)
        requires
            dst.wf(),
            nds.wf(),
            src.wf(),
            ({
                let f = old(self).features;
                ({ let a1 = InstructionAttr::spec_new(f, vector_len, false, false, true, true); (vex_rr_ok(f, a1, dst.encoding, nds.encoding, src.encoding)) })
            }),
        ensures
            ({
                let f = old(self).features;
                final(self).appends(*old(self), ({ let a1 = InstructionAttr::spec_new(f, vector_len, false, false, true, true); vex_rr_bytes(f, a1, dst.encoding, nds.encoding, src.encoding, VEX_SIMD_NONE, VEX_OPCODE_0F) + seq![0xC6, (0xC0 | rr_bits(dst.encoding, src.encoding)), imm_byte(imm8)] }))
            }),
    {
        let mut attributes = InstructionAttr::new(&self.features, vector_len, false, false, true, true);
        let encode = self.vex_prefix_and_encode(dst.encoding, nds.encoding, src.encoding, VEX_SIMD_NONE, VEX_OPCODE_0F, &mut attributes);
        self.emit_int24(0xC6, (0xC0 | encode), imm_byte_exec(imm8));
    }

    /// `vpsrldq dst, src, shift, vector_len`
    pub fn vpsrldq(&mut self, dst: XMMRegister, src: XMMRegister, shift: i32, vector_len: u8)
        requires
            dst.wf(),
            src.wf(),
            ({
                let f = old(self).features;
                (if (vector_len == AVX_128BIT) { f.supports_avx() } else { (if (vector_len == AVX_256BIT) { f.supports_avx2() } else { (if (vector_len == AVX_512BIT) { f.supports_avx512bw() } else { false }) }) }) && ({ let a1 = InstructionAttr::spec_new(f, vector_len, false, f.legacy_mode_bw(), true, true); (vex_rr_ok(f, a1, 3, dst.encoding, src.encoding)) })
            }),
        ensures
            ({
                let f = old(self).features;
                final(self).appends(*old(self), ({ let a1 = InstructionAttr::spec_new(f, vector_len, false, f.legacy_mode_bw(), true, true); vex_rr_bytes(f, a1, 3, dst.encoding, src.encoding, VEX_SIMD_66, VEX_OPCODE_0F) + seq![0x73, (0xC0 | rr_bits(3, src.encoding)), low8(shift)] }))
            }),
    {
        let mut attributes = InstructionAttr::new(&self.features, vector_len, false, self.features.legacy_mode_bw(), true, true);
        let encode = self.vex_prefix_and_encode(3, dst.encoding, src.encoding, VEX_SIMD_66, VEX_OPCODE_0F, &mut attributes);
        self.emit_int24(0x73, (0xC0 | encode), low8_exec(shift));
    }

    /// `vpslldq dst, src, shift, vector_len`
    pub fn vpslldq(&mut self, dst: XMMRegister, src: XMMRegister, shift: i32, vector_len: u8)
        requires
            dst.wf(),
            src.wf(),
            ({
                let f = old(self).features;
                (if (vector_len == AVX_128BIT) { f.supports_avx() } else { (if (vector_len == AVX_256BIT) { f.supports_avx2() } else { (if (vector_len == AVX_512BIT) { f.supports_avx512bw() } else { false }) }) }) && ({ let a1 = InstructionAttr::spec_new(f, vector_len, false, f.legacy_mode_bw(), true, true); (vex_rr_ok(f, a1, 7, dst.encoding, src.encoding)) })
            }),
        ensures
            ({
                let f = old(self).features;
                final(self).appends(*old(self), ({ let a1 = InstructionAttr::spec_new(f, vector_len, false, f.legacy_mode_bw(), true, true); vex_rr_bytes(f, a1, 7, dst.encoding, src.encoding, VEX_SIMD_66, VEX_OPCODE_0F) + seq![0x73, (0xC0 | rr_bits(7, src.encoding)), low8(shift)] }))
            }),
    {
        let mut attributes = InstructionAttr::new(&self.features, vector_len, false, self.features.legacy_mode_bw(), true, true);
        let encode = self.vex_prefix_and_encode(7, dst.encoding, src.encoding, VEX_SIMD_66, VEX_OPCODE_0F, &mut attributes);
        self.emit_int24(0x73, (0xC0 | encode), low8_exec(shift));
    }

    /// `vptest dst, [src]`
    pub fn vptest_xm(&mut self, dst: XMMRegister, src: Address)
        requires
            dst.wf(),
            src.wf(),
            ({
                let f = old(self).features;
                (f.supports_avx()) && ({ let a1 = InstructionAttr::spec_new(f, AVX_256BIT, false, true, true, false); (vex_adr_ok(f, a1, 0, dst.encoding, src)) })
            }),
        ensures
            ({
                let f = old(self).features;
                final(self).appends(*old(self), ({ let a1 = InstructionAttr::spec_new(f, AVX_256BIT, false, true, true, false); vex_adr_bytes(f, a1, src, 0, dst.encoding, VEX_SIMD_66, VEX_OPCODE_0F_38) + ({ let a2 = vex_adr_attr(f, a1, 0, dst.encoding); seq![0x17] + address_bytes(f, Some(a2), dst.encoding, src, true) }) }))
            }),
    {
        let mut attributes = InstructionAttr::new(&self.features, AVX_256BIT, false, true, true, false);
        self.vex_prefix(&src, 0, dst.encoding, VEX_SIMD_66, VEX_OPCODE_0F_38, &mut attributes);
        self.emit_int8(0x17);
        self.emit_operand_attr(dst.encoding, &src, &attributes, true);
    }

    /// `vptest dst, src`
    pub fn vptest(&mut self, dst: XMMRegister, src: XMMRegister)
        requires
            dst.wf(),
            src.wf(),
            ({
                let f = old(self).features;
                (f.supports_avx()) && ({ let a1 = InstructionAttr::spec_new(f, AVX_256BIT, false, true, true, false); (vex_rr_ok(f, a1, dst.encoding, 0, src.encoding)) })
            }),
        ensures
            ({
                let f = old(self).features;
                final(self).appends(*old(self), ({ let a1 = InstructionAttr::spec_new(f, AVX_256BIT, false, true, true, false); vex_rr_bytes(f, a1, dst.encoding, 0, src.encoding, VEX_SIMD_66, VEX_OPCODE_0F_38) + seq![0x17, (0xC0 | rr_bits(dst.encoding, src.encoding))] }))
            }),
    {
        let mut attributes = InstructionAttr::new(&self.features, AVX_256BIT, false, true, true, false);
        let encode = self.vex_prefix_and_encode(dst.encoding, 0, src.encoding, VEX_SIMD_66, VEX_OPCODE_0F_38, &mut attributes);
        self.emit_int16(0x17, (0xC0 | encode));
    }

    /// `vptest dst, src, vector_len`
    pub fn vptest_xx(&mut self, dst: XMMRegister, src: XMMRegister, vector_len: u8)
        requires
            dst.wf(),
            src.wf(),
            ({
                let f = old(self).features;
                (f.supports_avx()) && ({ let a1 = InstructionAttr::spec_new(f, vector_len, false, true, true, false); (vex_rr_ok(f, a1, dst.encoding, 0, src.encoding)) })
            }),
        ensures
            ({
                let f = old(self).features;
                final(self).appends(*old(self), ({ let a1 = InstructionAttr::spec_new(f, vector_len, false, true, true, false); vex_rr_bytes(f, a1, dst.encoding, 0, src.encoding, VEX_SIMD_66, VEX_OPCODE_0F_38) + seq![0x17, (0xC0 | rr_bits(dst.encoding, src.encoding))] }))
            }),
    {
        let mut attributes = InstructionAttr::new(&self.features, vector_len, false, true, true, false);
        let encode = self.vex_prefix_and_encode(dst.encoding, 0, src.encoding, VEX_SIMD_66, VEX_OPCODE_0F_38, &mut attributes);
        self.emit_int16(0x17, (0xC0 | encode));
    }

    /// `vtestps dst, src, vector_len`
    pub fn vtestps(&mut self, dst: XMMRegister, src: XMMRegister, vector_len: u8)
        requires
            dst.wf(),
            src.wf(),
            ({
                let f = old(self).features;
                (f.supports_avx()) && ({ let a1 = InstructionAttr::spec_new(f, vector_len, false, true, true, false); (vex_rr_ok(f, a1, dst.encoding, 0, src.encoding)) })
            }),
        ensures
            ({
                let f = old(self).features;
                final(self).appends(*old(self), ({ let a1 = InstructionAttr::spec_new(f, vector_len, false, true, true, false); vex_rr_bytes(f, a1, dst.encoding, 0, src.encoding, VEX_SIMD_66, VEX_OPCODE_0F_38) + seq![0x0E, (0xC0 | rr_bits(dst.encoding, src.encoding))] }))
            }),
    {
        let mut attributes = InstructionAttr::new(&self.features, vector_len, false, true, true, false);
        let encode = self.vex_prefix_and_encode(dst.encoding, 0, src.encoding, VEX_SIMD_66, VEX_OPCODE_0F_38, &mut attributes);
        self.emit_int16(0x0E, (0xC0 | encode));
    }

    /// `stmxcsr [dst]`
    pub fn stmxcsr(&mut self, dst: Address)
        requires
            dst.wf(),
            ({
                let f = old(self).features;
                (if (f.use_avx > 0) { (f.supports_avx()) && ({ let a1 = InstructionAttr::spec_new(f, AVX_128BIT, false, true, true, false); (vex_adr_ok(f, a1, 0, 0, dst)) }) } else { true })
            }),
        ensures
            ({
                let f = old(self).features;
                final(self).appends(*old(self), (if (f.use_avx > 0) { ({ let a1 = InstructionAttr::spec_new(f, AVX_128BIT, false, true, true, false); vex_adr_bytes(f, a1, dst, 0, 0, VEX_SIMD_NONE, VEX_OPCODE_0F) + ({ let a2 = vex_adr_attr(f, a1, 0, 0); seq![0xAE] + address_bytes(f, Some(a2), 3, dst, false) }) }) } else { rex_opt(false, false, dst.spec_index_needs_rex(), dst.spec_base_needs_rex(), false) + seq![0x0F, 0xAE] + address_bytes(f, None, 3, dst, false) }))
            }),
    {
        if self.features.use_avx > 0 {
            let mut attributes = InstructionAttr::new(&self.features, AVX_128BIT, false, true, true, false);
            self.vex_prefix(&dst, 0, 0, VEX_SIMD_NONE, VEX_OPCODE_0F, &mut attributes);
            self.emit_int8(0xAE);
            self.emit_operand_attr(3, &dst, &attributes, false);
        } else {
            self.prefix_adr(&dst);
            self.emit_int16(0x0F, 0xAE);
            self.emit_operand(3, &dst);
        }
    }

    /// `vaddsd dst, nds, [src]`
    pub fn vaddsd_xxm(&mut self, dst: XMMRegister, nds: XMMRegister, src: Address)
        requires
            dst.wf(),
            nds.wf(),
            src.wf(),
            ({
                let f = old(self).features;
                (f.supports_avx()) && ({ let a1 = InstructionAttr::spec_new(f, AVX_128BIT, f.supports_evex(), false, true, false); let a2 = a1.with_address(f, EVEX_T1S, EVEX_64BIT); let a3 = a2.reverted(); (vex_adr_ok(f, a3, nds.encoding, dst.encoding, src)) })
            }),
        ensures
            ({
                let f = old(self).features;
                final(self).appends(*old(self), ({ let a1 = InstructionAttr::spec_new(f, AVX_128BIT, f.supports_evex(), false, true, false); let a2 = a1.with_address(f, EVEX_T1S, EVEX_64BIT); let a3 = a2.reverted(); vex_adr_bytes(f, a3, src, nds.encoding, dst.encoding, VEX_SIMD_F2, VEX_OPCODE_0F) + ({ let a4 = vex_adr_attr(f, a3, nds.encoding, dst.encoding); seq![0x58] + address_bytes(f, Some(a4), dst.encoding, src, true) }) }))
            }),
    {
        let mut attributes = InstructionAttr::new(&self.features, AVX_128BIT, self.features.supports_evex(), false, true, false);
        attributes.set_address_attributes(&self.features, EVEX_T1S, EVEX_64BIT);
        attributes.set_rex_vex_w_reverted();
        self.vex_prefix(&src, nds.encoding, dst.encoding, VEX_SIMD_F2, VEX_OPCODE_0F, &mut attributes);
        self.emit_int8(0x58);
        self.emit_operand_attr(dst.encoding, &src, &attributes, true);
    }

    /// `vaddsd dst, nds, src`
    pub fn vaddsd(&mut self, dst: XMMRegister, nds: XMMRegister, src: XMMRegister)
        requires
            dst.wf(),
            nds.wf(),
            src.wf(),
            ({
                let f = old(self).features;
                (f.supports_avx()) && ({ let a1 = InstructionAttr::spec_new(f, AVX_128BIT, f.supports_evex(), false, true, false); let a2 = a1.reverted(); (vex_rr_ok(f, a2, dst.encoding, nds.encoding, src.encoding)) })
            }),
        ensures
            ({
                let f = old(self).features;
                final(self).appends(*old(self), ({ let a1 = InstructionAttr::spec_new(f, AVX_128BIT, f.supports_evex(), false, true, false); let a2 = a1.reverted(); vex_rr_bytes(f, a2, dst.encoding, nds.encoding, src.encoding, VEX_SIMD_F2, VEX_OPCODE_0F) + seq![0x58, (0xC0 | rr_bits(dst.encoding, src.encoding))] }))
            }),
    {
        let mut attributes = InstructionAttr::new(&self.features, AVX_128BIT, self.features.supports_evex(), false, true, false);
        attributes.set_rex_vex_w_reverted();
        let encode = self.vex_prefix_and_encode(dst.encoding, nds.encoding, src.encoding, VEX_SIMD_F2, VEX_OPCODE_0F, &mut attributes);
        self.emit_int16(0x58, (0xC0 | encode));
    }

    /// `vaddss dst, nds, [src]`
    pub fn vaddss_xxm(&mut self, dst: XMMRegister, nds: XMMRegister, src: Address)
        requires
            dst.wf(),
            nds.wf(),
            src.wf(),
            ({
                let f = old(self).features;
                (f.supports_avx()) && ({ let a1 = InstructionAttr::spec_new(f, AVX_128BIT, false, false, true, false); let a2 = a1.with_address(f, EVEX_T1S, EVEX_32BIT); (vex_adr_ok(f, a2, nds.encoding, dst.encoding, src)) })
            }),
        ensures
            ({
                let f = old(self).features;
                final(self).appends(*old(self), ({ let a1 = InstructionAttr::spec_new(f, AVX_128BIT, false, false, true, false); let a2 = a1.with_address(f, EVEX_T1S, EVEX_32BIT); vex_adr_bytes(f, a2, src, nds.encoding, dst.encoding, VEX_SIMD_F3, VEX_OPCODE_0F) + ({ let a3 = vex_adr_attr(f, a2, nds.encoding, dst.encoding); seq![0x58] + address_bytes(f, Some(a3), dst.encoding, src, true) }) }))
            }),
    {
        let mut attributes = InstructionAttr::new(&self.features, AVX_128BIT, false, false, true, false);
        attributes.set_address_attributes(&self.features, EVEX_T1S, EVEX_32BIT);
        self.vex_prefix(&src, nds.encoding, dst.encoding, VEX_SIMD_F3, VEX_OPCODE_0F, &mut attributes);
        self.emit_int8(0x58);
        self.emit_operand_attr(dst.encoding, &src, &attributes, true);
    }

    /// `vaddss dst, nds, src`
    pub fn vaddss(&mut self, dst: XMMRegister, nds: XMMRegister, src: XMMRegister)
        requires
            dst.wf(),
            nds.wf(),
            src.wf(),
            ({
                let f = old(self).features;
                (f.supports_avx()) && ({ let a1 = InstructionAttr::spec_new(f, AVX_128BIT, false, false, true, false); (vex_rr_ok(f, a1, dst.encoding, nds.encoding, src.encoding)) })
            }),
        ensures
            ({
                let f = old(self).features;
                final(self).appends(*old(self), ({ let a1 = InstructionAttr::spec_new(f, AVX_128BIT, false, false, true, false); vex_rr_bytes(f, a1, dst.encoding, nds.encoding, src.encoding, VEX_SIMD_F3, VEX_OPCODE_0F) + seq![0x58, (0xC0 | rr_bits(dst.encoding, src.encoding))] }))
            }),
    {
        let mut attributes = InstructionAttr::new(&self.features, AVX_128BIT, false, false, true, false);
        let encode = self.vex_prefix_and_encode(dst.encoding, nds.encoding, src.encoding, VEX_SIMD_F3, VEX_OPCODE_0F, &mut attributes);
        self.emit_int16(0x58, (0xC0 | encode));
    }

    /// `vdivsd dst, nds, [src]`
    pub fn vdivsd_xxm(&mut self, dst: XMMRegister, nds: XMMRegister, src: Address)
        requires
            dst.wf(),
            nds.wf(),
            src.wf(),
            ({
                let f = old(self).features;
                (f.supports_avx()) && ({ let a1 = InstructionAttr::spec_new(f, AVX_128BIT, f.supports_evex(), false, true, false); let a2 = a1.with_address(f, EVEX_T1S, EVEX_64BIT); let a3 = a2.reverted(); (vex_adr_ok(f, a3, nds.encoding, dst.encoding, src)) })
            }),
        ensures
            ({
                let f = old(self).features;
                final(self).appends(*old(self), ({ let a1 = InstructionAttr::spec_new(f, AVX_128BIT, f.supports_evex(), false, true, false); let a2 = a1.with_address(f, EVEX_T1S, EVEX_64BIT); let a3 = a2.reverted(); vex_adr_bytes(f, a3, src, nds.encoding, dst.encoding, VEX_SIMD_F2, VEX_OPCODE_0F) + ({ let a4 = vex_adr_attr(f, a3, nds.encoding, dst.encoding); seq![0x5E] + address_bytes(f, Some(a4), dst.encoding, src, true) }) }))
            }),
    {
        let mut attributes = InstructionAttr::new(&self.features, AVX_128BIT, self.features.supports_evex(), false, true, false);
        attributes.set_address_attributes(&self.features, EVEX_T1S, EVEX_64BIT);
        attributes.set_rex_vex_w_reverted();
        self.vex_prefix(&src, nds.encoding, dst.encoding, VEX_SIMD_F2, VEX_OPCODE_0F, &mut attributes);
        self.emit_int8(0x5E);
        self.emit_operand_attr(dst.encoding, &src, &attributes, true);
    }

    /// `vdivsd dst, nds, src`
    pub fn vdivsd(&mut self, dst: XMMRegister, nds: XMMRegister, src: XMMRegister)
        requires
            dst.wf(),
            nds.wf(),
            src.wf(),
            ({
                let f = old(self).features;
                (f.supports_avx()) && ({ let a1 = InstructionAttr::spec_new(f, AVX_128BIT, f.supports_evex(), false, true, false); let a2 = a1.reverted(); (vex_rr_ok(f, a2, dst.encoding, nds.encoding, src.encoding)) })
            }),
        ensures
            ({
                let f = old(self).features;
                final(self).appends(*old(self), ({ let a1 = InstructionAttr::spec_new(f, AVX_128BIT, f.supports_evex(), false, true, false); let a2 = a1.reverted(); vex_rr_bytes(f, a2, dst.encoding, nds.encoding, src.encoding, VEX_SIMD_F2, VEX_OPCODE_0F) + seq![0x5E, (0xC0 | rr_bits(dst.encoding, src.encoding))] }))
            }),
    {
        let mut attributes = InstructionAttr::new(&self.features, AVX_128BIT, self.features.supports_evex(), false, true, false);
        attributes.set_rex_vex_w_reverted();
        let encode = self.vex_prefix_and_encode(dst.encoding, nds.encoding, src.encoding, VEX_SIMD_F2, VEX_OPCODE_0F, &mut attributes);
        self.emit_int16(0x5E, (0xC0 | encode));
    }

    /// `vdivss dst, nds, [src]`
    pub fn vdivss_xxm(&mut self, dst: XMMRegister, nds: XMMRegister, src: Address)
        requires
            dst.wf(),
            nds.wf(),
            src.wf(),
            ({
                let f = old(self).features;
                (f.supports_avx()) && ({ let a1 = InstructionAttr::spec_new(f, AVX_128BIT, false, false, true, false); let a2 = a1.with_address(f, EVEX_T1S, EVEX_32BIT); (vex_adr_ok(f, a2, nds.encoding, dst.encoding, src)) })
            }),
        ensures
            ({
                let f = old(self).features;
                final(self).appends(*old(self), ({ let a1 = InstructionAttr::spec_new(f, AVX_128BIT, false, false, true, false); let a2 = a1.with_address(f, EVEX_T1S, EVEX_32BIT); vex_adr_bytes(f, a2, src, nds.encoding, dst.encoding, VEX_SIMD_F3, VEX_OPCODE_0F) + ({ let a3 = vex_adr_attr(f, a2, nds.encoding, dst.encoding); seq![0x5E] + address_bytes(f, Some(a3), dst.encoding, src, true) }) }))
            }),
    {
        let mut attributes = InstructionAttr::new(&self.features, AVX_128BIT, false, false, true, false);
        attributes.set_address_attributes(&self.features, EVEX_T1S, EVEX_32BIT);
        self.vex_prefix(&src, nds.encoding, dst.encoding, VEX_SIMD_F3, VEX_OPCODE_0F, &mut attributes);
        self.emit_int8(0x5E);
        self.emit_operand_attr(dst.encoding, &src, &attributes, true);
    }

    /// `vdivss dst, nds, src`
    pub fn vdivss(&mut self, dst: XMMRegister, nds: XMMRegister, src: XMMRegister)
        requires
            dst.wf(),
            nds.wf(),
            src.wf(),
            ({
                let f = old(self).features;
                (f.supports_avx()) && ({ let a1 = InstructionAttr::spec_new(f, AVX_128BIT, false, false, true, false); (vex_rr_ok(f, a1, dst.encoding, nds.encoding, src.encoding)) })
            }),
        ensures
            ({
                let f = old(self).features;
                final(self).appends(*old(self), ({ let a1 = InstructionAttr::spec_new(f, AVX_128BIT, false, false, true, false); vex_rr_bytes(f, a1, dst.encoding, nds.encoding, src.encoding, VEX_SIMD_F3, VEX_OPCODE_0F) + seq![0x5E, (0xC0 | rr_bits(dst.encoding, src.encoding))] }))
            }),
    {
        let mut attributes = InstructionAttr::new(&self.features, AVX_128BIT, false, false, true, false);
        let encode = self.vex_prefix_and_encode(dst.encoding, nds.encoding, src.encoding, VEX_SIMD_F3, VEX_OPCODE_0F, &mut attributes);
        self.emit_int16(0x5E, (0xC0 | encode));
    }

    /// `vfmadd231sd dst, src1, src2`
    pub fn vfmadd231sd(&mut self, dst: XMMRegister, src1: XMMRegister, src2: XMMRegister)
        requires
            dst.wf(),
            src1.wf(),
            src2.wf(),
            ({
                let f = old(self).features;
                (f.supports_fma()) && ({ let a1 = InstructionAttr::spec_new(f, AVX_128BIT, true, false, true, false); (vex_rr_ok(f, a1, dst.encoding, src1.encoding, src2.encoding)) })
            }),
        ensures
            ({
                let f = old(self).features;
                final(self).appends(*old(self), ({ let a1 = InstructionAttr::spec_new(f, AVX_128BIT, true, false, true, false); vex_rr_bytes(f, a1, dst.encoding, src1.encoding, src2.encoding, VEX_SIMD_66, VEX_OPCODE_0F_38) + seq![0xB9, (0xC0 | rr_bits(dst.encoding, src2.encoding))] }))
            }),
    {
        let mut attributes = InstructionAttr::new(&self.features, AVX_128BIT, true, false, true, false);
        let encode = self.vex_prefix_and_encode(dst.encoding, src1.encoding, src2.encoding, VEX_SIMD_66, VEX_OPCODE_0F_38, &mut attributes);
        self.emit_int16(0xB9, (0xC0 | encode));
    }

    /// `vfmadd231ss dst, src1, src2`
    pub fn vfmadd231ss(&mut self, dst: XMMRegister, src1: XMMRegister, src2: XMMRegister)
        requires
            dst.wf(),
            src1.wf(),
            src2.wf(),
            ({
                let f = old(self).features;
                (f.supports_fma()) && ({ let a1 = InstructionAttr::spec_new(f, AVX_128BIT, false, false, true, false); (vex_rr_ok(f, a1, dst.encoding, src1.encoding, src2.encoding)) })
            }),
        ensures
            ({
                let f = old(self).features;
                final(self).appends(*old(self), ({ let a1 = InstructionAttr::spec_new(f, AVX_128BIT, false, false, true, false); vex_rr_bytes(f, a1, dst.encoding, src1.encoding, src2.encoding, VEX_SIMD_66, VEX_OPCODE_0F_38) + seq![0xB9, (0xC0 | rr_bits(dst.encoding, src2.encoding))] }))
            }),
    {
        let mut attributes = InstructionAttr::new(&self.features, AVX_128BIT, false, false, true, false);
        let encode = self.vex_prefix_and_encode(dst.encoding, src1.encoding, src2.encoding, VEX_SIMD_66, VEX_OPCODE_0F_38, &mut attributes);
        self.emit_int16(0xB9, (0xC0 | encode));
    }

    /// `vmulsd dst, nds, [src]`
    pub fn vmulsd_xxm(&mut self, dst: XMMRegister, nds: XMMRegister, src: Address)
        requires
            dst.wf(),
            nds.wf(),
            src.wf(),
            ({
                let f = old(self).features;
                (f.supports_avx()) && ({ let a1 = InstructionAttr::spec_new(f, AVX_128BIT, f.supports_evex(), false, true, false); let a2 = a1.with_address(f, EVEX_T1S, EVEX_64BIT); let a3 = a2.reverted(); (vex_adr_ok(f, a3, nds.encoding, dst.encoding, src)) })
            }),
        ensures
            ({
                let f = old(self).features;
                final(self).appends(*old(self), ({ let a1 = InstructionAttr::spec_new(f, AVX_128BIT, f.supports_evex(), false, true, false); let a2 = a1.with_address(f, EVEX_T1S, EVEX_64BIT); let a3 = a2.reverted(); vex_adr_bytes(f, a3, src, nds.encoding, dst.encoding, VEX_SIMD_F2, VEX_OPCODE_0F) + ({ let a4 = vex_adr_attr(f, a3, nds.encoding, dst.encoding); seq![0x59] + address_bytes(f, Some(a4), dst.encoding, src, true) }) }))
            }),
    {
        let mut attributes = InstructionAttr::new(&self.features, AVX_128BIT, self.features.supports_evex(), false, true, false);
        attributes.set_address_attributes(&self.features, EVEX_T1S, EVEX_64BIT);
        attributes.set_rex_vex_w_reverted();
        self.vex_prefix(&src, nds.encoding, dst.encoding, VEX_SIMD_F2, VEX_OPCODE_0F, &mut attributes);
        self.emit_int8(0x59);
        self.emit_operand_attr(dst.encoding, &src, &attributes, true);
    }

    /// `vmulsd dst, nds, src`
    pub fn vmulsd(&mut self, dst: XMMRegister, nds: XMMRegister, src: XMMRegister)
        requires
            dst.wf(),
            nds.wf(),
            src.wf(),
            ({
                let f = old(self).features;
                (f.supports_avx()) && ({ let a1 = InstructionAttr::spec_new(f, AVX_128BIT, f.supports_evex(), false, true, false); let a2 = a1.reverted(); (vex_rr_ok(f, a2, dst.encoding, nds.encoding, src.encoding)) })
            }),
        ensures
            ({
                let f = old(self).features;
                final(self).appends(*old(self), ({ let a1 = InstructionAttr::spec_new(f, AVX_128BIT, f.supports_evex(), false, true, false); let a2 = a1.reverted(); vex_rr_bytes(f, a2, dst.encoding, nds.encoding, src.encoding, VEX_SIMD_F2, VEX_OPCODE_0F) + seq![0x59, (0xC0 | rr_bits(dst.encoding, src.encoding))] }))
            }),
    {
        let mut attributes = InstructionAttr::new(&self.features, AVX_128BIT, self.features.supports_evex(), false, true, false);
        attributes.set_rex_vex_w_reverted();
        let encode = self.vex_prefix_and_encode(dst.encoding, nds.encoding, src.encoding, VEX_SIMD_F2, VEX_OPCODE_0F, &mut attributes);
        self.emit_int16(0x59, (0xC0 | encode));
    }

    /// `vmulss dst, nds, [src]`
    pub fn vmulss_xxm(&mut self, dst: XMMRegister, nds: XMMRegister, src: Address)
        requires
            dst.wf(),
            nds.wf(),
            src.wf(),
            ({
                let f = old(self).features;
                (f.supports_avx()) && ({ let a1 = InstructionAttr::spec_new(f, AVX_128BIT, false, false, true, false); let a2 = a1.with_address(f, EVEX_T1S, EVEX_32BIT); (vex_adr_ok(f, a2, nds.encoding, dst.encoding, src)) })
            }),
        ensures
            ({
                let f = old(self).features;
                final(self).appends(*old(self), ({ let a1 = InstructionAttr::spec_new(f, AVX_128BIT, false, false, true, false); let a2 = a1.with_address(f, EVEX_T1S, EVEX_32BIT); vex_adr_bytes(f, a2, src, nds.encoding, dst.encoding, VEX_SIMD_F3, VEX_OPCODE_0F) + ({ let a3 = vex_adr_attr(f, a2, nds.encoding, dst.encoding); seq![0x59] + address_bytes(f, Some(a3), dst.encoding, src, true) }) }))
            }),
    {
        let mut attributes = InstructionAttr::new(&self.features, AVX_128BIT, false, false, true, false);
        attributes.set_address_attributes(&self.features, EVEX_T1S, EVEX_32BIT);
        self.vex_prefix(&src, nds.encoding, dst.encoding, VEX_SIMD_F3, VEX_OPCODE_0F, &mut attributes);
        self.emit_int8(0x59);
        self.emit_operand_attr(dst.encoding, &src, &attributes, true);
    }

    /// `vmulss dst, nds, src`
    pub fn vmulss(&mut self, dst: XMMRegister, nds: XMMRegister, src: XMMRegister)
        requires
            dst.wf(),
            nds.wf(),
            src.wf(),
            ({
                let f = old(self).features;
                (f.supports_avx()) && ({ let a1 = InstructionAttr::spec_new(f, AVX_128BIT, false, false, true, false); (vex_rr_ok(f, a1, dst.encoding, nds.encoding, src.encoding)) })
            }),
        ensures
            ({
                let f = old(self).features;
                final(self).appends(*old(self), ({ let a1 = InstructionAttr::spec_new(f, AVX_128BIT, false, false, true, false); vex_rr_bytes(f, a1, dst.encoding, nds.encoding, src.encoding, VEX_SIMD_F3, VEX_OPCODE_0F) + seq![0x59, (0xC0 | rr_bits(dst.encoding, src.encoding))] }))
            }),
    {
        let mut attributes = InstructionAttr::new(&self.features, AVX_128BIT, false, false, true, false);
        let encode = self.vex_prefix_and_encode(dst.encoding, nds.encoding, src.encoding, VEX_SIMD_F3, VEX_OPCODE_0F, &mut attributes);
        self.emit_int16(0x59, (0xC0 | encode));
    }

    /// `vsubsd dst, nds, [src]`
    pub fn vsubsd_xxm(&mut self, dst: XMMRegister, nds: XMMRegister, src: Address)
        requires
            dst.wf(),
            nds.wf(),
            src.wf(),
            ({
                let f = old(self).features;
                (f.supports_avx()) && ({ let a1 = InstructionAttr::spec_new(f, AVX_128BIT, f.supports_evex(), false, true, false); let a2 = a1.with_address(f, EVEX_T1S, EVEX_64BIT); let a3 = a2.reverted(); (vex_adr_ok(f, a3, nds.encoding, dst.encoding, src)) })
            }),
        ensures
            ({
                let f = old(self).features;
                final(self).appends(*old(self), ({ let a1 = InstructionAttr::spec_new(f, AVX_128BIT, f.supports_evex(), false, true, false); let a2 = a1.with_address(f, EVEX_T1S, EVEX_64BIT); let a3 = a2.reverted(); vex_adr_bytes(f, a3, src, nds.encoding, dst.encoding, VEX_SIMD_F2, VEX_OPCODE_0F) + ({ let a4 = vex_adr_attr(f, a3, nds.encoding, dst.encoding); seq![0x5C] + address_bytes(f, Some(a4), dst.encoding, src, true) }) }))
            }),
    {
        let mut attributes = InstructionAttr::new(&self.features, AVX_128BIT, self.features.supports_evex(), false, true, false);
        attributes.set_address_attributes(&self.features, EVEX_T1S, EVEX_64BIT);
        attributes.set_rex_vex_w_reverted();
        self.vex_prefix(&src, nds.encoding, dst.encoding, VEX_SIMD_F2, VEX_OPCODE_0F, &mut attributes);
        self.emit_int8(0x5C);
        self.emit_operand_attr(dst.encoding, &src, &attributes, true);
    }

    /// `vsubsd dst, nds, src`
    pub fn vsubsd(&mut self, dst: XMMRegister, nds: XMMRegister, src: XMMRegister)
        requires
            dst.wf(),
            nds.wf(),
            src.wf(),
            ({
                let f = old(self).features;
                (f.supports_avx()) && ({ let a1 = InstructionAttr::spec_new(f, AVX_128BIT, f.supports_evex(), false, true, false); let a2 = a1.reverted(); (vex_rr_ok(f, a2, dst.encoding, nds.encoding, src.encoding)) })
            }),
        ensures
            ({
                let f = old(self).features;
                final(self).appends(*old(self), ({ let a1 = InstructionAttr::spec_new(f, AVX_128BIT, f.supports_evex(), false, true, false); let a2 = a1.reverted(); vex_rr_bytes(f, a2, dst.encoding, nds.encoding, src.encoding, VEX_SIMD_F2, VEX_OPCODE_0F) + seq![0x5C, (0xC0 | rr_bits(dst.encoding, src.encoding))] }))
            }),
    {
        let mut attributes = InstructionAttr::new(&self.features, AVX_128BIT, self.features.supports_evex(), false, true, false);
        attributes.set_rex_vex_w_reverted();
        let encode = self.vex_prefix_and_encode(dst.encoding, nds.encoding, src.encoding, VEX_SIMD_F2, VEX_OPCODE_0F, &mut attributes);
        self.emit_int16(0x5C, (0xC0 | encode));
    }

    /// `vsubss dst, nds, [src]`
    pub fn vsubss_xxm(&mut self, dst: XMMRegister, nds: XMMRegister, src: Address)
        requires
            dst.wf(),
            nds.wf(),
            src.wf(),
            ({
                let f = old(self).features;
                (f.supports_avx()) && ({ let a1 = InstructionAttr::spec_new(f, AVX_128BIT, false, false, true, false); let a2 = a1.with_address(f, EVEX_T1S, EVEX_32BIT); (vex_adr_ok(f, a2, nds.encoding, dst.encoding, src)) })
            }),
        ensures
            ({
                let f = old(self).features;
                final(self).appends(*old(self), ({ let a1 = InstructionAttr::spec_new(f, AVX_128BIT, false, false, true, false); let a2 = a1.with_address(f, EVEX_T1S, EVEX_32BIT); vex_adr_bytes(f, a2, src, nds.encoding, dst.encoding, VEX_SIMD_F3, VEX_OPCODE_0F) + ({ let a3 = vex_adr_attr(f, a2, nds.encoding, dst.encoding); seq![0x5C] + address_bytes(f, Some(a3), dst.encoding, src, true) }) }))
            }),
    {
        let mut attributes = InstructionAttr::new(&self.features, AVX_128BIT, false, false, true, false);
        attributes.set_address_attributes(&self.features, EVEX_T1S, EVEX_32BIT);
        self.vex_prefix(&src, nds.encoding, dst.encoding, VEX_SIMD_F3, VEX_OPCODE_0F, &mut attributes);
        self.emit_int8(0x5C);
        self.emit_operand_attr(dst.encoding, &src, &attributes, true);
    }

    /// `vsubss dst, nds, src`
    pub fn vsubss(&mut self, dst: XMMRegister, nds: XMMRegister, src: XMMRegister)
        requires
            dst.wf(),
            nds.wf(),
            src.wf(),
            ({
                let f = old(self).features;
                (f.supports_avx()) && ({ let a1 = InstructionAttr::spec_new(f, AVX_128BIT, false, false, true, false); (vex_rr_ok(f, a1, dst.encoding, nds.encoding, src.encoding)) })
            }),
        ensures
            ({
                let f = old(self).features;
                final(self).appends(*old(self), ({ let a1 = InstructionAttr::spec_new(f, AVX_128BIT, false, false, true, false); vex_rr_bytes(f, a1, dst.encoding, nds.encoding, src.encoding, VEX_SIMD_F3, VEX_OPCODE_0F) + seq![0x5C, (0xC0 | rr_bits(dst.encoding, src.encoding))] }))
            }),
    {
        let mut attributes = InstructionAttr::new(&self.features, AVX_128BIT, false, false, true, false);
        let encode = self.vex_prefix_and_encode(dst.encoding, nds.encoding, src.encoding, VEX_SIMD_F3, VEX_OPCODE_0F, &mut attributes);
        self.emit_int16(0x5C, (0xC0 | encode));
    }

    /// `vaddpd dst, nds, src, vector_len`
    pub fn vaddpd(&mut self, dst: XMMRegister, nds: XMMRegister, src: XMMRegister, vector_len: u8)
        requires
            dst.wf(),
            nds.wf(),
            src.wf(),
            ({
                let f = old(self).features;
                (f.supports_avx()) && ({ let a1 = InstructionAttr::spec_new(f, vector_len, f.supports_evex(), false, true, true); let a2 = a1.reverted(); (vex_rr_ok(f, a2, dst.encoding, nds.encoding, src.encoding)) })
            }),
        ensures
            ({
                let f = old(self).features;
                final(self).appends(*old(self), ({ let a1 = InstructionAttr::spec_new(f, vector_len, f.supports_evex(), false, true, true); let a2 = a1.reverted(); vex_rr_bytes(f, a2, dst.encoding, nds.encoding, src.encoding, VEX_SIMD_66, VEX_OPCODE_0F) + seq![0x58, (0xC0 | rr_bits(dst.encoding, src.encoding))] }))
            }),
    {
        let mut attributes = InstructionAttr::new(&self.features, vector_len, self.features.supports_evex(), false, true, true);
        attributes.set_rex_vex_w_reverted();
        let encode = self.vex_prefix_and_encode(dst.encoding, nds.encoding, src.encoding, VEX_SIMD_66, VEX_OPCODE_0F, &mut attributes);
        self.emit_int16(0x58, (0xC0 | encode));
    }

    /// `vaddps dst, nds, src, vector_len`
    pub fn vaddps(&mut self, dst: XMMRegister, nds: XMMRegister, src: XMMRegister, vector_len: u8)
        requires
            dst.wf(),
            nds.wf(),
            src.wf(),
            ({
                let f = old(self).features;
                (f.supports_avx()) && ({ let a1 = InstructionAttr::spec_new(f, vector_len, false, false, true, true); (vex_rr_ok(f, a1, dst.encoding, nds.encoding, src.encoding)) })
            }),
        ensures
            ({
                let f = old(self).features;
                final(self).appends(*old(self), ({ let a1 = InstructionAttr::spec_new(f, vector_len, false, false, true, true); vex_rr_bytes(f, a1, dst.encoding, nds.encoding, src.encoding, VEX_SIMD_NONE, VEX_OPCODE_0F) + seq![0x58, (0xC0 | rr_bits(dst.encoding, src.encoding))] }))
            }),
    {
        let mut attributes = InstructionAttr::new(&self.features, vector_len, false, false, true, true);
        let encode = self.vex_prefix_and_encode(dst.encoding, nds.encoding, src.encoding, VEX_SIMD_NONE, VEX_OPCODE_0F, &mut attributes);
        self.emit_int16(0x58, (0xC0 | encode));
    }

    /// `vaddpd dst, nds, [src], vector_len`
    pub fn vaddpd_xxm(&mut self, dst: XMMRegister, nds: XMMRegister, src: Address, vector_len: u8)
        requires
            dst.wf(),
            nds.wf(),
            src.wf(),
            ({
                let f = old(self).features;
                (f.supports_avx()) && ({ let a1 = InstructionAttr::spec_new(f, vector_len, f.supports_evex(), false, true, true); let a2 = a1.with_address(f, EVEX_FV, EVEX_64BIT); let a3 = a2.reverted(); (vex_adr_ok(f, a3, nds.encoding, dst.encoding, src)) })
            }),
        ensures
            ({
                let f = old(self).features;
                final(self).appends(*old(self), ({ let a1 = InstructionAttr::spec_new(f, vector_len, f.supports_evex(), false, true, true); let a2 = a1.with_address(f, EVEX_FV, EVEX_64BIT); let a3 = a2.reverted(); vex_adr_bytes(f, a3, src, nds.encoding, dst.encoding, VEX_SIMD_66, VEX_OPCODE_0F) + ({ let a4 = vex_adr_attr(f, a3, nds.encoding, dst.encoding); seq![0x58] + address_bytes(f, Some(a4), dst.encoding, src, true) }) }))
            }),
    {
        let mut attributes = InstructionAttr::new(&self.features, vector_len, self.features.supports_evex(), false, true, true);
        attributes.set_address_attributes(&self.features, EVEX_FV, EVEX_64BIT);
        attributes.set_rex_vex_w_reverted();
        self.vex_prefix(&src, nds.encoding, dst.encoding, VEX_SIMD_66, VEX_OPCODE_0F, &mut attributes);
        self.emit_int8(0x58);
        self.emit_operand_attr(dst.encoding, &src, &attributes, true);
    }

    /// `vaddps dst, nds, [src], vector_len`
    pub fn vaddps_xxm(&mut self, dst: XMMRegister, nds: XMMRegister, src: Address, vector_len: u8)
        requires
            dst.wf(),
            nds.wf(),
            src.wf(),
            ({
                let f = old(self).features;
                (f.supports_avx()) && ({ let a1 = InstructionAttr::spec_new(f, vector_len, false, false, true, true); let a2 = a1.with_address(f, EVEX_FV, EVEX_32BIT); (vex_adr_ok(f, a2, nds.encoding, dst.encoding, src)) })
            }),
        ensures
            ({
                let f = old(self).features;
                final(self).appends(*old(self), ({ let a1 = InstructionAttr::spec_new(f, vector_len, false, false, true, true); let a2 = a1.with_address(f, EVEX_FV, EVEX_32BIT); vex_adr_bytes(f, a2, src, nds.encoding, dst.encoding, VEX_SIMD_NONE, VEX_OPCODE_0F) + ({ let a3 = vex_adr_attr(f, a2, nds.encoding, dst.encoding); seq![0x58] + address_bytes(f, Some(a3), dst.encoding, src, true) }) }))
            }),
    {
        let mut attributes = InstructionAttr::new(&self.features, vector_len, false, false, true, true);
        attributes.set_address_attributes(&self.features, EVEX_FV, EVEX_32BIT);
        self.vex_prefix(&src, nds.encoding, dst.encoding, VEX_SIMD_NONE, VEX_OPCODE_0F, &mut attributes);
        self.emit_int8(0x58);
        self.emit_operand_attr(dst.encoding, &src, &attributes, true);
    }

    /// `vsubpd dst, nds, src, vector_len`
    pub fn vsubpd(&mut self, dst: XMMRegister, nds: XMMRegister, src: XMMRegister, vector_len: u8)
        requires
            dst.wf(),
            nds.wf(),
            src.wf(),
            ({
                let f = old(self).features;
                (f.supports_avx()) && ({ let a1 = InstructionAttr::spec_new(f, vector_len, f.supports_evex(), false, true, true); let a2 = a1.reverted(); (vex_rr_ok(f, a2, dst.encoding, nds.encoding, src.encoding)) })
            }),
        ensures
            ({
                let f = old(self).features;
                final(self).appends(*old(self), ({ let a1 = InstructionAttr::spec_new(f, vector_len, f.supports_evex(), false, true, true); let a2 = a1.reverted(); vex_rr_bytes(f, a2, dst.encoding, nds.encoding, src.encoding, VEX_SIMD_66, VEX_OPCODE_0F) + seq![0x5C, (0xC0 | rr_bits(dst.encoding, src.encoding))] }))
            }),
    {
        let mut attributes = InstructionAttr::new(&self.features, vector_len, self.features.supports_evex(), false, true, true);
        attributes.set_rex_vex_w_reverted();
        let encode = self.vex_prefix_and_encode(dst.encoding, nds.encoding, src.encoding, VEX_SIMD_66, VEX_OPCODE_0F, &mut attributes);
        self.emit_int16(0x5C, (0xC0 | encode));
    }

    /// `vsubps dst, nds, src, vector_len`
    pub fn vsubps(&mut self, dst: XMMRegister, nds: XMMRegister, src: XMMRegister, vector_len: u8)
        requires
            dst.wf(),
            nds.wf(),
            src.wf(),
            ({
                let f = old(self).features;
                (f.supports_avx()) && ({ let a1 = InstructionAttr::spec_new(f, vector_len, false, false, true, true); (vex_rr_ok(f, a1, dst.encoding, nds.encoding, src.encoding)) })
            }),
        ensures
            ({
                let f = old(self).features;
                final(self).appends(*old(self), ({ let a1 = InstructionAttr::spec_new(f, vector_len, false, false, true, true); vex_rr_bytes(f, a1, dst.encoding, nds.encoding, src.encoding, VEX_SIMD_NONE, VEX_OPCODE_0F) + seq![0x5C, (0xC0 | rr_bits(dst.encoding, src.encoding))] }))
            }),
    {
        let mut attributes = InstructionAttr::new(&self.features, vector_len, false, false, true, true);
        let encode = self.vex_prefix_and_encode(dst.encoding, nds.encoding, src.encoding, VEX_SIMD_NONE, VEX_OPCODE_0F, &mut attributes);
        self.emit_int16(0x5C, (0xC0 | encode));
    }

    /// `vsubpd dst, nds, [src], vector_len`
    pub fn vsubpd_xxm(&mut self, dst: XMMRegister, nds: XMMRegister, src: Address, vector_len: u8)
        requires
            dst.wf(),
            nds.wf(),
            src.wf(),
            ({
                let f = old(self).features;
                (f.supports_avx()) && ({ let a1 = InstructionAttr::spec_new(f, vector_len, f.supports_evex(), false, true, true); let a2 = a1.with_address(f, EVEX_FV, EVEX_64BIT); let a3 = a2.reverted(); (vex_adr_ok(f, a3, nds.encoding, dst.encoding, src)) })
            }),
        ensures
            ({
                let f = old(self).features;
                final(self).appends(*old(self), ({ let a1 = InstructionAttr::spec_new(f, vector_len, f.supports_evex(), false, true, true); let a2 = a1.with_address(f, EVEX_FV, EVEX_64BIT); let a3 = a2.reverted(); vex_adr_bytes(f, a3, src, nds.encoding, dst.encoding, VEX_SIMD_66, VEX_OPCODE_0F) + ({ let a4 = vex_adr_attr(f, a3, nds.encoding, dst.encoding); seq![0x5C] + address_bytes(f, Some(a4), dst.encoding, src, true) }) }))
            }),
    {
        let mut attributes = InstructionAttr::new(&self.features, vector_len, self.features.supports_evex(), false, true, true);
        attributes.set_address_attributes(&self.features, EVEX_FV, EVEX_64BIT);
        attributes.set_rex_vex_w_reverted();
        self.vex_prefix(&src, nds.encoding, dst.encoding, VEX_SIMD_66, VEX_OPCODE_0F, &mut attributes);
        self.emit_int8(0x5C);
        self.emit_operand_attr(dst.encoding, &src, &attributes, true);
    }

    /// `vsubps dst, nds, [src], vector_len`
    pub fn vsubps_xxm(&mut self, dst: XMMRegister, nds: XMMRegister, src: Address, vector_len: u8)
        requires
            dst.wf(),
            nds.wf(),
            src.wf(),
            ({
                let f = old(self).features;
                (f.supports_avx()) && ({ let a1 = InstructionAttr::spec_new(f, vector_len, false, false, true, true); let a2 = a1.with_address(f, EVEX_FV, EVEX_32BIT); (vex_adr_ok(f, a2, nds.encoding, dst.encoding, src)) })
            }),
        ensures
            ({
                let f = old(self).features;
                final(self).appends(*old(self), ({ let a1 = InstructionAttr::spec_new(f, vector_len, false, false, true, true); let a2 = a1.with_address(f, EVEX_FV, EVEX_32BIT); vex_adr_bytes(f, a2, src, nds.encoding, dst.encoding, VEX_SIMD_NONE, VEX_OPCODE_0F) + ({ let a3 = vex_adr_attr(f, a2, nds.encoding, dst.encoding); seq![0x5C] + address_bytes(f, Some(a3), dst.encoding, src, true) }) }))
            }),
    {
        let mut attributes = InstructionAttr::new(&self.features, vector_len, false, false, true, true);
        attributes.set_address_attributes(&self.features, EVEX_FV, EVEX_32BIT);
        self.vex_prefix(&src, nds.encoding, dst.encoding, VEX_SIMD_NONE, VEX_OPCODE_0F, &mut attributes);
        self.emit_int8(0x5C);
        self.emit_operand_attr(dst.encoding, &src, &attributes, true);
    }

    /// `vmulpd dst, nds, src, vector_len`
    pub fn vmulpd(&mut self, dst: XMMRegister, nds: XMMRegister, src: XMMRegister, vector_len: u8)
        requires
            dst.wf(),
            nds.wf(),
            src.wf(),
            ({
                let f = old(self).features;
                (f.supports_avx()) && ({ let a1 = InstructionAttr::spec_new(f, vector_len, f.supports_evex(), false, true, true); let a2 = a1.reverted(); (vex_rr_ok(f, a2, dst.encoding, nds.encoding, src.encoding)) })
            }),
        ensures
            ({
                let f = old(self).features;
                final(self).appends(*old(self), ({ let a1 = InstructionAttr::spec_new(f, vector_len, f.supports_evex(), false, true, true); let a2 = a1.reverted(); vex_rr_bytes(f, a2, dst.encoding, nds.encoding, src.encoding, VEX_SIMD_66, VEX_OPCODE_0F) + seq![0x59, (0xC0 | rr_bits(dst.encoding, src.encoding))] }))
            }),
    {
        let mut attributes = InstructionAttr::new(&self.features, vector_len, self.features.supports_evex(), false, true, true);
        attributes.set_rex_vex_w_reverted();
        let encode = self.vex_prefix_and_encode(dst.encoding, nds.encoding, src.encoding, VEX_SIMD_66, VEX_OPCODE_0F, &mut attributes);
        self.emit_int16(0x59, (0xC0 | encode));
    }

    /// `vmulps dst, nds, src, vector_len`
    pub fn vmulps(&mut self, dst: XMMRegister, nds: XMMRegister, src: XMMRegister, vector_len: u8)
        requires
            dst.wf(),
            nds.wf(),
            src.wf(),
            ({
                let f = old(self).features;
                (f.supports_avx()) && ({ let a1 = InstructionAttr::spec_new(f, vector_len, false, false, true, true); (vex_rr_ok(f, a1, dst.encoding, nds.encoding, src.encoding)) })
            }),
        ensures
            ({
                let f = old(self).features;
                final(self).appends(*old(self), ({ let a1 = InstructionAttr::spec_new(f, vector_len, false, false, true, true); vex_rr_bytes(f, a1, dst.encoding, nds.encoding, src.encoding, VEX_SIMD_NONE, VEX_OPCODE_0F) + seq![0x59, (0xC0 | rr_bits(dst.encoding, src.encoding))] }))
            }),
    {
        let mut attributes = InstructionAttr::new(&self.features, vector_len, false, false, true, true);
        let encode = self.vex_prefix_and_encode(dst.encoding, nds.encoding, src.encoding, VEX_SIMD_NONE, VEX_OPCODE_0F, &mut attributes);
        self.emit_int16(0x59, (0xC0 | encode));
    }

    /// `vmulpd dst, nds, [src], vector_len`
    pub fn vmulpd_xxm(&mut self, dst: XMMRegister, nds: XMMRegister, src: Address, vector_len: u8)
        requires
            dst.wf(),
            nds.wf(),
            src.wf(),
            ({
                let f = old(self).features;
                (f.supports_avx()) && ({ let a1 = InstructionAttr::spec_new(f, vector_len, f.supports_evex(), false, true, true); let a2 = a1.with_address(f, EVEX_FV, EVEX_64BIT); let a3 = a2.reverted(); (vex_adr_ok(f, a3, nds.encoding, dst.encoding, src)) })
            }),
        ensures
            ({
                let f = old(self).features;
                final(self).appends(*old(self), ({ let a1 = InstructionAttr::spec_new(f, vector_len, f.supports_evex(), false, true, true); let a2 = a1.with_address(f, EVEX_FV, EVEX_64BIT); let a3 = a2.reverted(); vex_adr_bytes(f, a3, src, nds.encoding, dst.encoding, VEX_SIMD_66, VEX_OPCODE_0F) + ({ let a4 = vex_adr_attr(f, a3, nds.encoding, dst.encoding); seq![0x59] + address_bytes(f, Some(a4), dst.encoding, src, true) }) }))
            }),
    {
        let mut attributes = InstructionAttr::new(&self.features, vector_len, self.features.supports_evex(), false, true, true);
        attributes.set_address_attributes(&self.features, EVEX_FV, EVEX_64BIT);
        attributes.set_rex_vex_w_reverted();
        self.vex_prefix(&src, nds.encoding, dst.encoding, VEX_SIMD_66, VEX_OPCODE_0F, &mut attributes);
        self.emit_int8(0x59);
        self.emit_operand_attr(dst.encoding, &src, &attributes, true);
    }

    /// `vmulps dst, nds, [src], vector_len`
    pub fn vmulps_xxm(&mut self, dst: XMMRegister, nds: XMMRegister, src: Address, vector_len: u8)
        requires
            dst.wf(),
            nds.wf(),
            src.wf(),
            ({
                let f = old(self).features;
                (f.supports_avx()) && ({ let a1 = InstructionAttr::spec_new(f, vector_len, false, false, true, true); let a2 = a1.with_address(f, EVEX_FV, EVEX_32BIT); (vex_adr_ok(f, a2, nds.encoding, dst.encoding, src)) })
            }),
        ensures
            ({
                let f = old(self).features;
                final(self).appends(*old(self), ({ let a1 = InstructionAttr::spec_new(f, vector_len, false, false, true, true); let a2 = a1.with_address(f, EVEX_FV, EVEX_32BIT); vex_adr_bytes(f, a2, src, nds.encoding, dst.encoding, VEX_SIMD_NONE, VEX_OPCODE_0F) + ({ let a3 = vex_adr_attr(f, a2, nds.encoding, dst.encoding); seq![0x59] + address_bytes(f, Some(a3), dst.encoding, src, true) }) }))
            }),
    {
        let mut attributes = InstructionAttr::new(&self.features, vector_len, false, false, true, true);
        attributes.set_address_attributes(&self.features, EVEX_FV, EVEX_32BIT);
        self.vex_prefix(&src, nds.encoding, dst.encoding, VEX_SIMD_NONE, VEX_OPCODE_0F, &mut attributes);
        self.emit_int8(0x59);
        self.emit_operand_attr(dst.encoding, &src, &attributes, true);
    }

    /// `vfmadd231pd dst, src1, src2, vector_len`
    pub fn vfmadd231pd(&mut self, dst: XMMRegister, src1: XMMRegister, src2: XMMRegister, vector_len: u8)
        requires
            dst.wf(),
            src1.wf(),
            src2.wf(),
            ({
                let f = old(self).features;
                (f.supports_fma()) && ({ let a1 = InstructionAttr::spec_new(f, vector_len, true, false, true, true); (vex_rr_ok(f, a1, dst.encoding, src1.encoding, src2.encoding)) })
            }),
        ensures
            ({
                let f = old(self).features;
                final(self).appends(*old(self), ({ let a1 = InstructionAttr::spec_new(f, vector_len, true, false, true, true); vex_rr_bytes(f, a1, dst.encoding, src1.encoding, src2.encoding, VEX_SIMD_66, VEX_OPCODE_0F_38) + seq![0xB8, (0xC0 | rr_bits(dst.encoding, src2.encoding))] }))
            }),
    {
        let mut attributes = InstructionAttr::new(&self.features, vector_len, true, false, true, true);
        let encode = self.vex_prefix_and_encode(dst.encoding, src1.encoding, src2.encoding, VEX_SIMD_66, VEX_OPCODE_0F_38, &mut attributes);
        self.emit_int16(0xB8, (0xC0 | encode));
    }

    /// `vfmadd231ps dst, src1, src2, vector_len`
    pub fn vfmadd231ps(&mut self, dst: XMMRegister, src1: XMMRegister, src2: XMMRegister, vector_len: u8)
        requires
            dst.wf(),
            src1.wf(),
            src2.wf(),
            ({
                let f = old(self).features;
                (f.supports_fma()) && ({ let a1 = InstructionAttr::spec_new(f, vector_len, false, false, true, true); (vex_rr_ok(f, a1, dst.encoding, src1.encoding, src2.encoding)) })
            }),
        ensures
            ({
                let f = old(self).features;
                final(self).appends(*old(self), ({ let a1 = InstructionAttr::spec_new(f, vector_len, false, false, true, true); vex_rr_bytes(f, a1, dst.encoding, src1.encoding, src2.encoding, VEX_SIMD_66, VEX_OPCODE_0F_38) + seq![0xB8, (0xC0 | rr_bits(dst.encoding, src2.encoding))] }))
            }),
    {
        let mut attributes = InstructionAttr::new(&self.features, vector_len, false, false, true, true);
        let encode = self.vex_prefix_and_encode(dst.encoding, src1.encoding, src2.encoding, VEX_SIMD_66, VEX_OPCODE_0F_38, &mut attributes);
        self.emit_int16(0xB8, (0xC0 | encode));
    }

    /// `vfmadd231pd dst, src1, [src2], vector_len`
    pub fn vfmadd231pd_xxm(&mut self, dst: XMMRegister, src1: XMMRegister, src2: Address, vector_len: u8)
        requires
            dst.wf(),
            src1.wf(),
            src2.wf(),
            ({
                let f = old(self).features;
                (f.supports_fma()) && ({ let a1 = InstructionAttr::spec_new(f, vector_len, true, false, true, true); let a2 = a1.with_address(f, EVEX_FV, EVEX_64BIT); (vex_adr_ok(f, a2, src1.encoding, dst.encoding, src2)) })
            }),
        ensures
            ({
                let f = old(self).features;
                final(self).appends(*old(self), ({ let a1 = InstructionAttr::spec_new(f, vector_len, true, false, true, true); let a2 = a1.with_address(f, EVEX_FV, EVEX_64BIT); vex_adr_bytes(f, a2, src2, src1.encoding, dst.encoding, VEX_SIMD_66, VEX_OPCODE_0F_38) + ({ let a3 = vex_adr_attr(f, a2, src1.encoding, dst.encoding); seq![0xB8] + address_bytes(f, Some(a3), dst.encoding, src2, true) }) }))
            }),
    {
        let mut attributes = InstructionAttr::new(&self.features, vector_len, true, false, true, true);
        attributes.set_address_attributes(&self.features, EVEX_FV, EVEX_64BIT);
        self.vex_prefix(&src2, src1.encoding, dst.encoding, VEX_SIMD_66, VEX_OPCODE_0F_38, &mut attributes);
        self.emit_int8(0xB8);
        self.emit_operand_attr(dst.encoding, &src2, &attributes, true);
    }

    /// `vfmadd231ps dst, src1, [src2], vector_len`
    pub fn vfmadd231ps_xxm(&mut self, dst: XMMRegister, src1: XMMRegister, src2: Address, vector_len: u8)
        requires
            dst.wf(),
            src1.wf(),
            src2.wf(),
            ({
                let f = old(self).features;
                (f.supports_fma()) && ({ let a1 = InstructionAttr::spec_new(f, vector_len, false, false, true, true); let a2 = a1.with_address(f, EVEX_FV, EVEX_32BIT); (vex_adr_ok(f, a2, src1.encoding, dst.encoding, src2)) })
            }),
        ensures
            ({
                let f = old(self).features;
                final(self).appends(*old(self), ({ let a1 = InstructionAttr::spec_new(f, vector_len, false, false, true, true); let a2 = a1.with_address(f, EVEX_FV, EVEX_32BIT); vex_adr_bytes(f, a2, src2, src1.encoding, dst.encoding, VEX_SIMD_66, VEX_OPCODE_0F_38) + ({ let a3 = vex_adr_attr(f, a2, src1.encoding, dst.encoding); seq![0xB8] + address_bytes(f, Some(a3), dst.encoding, src2, true) }) }))
            }),
    {
        let mut attributes = InstructionAttr::new(&self.features, vector_len, false, false, true, true);
        attributes.set_address_attributes(&self.features, EVEX_FV, EVEX_32BIT);
        self.vex_prefix(&src2, src1.encoding, dst.encoding, VEX_SIMD_66, VEX_OPCODE_0F_38, &mut attributes);
        self.emit_int8(0xB8);
        self.emit_operand_attr(dst.encoding, &src2, &attributes, true);
    }

    /// `vdivpd dst, nds, src, vector_len`
    pub fn vdivpd(&mut self, dst: XMMRegister, nds: XMMRegister, src: XMMRegister, vector_len: u8)
        requires
            dst.wf(),
            nds.wf(),
            src.wf(),
            ({
                let f = old(self).features;
                (f.supports_avx()) && ({ let a1 = InstructionAttr::spec_new(f, vector_len, f.supports_evex(), false, true, true); let a2 = a1.reverted(); (vex_rr_ok(f, a2, dst.encoding, nds.encoding, src.encoding)) })
            }),
        ensures
            ({
                let f = old(self).features;
                final(self).appends(*old(self), ({ let a1 = InstructionAttr::spec_new(f, vector_len, f.supports_evex(), false, true, true); let a2 = a1.reverted(); vex_rr_bytes(f, a2, dst.encoding, nds.encoding, src.encoding, VEX_SIMD_66, VEX_OPCODE_0F) + seq![0x5E, (0xC0 | rr_bits(dst.encoding, src.encoding))] }))
            }),
    {
        let mut attributes = InstructionAttr::new(&self.features, vector_len, self.features.supports_evex(), false, true, true);
        attributes.set_rex_vex_w_reverted();
        let encode = self.vex_prefix_and_encode(dst.encoding, nds.encoding, src.encoding, VEX_SIMD_66, VEX_OPCODE_0F, &mut attributes);
        self.emit_int16(0x5E, (0xC0 | encode));
    }

    /// `vdivps dst, nds, src, vector_len`
    pub fn vdivps(&mut self, dst: XMMRegister, nds: XMMRegister, src: XMMRegister, vector_len: u8)
        requires
            dst.wf(),
            nds.wf(),
            src.wf(),
            ({
                let f = old(self).features;
                (f.supports_avx()) && ({ let a1 = InstructionAttr::spec_new(f, vector_len, false, false, true, true); (vex_rr_ok(f, a1, dst.encoding, nds.encoding, src.encoding)) })
            }),
        ensures
            ({
                let f = old(self).features;
                final(self).appends(*old(self), ({ let a1 = InstructionAttr::spec_new(f, vector_len, false, false, true, true); vex_rr_bytes(f, a1, dst.encoding, nds.encoding, src.encoding, VEX_SIMD_NONE, VEX_OPCODE_0F) + seq![0x5E, (0xC0 | rr_bits(dst.encoding, src.encoding))] }))
            }),
    {
        let mut attributes = InstructionAttr::new(&self.features, vector_len, false, false, true, true);
        let encode = self.vex_prefix_and_encode(dst.encoding, nds.encoding, src.encoding, VEX_SIMD_NONE, VEX_OPCODE_0F, &mut attributes);
        self.emit_int16(0x5E, (0xC0 | encode));
    }

    /// `vdivpd dst, nds, [src], vector_len`
    pub fn vdivpd_xxm(&mut self, dst: XMMRegister, nds: XMMRegister, src: Address, vector_len: u8)
        requires
            dst.wf(),
            nds.wf(),
            src.wf(),
            ({
                let f = old(self).features;
                (f.supports_avx()) && ({ let a1 = InstructionAttr::spec_new(f, vector_len, f.supports_evex(), false, true, true); let a2 = a1.with_address(f, EVEX_FV, EVEX_64BIT); let a3 = a2.reverted(); (vex_adr_ok(f, a3, nds.encoding, dst.encoding, src)) })
            }),
        ensures
            ({
                let f = old(self).features;
                final(self).appends(*old(self), ({ let a1 = InstructionAttr::spec_new(f, vector_len, f.supports_evex(), false, true, true); let a2 = a1.with_address(f, EVEX_FV, EVEX_64BIT); let a3 = a2.reverted(); vex_adr_bytes(f, a3, src, nds.encoding, dst.encoding, VEX_SIMD_66, VEX_OPCODE_0F) + ({ let a4 = vex_adr_attr(f, a3, nds.encoding, dst.encoding); seq![0x5E] + address_bytes(f, Some(a4), dst.encoding, src, true) }) }))
            }),
    {
        let mut attributes = InstructionAttr::new(&self.features, vector_len, self.features.supports_evex(), false, true, true);
        attributes.set_address_attributes(&self.features, EVEX_FV, EVEX_64BIT);
        attributes.set_rex_vex_w_reverted();
        self.vex_prefix(&src, nds.encoding, dst.encoding, VEX_SIMD_66, VEX_OPCODE_0F, &mut attributes);
        self.emit_int8(0x5E);
        self.emit_operand_attr(dst.encoding, &src, &attributes, true);
    }

    /// `vdivps dst, nds, [src], vector_len`
    pub fn vdivps_xxm(&mut self, dst: XMMRegister, nds: XMMRegister, src: Address, vector_len: u8)
        requires
            dst.wf(),
            nds.wf(),
            src.wf(),
            ({
                let f = old(self).features;
                (f.supports_avx()) && ({ let a1 = InstructionAttr::spec_new(f, vector_len, false, false, true, true); let a2 = a1.with_address(f, EVEX_FV, EVEX_32BIT); (vex_adr_ok(f, a2, nds.encoding, dst.encoding, src)) })
            }),
        ensures
            ({
                let f = old(self).features;
                final(self).appends(*old(self), ({ let a1 = InstructionAttr::spec_new(f, vector_len, false, false, true, true); let a2 = a1.with_address(f, EVEX_FV, EVEX_32BIT); vex_adr_bytes(f, a2, src, nds.encoding, dst.encoding, VEX_SIMD_NONE, VEX_OPCODE_0F) + ({ let a3 = vex_adr_attr(f, a2, nds.encoding, dst.encoding); seq![0x5E] + address_bytes(f, Some(a3), dst.encoding, src, true) }) }))
            }),
    {
        let mut attributes = InstructionAttr::new(&self.features, vector_len, false, false, true, true);
        attributes.set_address_attributes(&self.features, EVEX_FV, EVEX_32BIT);
        self.vex_prefix(&src, nds.encoding, dst.encoding, VEX_SIMD_NONE, VEX_OPCODE_0F, &mut attributes);
        self.emit_int8(0x5E);
        self.emit_operand_attr(dst.encoding, &src, &attributes, true);
    }

    /// `vroundpd dst, src, rmode, vector_len`
    pub fn vroundpd(&mut self, dst: XMMRegister, src: XMMRegister, rmode: i32, vector_len: u8)
        requires
            dst.wf(),
            src.wf(),
            ({
                let f = old(self).features;
                (f.supports_avx()) && ({ let a1 = InstructionAttr::spec_new(f, vector_len, false, true, true, false); (vex_rr_ok(f, a1, dst.encoding, 0, src.encoding)) })
            }),
        ensures
            ({
                let f = old(self).features;
                final(self).appends(*old(self), ({ let a1 = InstructionAttr::spec_new(f, vector_len, false, true, true, false); vex_rr_bytes(f, a1, dst.encoding, 0, src.encoding, VEX_SIMD_66, VEX_OPCODE_0F_3A) + seq![0x09, (0xC0 | rr_bits(dst.encoding, src.encoding)), low8(rmode)] }))
            }),
    {
        let mut attributes = InstructionAttr::new(&self.features, vector_len, false, true, true, false);
        let encode = self.vex_prefix_and_encode(dst.encoding, 0, src.encoding, VEX_SIMD_66, VEX_OPCODE_0F_3A, &mut attributes);
        self.emit_int24(0x09, (0xC0 | encode), low8_exec(rmode));
    }

    /// `vroundpd dst, [src], rmode, vector_len`
    pub fn vroundpd_xmi(&mut self, dst: XMMRegister, src: Address, rmode: i32, vector_len: u8)
        requires
            dst.wf(),
            src.wf(),
            ({
                let f = old(self).features;
                (f.supports_avx()) && ({ let a1 = InstructionAttr::spec_new(f, vector_len, false, true, true, false); (vex_adr_ok(f, a1, 0, dst.encoding, src)) })
            }),
        ensures
            ({
                let f = old(self).features;
                final(self).appends(*old(self), ({ let a1 = InstructionAttr::spec_new(f, vector_len, false, true, true, false); vex_adr_bytes(f, a1, src, 0, dst.encoding, VEX_SIMD_66, VEX_OPCODE_0F_3A) + ({ let a2 = vex_adr_attr(f, a1, 0, dst.encoding); seq![0x09] + address_bytes(f, Some(a2), dst.encoding, src, true) + seq![low8(rmode)] }) }))
            }),
    {
        let mut attributes = InstructionAttr::new(&self.features, vector_len, false, true, true, false);
        self.vex_prefix(&src, 0, dst.encoding, VEX_SIMD_66, VEX_OPCODE_0F_3A, &mut attributes);
        self.emit_int8(0x09);
        self.emit_operand_attr(dst.encoding, &src, &attributes, true);
        self.emit_int8(low8_exec(rmode));
    }

    /// `vsqrtpd dst, src, vector_len`
    pub fn vsqrtpd(&mut self, dst: XMMRegister, src: XMMRegister, vector_len: u8)
        requires
            dst.wf(),
            src.wf(),
            ({
                let f = old(self).features;
                (f.supports_avx()) && ({ let a1 = InstructionAttr::spec_new(f, vector_len, f.supports_evex(), false, true, true); let a2 = a1.reverted(); (vex_rr_ok(f, a2, dst.encoding, 0, src.encoding)) })
            }),
        ensures
            ({
                let f = old(self).features;
                final(self).appends(*old(self), ({ let a1 = InstructionAttr::spec_new(f, vector_len, f.supports_evex(), false, true, true); let a2 = a1.reverted(); vex_rr_bytes(f, a2, dst.encoding, 0, src.encoding, VEX_SIMD_66, VEX_OPCODE_0F) + seq![0x51, (0xC0 | rr_bits(dst.encoding, src.encoding))] }))
            }),
    {
        let mut attributes = InstructionAttr::new(&self.features, vector_len, self.features.supports_evex(), false, true, true);
        attributes.set_rex_vex_w_reverted();
        let encode = self.vex_prefix_and_encode(dst.encoding, 0, src.encoding, VEX_SIMD_66, VEX_OPCODE_0F, &mut attributes);
        self.emit_int16(0x51, (0xC0 | encode));
    }

    /// `vsqrtpd dst, [src], vector_len`
    pub fn vsqrtpd_xm(&mut self, dst: XMMRegister, src: Address, vector_len: u8)
        requires
            dst.wf(),
            src.wf(),
            ({
                let f = old(self).features;
                (f.supports_avx()) && ({ let a1 = InstructionAttr::spec_new(f, vector_len, f.supports_evex(), false, true, true); let a2 = a1.with_address(f, EVEX_FV, EVEX_64BIT); let a3 = a2.reverted(); (vex_adr_ok(f, a3, 0, dst.encoding, src)) })
            }),
        ensures
            ({
                let f = old(self).features;
                final(self).appends(*old(self), ({ let a1 = InstructionAttr::spec_new(f, vector_len, f.supports_evex(), false, true, true); let a2 = a1.with_address(f, EVEX_FV, EVEX_64BIT); let a3 = a2.reverted(); vex_adr_bytes(f, a3, src, 0, dst.encoding, VEX_SIMD_66, VEX_OPCODE_0F) + ({ let a4 = vex_adr_attr(f, a3, 0, dst.encoding); seq![0x51] + address_bytes(f, Some(a4), dst.encoding, src, true) }) }))
            }),
    {
        let mut attributes = InstructionAttr::new(&self.features, vector_len, self.features.supports_evex(), false, true, true);
        attributes.set_address_attributes(&self.features, EVEX_FV, EVEX_64BIT);
        attributes.set_rex_vex_w_reverted();
        self.vex_prefix(&src, 0, dst.encoding, VEX_SIMD_66, VEX_OPCODE_0F, &mut attributes);
        self.emit_int8(0x51);
        self.emit_operand_attr(dst.encoding, &src, &attributes, true);
    }

    /// `vsqrtps dst, src, vector_len`
    pub fn vsqrtps(&mut self, dst: XMMRegister, src: XMMRegister, vector_len: u8)
        requires
            dst.wf(),
            src.wf(),
            ({
                let f = old(self).features;
                (f.supports_avx()) && ({ let a1 = InstructionAttr::spec_new(f, vector_len, false, false, true, true); (vex_rr_ok(f, a1, dst.encoding, 0, src.encoding)) })
            }),
        ensures
            ({
                let f = old(self).features;
                final(self).appends(*old(self), ({ let a1 = InstructionAttr::spec_new(f, vector_len, false, false, true, true); vex_rr_bytes(f, a1, dst.encoding, 0, src.encoding, VEX_SIMD_NONE, VEX_OPCODE_0F) + seq![0x51, (0xC0 | rr_bits(dst.encoding, src.encoding))] }))
            }),
    {
        let mut attributes = InstructionAttr::new(&self.features, vector_len, false, false, true, true);
        let encode = self.vex_prefix_and_encode(dst.encoding, 0, src.encoding, VEX_SIMD_NONE, VEX_OPCODE_0F, &mut attributes);
        self.emit_int16(0x51, (0xC0 | encode));
    }

    /// `vsqrtps dst, [src], vector_len`
    pub fn vsqrtps_xm(&mut self, dst: XMMRegister, src: Address, vector_len: u8)
        requires
            dst.wf(),
            src.wf(),
            ({
                let f = old(self).features;
                (f.supports_avx()) && ({ let a1 = InstructionAttr::spec_new(f, vector_len, false, false, true, true); let a2 = a1.with_address(f, EVEX_FV, EVEX_64BIT); (vex_adr_ok(f, a2, 0, dst.encoding, src)) })
            }),
        ensures
            ({
                let f = old(self).features;
                final(self).appends(*old(self), ({ let a1 = InstructionAttr::spec_new(f, vector_len, false, false, true, true); let a2 = a1.with_address(f, EVEX_FV, EVEX_64BIT); vex_adr_bytes(f, a2, src, 0, dst.encoding, VEX_SIMD_NONE, VEX_OPCODE_0F) + ({ let a3 = vex_adr_attr(f, a2, 0, dst.encoding); seq![0x51] + address_bytes(f, Some(a3), dst.encoding, src, true) }) }))
            }),
    {
        let mut attributes = InstructionAttr::new(&self.features, vector_len, false, false, true, true);
        attributes.set_address_attributes(&self.features, EVEX_FV, EVEX_64BIT);
        self.vex_prefix(&src, 0, dst.encoding, VEX_SIMD_NONE, VEX_OPCODE_0F, &mut attributes);
        self.emit_int8(0x51);
        self.emit_operand_attr(dst.encoding, &src, &attributes, true);
    }

    /// `vandpd dst, nds, src, vector_len`
    pub fn vandpd(&mut self, dst: XMMRegister, nds: XMMRegister, src: XMMRegister, vector_len: u8)
        requires
            dst.wf(),
            nds.wf(),
            src.wf(),
            ({
                let f = old(self).features;
                (f.supports_avx()) && ({ let a1 = InstructionAttr::spec_new(f, vector_len, (!f.legacy_mode_dq()), f.legacy_mode_dq(), true, true); let a2 = a1.reverted(); (vex_rr_ok(f, a2, dst.encoding, nds.encoding, src.encoding)) })
            }),
        ensures
            ({
                let f = old(self).features;
                final(self).appends(*old(self), ({ let a1 = InstructionAttr::spec_new(f, vector_len, (!f.legacy_mode_dq()), f.legacy_mode_dq(), true, true); let a2 = a1.reverted(); vex_rr_bytes(f, a2, dst.encoding, nds.encoding, src.encoding, VEX_SIMD_66, VEX_OPCODE_0F) + seq![0x54, (0xC0 | rr_bits(dst.encoding, src.encoding))] }))
            }),
    {
        let mut attributes = InstructionAttr::new(&self.features, vector_len, (!self.features.legacy_mode_dq()), self.features.legacy_mode_dq(), true, true);
        attributes.set_rex_vex_w_reverted();
        let encode = self.vex_prefix_and_encode(dst.encoding, nds.encoding, src.encoding, VEX_SIMD_66, VEX_OPCODE_0F, &mut attributes);
        self.emit_int16(0x54, (0xC0 | encode));
    }

    /// `vandps dst, nds, src, vector_len`
    pub fn vandps(&mut self, dst: XMMRegister, nds: XMMRegister, src: XMMRegister, vector_len: u8)
        requires
            dst.wf(),
            nds.wf(),
            src.wf(),
            ({
                let f = old(self).features;
                (f.supports_avx()) && ({ let a1 = InstructionAttr::spec_new(f, vector_len, false, f.legacy_mode_dq(), true, true); (vex_rr_ok(f, a1, dst.encoding, nds.encoding, src.encoding)) })
            }),
        ensures
            ({
                let f = old(self).features;
                final(self).appends(*old(self), ({ let a1 = InstructionAttr::spec_new(f, vector_len, false, f.legacy_mode_dq(), true, true); vex_rr_bytes(f, a1, dst.encoding, nds.encoding, src.encoding, VEX_SIMD_NONE, VEX_OPCODE_0F) + seq![0x54, (0xC0 | rr_bits(dst.encoding, src.encoding))] }))
            }),
    {
        let mut attributes = InstructionAttr::new(&self.features, vector_len, false, self.features.legacy_mode_dq(), true, true);
        let encode = self.vex_prefix_and_encode(dst.encoding, nds.encoding, src.encoding, VEX_SIMD_NONE, VEX_OPCODE_0F, &mut attributes);
        self.emit_int16(0x54, (0xC0 | encode));
    }

    /// `vandpd dst, nds, [src], vector_len`
    pub fn vandpd_xxm(&mut self, dst: XMMRegister, nds: XMMRegister, src: Address, vector_len: u8)
        requires
            dst.wf(),
            nds.wf(),
            src.wf(),
            ({
                let f = old(self).features;
                (f.supports_avx()) && ({ let a1 = InstructionAttr::spec_new(f, vector_len, (!f.legacy_mode_dq()), f.legacy_mode_dq(), true, true); let a2 = a1.with_address(f, EVEX_FV, EVEX_64BIT); let a3 = a2.reverted(); (vex_adr_ok(f, a3, nds.encoding, dst.encoding, src)) })
            }),
        ensures
            ({
                let f = old(self).features;
                final(self).appends(*old(self), ({ let a1 = InstructionAttr::spec_new(f, vector_len, (!f.legacy_mode_dq()), f.legacy_mode_dq(), true, true); let a2 = a1.with_address(f, EVEX_FV, EVEX_64BIT); let a3 = a2.reverted(); vex_adr_bytes(f, a3, src, nds.encoding, dst.encoding, VEX_SIMD_66, VEX_OPCODE_0F) + ({ let a4 = vex_adr_attr(f, a3, nds.encoding, dst.encoding); seq![0x54] + address_bytes(f, Some(a4), dst.encoding, src, true) }) }))
            }),
    {
        let mut attributes = InstructionAttr::new(&self.features, vector_len, (!self.features.legacy_mode_dq()), self.features.legacy_mode_dq(), true, true);
        attributes.set_address_attributes(&self.features, EVEX_FV, EVEX_64BIT);
        attributes.set_rex_vex_w_reverted();
        self.vex_prefix(&src, nds.encoding, dst.encoding, VEX_SIMD_66, VEX_OPCODE_0F, &mut attributes);
        self.emit_int8(0x54);
        self.emit_operand_attr(dst.encoding, &src, &attributes, true);
    }

    /// `vandps dst, nds, [src], vector_len`
    pub fn vandps_xxm(&mut self, dst: XMMRegister, nds: XMMRegister, src: Address, vector_len: u8)
        requires
            dst.wf(),
            nds.wf(),
            src.wf(),
            ({
                let f = old(self).features;
                (f.supports_avx()) && ({ let a1 = InstructionAttr::spec_new(f, vector_len, false, f.legacy_mode_dq(), true, true); let a2 = a1.with_address(f, EVEX_FV, EVEX_32BIT); (vex_adr_ok(f, a2, nds.encoding, dst.encoding, src)) })
            }),
        ensures
            ({
                let f = old(self).features;
                final(self).appends(*old(self), ({ let a1 = InstructionAttr::spec_new(f, vector_len, false, f.legacy_mode_dq(), true, true); let a2 = a1.with_address(f, EVEX_FV, EVEX_32BIT); vex_adr_bytes(f, a2, src, nds.encoding, dst.encoding, VEX_SIMD_NONE, VEX_OPCODE_0F) + ({ let a3 = vex_adr_attr(f, a2, nds.encoding, dst.encoding); seq![0x54] + address_bytes(f, Some(a3), dst.encoding, src, true) }) }))
            }),
    {
        let mut attributes = InstructionAttr::new(&self.features, vector_len, false, self.features.legacy_mode_dq(), true, true);
        attributes.set_address_attributes(&self.features, EVEX_FV, EVEX_32BIT);
        self.vex_prefix(&src, nds.encoding, dst.encoding, VEX_SIMD_NONE, VEX_OPCODE_0F, &mut attributes);
        self.emit_int8(0x54);
        self.emit_operand_attr(dst.encoding, &src, &attributes, true);
    }

    /// `vxorpd dst, nds, src, vector_len`
    pub fn vxorpd(&mut self, dst: XMMRegister, nds: XMMRegister, src: XMMRegister, vector_len: u8)
        requires
            dst.wf(),
            nds.wf(),
            src.wf(),
            ({
                let f = old(self).features;
                (f.supports_avx()) && ({ let a1 = InstructionAttr::spec_new(f, vector_len, (!f.legacy_mode_dq()), f.legacy_mode_dq(), true, true); let a2 = a1.reverted(); (vex_rr_ok(f, a2, dst.encoding, nds.encoding, src.encoding)) })
            }),
        ensures
            ({
                let f = old(self).features;
                final(self).appends(*old(self), ({ let a1 = InstructionAttr::spec_new(f, vector_len, (!f.legacy_mode_dq()), f.legacy_mode_dq(), true, true); let a2 = a1.reverted(); vex_rr_bytes(f, a2, dst.encoding, nds.encoding, src.encoding, VEX_SIMD_66, VEX_OPCODE_0F) + seq![0x57, (0xC0 | rr_bits(dst.encoding, src.encoding))] }))
            }),
    {
        let mut attributes = InstructionAttr::new(&self.features, vector_len, (!self.features.legacy_mode_dq()), self.features.legacy_mode_dq(), true, true);
        attributes.set_rex_vex_w_reverted();
        let encode = self.vex_prefix_and_encode(dst.encoding, nds.encoding, src.encoding, VEX_SIMD_66, VEX_OPCODE_0F, &mut attributes);
        self.emit_int16(0x57, (0xC0 | encode));
    }

    /// `vxorps dst, nds, src, vector_len`
    pub fn vxorps(&mut self, dst: XMMRegister, nds: XMMRegister, src: XMMRegister, vector_len: u8)
        requires
            dst.wf(),
            nds.wf(),
            src.wf(),
            ({
                let f = old(self).features;
                (f.supports_avx()) && ({ let a1 = InstructionAttr::spec_new(f, vector_len, false, f.legacy_mode_dq(), true, true); (vex_rr_ok(f, a1, dst.encoding, nds.encoding, src.encoding)) })
            }),
        ensures
            ({
                let f = old(self).features;
                final(self).appends(*old(self), ({ let a1 = InstructionAttr::spec_new(f, vector_len, false, f.legacy_mode_dq(), true, true); vex_rr_bytes(f, a1, dst.encoding, nds.encoding, src.encoding, VEX_SIMD_NONE, VEX_OPCODE_0F) + seq![0x57, (0xC0 | rr_bits(dst.encoding, src.encoding))] }))
            }),
    {
        let mut attributes = InstructionAttr::new(&self.features, vector_len, false, self.features.legacy_mode_dq(), true, true);
        let encode = self.vex_prefix_and_encode(dst.encoding, nds.encoding, src.encoding, VEX_SIMD_NONE, VEX_OPCODE_0F, &mut attributes);
        self.emit_int16(0x57, (0xC0 | encode));
    }

    /// `vxorpd dst, nds, [src], vector_len`
    pub fn vxorpd_xxm(&mut self, dst: XMMRegister, nds: XMMRegister, src: Address, vector_len: u8)
        requires
            dst.wf(),
            nds.wf(),
            src.wf(),
            ({
                let f = old(self).features;
                (f.supports_avx()) && ({ let a1 = InstructionAttr::spec_new(f, vector_len, (!f.legacy_mode_dq()), f.legacy_mode_dq(), true, true); let a2 = a1.with_address(f, EVEX_FV, EVEX_64BIT); let a3 = a2.reverted(); (vex_adr_ok(f, a3, nds.encoding, dst.encoding, src)) })
            }),
        ensures
            ({
                let f = old(self).features;
                final(self).appends(*old(self), ({ let a1 = InstructionAttr::spec_new(f, vector_len, (!f.legacy_mode_dq()), f.legacy_mode_dq(), true, true); let a2 = a1.with_address(f, EVEX_FV, EVEX_64BIT); let a3 = a2.reverted(); vex_adr_bytes(f, a3, src, nds.encoding, dst.encoding, VEX_SIMD_66, VEX_OPCODE_0F) + ({ let a4 = vex_adr_attr(f, a3, nds.encoding, dst.encoding); seq![0x57] + address_bytes(f, Some(a4), dst.encoding, src, true) }) }))
            }),
    {
        let mut attributes = InstructionAttr::new(&self.features, vector_len, (!self.features.legacy_mode_dq()), self.features.legacy_mode_dq(), true, true);
        attributes.set_address_attributes(&self.features, EVEX_FV, EVEX_64BIT);
        attributes.set_rex_vex_w_reverted();
        self.vex_prefix(&src, nds.encoding, dst.encoding, VEX_SIMD_66, VEX_OPCODE_0F, &mut attributes);
        self.emit_int8(0x57);
        self.emit_operand_attr(dst.encoding, &src, &attributes, true);
    }

    /// `vxorps dst, nds, [src], vector_len`
    pub fn vxorps_xxm(&mut self, dst: XMMRegister, nds: XMMRegister, src: Address, vector_len: u8)
        requires
            dst.wf(),
            nds.wf(),
            src.wf(),
            ({
                let f = old(self).features;
                (f.supports_avx()) && ({ let a1 = InstructionAttr::spec_new(f, vector_len, false, f.legacy_mode_dq(), true, true); let a2 = a1.with_address(f, EVEX_FV, EVEX_32BIT); (vex_adr_ok(f, a2, nds.encoding, dst.encoding, src)) })
            }),
        ensures
            ({
                let f = old(self).features;
                final(self).appends(*old(self), ({ let a1 = InstructionAttr::spec_new(f, vector_len, false, f.legacy_mode_dq(), true, true); let a2 = a1.with_address(f, EVEX_FV, EVEX_32BIT); vex_adr_bytes(f, a2, src, nds.encoding, dst.encoding, VEX_SIMD_NONE, VEX_OPCODE_0F) + ({ let a3 = vex_adr_attr(f, a2, nds.encoding, dst.encoding); seq![0x57] + address_bytes(f, Some(a3), dst.encoding, src, true) }) }))
            }),
    {
        let mut attributes = InstructionAttr::new(&self.features, vector_len, false, self.features.legacy_mode_dq(), true, true);
        attributes.set_address_attributes(&self.features, EVEX_FV, EVEX_32BIT);
        self.vex_prefix(&src, nds.encoding, dst.encoding, VEX_SIMD_NONE, VEX_OPCODE_0F, &mut attributes);
        self.emit_int8(0x57);
        self.emit_operand_attr(dst.encoding, &src, &attributes, true);
    }

    /// `vphaddw dst, nds, src, vector_len`
    pub fn vphaddw(&mut self, dst: XMMRegister, nds: XMMRegister, src: XMMRegister, vector_len: u8)
        requires
            dst.wf(),
            nds.wf(),
            src.wf(),
            ({
                let f = old(self).features;
                ((f.supports_avx() && (vector_len == 0)) || f.supports_avx2()) && ({ let a1 = InstructionAttr::spec_new(f, vector_len, false, true, true, true); (vex_rr_ok(f, a1, dst.encoding, nds.encoding, src.encoding)) })
            }),
        ensures
            ({
                let f = old(self).features;
                final(self).appends(*old(self), ({ let a1 = InstructionAttr::spec_new(f, vector_len, false, true, true, true); vex_rr_bytes(f, a1, dst.encoding, nds.encoding, src.encoding, VEX_SIMD_66, VEX_OPCODE_0F_38) + seq![0x01, (0xC0 | rr_bits(dst.encoding, src.encoding))] }))
            }),
    {
        let mut attributes = InstructionAttr::new(&self.features, vector_len, false, true, true, true);
        let encode = self.vex_prefix_and_encode(dst.encoding, nds.encoding, src.encoding, VEX_SIMD_66, VEX_OPCODE_0F_38, &mut attributes);
        self.emit_int16(0x01, (0xC0 | encode));
    }

    /// `vphaddd dst, nds, src, vector_len`
    pub fn vphaddd(&mut self, dst: XMMRegister, nds: XMMRegister, src: XMMRegister, vector_len: u8)
        requires
            dst.wf(),
            nds.wf(),
            src.wf(),
            ({
                let f = old(self).features;
                ((f.supports_avx() && (vector_len == 0)) || f.supports_avx2()) && ({ let a1 = InstructionAttr::spec_new(f, vector_len, false, true, true, true); (vex_rr_ok(f, a1, dst.encoding, nds.encoding, src.encoding)) })
            }),
        ensures
            ({
                let f = old(self).features;
                final(self).appends(*old(self), ({ let a1 = InstructionAttr::spec_new(f, vector_len, false, true, true, true); vex_rr_bytes(f, a1, dst.encoding, nds.encoding, src.encoding, VEX_SIMD_66, VEX_OPCODE_0F_38) + seq![0x02, (0xC0 | rr_bits(dst.encoding, src.encoding))] }))
            }),
    {
        let mut attributes = InstructionAttr::new(&self.features, vector_len, false, true, true, true);
        let encode = self.vex_prefix_and_encode(dst.encoding, nds.encoding, src.encoding, VEX_SIMD_66, VEX_OPCODE_0F_38, &mut attributes);
        self.emit_int16(0x02, (0xC0 | encode));
    }

    /// `vpaddb dst, nds, src, vector_len`
    pub fn vpaddb(&mut self, dst: XMMRegister, nds: XMMRegister, src: XMMRegister, vector_len: u8)
        requires
            dst.wf(),
            nds.wf(),
            src.wf(),
            ({
                let f = old(self).features;
                (f.use_avx > 0) && ({ let a1 = InstructionAttr::spec_new(f, vector_len, false, f.legacy_mode_bw(), true, true); (vex_rr_ok(f, a1, dst.encoding, nds.encoding, src.encoding)) })
            }),
        ensures
            ({
                let f = old(self).features;
                final(self).appends(*old(self), ({ let a1 = InstructionAttr::spec_new(f, vector_len, false, f.legacy_mode_bw(), true, true); vex_rr_bytes(f, a1, dst.encoding, nds.encoding, src.encoding, VEX_SIMD_66, VEX_OPCODE_0F) + seq![0xFC, (0xC0 | rr_bits(dst.encoding, src.encoding))] }))
            }),
    {
        let mut attributes = InstructionAttr::new(&self.features, vector_len, false, self.features.legacy_mode_bw(), true, true);
        let encode = self.vex_prefix_and_encode(dst.encoding, nds.encoding, src.encoding, VEX_SIMD_66, VEX_OPCODE_0F, &mut attributes);
        self.emit_int16(0xFC, (0xC0 | encode));
    }

    /// `vpaddw dst, nds, src, vector_len`
    pub fn vpaddw(&mut self, dst: XMMRegister, nds: XMMRegister, src: XMMRegister, vector_len: u8)
        requires
            dst.wf(),
            nds.wf(),
            src.wf(),
            ({
                let f = old(self).features;
                (f.use_avx > 0) && ({ let a1 = InstructionAttr::spec_new(f, vector_len, false, f.legacy_mode_bw(), true, true); (vex_rr_ok(f, a1, dst.encoding, nds.encoding, src.encoding)) })
            }),
        ensures
            ({
                let f = old(self).features;
                final(self).appends(*old(self), ({ let a1 = InstructionAttr::spec_new(f, vector_len, false, f.legacy_mode_bw(), true, true); vex_rr_bytes(f, a1, dst.encoding, nds.encoding, src.encoding, VEX_SIMD_66, VEX_OPCODE_0F) + seq![0xFD, (0xC0 | rr_bits(dst.encoding, src.encoding))] }))
            }),
    {
        let mut attributes = InstructionAttr::new(&self.features, vector_len, false, self.features.legacy_mode_bw(), true, true);
        let encode = self.vex_prefix_and_encode(dst.encoding, nds.encoding, src.encoding, VEX_SIMD_66, VEX_OPCODE_0F, &mut attributes);
        self.emit_int16(0xFD, (0xC0 | encode));
    }

    /// `vpaddd dst, nds, src, vector_len`
    pub fn vpaddd(&mut self, dst: XMMRegister, nds: XMMRegister, src: XMMRegister, vector_len: u8)
        requires
            dst.wf(),
            nds.wf(),
            src.wf(),
            ({
                let f = old(self).features;
                (f.use_avx > 0) && ({ let a1 = InstructionAttr::spec_new(f, vector_len, false, false, true, true); (vex_rr_ok(f, a1, dst.encoding, nds.encoding, src.encoding)) })
            }),
        ensures
            ({
                let f = old(self).features;
                final(self).appends(*old(self), ({ let a1 = InstructionAttr::spec_new(f, vector_len, false, false, true, true); vex_rr_bytes(f, a1, dst.encoding, nds.encoding, src.encoding, VEX_SIMD_66, VEX_OPCODE_0F) + seq![0xFE, (0xC0 | rr_bits(dst.encoding, src.encoding))] }))
            }),
    {
        let mut attributes = InstructionAttr::new(&self.features, vector_len, false, false, true, true);
        let encode = self.vex_prefix_and_encode(dst.encoding, nds.encoding, src.encoding, VEX_SIMD_66, VEX_OPCODE_0F, &mut attributes);
        self.emit_int16(0xFE, (0xC0 | encode));
    }

    /// `vpaddq dst, nds, src, vector_len`
    pub fn vpaddq(&mut self, dst: XMMRegister, nds: XMMRegister, src: XMMRegister, vector_len: u8)
        requires
            dst.wf(),
            nds.wf(),
            src.wf(),
            ({
                let f = old(self).features;
                (f.use_avx > 0) && ({ let a1 = InstructionAttr::spec_new(f, vector_len, f.supports_evex(), false, true, true); let a2 = a1.reverted(); (vex_rr_ok(f, a2, dst.encoding, nds.encoding, src.encoding)) })
            }),
        ensures
            ({
                let f = old(self).features;
                final(self).appends(*old(self), ({ let a1 = InstructionAttr::spec_new(f, vector_len, f.supports_evex(), false, true, true); let a2 = a1.reverted(); vex_rr_bytes(f, a2, dst.encoding, nds.encoding, src.encoding, VEX_SIMD_66, VEX_OPCODE_0F) + seq![0xD4, (0xC0 | rr_bits(dst.encoding, src.encoding))] }))
            }),
    {
        let mut attributes = InstructionAttr::new(&self.features, vector_len, self.features.supports_evex(), false, true, true);
        attributes.set_rex_vex_w_reverted();
        let encode = self.vex_prefix_and_encode(dst.encoding, nds.encoding, src.encoding, VEX_SIMD_66, VEX_OPCODE_0F, &mut attributes);
        self.emit_int16(0xD4, (0xC0 | encode));
    }

    /// `vpaddb dst, nds, [src], vector_len`
    pub fn vpaddb_xxm(&mut self, dst: XMMRegister, nds: XMMRegister, src: Address, vector_len: u8)
        requires
            dst.wf(),
            nds.wf(),
            src.wf(),
            ({
                let f = old(self).features;
                (f.use_avx > 0) && ({ let a1 = InstructionAttr::spec_new(f, vector_len, false, f.legacy_mode_bw(), true, true); let a2 = a1.with_address(f, EVEX_FVM, EVEX_NOBIT); (vex_adr_ok(f, a2, nds.encoding, dst.encoding, src)) })
            }),
        ensures
            ({
                let f = old(self).features;
                final(self).appends(*old(self), ({ let a1 = InstructionAttr::spec_new(f, vector_len, false, f.legacy_mode_bw(), true, true); let a2 = a1.with_address(f, EVEX_FVM, EVEX_NOBIT); vex_adr_bytes(f, a2, src, nds.encoding, dst.encoding, VEX_SIMD_66, VEX_OPCODE_0F) + ({ let a3 = vex_adr_attr(f, a2, nds.encoding, dst.encoding); seq![0xFC] + address_bytes(f, Some(a3), dst.encoding, src, true) }) }))
            }),
    {
        let mut attributes = InstructionAttr::new(&self.features, vector_len, false, self.features.legacy_mode_bw(), true, true);
        attributes.set_address_attributes(&self.features, EVEX_FVM, EVEX_NOBIT);
        self.vex_prefix(&src, nds.encoding, dst.encoding, VEX_SIMD_66, VEX_OPCODE_0F, &mut attributes);
        self.emit_int8(0xFC);
        self.emit_operand_attr(dst.encoding, &src, &attributes, true);
    }

    /// `vpaddw dst, nds, [src], vector_len`
    pub fn vpaddw_xxm(&mut self, dst: XMMRegister, nds: XMMRegister, src: Address, vector_len: u8)
        requires
            dst.wf(),
            nds.wf(),
            src.wf(),
            ({
                let f = old(self).features;
                (f.use_avx > 0) && ({ let a1 = InstructionAttr::spec_new(f, vector_len, false, f.legacy_mode_bw(), true, true); let a2 = a1.with_address(f, EVEX_FVM, EVEX_NOBIT); (vex_adr_ok(f, a2, nds.encoding, dst.encoding, src)) })
            }),
        ensures
            ({
                let f = old(self).features;
                final(self).appends(*old(self), ({ let a1 = InstructionAttr::spec_new(f, vector_len, false, f.legacy_mode_bw(), true, true); let a2 = a1.with_address(f, EVEX_FVM, EVEX_NOBIT); vex_adr_bytes(f, a2, src, nds.encoding, dst.encoding, VEX_SIMD_66, VEX_OPCODE_0F) + ({ let a3 = vex_adr_attr(f, a2, nds.encoding, dst.encoding); seq![0xFD] + address_bytes(f, Some(a3), dst.encoding, src, true) }) }))
            }),
    {
        let mut attributes = InstructionAttr::new(&self.features, vector_len, false, self.features.legacy_mode_bw(), true, true);
        attributes.set_address_attributes(&self.features, EVEX_FVM, EVEX_NOBIT);
        self.vex_prefix(&src, nds.encoding, dst.encoding, VEX_SIMD_66, VEX_OPCODE_0F, &mut attributes);
        self.emit_int8(0xFD);
        self.emit_operand_attr(dst.encoding, &src, &attributes, true);
    }

    /// `vpaddd dst, nds, [src], vector_len`
    pub fn vpaddd_xxm(&mut self, dst: XMMRegister, nds: XMMRegister, src: Address, vector_len: u8)
        requires
            dst.wf(),
            nds.wf(),
            src.wf(),
            ({
                let f = old(self).features;
                (f.use_avx > 0) && ({ let a1 = InstructionAttr::spec_new(f, vector_len, false, false, true, true); let a2 = a1.with_address(f, EVEX_FV, EVEX_32BIT); (vex_adr_ok(f, a2, nds.encoding, dst.encoding, src)) })
            }),
        ensures
            ({
                let f = old(self).features;
                final(self).appends(*old(self), ({ let a1 = InstructionAttr::spec_new(f, vector_len, false, false, true, true); let a2 = a1.with_address(f, EVEX_FV, EVEX_32BIT); vex_adr_bytes(f, a2, src, nds.encoding, dst.encoding, VEX_SIMD_66, VEX_OPCODE_0F) + ({ let a3 = vex_adr_attr(f, a2, nds.encoding, dst.encoding); seq![0xFE] + address_bytes(f, Some(a3), dst.encoding, src, true) }) }))
            }),
    {
        let mut attributes = InstructionAttr::new(&self.features, vector_len, false, false, true, true);
        attributes.set_address_attributes(&self.features, EVEX_FV, EVEX_32BIT);
        self.vex_prefix(&src, nds.encoding, dst.encoding, VEX_SIMD_66, VEX_OPCODE_0F, &mut attributes);
        self.emit_int8(0xFE);
        self.emit_operand_attr(dst.encoding, &src, &attributes, true);
    }

    /// `vpaddq dst, nds, [src], vector_len`
    pub fn vpaddq_xxm(&mut self, dst: XMMRegister, nds: XMMRegister, src: Address, vector_len: u8)
        requires
            dst.wf(),
            nds.wf(),
            src.wf(),
            ({
                let f = old(self).features;
                (f.use_avx > 0) && ({ let a1 = InstructionAttr::spec_new(f, vector_len, f.supports_evex(), false, true, true); let a2 = a1.with_address(f, EVEX_FV, EVEX_64BIT); let a3 = a2.reverted(); (vex_adr_ok(f, a3, nds.encoding, dst.encoding, src)) })
            }),
        ensures
            ({
                let f = old(self).features;
                final(self).appends(*old(self), ({ let a1 = InstructionAttr::spec_new(f, vector_len, f.supports_evex(), false, true, true); let a2 = a1.with_address(f, EVEX_FV, EVEX_64BIT); let a3 = a2.reverted(); vex_adr_bytes(f, a3, src, nds.encoding, dst.encoding, VEX_SIMD_66, VEX_OPCODE_0F) + ({ let a4 = vex_adr_attr(f, a3, nds.encoding, dst.encoding); seq![0xD4] + address_bytes(f, Some(a4), dst.encoding, src, true) }) }))
            }),
    {
        let mut attributes = InstructionAttr::new(&self.features, vector_len, self.features.supports_evex(), false, true, true);
        attributes.set_address_attributes(&self.features, EVEX_FV, EVEX_64BIT);
        attributes.set_rex_vex_w_reverted();
        self.vex_prefix(&src, nds.encoding, dst.encoding, VEX_SIMD_66, VEX_OPCODE_0F, &mut attributes);
        self.emit_int8(0xD4);
        self.emit_operand_attr(dst.encoding, &src, &attributes, true);
    }

    /// `vpsubusb dst, nds, src, vector_len`
    pub fn vpsubusb(&mut self, dst: XMMRegister, nds: XMMRegister, src: XMMRegister, vector_len: u8)
        requires
            dst.wf(),
            nds.wf(),
            src.wf(),
            ({
                let f = old(self).features;
                (f.use_avx > 0) && ({ let a1 = InstructionAttr::spec_new(f, vector_len, false, f.legacy_mode_bw(), true, true); (vex_rr_ok(f, a1, dst.encoding, nds.encoding, src.encoding)) })
            }),
        ensures
            ({
                let f = old(self).features;
                final(self).appends(*old(self), ({ let a1 = InstructionAttr::spec_new(f, vector_len, false, f.legacy_mode_bw(), true, true); vex_rr_bytes(f, a1, dst.encoding, nds.encoding, src.encoding, VEX_SIMD_66, VEX_OPCODE_0F) + seq![0xD8, (0xC0 | rr_bits(dst.encoding, src.encoding))] }))
            }),
    {
        let mut attributes = InstructionAttr::new(&self.features, vector_len, false, self.features.legacy_mode_bw(), true, true);
        let encode = self.vex_prefix_and_encode(dst.encoding, nds.encoding, src.encoding, VEX_SIMD_66, VEX_OPCODE_0F, &mut attributes);
        self.emit_int16(0xD8, (0xC0 | encode));
    }

    /// `vpsubb dst, nds, src, vector_len`
    pub fn vpsubb(&mut self, dst: XMMRegister, nds: XMMRegister, src: XMMRegister, vector_len: u8)
        requires
            dst.wf(),
            nds.wf(),
            src.wf(),
            ({
                let f = old(self).features;
                (f.use_avx > 0) && ({ let a1 = InstructionAttr::spec_new(f, vector_len, false, f.legacy_mode_bw(), true, true); (vex_rr_ok(f, a1, dst.encoding, nds.encoding, src.encoding)) })
            }),
        ensures
            ({
                let f = old(self).features;
                final(self).appends(*old(self), ({ let a1 = InstructionAttr::spec_new(f, vector_len, false, f.legacy_mode_bw(), true, true); vex_rr_bytes(f, a1, dst.encoding, nds.encoding, src.encoding, VEX_SIMD_66, VEX_OPCODE_0F) + seq![0xF8, (0xC0 | rr_bits(dst.encoding, src.encoding))] }))
            }),
    {
        let mut attributes = InstructionAttr::new(&self.features, vector_len, false, self.features.legacy_mode_bw(), true, true);
        let encode = self.vex_prefix_and_encode(dst.encoding, nds.encoding, src.encoding, VEX_SIMD_66, VEX_OPCODE_0F, &mut attributes);
        self.emit_int16(0xF8, (0xC0 | encode));
    }

    /// `vpsubw dst, nds, src, vector_len`
    pub fn vpsubw(&mut self, dst: XMMRegister, nds: XMMRegister, src: XMMRegister, vector_len: u8)
        requires
            dst.wf(),
            nds.wf(),
            src.wf(),
            ({
                let f = old(self).features;
                (f.use_avx > 0) && ({ let a1 = InstructionAttr::spec_new(f, vector_len, false, f.legacy_mode_bw(), true, true); (vex_rr_ok(f, a1, dst.encoding, nds.encoding, src.encoding)) })
            }),
        ensures
            ({
                let f = old(self).features;
                final(self).appends(*old(self), ({ let a1 = InstructionAttr::spec_new(f, vector_len, false, f.legacy_mode_bw(), true, true); vex_rr_bytes(f, a1, dst.encoding, nds.encoding, src.encoding, VEX_SIMD_66, VEX_OPCODE_0F) + seq![0xF9, (0xC0 | rr_bits(dst.encoding, src.encoding))] }))
            }),
    {
        let mut attributes = InstructionAttr::new(&self.features, vector_len, false, self.features.legacy_mode_bw(), true, true);
        let encode = self.vex_prefix_and_encode(dst.encoding, nds.encoding, src.encoding, VEX_SIMD_66, VEX_OPCODE_0F, &mut attributes);
        self.emit_int16(0xF9, (0xC0 | encode));
    }

    /// `vpsubd dst, nds, src, vector_len`
    pub fn vpsubd(&mut self, dst: XMMRegister, nds: XMMRegister, src: XMMRegister, vector_len: u8)
        requires
            dst.wf(),
            nds.wf(),
            src.wf(),
            ({
                let f = old(self).features;
                (f.use_avx > 0) && ({ let a1 = InstructionAttr::spec_new(f, vector_len, false, false, true, true); (vex_rr_ok(f, a1, dst.encoding, nds.encoding, src.encoding)) })
            }),
        ensures
            ({
                let f = old(self).features;
                final(self).appends(*old(self), ({ let a1 = InstructionAttr::spec_new(f, vector_len, false, false, true, true); vex_rr_bytes(f, a1, dst.encoding, nds.encoding, src.encoding, VEX_SIMD_66, VEX_OPCODE_0F) + seq![0xFA, (0xC0 | rr_bits(dst.encoding, src.encoding))] }))
            }),
    {
        let mut attributes = InstructionAttr::new(&self.features, vector_len, false, false, true, true);
        let encode = self.vex_prefix_and_encode(dst.encoding, nds.encoding, src.encoding, VEX_SIMD_66, VEX_OPCODE_0F, &mut attributes);
        self.emit_int16(0xFA, (0xC0 | encode));
    }

    /// `vpsubq dst, nds, src, vector_len`
    pub fn vpsubq(&mut self, dst: XMMRegister, nds: XMMRegister, src: XMMRegister, vector_len: u8)
        requires
            dst.wf(),
            nds.wf(),
            src.wf(),
            ({
                let f = old(self).features;
                (f.use_avx > 0) && ({ let a1 = InstructionAttr::spec_new(f, vector_len, f.supports_evex(), false, true, true); let a2 = a1.reverted(); (vex_rr_ok(f, a2, dst.encoding, nds.encoding, src.encoding)) })
            }),
        ensures
            ({
                let f = old(self).features;
                final(self).appends(*old(self), ({ let a1 = InstructionAttr::spec_new(f, vector_len, f.supports_evex(), false, true, true); let a2 = a1.reverted(); vex_rr_bytes(f, a2, dst.encoding, nds.encoding, src.encoding, VEX_SIMD_66, VEX_OPCODE_0F) + seq![0xFB, (0xC0 | rr_bits(dst.encoding, src.encoding))] }))
            }),
    {
        let mut attributes = InstructionAttr::new(&self.features, vector_len, self.features.supports_evex(), false, true, true);
        attributes.set_rex_vex_w_reverted();
        let encode = self.vex_prefix_and_encode(dst.encoding, nds.encoding, src.encoding, VEX_SIMD_66, VEX_OPCODE_0F, &mut attributes);
        self.emit_int16(0xFB, (0xC0 | encode));
    }

    /// `vpsubb dst, nds, [src], vector_len`
    pub fn vpsubb_xxm(&mut self, dst: XMMRegister, nds: XMMRegister, src: Address, vector_len: u8)
        requires
            dst.wf(),
            nds.wf(),
            src.wf(),
            ({
                let f = old(self).features;
                (f.use_avx > 0) && ({ let a1 = InstructionAttr::spec_new(f, vector_len, false, f.legacy_mode_bw(), true, true); let a2 = a1.with_address(f, EVEX_FVM, EVEX_NOBIT); (vex_adr_ok(f, a2, nds.encoding, dst.encoding, src)) })
            }),
        ensures
            ({
                let f = old(self).features;
                final(self).appends(*old(self), ({ let a1 = InstructionAttr::spec_new(f, vector_len, false, f.legacy_mode_bw(), true, true); let a2 = a1.with_address(f, EVEX_FVM, EVEX_NOBIT); vex_adr_bytes(f, a2, src, nds.encoding, dst.encoding, VEX_SIMD_66, VEX_OPCODE_0F) + ({ let a3 = vex_adr_attr(f, a2, nds.encoding, dst.encoding); seq![0xF8] + address_bytes(f, Some(a3), dst.encoding, src, true) }) }))
            }),
    {
        let mut attributes = InstructionAttr::new(&self.features, vector_len, false, self.features.legacy_mode_bw(), true, true);
        attributes.set_address_attributes(&self.features, EVEX_FVM, EVEX_NOBIT);
        self.vex_prefix(&src, nds.encoding, dst.encoding, VEX_SIMD_66, VEX_OPCODE_0F, &mut attributes);
        self.emit_int8(0xF8);
        self.emit_operand_attr(dst.encoding, &src, &attributes, true);
    }

    /// `vpsubw dst, nds, [src], vector_len`
    pub fn vpsubw_xxm(&mut self, dst: XMMRegister, nds: XMMRegister, src: Address, vector_len: u8)
        requires
            dst.wf(),
            nds.wf(),
            src.wf(),
            ({
                let f = old(self).features;
                (f.use_avx > 0) && ({ let a1 = InstructionAttr::spec_new(f, vector_len, false, f.legacy_mode_bw(), true, true); let a2 = a1.with_address(f, EVEX_FVM, EVEX_NOBIT); (vex_adr_ok(f, a2, nds.encoding, dst.encoding, src)) })
            }),
        ensures
            ({
                let f = old(self).features;
                final(self).appends(*old(self), ({ let a1 = InstructionAttr::spec_new(f, vector_len, false, f.legacy_mode_bw(), true, true); let a2 = a1.with_address(f, EVEX_FVM, EVEX_NOBIT); vex_adr_bytes(f, a2, src, nds.encoding, dst.encoding, VEX_SIMD_66, VEX_OPCODE_0F) + ({ let a3 = vex_adr_attr(f, a2, nds.encoding, dst.encoding); seq![0xF9] + address_bytes(f, Some(a3), dst.encoding, src, true) }) }))
            }),
    {
        let mut attributes = InstructionAttr::new(&self.features, vector_len, false, self.features.legacy_mode_bw(), true, true);
        attributes.set_address_attributes(&self.features, EVEX_FVM, EVEX_NOBIT);
        self.vex_prefix(&src, nds.encoding, dst.encoding, VEX_SIMD_66, VEX_OPCODE_0F, &mut attributes);
        self.emit_int8(0xF9);
        self.emit_operand_attr(dst.encoding, &src, &attributes, true);
    }

    /// `vpsubd dst, nds, [src], vector_len`
    pub fn vpsubd_xxm(&mut self, dst: XMMRegister, nds: XMMRegister, src: Address, vector_len: u8)
        requires
            dst.wf(),
            nds.wf(),
            src.wf(),
            ({
                let f = old(self).features;
                (f.use_avx > 0) && ({ let a1 = InstructionAttr::spec_new(f, vector_len, false, false, true, true); let a2 = a1.with_address(f, EVEX_FV, EVEX_32BIT); (vex_adr_ok(f, a2, nds.encoding, dst.encoding, src)) })
            }),
        ensures
            ({
                let f = old(self).features;
                final(self).appends(*old(self), ({ let a1 = InstructionAttr::spec_new(f, vector_len, false, false, true, true); let a2 = a1.with_address(f, EVEX_FV, EVEX_32BIT); vex_adr_bytes(f, a2, src, nds.encoding, dst.encoding, VEX_SIMD_66, VEX_OPCODE_0F) + ({ let a3 = vex_adr_attr(f, a2, nds.encoding, dst.encoding); seq![0xFA] + address_bytes(f, Some(a3), dst.encoding, src, true) }) }))
            }),
    {
        let mut attributes = InstructionAttr::new(&self.features, vector_len, false, false, true, true);
        attributes.set_address_attributes(&self.features, EVEX_FV, EVEX_32BIT);
        self.vex_prefix(&src, nds.encoding, dst.encoding, VEX_SIMD_66, VEX_OPCODE_0F, &mut attributes);
        self.emit_int8(0xFA);
        self.emit_operand_attr(dst.encoding, &src, &attributes, true);
    }

    /// `vpsubq dst, nds, [src], vector_len`
    pub fn vpsubq_xxm(&mut self, dst: XMMRegister, nds: XMMRegister, src: Address, vector_len: u8)
        requires
            dst.wf(),
            nds.wf(),
            src.wf(),
            ({
                let f = old(self).features;
                (f.use_avx > 0) && ({ let a1 = InstructionAttr::spec_new(f, vector_len, f.supports_evex(), false, true, true); let a2 = a1.with_address(f, EVEX_FV, EVEX_64BIT); let a3 = a2.reverted(); (vex_adr_ok(f, a3, nds.encoding, dst.encoding, src)) })
            }),
        ensures
            ({
                let f = old(self).features;
                final(self).appends(*old(self), ({ let a1 = InstructionAttr::spec_new(f, vector_len, f.supports_evex(), false, true, true); let a2 = a1.with_address(f, EVEX_FV, EVEX_64BIT); let a3 = a2.reverted(); vex_adr_bytes(f, a3, src, nds.encoding, dst.encoding, VEX_SIMD_66, VEX_OPCODE_0F) + ({ let a4 = vex_adr_attr(f, a3, nds.encoding, dst.encoding); seq![0xFB] + address_bytes(f, Some(a4), dst.encoding, src, true) }) }))
            }),
    {
        let mut attributes = InstructionAttr::new(&self.features, vector_len, self.features.supports_evex(), false, true, true);
        attributes.set_address_attributes(&self.features, EVEX_FV, EVEX_64BIT);
        attributes.set_rex_vex_w_reverted();
        self.vex_prefix(&src, nds.encoding, dst.encoding, VEX_SIMD_66, VEX_OPCODE_0F, &mut attributes);
        self.emit_int8(0xFB);
        self.emit_operand_attr(dst.encoding, &src, &attributes, true);
    }

    /// `vpmulhuw dst, nds, src, vector_len`
    pub fn vpmulhuw(&mut self, dst: XMMRegister, nds: XMMRegister, src: XMMRegister, vector_len: u8)
        requires
            dst.wf(),
            nds.wf(),
            src.wf(),
            ({
                let f = old(self).features;
                ((((vector_len == AVX_128BIT) && f.supports_avx()) || ((vector_len == AVX_256BIT) && f.supports_avx2())) || ((vector_len == AVX_512BIT) && f.supports_avx512bw())) && ({ let a1 = InstructionAttr::spec_new(f, vector_len, false, f.legacy_mode_bw(), true, true); (vex_rr_ok(f, a1, dst.encoding, nds.encoding, src.encoding)) })
            }),
        ensures
            ({
                let f = old(self).features;
                final(self).appends(*old(self), ({ let a1 = InstructionAttr::spec_new(f, vector_len, false, f.legacy_mode_bw(), true, true); vex_rr_bytes(f, a1, dst.encoding, nds.encoding, src.encoding, VEX_SIMD_66, VEX_OPCODE_0F) + seq![0xE4, (0xC0 | rr_bits(dst.encoding, src.encoding))] }))
            }),
    {
        let mut attributes = InstructionAttr::new(&self.features, vector_len, false, self.features.legacy_mode_bw(), true, true);
        let encode = self.vex_prefix_and_encode(dst.encoding, nds.encoding, src.encoding, VEX_SIMD_66, VEX_OPCODE_0F, &mut attributes);
        self.emit_int16(0xE4, (0xC0 | encode));
    }

    /// `vpmullw dst, nds, src, vector_len`
    pub fn vpmullw(&mut self, dst: XMMRegister, nds: XMMRegister, src: XMMRegister, vector_len: u8)
        requires
            dst.wf(),
            nds.wf(),
            src.wf(),
            ({
                let f = old(self).features;
                (f.use_avx > 0) && ({ let a1 = InstructionAttr::spec_new(f, vector_len, false, f.legacy_mode_bw(), true, true); (vex_rr_ok(f, a1, dst.encoding, nds.encoding, src.encoding)) })
            }),
        ensures
            ({
                let f = old(self).features;
                final(self).appends(*old(self), ({ let a1 = InstructionAttr::spec_new(f, vector_len, false, f.legacy_mode_bw(), true, true); vex_rr_bytes(f, a1, dst.encoding, nds.encoding, src.encoding, VEX_SIMD_66, VEX_OPCODE_0F) + seq![0xD5, (0xC0 | rr_bits(dst.encoding, src.encoding))] }))
            }),
    {
        let mut attributes = InstructionAttr::new(&self.features, vector_len, false, self.features.legacy_mode_bw(), true, true);
        let encode = self.vex_prefix_and_encode(dst.encoding, nds.encoding, src.encoding, VEX_SIMD_66, VEX_OPCODE_0F, &mut attributes);
        self.emit_int16(0xD5, (0xC0 | encode));
    }

    /// `vpmulld dst, nds, src, vector_len`
    pub fn vpmulld(&mut self, dst: XMMRegister, nds: XMMRegister, src: XMMRegister, vector_len: u8)
        requires
            dst.wf(),
            nds.wf(),
            src.wf(),
            ({
                let f = old(self).features;
                (f.use_avx > 0) && ({ let a1 = InstructionAttr::spec_new(f, vector_len, false, false, true, true); (vex_rr_ok(f, a1, dst.encoding, nds.encoding, src.encoding)) })
            }),
        ensures
            ({
                let f = old(self).features;
                final(self).appends(*old(self), ({ let a1 = InstructionAttr::spec_new(f, vector_len, false, false, true, true); vex_rr_bytes(f, a1, dst.encoding, nds.encoding, src.encoding, VEX_SIMD_66, VEX_OPCODE_0F_38) + seq![0x40, (0xC0 | rr_bits(dst.encoding, src.encoding))] }))
            }),
    {
        let mut attributes = InstructionAttr::new(&self.features, vector_len, false, false, true, true);
        let encode = self.vex_prefix_and_encode(dst.encoding, nds.encoding, src.encoding, VEX_SIMD_66, VEX_OPCODE_0F_38, &mut attributes);
        self.emit_int16(0x40, (0xC0 | encode));
    }

    /// `vpmuludq dst, nds, src, vector_len`
    pub fn vpmuludq(&mut self, dst: XMMRegister, nds: XMMRegister, src: XMMRegister, vector_len: u8)
        requires
            dst.wf(),
            nds.wf(),
            src.wf(),
            ({
                let f = old(self).features;
                (f.use_avx > 0) && ({ let a1 = InstructionAttr::spec_new(f, vector_len, f.supports_evex(), false, true, true); (vex_rr_ok(f, a1, dst.encoding, nds.encoding, src.encoding)) })
            }),
        ensures
            ({
                let f = old(self).features;
                final(self).appends(*old(self), ({ let a1 = InstructionAttr::spec_new(f, vector_len, f.supports_evex(), false, true, true); vex_rr_bytes(f, a1, dst.encoding, nds.encoding, src.encoding, VEX_SIMD_66, VEX_OPCODE_0F) + seq![0xF4, (0xC0 | rr_bits(dst.encoding, src.encoding))] }))
            }),
    {
        let mut attributes = InstructionAttr::new(&self.features, vector_len, self.features.supports_evex(), false, true, true);
        let encode = self.vex_prefix_and_encode(dst.encoding, nds.encoding, src.encoding, VEX_SIMD_66, VEX_OPCODE_0F, &mut attributes);
        self.emit_int16(0xF4, (0xC0 | encode));
    }

    /// `vpmullw dst, nds, [src], vector_len`
    pub fn vpmullw_xxm(&mut self, dst: XMMRegister, nds: XMMRegister, src: Address, vector_len: u8)
        requires
            dst.wf(),
            nds.wf(),
            src.wf(),
            ({
                let f = old(self).features;
                (f.use_avx > 0) && ({ let a1 = InstructionAttr::spec_new(f, vector_len, false, f.legacy_mode_bw(), true, true); let a2 = a1.with_address(f, EVEX_FVM, EVEX_NOBIT); (vex_adr_ok(f, a2, nds.encoding, dst.encoding, src)) })
            }),
        ensures
            ({
                let f = old(self).features;
                final(self).appends(*old(self), ({ let a1 = InstructionAttr::spec_new(f, vector_len, false, f.legacy_mode_bw(), true, true); let a2 = a1.with_address(f, EVEX_FVM, EVEX_NOBIT); vex_adr_bytes(f, a2, src, nds.encoding, dst.encoding, VEX_SIMD_66, VEX_OPCODE_0F) + ({ let a3 = vex_adr_attr(f, a2, nds.encoding, dst.encoding); seq![0xD5] + address_bytes(f, Some(a3), dst.encoding, src, true) }) }))
            }),
    {
        let mut attributes = InstructionAttr::new(&self.features, vector_len, false, self.features.legacy_mode_bw(), true, true);
        attributes.set_address_attributes(&self.features, EVEX_FVM, EVEX_NOBIT);
        self.vex_prefix(&src, nds.encoding, dst.encoding, VEX_SIMD_66, VEX_OPCODE_0F, &mut attributes);
        self.emit_int8(0xD5);
        self.emit_operand_attr(dst.encoding, &src, &attributes, true);
    }

    /// `vpmulld dst, nds, [src], vector_len`
    pub fn vpmulld_xxm(&mut self, dst: XMMRegister, nds: XMMRegister, src: Address, vector_len: u8)
        requires
            dst.wf(),
            nds.wf(),
            src.wf(),
            ({
                let f = old(self).features;
                (f.use_avx > 0) && ({ let a1 = InstructionAttr::spec_new(f, vector_len, false, false, true, true); let a2 = a1.with_address(f, EVEX_FV, EVEX_32BIT); (vex_adr_ok(f, a2, nds.encoding, dst.encoding, src)) })
            }),
        ensures
            ({
                let f = old(self).features;
                final(self).appends(*old(self), ({ let a1 = InstructionAttr::spec_new(f, vector_len, false, false, true, true); let a2 = a1.with_address(f, EVEX_FV, EVEX_32BIT); vex_adr_bytes(f, a2, src, nds.encoding, dst.encoding, VEX_SIMD_66, VEX_OPCODE_0F_38) + ({ let a3 = vex_adr_attr(f, a2, nds.encoding, dst.encoding); seq![0x40] + address_bytes(f, Some(a3), dst.encoding, src, true) }) }))
            }),
    {
        let mut attributes = InstructionAttr::new(&self.features, vector_len, false, false, true, true);
        attributes.set_address_attributes(&self.features, EVEX_FV, EVEX_32BIT);
        self.vex_prefix(&src, nds.encoding, dst.encoding, VEX_SIMD_66, VEX_OPCODE_0F_38, &mut attributes);
        self.emit_int8(0x40);
        self.emit_operand_attr(dst.encoding, &src, &attributes, true);
    }

    /// `vpminsb dst, nds, src, vector_len`
    pub fn vpminsb(&mut self, dst: XMMRegister, nds: XMMRegister, src: XMMRegister, vector_len: u8)
        requires
            dst.wf(),
            nds.wf(),
            src.wf(),
            ({
                let f = old(self).features;
                (if (vector_len == AVX_128BIT) { f.supports_avx() } else { (if (vector_len == AVX_256BIT) { f.supports_avx2() } else { f.supports_avx512bw() }) }) && ({ let a1 = InstructionAttr::spec_new(f, vector_len, false, f.legacy_mode_bw(), true, true); (vex_rr_ok(f, a1, dst.encoding, nds.encoding, src.encoding)) })
            }),
        ensures
            ({
                let f = old(self).features;
                final(self).appends(*old(self), ({ let a1 = InstructionAttr::spec_new(f, vector_len, false, f.legacy_mode_bw(), true, true); vex_rr_bytes(f, a1, dst.encoding, nds.encoding, src.encoding, VEX_SIMD_66, VEX_OPCODE_0F_38) + seq![0x38, (0xC0 | rr_bits(dst.encoding, src.encoding))] }))
            }),
    {
        let mut attributes = InstructionAttr::new(&self.features, vector_len, false, self.features.legacy_mode_bw(), true, true);
        let encode = self.vex_prefix_and_encode(dst.encoding, nds.encoding, src.encoding, VEX_SIMD_66, VEX_OPCODE_0F_38, &mut attributes);
        self.emit_int16(0x38, (0xC0 | encode));
    }

    /// `vpminsw dst, nds, src, vector_len`
    pub fn vpminsw(&mut self, dst: XMMRegister, nds: XMMRegister, src: XMMRegister, vector_len: u8)
        requires
            dst.wf(),
            nds.wf(),
            src.wf(),
            ({
                let f = old(self).features;
                (if (vector_len == AVX_128BIT) { f.supports_avx() } else { (if (vector_len == AVX_256BIT) { f.supports_avx2() } else { f.supports_avx512bw() }) }) && ({ let a1 = InstructionAttr::spec_new(f, vector_len, false, f.legacy_mode_bw(), true, true); (vex_rr_ok(f, a1, dst.encoding, nds.encoding, src.encoding)) })
            }),
        ensures
            ({
                let f = old(self).features;
                final(self).appends(*old(self), ({ let a1 = InstructionAttr::spec_new(f, vector_len, false, f.legacy_mode_bw(), true, true); vex_rr_bytes(f, a1, dst.encoding, nds.encoding, src.encoding, VEX_SIMD_66, VEX_OPCODE_0F) + seq![0xEA, (0xC0 | rr_bits(dst.encoding, src.encoding))] }))
            }),
    {
        let mut attributes = InstructionAttr::new(&self.features, vector_len, false, self.features.legacy_mode_bw(), true, true);
        let encode = self.vex_prefix_and_encode(dst.encoding, nds.encoding, src.encoding, VEX_SIMD_66, VEX_OPCODE_0F, &mut attributes);
        self.emit_int16(0xEA, (0xC0 | encode));
    }

    /// `vpminsd dst, nds, src, vector_len`
    pub fn vpminsd(&mut self, dst: XMMRegister, nds: XMMRegister, src: XMMRegister, vector_len: u8)
        requires
            dst.wf(),
            nds.wf(),
            src.wf(),
            ({
                let f = old(self).features;
                (if (vector_len == AVX_128BIT) { f.supports_avx() } else { (if (vector_len == AVX_256BIT) { f.supports_avx2() } else { f.supports_evex() }) }) && ({ let a1 = InstructionAttr::spec_new(f, vector_len, false, false, true, true); (vex_rr_ok(f, a1, dst.encoding, nds.encoding, src.encoding)) })
            }),
        ensures
            ({
                let f = old(self).features;
                final(self).appends(*old(self), ({ let a1 = InstructionAttr::spec_new(f, vector_len, false, false, true, true); vex_rr_bytes(f, a1, dst.encoding, nds.encoding, src.encoding, VEX_SIMD_66, VEX_OPCODE_0F_38) + seq![0x39, (0xC0 | rr_bits(dst.encoding, src.encoding))] }))
            }),
    {
        let mut attributes = InstructionAttr::new(&self.features, vector_len, false, false, true, true);
        let encode = self.vex_prefix_and_encode(dst.encoding, nds.encoding, src.encoding, VEX_SIMD_66, VEX_OPCODE_0F_38, &mut attributes);
        self.emit_int16(0x39, (0xC0 | encode));
    }

    /// `vminps dst, nds, src, vector_len`
    pub fn vminps(&mut self, dst: XMMRegister, nds: XMMRegister, src: XMMRegister, vector_len: u8)
        requires
            dst.wf(),
            nds.wf(),
            src.wf(),
            ({
                let f = old(self).features;
                (if (vector_len >= AVX_512BIT) { f.supports_evex() } else { f.supports_avx() }) && ({ let a1 = InstructionAttr::spec_new(f, vector_len, false, false, true, true); (vex_rr_ok(f, a1, dst.encoding, nds.encoding, src.encoding)) })
            }),
        ensures
            ({
                let f = old(self).features;
                final(self).appends(*old(self), ({ let a1 = InstructionAttr::spec_new(f, vector_len, false, false, true, true); vex_rr_bytes(f, a1, dst.encoding, nds.encoding, src.encoding, VEX_SIMD_NONE, VEX_OPCODE_0F) + seq![0x5D, (0xC0 | rr_bits(dst.encoding, src.encoding))] }))
            }),
    {
        let mut attributes = InstructionAttr::new(&self.features, vector_len, false, false, true, true);
        let encode = self.vex_prefix_and_encode(dst.encoding, nds.encoding, src.encoding, VEX_SIMD_NONE, VEX_OPCODE_0F, &mut attributes);
        self.emit_int16(0x5D, (0xC0 | encode));
    }

    /// `vminpd dst, nds, src, vector_len`
    pub fn vminpd(&mut self, dst: XMMRegister, nds: XMMRegister, src: XMMRegister, vector_len: u8)
        requires
            dst.wf(),
            nds.wf(),
            src.wf(),
            ({
                let f = old(self).features;
                (if (vector_len >= AVX_512BIT) { f.supports_evex() } else { f.supports_avx() }) && ({ let a1 = InstructionAttr::spec_new(f, vector_len, true, false, true, true); (vex_rr_ok(f, a1, dst.encoding, nds.encoding, src.encoding)) })
            }),
        ensures
            ({
                let f = old(self).features;
                final(self).appends(*old(self), ({ let a1 = InstructionAttr::spec_new(f, vector_len, true, false, true, true); vex_rr_bytes(f, a1, dst.encoding, nds.encoding, src.encoding, VEX_SIMD_66, VEX_OPCODE_0F) + seq![0x5D, (0xC0 | rr_bits(dst.encoding, src.encoding))] }))
            }),
    {
        let mut attributes = InstructionAttr::new(&self.features, vector_len, true, false, true, true);
        let encode = self.vex_prefix_and_encode(dst.encoding, nds.encoding, src.encoding, VEX_SIMD_66, VEX_OPCODE_0F, &mut attributes);
        self.emit_int16(0x5D, (0xC0 | encode));
    }

    /// `vpmaxsb dst, nds, src, vector_len`
    pub fn vpmaxsb(&mut self, dst: XMMRegister, nds: XMMRegister, src: XMMRegister, vector_len: u8)
        requires
            dst.wf(),
            nds.wf(),
            src.wf(),
            ({
                let f = old(self).features;
                (if (vector_len == AVX_128BIT) { f.supports_avx() } else { (if (vector_len == AVX_256BIT) { f.supports_avx2() } else { f.supports_avx512bw() }) }) && ({ let a1 = InstructionAttr::spec_new(f, vector_len, false, f.legacy_mode_bw(), true, true); (vex_rr_ok(f, a1, dst.encoding, nds.encoding, src.encoding)) })
            }),
        ensures
            ({
                let f = old(self).features;
                final(self).appends(*old(self), ({ let a1 = InstructionAttr::spec_new(f, vector_len, false, f.legacy_mode_bw(), true, true); vex_rr_bytes(f, a1, dst.encoding, nds.encoding, src.encoding, VEX_SIMD_66, VEX_OPCODE_0F_38) + seq![0x3C, (0xC0 | rr_bits(dst.encoding, src.encoding))] }))
            }),
    {
        let mut attributes = InstructionAttr::new(&self.features, vector_len, false, self.features.legacy_mode_bw(), true, true);
        let encode = self.vex_prefix_and_encode(dst.encoding, nds.encoding, src.encoding, VEX_SIMD_66, VEX_OPCODE_0F_38, &mut attributes);
        self.emit_int16(0x3C, (0xC0 | encode));
    }

    /// `vpmaxsw dst, nds, src, vector_len`
    pub fn vpmaxsw(&mut self, dst: XMMRegister, nds: XMMRegister, src: XMMRegister, vector_len: u8)
        requires
            dst.wf(),
            nds.wf(),
            src.wf(),
            ({
                let f = old(self).features;
                (if (vector_len == AVX_128BIT) { f.supports_avx() } else { (if (vector_len == AVX_256BIT) { f.supports_avx2() } else { f.supports_avx512bw() }) }) && ({ let a1 = InstructionAttr::spec_new(f, vector_len, false, f.legacy_mode_bw(), true, true); (vex_rr_ok(f, a1, dst.encoding, nds.encoding, src.encoding)) })
            }),
        ensures
            ({
                let f = old(self).features;
                final(self).appends(*old(self), ({ let a1 = InstructionAttr::spec_new(f, vector_len, false, f.legacy_mode_bw(), true, true); vex_rr_bytes(f, a1, dst.encoding, nds.encoding, src.encoding, VEX_SIMD_66, VEX_OPCODE_0F) + seq![0xEE, (0xC0 | rr_bits(dst.encoding, src.encoding))] }))
            }),
    {
        let mut attributes = InstructionAttr::new(&self.features, vector_len, false, self.features.legacy_mode_bw(), true, true);
        let encode = self.vex_prefix_and_encode(dst.encoding, nds.encoding, src.encoding, VEX_SIMD_66, VEX_OPCODE_0F, &mut attributes);
        self.emit_int16(0xEE, (0xC0 | encode));
    }

    /// `vpmaxsd dst, nds, src, vector_len`
    pub fn vpmaxsd(&mut self, dst: XMMRegister, nds: XMMRegister, src: XMMRegister, vector_len: u8)
        requires
            dst.wf(),
            nds.wf(),
            src.wf(),
            ({
                let f = old(self).features;
                (if (vector_len == AVX_128BIT) { f.supports_avx() } else { (if (vector_len == AVX_256BIT) { f.supports_avx2() } else { f.supports_evex() }) }) && ({ let a1 = InstructionAttr::spec_new(f, vector_len, false, false, true, true); (vex_rr_ok(f, a1, dst.encoding, nds.encoding, src.encoding)) })
            }),
        ensures
            ({
                let f = old(self).features;
                final(self).appends(*old(self), ({ let a1 = InstructionAttr::spec_new(f, vector_len, false, false, true, true); vex_rr_bytes(f, a1, dst.encoding, nds.encoding, src.encoding, VEX_SIMD_66, VEX_OPCODE_0F_38) + seq![0x3D, (0xC0 | rr_bits(dst.encoding, src.encoding))] }))
            }),
    {
        let mut attributes = InstructionAttr::new(&self.features, vector_len, false, false, true, true);
        let encode = self.vex_prefix_and_encode(dst.encoding, nds.encoding, src.encoding, VEX_SIMD_66, VEX_OPCODE_0F_38, &mut attributes);
        self.emit_int16(0x3D, (0xC0 | encode));
    }

    /// `vmaxps dst, nds, src, vector_len`
    pub fn vmaxps(&mut self, dst: XMMRegister, nds: XMMRegister, src: XMMRegister, vector_len: u8)
        requires
            dst.wf(),
            nds.wf(),
            src.wf(),
            ({
                let f = old(self).features;
                (if (vector_len >= AVX_512BIT) { f.supports_evex() } else { f.supports_avx() }) && ({ let a1 = InstructionAttr::spec_new(f, vector_len, false, false, true, true); (vex_rr_ok(f, a1, dst.encoding, nds.encoding, src.encoding)) })
            }),
        ensures
            ({
                let f = old(self).features;
                final(self).appends(*old(self), ({ let a1 = InstructionAttr::spec_new(f, vector_len, false, false, true, true); vex_rr_bytes(f, a1, dst.encoding, nds.encoding, src.encoding, VEX_SIMD_NONE, VEX_OPCODE_0F) + seq![0x5F, (0xC0 | rr_bits(dst.encoding, src.encoding))] }))
            }),
    {
        let mut attributes = InstructionAttr::new(&self.features, vector_len, false, false, true, true);
        let encode = self.vex_prefix_and_encode(dst.encoding, nds.encoding, src.encoding, VEX_SIMD_NONE, VEX_OPCODE_0F, &mut attributes);
        self.emit_int16(0x5F, (0xC0 | encode));
    }

    /// `vmaxpd dst, nds, src, vector_len`
    pub fn vmaxpd(&mut self, dst: XMMRegister, nds: XMMRegister, src: XMMRegister, vector_len: u8)
        requires
            dst.wf(),
            nds.wf(),
            src.wf(),
            ({
                let f = old(self).features;
                (if (vector_len >= AVX_512BIT) { f.supports_evex() } else { f.supports_avx() }) && ({ let a1 = InstructionAttr::spec_new(f, vector_len, true, false, true, true); (vex_rr_ok(f, a1, dst.encoding, nds.encoding, src.encoding)) })
            }),
        ensures
            ({
                let f = old(self).features;
                final(self).appends(*old(self), ({ let a1 = InstructionAttr::spec_new(f, vector_len, true, false, true, true); vex_rr_bytes(f, a1, dst.encoding, nds.encoding, src.encoding, VEX_SIMD_66, VEX_OPCODE_0F) + seq![0x5F, (0xC0 | rr_bits(dst.encoding, src.encoding))] }))
            }),
    {
        let mut attributes = InstructionAttr::new(&self.features, vector_len, true, false, true, true);
        let encode = self.vex_prefix_and_encode(dst.encoding, nds.encoding, src.encoding, VEX_SIMD_66, VEX_OPCODE_0F, &mut attributes);
        self.emit_int16(0x5F, (0xC0 | encode));
    }

    /// `vpsllw dst, src, shift, vector_len`
    pub fn vpsllw_xxi(&mut self, dst: XMMRegister, src: XMMRegister, shift: i32, vector_len: u8)
        requires
            dst.wf(),
            src.wf(),
            ({
                let f = old(self).features;
                (f.use_avx > 0) && ({ let a1 = InstructionAttr::spec_new(f, vector_len, false, f.legacy_mode_bw(), true, true); (vex_rr_ok(f, a1, 6, dst.encoding, src.encoding)) })
            }),
        ensures
            ({
                let f = old(self).features;
                final(self).appends(*old(self), ({ let a1 = InstructionAttr::spec_new(f, vector_len, false, f.legacy_mode_bw(), true, true); vex_rr_bytes(f, a1, 6, dst.encoding, src.encoding, VEX_SIMD_66, VEX_OPCODE_0F) + seq![0x71, (0xC0 | rr_bits(6, src.encoding)), low8(shift)] }))
            }),
    {
        let mut attributes = InstructionAttr::new(&self.features, vector_len, false, self.features.legacy_mode_bw(), true, true);
        let encode = self.vex_prefix_and_encode(6, dst.encoding, src.encoding, VEX_SIMD_66, VEX_OPCODE_0F, &mut attributes);
        self.emit_int24(0x71, (0xC0 | encode), low8_exec(shift));
    }

    /// `vpslld dst, src, shift, vector_len`
    pub fn vpslld_xxi(&mut self, dst: XMMRegister, src: XMMRegister, shift: i32, vector_len: u8)
        requires
            dst.wf(),
            src.wf(),
            ({
                let f = old(self).features;
                (f.use_avx > 0) && ({ let a1 = InstructionAttr::spec_new(f, vector_len, false, false, true, true); (vex_rr_ok(f, a1, 6, dst.encoding, src.encoding)) })
            }),
        ensures
            ({
                let f = old(self).features;
                final(self).appends(*old(self), ({ let a1 = InstructionAttr::spec_new(f, vector_len, false, false, true, true); vex_rr_bytes(f, a1, 6, dst.encoding, src.encoding, VEX_SIMD_66, VEX_OPCODE_0F) + seq![0x72, (0xC0 | rr_bits(6, src.encoding)), low8(shift)] }))
            }),
    {
        let mut attributes = InstructionAttr::new(&self.features, vector_len, false, false, true, true);
        let encode = self.vex_prefix_and_encode(6, dst.encoding, src.encoding, VEX_SIMD_66, VEX_OPCODE_0F, &mut attributes);
        self.emit_int24(0x72, (0xC0 | encode), low8_exec(shift));
    }

    /// `vpsllq dst, src, shift, vector_len`
    pub fn vpsllq_xxi(&mut self, dst: XMMRegister, src: XMMRegister, shift: i32, vector_len: u8)
        requires
            dst.wf(),
            src.wf(),
            ({
                let f = old(self).features;
                (f.use_avx > 0) && ({ let a1 = InstructionAttr::spec_new(f, vector_len, f.supports_evex(), false, true, true); let a2 = a1.reverted(); (vex_rr_ok(f, a2, 6, dst.encoding, src.encoding)) })
            }),
        ensures
            ({
                let f = old(self).features;
                final(self).appends(*old(self), ({ let a1 = InstructionAttr::spec_new(f, vector_len, f.supports_evex(), false, true, true); let a2 = a1.reverted(); vex_rr_bytes(f, a2, 6, dst.encoding, src.encoding, VEX_SIMD_66, VEX_OPCODE_0F) + seq![0x73, (0xC0 | rr_bits(6, src.encoding)), low8(shift)] }))
            }),
    {
        let mut attributes = InstructionAttr::new(&self.features, vector_len, self.features.supports_evex(), false, true, true);
        attributes.set_rex_vex_w_reverted();
        let encode = self.vex_prefix_and_encode(6, dst.encoding, src.encoding, VEX_SIMD_66, VEX_OPCODE_0F, &mut attributes);
        self.emit_int24(0x73, (0xC0 | encode), low8_exec(shift));
    }

    /// `vpsllw dst, src, shift, vector_len`
    pub fn vpsllw(&mut self, dst: XMMRegister, src: XMMRegister, shift: XMMRegister, vector_len: u8)
        requires
            dst.wf(),
            src.wf(),
            shift.wf(),
            ({
                let f = old(self).features;
                (f.use_avx > 0) && ({ let a1 = InstructionAttr::spec_new(f, vector_len, false, f.legacy_mode_bw(), true, true); (vex_rr_ok(f, a1, dst.encoding, src.encoding, shift.encoding)) })
            }),
        ensures
            ({
                let f = old(self).features;
                final(self).appends(*old(self), ({ let a1 = InstructionAttr::spec_new(f, vector_len, false, f.legacy_mode_bw(), true, true); vex_rr_bytes(f, a1, dst.encoding, src.encoding, shift.encoding, VEX_SIMD_66, VEX_OPCODE_0F) + seq![0xF1, (0xC0 | rr_bits(dst.encoding, shift.encoding))] }))
            }),
    {
        let mut attributes = InstructionAttr::new(&self.features, vector_len, false, self.features.legacy_mode_bw(), true, true);
        let encode = self.vex_prefix_and_encode(dst.encoding, src.encoding, shift.encoding, VEX_SIMD_66, VEX_OPCODE_0F, &mut attributes);
        self.emit_int16(0xF1, (0xC0 | encode));
    }

    /// `vpslld dst, src, shift, vector_len`
    pub fn vpslld(&mut self, dst: XMMRegister, src: XMMRegister, shift: XMMRegister, vector_len: u8)
        requires
            dst.wf(),
            src.wf(),
            shift.wf(),
            ({
                let f = old(self).features;
                (f.use_avx > 0) && ({ let a1 = InstructionAttr::spec_new(f, vector_len, false, false, true, true); (vex_rr_ok(f, a1, dst.encoding, src.encoding, shift.encoding)) })
            }),
        ensures
            ({
                let f = old(self).features;
                final(self).appends(*old(self), ({ let a1 = InstructionAttr::spec_new(f, vector_len, false, false, true, true); vex_rr_bytes(f, a1, dst.encoding, src.encoding, shift.encoding, VEX_SIMD_66, VEX_OPCODE_0F) + seq![0xF2, (0xC0 | rr_bits(dst.encoding, shift.encoding))] }))
            }),
    {
        let mut attributes = InstructionAttr::new(&self.features, vector_len, false, false, true, true);
        let encode = self.vex_prefix_and_encode(dst.encoding, src.encoding, shift.encoding, VEX_SIMD_66, VEX_OPCODE_0F, &mut attributes);
        self.emit_int16(0xF2, (0xC0 | encode));
    }

    /// `vpsllq dst, src, shift, vector_len`
    pub fn vpsllq(&mut self, dst: XMMRegister, src: XMMRegister, shift: XMMRegister, vector_len: u8)
        requires
            dst.wf(),
            src.wf(),
            shift.wf(),
            ({
                let f = old(self).features;
                (f.use_avx > 0) && ({ let a1 = InstructionAttr::spec_new(f, vector_len, f.supports_evex(), false, true, true); let a2 = a1.reverted(); (vex_rr_ok(f, a2, dst.encoding, src.encoding, shift.encoding)) })
            }),
        ensures
            ({
                let f = old(self).features;
                final(self).appends(*old(self), ({ let a1 = InstructionAttr::spec_new(f, vector_len, f.supports_evex(), false, true, true); let a2 = a1.reverted(); vex_rr_bytes(f, a2, dst.encoding, src.encoding, shift.encoding, VEX_SIMD_66, VEX_OPCODE_0F) + seq![0xF3, (0xC0 | rr_bits(dst.encoding, shift.encoding))] }))
            }),
    {
        let mut attributes = InstructionAttr::new(&self.features, vector_len, self.features.supports_evex(), false, true, true);
        attributes.set_rex_vex_w_reverted();
        let encode = self.vex_prefix_and_encode(dst.encoding, src.encoding, shift.encoding, VEX_SIMD_66, VEX_OPCODE_0F, &mut attributes);
        self.emit_int16(0xF3, (0xC0 | encode));
    }

    /// `vpsrlw dst, src, shift, vector_len`
    pub fn vpsrlw_xxi(&mut self, dst: XMMRegister, src: XMMRegister, shift: i32, vector_len: u8)
        requires
            dst.wf(),
            src.wf(),
            ({
                let f = old(self).features;
                (f.use_avx > 0) && ({ let a1 = InstructionAttr::spec_new(f, vector_len, false, f.legacy_mode_bw(), true, true); (vex_rr_ok(f, a1, 2, dst.encoding, src.encoding)) })
            }),
        ensures
            ({
                let f = old(self).features;
                final(self).appends(*old(self), ({ let a1 = InstructionAttr::spec_new(f, vector_len, false, f.legacy_mode_bw(), true, true); vex_rr_bytes(f, a1, 2, dst.encoding, src.encoding, VEX_SIMD_66, VEX_OPCODE_0F) + seq![0x71, (0xC0 | rr_bits(2, src.encoding)), low8(shift)] }))
            }),
    {
        let mut attributes = InstructionAttr::new(&self.features, vector_len, false, self.features.legacy_mode_bw(), true, true);
        let encode = self.vex_prefix_and_encode(2, dst.encoding, src.encoding, VEX_SIMD_66, VEX_OPCODE_0F, &mut attributes);
        self.emit_int24(0x71, (0xC0 | encode), low8_exec(shift));
    }

    /// `vpsrld dst, src, shift, vector_len`
    pub fn vpsrld_xxi(&mut self, dst: XMMRegister, src: XMMRegister, shift: i32, vector_len: u8)
        requires
            dst.wf(),
            src.wf(),
            ({
                let f = old(self).features;
                (f.use_avx > 0) && ({ let a1 = InstructionAttr::spec_new(f, vector_len, false, false, true, true); (vex_rr_ok(f, a1, 2, dst.encoding, src.encoding)) })
            }),
        ensures
            ({
                let f = old(self).features;
                final(self).appends(*old(self), ({ let a1 = InstructionAttr::spec_new(f, vector_len, false, false, true, true); vex_rr_bytes(f, a1, 2, dst.encoding, src.encoding, VEX_SIMD_66, VEX_OPCODE_0F) + seq![0x72, (0xC0 | rr_bits(2, src.encoding)), low8(shift)] }))
            }),
    {
        let mut attributes = InstructionAttr::new(&self.features, vector_len, false, false, true, true);
        let encode = self.vex_prefix_and_encode(2, dst.encoding, src.encoding, VEX_SIMD_66, VEX_OPCODE_0F, &mut attributes);
        self.emit_int24(0x72, (0xC0 | encode), low8_exec(shift));
    }

    /// `vpsrlq dst, src, shift, vector_len`
    pub fn vpsrlq_xxi(&mut self, dst: XMMRegister, src: XMMRegister, shift: i32, vector_len: u8)
        requires
            dst.wf(),
            src.wf(),
            ({
                let f = old(self).features;
                (f.use_avx > 0) && ({ let a1 = InstructionAttr::spec_new(f, vector_len, f.supports_evex(), false, true, true); let a2 = a1.reverted(); (vex_rr_ok(f, a2, 2, dst.encoding, src.encoding)) })
            }),
        ensures
            ({
                let f = old(self).features;
                final(self).appends(*old(self), ({ let a1 = InstructionAttr::spec_new(f, vector_len, f.supports_evex(), false, true, true); let a2 = a1.reverted(); vex_rr_bytes(f, a2, 2, dst.encoding, src.encoding, VEX_SIMD_66, VEX_OPCODE_0F) + seq![0x73, (0xC0 | rr_bits(2, src.encoding)), low8(shift)] }))
            }),
    {
        let mut attributes = InstructionAttr::new(&self.features, vector_len, self.features.supports_evex(), false, true, true);
        attributes.set_rex_vex_w_reverted();
        let encode = self.vex_prefix_and_encode(2, dst.encoding, src.encoding, VEX_SIMD_66, VEX_OPCODE_0F, &mut attributes);
        self.emit_int24(0x73, (0xC0 | encode), low8_exec(shift));
    }

    /// `vpsrlw dst, src, shift, vector_len`
    pub fn vpsrlw(&mut self, dst: XMMRegister, src: XMMRegister, shift: XMMRegister, vector_len: u8)
        requires
            dst.wf(),
            src.wf(),
            shift.wf(),
            ({
                let f = old(self).features;
                (f.use_avx > 0) && ({ let a1 = InstructionAttr::spec_new(f, vector_len, false, f.legacy_mode_bw(), true, true); (vex_rr_ok(f, a1, dst.encoding, src.encoding, shift.encoding)) })
            }),
        ensures
            ({
                let f = old(self).features;
                final(self).appends(*old(self), ({ let a1 = InstructionAttr::spec_new(f, vector_len, false, f.legacy_mode_bw(), true, true); vex_rr_bytes(f, a1, dst.encoding, src.encoding, shift.encoding, VEX_SIMD_66, VEX_OPCODE_0F) + seq![0xD1, (0xC0 | rr_bits(dst.encoding, shift.encoding))] }))
            }),
    {
        let mut attributes = InstructionAttr::new(&self.features, vector_len, false, self.features.legacy_mode_bw(), true, true);
        let encode = self.vex_prefix_and_encode(dst.encoding, src.encoding, shift.encoding, VEX_SIMD_66, VEX_OPCODE_0F, &mut attributes);
        self.emit_int16(0xD1, (0xC0 | encode));
    }

    /// `vpsrld dst, src, shift, vector_len`
    pub fn vpsrld(&mut self, dst: XMMRegister, src: XMMRegister, shift: XMMRegister, vector_len: u8)
        requires
            dst.wf(),
            src.wf(),
            shift.wf(),
            ({
                let f = old(self).features;
                (f.use_avx > 0) && ({ let a1 = InstructionAttr::spec_new(f, vector_len, false, false, true, true); (vex_rr_ok(f, a1, dst.encoding, src.encoding, shift.encoding)) })
            }),
        ensures
            ({
                let f = old(self).features;
                final(self).appends(*old(self), ({ let a1 = InstructionAttr::spec_new(f, vector_len, false, false, true, true); vex_rr_bytes(f, a1, dst.encoding, src.encoding, shift.encoding, VEX_SIMD_66, VEX_OPCODE_0F) + seq![0xD2, (0xC0 | rr_bits(dst.encoding, shift.encoding))] }))
            }),
    {
        let mut attributes = InstructionAttr::new(&self.features, vector_len, false, false, true, true);
        let encode = self.vex_prefix_and_encode(dst.encoding, src.encoding, shift.encoding, VEX_SIMD_66, VEX_OPCODE_0F, &mut attributes);
        self.emit_int16(0xD2, (0xC0 | encode));
    }

    /// `vpsrlq dst, src, shift, vector_len`
    pub fn vpsrlq(&mut self, dst: XMMRegister, src: XMMRegister, shift: XMMRegister, vector_len: u8)
        requires
            dst.wf(),
            src.wf(),
            shift.wf(),
            ({
                let f = old(self).features;
                (f.use_avx > 0) && ({ let a1 = InstructionAttr::spec_new(f, vector_len, f.supports_evex(), false, true, true); let a2 = a1.reverted(); (vex_rr_ok(f, a2, dst.encoding, src.encoding, shift.encoding)) })
            }),
        ensures
            ({
                let f = old(self).features;
                final(self).appends(*old(self), ({ let a1 = InstructionAttr::spec_new(f, vector_len, f.supports_evex(), false, true, true); let a2 = a1.reverted(); vex_rr_bytes(f, a2, dst.encoding, src.encoding, shift.encoding, VEX_SIMD_66, VEX_OPCODE_0F) + seq![0xD3, (0xC0 | rr_bits(dst.encoding, shift.encoding))] }))
            }),
    {
        let mut attributes = InstructionAttr::new(&self.features, vector_len, self.features.supports_evex(), false, true, true);
        attributes.set_rex_vex_w_reverted();
        let encode = self.vex_prefix_and_encode(dst.encoding, src.encoding, shift.encoding, VEX_SIMD_66, VEX_OPCODE_0F, &mut attributes);
        self.emit_int16(0xD3, (0xC0 | encode));
    }

    /// `vpsraw dst, src, shift, vector_len`
    pub fn vpsraw_xxi(&mut self, dst: XMMRegister, src: XMMRegister, shift: i32, vector_len: u8)
        requires
            dst.wf(),
            src.wf(),
            ({
                let f = old(self).features;
                (f.use_avx > 0) && ({ let a1 = InstructionAttr::spec_new(f, vector_len, false, f.legacy_mode_bw(), true, true); (vex_rr_ok(f, a1, 4, dst.encoding, src.encoding)) })
            }),
        ensures
            ({
                let f = old(self).features;
                final(self).appends(*old(self), ({ let a1 = InstructionAttr::spec_new(f, vector_len, false, f.legacy_mode_bw(), true, true); vex_rr_bytes(f, a1, 4, dst.encoding, src.encoding, VEX_SIMD_66, VEX_OPCODE_0F) + seq![0x71, (0xC0 | rr_bits(4, src.encoding)), low8(shift)] }))
            }),
    {
        let mut attributes = InstructionAttr::new(&self.features, vector_len, false, self.features.legacy_mode_bw(), true, true);
        let encode = self.vex_prefix_and_encode(4, dst.encoding, src.encoding, VEX_SIMD_66, VEX_OPCODE_0F, &mut attributes);
        self.emit_int24(0x71, (0xC0 | encode), low8_exec(shift));
    }

    /// `vpsrad dst, src, shift, vector_len`
    pub fn vpsrad_xxi(&mut self, dst: XMMRegister, src: XMMRegister, shift: i32, vector_len: u8)
        requires
            dst.wf(),
            src.wf(),
            ({
                let f = old(self).features;
                (f.use_avx > 0) && ({ let a1 = InstructionAttr::spec_new(f, vector_len, false, false, true, true); (vex_rr_ok(f, a1, 4, dst.encoding, src.encoding)) })
            }),
        ensures
            ({
                let f = old(self).features;
                final(self).appends(*old(self), ({ let a1 = InstructionAttr::spec_new(f, vector_len, false, false, true, true); vex_rr_bytes(f, a1, 4, dst.encoding, src.encoding, VEX_SIMD_66, VEX_OPCODE_0F) + seq![0x72, (0xC0 | rr_bits(4, src.encoding)), low8(shift)] }))
            }),
    {
        let mut attributes = InstructionAttr::new(&self.features, vector_len, false, false, true, true);
        let encode = self.vex_prefix_and_encode(4, dst.encoding, src.encoding, VEX_SIMD_66, VEX_OPCODE_0F, &mut attributes);
        self.emit_int24(0x72, (0xC0 | encode), low8_exec(shift));
    }

    /// `vpsraw dst, src, shift, vector_len`
    pub fn vpsraw(&mut self, dst: XMMRegister, src: XMMRegister, shift: XMMRegister, vector_len: u8)
        requires
            dst.wf(),
            src.wf(),
            shift.wf(),
            ({
                let f = old(self).features;
                (f.use_avx > 0) && ({ let a1 = InstructionAttr::spec_new(f, vector_len, false, f.legacy_mode_bw(), true, true); (vex_rr_ok(f, a1, dst.encoding, src.encoding, shift.encoding)) })
            }),
        ensures
            ({
                let f = old(self).features;
                final(self).appends(*old(self), ({ let a1 = InstructionAttr::spec_new(f, vector_len, false, f.legacy_mode_bw(), true, true); vex_rr_bytes(f, a1, dst.encoding, src.encoding, shift.encoding, VEX_SIMD_66, VEX_OPCODE_0F) + seq![0xE1, (0xC0 | rr_bits(dst.encoding, shift.encoding))] }))
            }),
    {
        let mut attributes = InstructionAttr::new(&self.features, vector_len, false, self.features.legacy_mode_bw(), true, true);
        let encode = self.vex_prefix_and_encode(dst.encoding, src.encoding, shift.encoding, VEX_SIMD_66, VEX_OPCODE_0F, &mut attributes);
        self.emit_int16(0xE1, (0xC0 | encode));
    }

    /// `vpsrad dst, src, shift, vector_len`
    pub fn vpsrad(&mut self, dst: XMMRegister, src: XMMRegister, shift: XMMRegister, vector_len: u8)
        requires
            dst.wf(),
            src.wf(),
            shift.wf(),
            ({
                let f = old(self).features;
                (f.use_avx > 0) && ({ let a1 = InstructionAttr::spec_new(f, vector_len, false, false, true, true); (vex_rr_ok(f, a1, dst.encoding, src.encoding, shift.encoding)) })
            }),
        ensures
            ({
                let f = old(self).features;
                final(self).appends(*old(self), ({ let a1 = InstructionAttr::spec_new(f, vector_len, false, false, true, true); vex_rr_bytes(f, a1, dst.encoding, src.encoding, shift.encoding, VEX_SIMD_66, VEX_OPCODE_0F) + seq![0xE2, (0xC0 | rr_bits(dst.encoding, shift.encoding))] }))
            }),
    {
        let mut attributes = InstructionAttr::new(&self.features, vector_len, false, false, true, true);
        let encode = self.vex_prefix_and_encode(dst.encoding, src.encoding, shift.encoding, VEX_SIMD_66, VEX_OPCODE_0F, &mut attributes);
        self.emit_int16(0xE2, (0xC0 | encode));
    }

    /// `vpand dst, nds, src, vector_len`
    pub fn vpand(&mut self, dst: XMMRegister, nds: XMMRegister, src: XMMRegister, vector_len: u8)
        requires
            dst.wf(),
            nds.wf(),
            src.wf(),
            ({
                let f = old(self).features;
                (f.use_avx > 0) && ({ let a1 = InstructionAttr::spec_new(f, vector_len, false, false, true, true); (vex_rr_ok(f, a1, dst.encoding, nds.encoding, src.encoding)) })
            }),
        ensures
            ({
                let f = old(self).features;
                final(self).appends(*old(self), ({ let a1 = InstructionAttr::spec_new(f, vector_len, false, false, true, true); vex_rr_bytes(f, a1, dst.encoding, nds.encoding, src.encoding, VEX_SIMD_66, VEX_OPCODE_0F) + seq![0xDB, (0xC0 | rr_bits(dst.encoding, src.encoding))] }))
            }),
    {
        let mut attributes = InstructionAttr::new(&self.features, vector_len, false, false, true, true);
        let encode = self.vex_prefix_and_encode(dst.encoding, nds.encoding, src.encoding, VEX_SIMD_66, VEX_OPCODE_0F, &mut attributes);
        self.emit_int16(0xDB, (0xC0 | encode));
    }

    /// `vpand dst, nds, [src], vector_len`
    pub fn vpand_xxm(&mut self, dst: XMMRegister, nds: XMMRegister, src: Address, vector_len: u8)
        requires
            dst.wf(),
            nds.wf(),
            src.wf(),
            ({
                let f = old(self).features;
                (f.use_avx > 0) && ({ let a1 = InstructionAttr::spec_new(f, vector_len, false, false, true, true); let a2 = a1.with_address(f, EVEX_FV, EVEX_32BIT); (vex_adr_ok(f, a2, nds.encoding, dst.encoding, src)) })
            }),
        ensures
            ({
                let f = old(self).features;
                final(self).appends(*old(self), ({ let a1 = InstructionAttr::spec_new(f, vector_len, false, false, true, true); let a2 = a1.with_address(f, EVEX_FV, EVEX_32BIT); vex_adr_bytes(f, a2, src, nds.encoding, dst.encoding, VEX_SIMD_66, VEX_OPCODE_0F) + ({ let a3 = vex_adr_attr(f, a2, nds.encoding, dst.encoding); seq![0xDB] + address_bytes(f, Some(a3), dst.encoding, src, true) }) }))
            }),
    {
        let mut attributes = InstructionAttr::new(&self.features, vector_len, false, false, true, true);
        attributes.set_address_attributes(&self.features, EVEX_FV, EVEX_32BIT);
        self.vex_prefix(&src, nds.encoding, dst.encoding, VEX_SIMD_66, VEX_OPCODE_0F, &mut attributes);
        self.emit_int8(0xDB);
        self.emit_operand_attr(dst.encoding, &src, &attributes, true);
    }

    /// `vpsllvd dst, src, shift, vector_len`
    pub fn vpsllvd(&mut self, dst: XMMRegister, src: XMMRegister, shift: XMMRegister, vector_len: u8)
        requires
            dst.wf(),
            src.wf(),
            shift.wf(),
            ({
                let f = old(self).features;
                (f.use_avx > 1) && ({ let a1 = InstructionAttr::spec_new(f, vector_len, false, false, true, true); (vex_rr_ok(f, a1, dst.encoding, src.encoding, shift.encoding)) })
            }),
        ensures
            ({
                let f = old(self).features;
                final(self).appends(*old(self), ({ let a1 = InstructionAttr::spec_new(f, vector_len, false, false, true, true); vex_rr_bytes(f, a1, dst.encoding, src.encoding, shift.encoding, VEX_SIMD_66, VEX_OPCODE_0F_38) + seq![0x47, (0xC0 | rr_bits(dst.encoding, shift.encoding))] }))
            }),
    {
        let mut attributes = InstructionAttr::new(&self.features, vector_len, false, false, true, true);
        let encode = self.vex_prefix_and_encode(dst.encoding, src.encoding, shift.encoding, VEX_SIMD_66, VEX_OPCODE_0F_38, &mut attributes);
        self.emit_int16(0x47, (0xC0 | encode));
    }

    /// `vpsllvq dst, src, shift, vector_len`
    pub fn vpsllvq(&mut self, dst: XMMRegister, src: XMMRegister, shift: XMMRegister, vector_len: u8)
        requires
            dst.wf(),
            src.wf(),
            shift.wf(),
            ({
                let f = old(self).features;
                (f.use_avx > 1) && ({ let a1 = InstructionAttr::spec_new(f, vector_len, true, false, true, true); (vex_rr_ok(f, a1, dst.encoding, src.encoding, shift.encoding)) })
            }),
        ensures
            ({
                let f = old(self).features;
                final(self).appends(*old(self), ({ let a1 = InstructionAttr::spec_new(f, vector_len, true, false, true, true); vex_rr_bytes(f, a1, dst.encoding, src.encoding, shift.encoding, VEX_SIMD_66, VEX_OPCODE_0F_38) + seq![0x47, (0xC0 | rr_bits(dst.encoding, shift.encoding))] }))
            }),
    {
        let mut attributes = InstructionAttr::new(&self.features, vector_len, true, false, true, true);
        let encode = self.vex_prefix_and_encode(dst.encoding, src.encoding, shift.encoding, VEX_SIMD_66, VEX_OPCODE_0F_38, &mut attributes);
        self.emit_int16(0x47, (0xC0 | encode));
    }

    /// `vpsrlvd dst, src, shift, vector_len`
    pub fn vpsrlvd(&mut self, dst: XMMRegister, src: XMMRegister, shift: XMMRegister, vector_len: u8)
        requires
            dst.wf(),
            src.wf(),
            shift.wf(),
            ({
                let f = old(self).features;
                (f.use_avx > 1) && ({ let a1 = InstructionAttr::spec_new(f, vector_len, false, false, true, true); (vex_rr_ok(f, a1, dst.encoding, src.encoding, shift.encoding)) })
            }),
        ensures
            ({
                let f = old(self).features;
                final(self).appends(*old(self), ({ let a1 = InstructionAttr::spec_new(f, vector_len, false, false, true, true); vex_rr_bytes(f, a1, dst.encoding, src.encoding, shift.encoding, VEX_SIMD_66, VEX_OPCODE_0F_38) + seq![0x45, (0xC0 | rr_bits(dst.encoding, shift.encoding))] }))
            }),
    {
        let mut attributes = InstructionAttr::new(&self.features, vector_len, false, false, true, true);
        let encode = self.vex_prefix_and_encode(dst.encoding, src.encoding, shift.encoding, VEX_SIMD_66, VEX_OPCODE_0F_38, &mut attributes);
        self.emit_int16(0x45, (0xC0 | encode));
    }

    /// `vpsrlvq dst, src, shift, vector_len`
    pub fn vpsrlvq(&mut self, dst: XMMRegister, src: XMMRegister, shift: XMMRegister, vector_len: u8)
        requires
            dst.wf(),
            src.wf(),
            shift.wf(),
            ({
                let f = old(self).features;
                (f.use_avx > 1) && ({ let a1 = InstructionAttr::spec_new(f, vector_len, true, false, true, true); (vex_rr_ok(f, a1, dst.encoding, src.encoding, shift.encoding)) })
            }),
        ensures
            ({
                let f = old(self).features;
                final(self).appends(*old(self), ({ let a1 = InstructionAttr::spec_new(f, vector_len, true, false, true, true); vex_rr_bytes(f, a1, dst.encoding, src.encoding, shift.encoding, VEX_SIMD_66, VEX_OPCODE_0F_38) + seq![0x45, (0xC0 | rr_bits(dst.encoding, shift.encoding))] }))
            }),
    {
        let mut attributes = InstructionAttr::new(&self.features, vector_len, true, false, true, true);
        let encode = self.vex_prefix_and_encode(dst.encoding, src.encoding, shift.encoding, VEX_SIMD_66, VEX_OPCODE_0F_38, &mut attributes);
        self.emit_int16(0x45, (0xC0 | encode));
    }

    /// `vpsravd dst, src, shift, vector_len`
    pub fn vpsravd(&mut self, dst: XMMRegister, src: XMMRegister, shift: XMMRegister, vector_len: u8)
        requires
            dst.wf(),
            src.wf(),
            shift.wf(),
            ({
                let f = old(self).features;
                (f.use_avx > 1) && ({ let a1 = InstructionAttr::spec_new(f, vector_len, false, false, true, true); (vex_rr_ok(f, a1, dst.encoding, src.encoding, shift.encoding)) })
            }),
        ensures
            ({
                let f = old(self).features;
                final(self).appends(*old(self), ({ let a1 = InstructionAttr::spec_new(f, vector_len, false, false, true, true); vex_rr_bytes(f, a1, dst.encoding, src.encoding, shift.encoding, VEX_SIMD_66, VEX_OPCODE_0F_38) + seq![0x46, (0xC0 | rr_bits(dst.encoding, shift.encoding))] }))
            }),
    {
        let mut attributes = InstructionAttr::new(&self.features, vector_len, false, false, true, true);
        let encode = self.vex_prefix_and_encode(dst.encoding, src.encoding, shift.encoding, VEX_SIMD_66, VEX_OPCODE_0F_38, &mut attributes);
        self.emit_int16(0x46, (0xC0 | encode));
    }

    /// `vpandn dst, nds, src, vector_len`
    pub fn vpandn(&mut self, dst: XMMRegister, nds: XMMRegister, src: XMMRegister, vector_len: u8)
        requires
            dst.wf(),
            nds.wf(),
            src.wf(),
            ({
                let f = old(self).features;
                (f.use_avx > 0) && ({ let a1 = InstructionAttr::spec_new(f, vector_len, false, false, true, true); (vex_rr_ok(f, a1, dst.encoding, nds.encoding, src.encoding)) })
            }),
        ensures
            ({
                let f = old(self).features;
                final(self).appends(*old(self), ({ let a1 = InstructionAttr::spec_new(f, vector_len, false, false, true, true); vex_rr_bytes(f, a1, dst.encoding, nds.encoding, src.encoding, VEX_SIMD_66, VEX_OPCODE_0F) + seq![0xDF, (0xC0 | rr_bits(dst.encoding, src.encoding))] }))
            }),
    {
        let mut attributes = InstructionAttr::new(&self.features, vector_len, false, false, true, true);
        let encode = self.vex_prefix_and_encode(dst.encoding, nds.encoding, src.encoding, VEX_SIMD_66, VEX_OPCODE_0F, &mut attributes);
        self.emit_int16(0xDF, (0xC0 | encode));
    }

    /// `vpor dst, nds, src, vector_len`
    pub fn vpor(&mut self, dst: XMMRegister, nds: XMMRegister, src: XMMRegister, vector_len: u8)
        requires
            dst.wf(),
            nds.wf(),
            src.wf(),
            ({
                let f = old(self).features;
                (f.use_avx > 0) && ({ let a1 = InstructionAttr::spec_new(f, vector_len, false, false, true, true); (vex_rr_ok(f, a1, dst.encoding, nds.encoding, src.encoding)) })
            }),
        ensures
            ({
                let f = old(self).features;
                final(self).appends(*old(self), ({ let a1 = InstructionAttr::spec_new(f, vector_len, false, false, true, true); vex_rr_bytes(f, a1, dst.encoding, nds.encoding, src.encoding, VEX_SIMD_66, VEX_OPCODE_0F) + seq![0xEB, (0xC0 | rr_bits(dst.encoding, src.encoding))] }))
            }),
    {
        let mut attributes = InstructionAttr::new(&self.features, vector_len, false, false, true, true);
        let encode = self.vex_prefix_and_encode(dst.encoding, nds.encoding, src.encoding, VEX_SIMD_66, VEX_OPCODE_0F, &mut attributes);
        self.emit_int16(0xEB, (0xC0 | encode));
    }

    /// `vpor dst, nds, [src], vector_len`
    pub fn vpor_xxm(&mut self, dst: XMMRegister, nds: XMMRegister, src: Address, vector_len: u8)
        requires
            dst.wf(),
            nds.wf(),
            src.wf(),
            ({
                let f = old(self).features;
                (f.use_avx > 0) && ({ let a1 = InstructionAttr::spec_new(f, vector_len, false, false, true, true); let a2 = a1.with_address(f, EVEX_FV, EVEX_32BIT); (vex_adr_ok(f, a2, nds.encoding, dst.encoding, src)) })
            }),
        ensures
            ({
                let f = old(self).features;
                final(self).appends(*old(self), ({ let a1 = InstructionAttr::spec_new(f, vector_len, false, false, true, true); let a2 = a1.with_address(f, EVEX_FV, EVEX_32BIT); vex_adr_bytes(f, a2, src, nds.encoding, dst.encoding, VEX_SIMD_66, VEX_OPCODE_0F) + ({ let a3 = vex_adr_attr(f, a2, nds.encoding, dst.encoding); seq![0xEB] + address_bytes(f, Some(a3), dst.encoding, src, true) }) }))
            }),
    {
        let mut attributes = InstructionAttr::new(&self.features, vector_len, false, false, true, true);
        attributes.set_address_attributes(&self.features, EVEX_FV, EVEX_32BIT);
        self.vex_prefix(&src, nds.encoding, dst.encoding, VEX_SIMD_66, VEX_OPCODE_0F, &mut attributes);
        self.emit_int8(0xEB);
        self.emit_operand_attr(dst.encoding, &src, &attributes, true);
    }

    /// `vpxor dst, nds, src, vector_len`
    pub fn vpxor(&mut self, dst: XMMRegister, nds: XMMRegister, src: XMMRegister, vector_len: u8)
        requires
            dst.wf(),
            nds.wf(),
            src.wf(),
            ({
                let f = old(self).features;
                (f.use_avx > 0) && ((if (vector_len == AVX_128BIT) { f.supports_avx() } else { (if (vector_len == AVX_256BIT) { f.supports_avx2() } else { (if (vector_len == AVX_512BIT) { f.supports_evex() } else { false }) }) }) && ({ let a1 = InstructionAttr::spec_new(f, vector_len, false, false, true, true); (vex_rr_ok(f, a1, dst.encoding, nds.encoding, src.encoding)) }))
            }),
        ensures
            ({
                let f = old(self).features;
                final(self).appends(*old(self), ({ let a1 = InstructionAttr::spec_new(f, vector_len, false, false, true, true); vex_rr_bytes(f, a1, dst.encoding, nds.encoding, src.encoding, VEX_SIMD_66, VEX_OPCODE_0F) + seq![0xEF, (0xC0 | rr_bits(dst.encoding, src.encoding))] }))
            }),
    {
        let mut attributes = InstructionAttr::new(&self.features, vector_len, false, false, true, true);
        let encode = self.vex_prefix_and_encode(dst.encoding, nds.encoding, src.encoding, VEX_SIMD_66, VEX_OPCODE_0F, &mut attributes);
        self.emit_int16(0xEF, (0xC0 | encode));
    }

    /// `vpxor dst, nds, [src], vector_len`
    pub fn vpxor_xxm(&mut self, dst: XMMRegister, nds: XMMRegister, src: Address, vector_len: u8)
        requires
            dst.wf(),
            nds.wf(),
            src.wf(),
            ({
                let f = old(self).features;
                (f.use_avx > 0) && ((if (vector_len == AVX_128BIT) { f.supports_avx() } else { (if (vector_len == AVX_256BIT) { f.supports_avx2() } else { (if (vector_len == AVX_512BIT) { f.supports_evex() } else { false }) }) }) && ({ let a1 = InstructionAttr::spec_new(f, vector_len, false, false, true, true); let a2 = a1.with_address(f, EVEX_FV, EVEX_32BIT); (vex_adr_ok(f, a2, nds.encoding, dst.encoding, src)) }))
            }),
        ensures
            ({
                let f = old(self).features;
                final(self).appends(*old(self), ({ let a1 = InstructionAttr::spec_new(f, vector_len, false, false, true, true); let a2 = a1.with_address(f, EVEX_FV, EVEX_32BIT); vex_adr_bytes(f, a2, src, nds.encoding, dst.encoding, VEX_SIMD_66, VEX_OPCODE_0F) + ({ let a3 = vex_adr_attr(f, a2, nds.encoding, dst.encoding); seq![0xEF] + address_bytes(f, Some(a3), dst.encoding, src, true) }) }))
            }),
    {
        let mut attributes = InstructionAttr::new(&self.features, vector_len, false, false, true, true);
        attributes.set_address_attributes(&self.features, EVEX_FV, EVEX_32BIT);
        self.vex_prefix(&src, nds.encoding, dst.encoding, VEX_SIMD_66, VEX_OPCODE_0F, &mut attributes);
        self.emit_int8(0xEF);
        self.emit_operand_attr(dst.encoding, &src, &attributes, true);
    }

    /// `vpxorq dst, nds, src, vector_len`
    pub fn vpxorq(&mut self, dst: XMMRegister, nds: XMMRegister, src: XMMRegister, vector_len: u8)
        requires
            dst.wf(),
            nds.wf(),
            src.wf(),
            ({
                let f = old(self).features;
                (f.use_avx > 2) && ({ let a1 = InstructionAttr::spec_new(f, vector_len, f.supports_evex(), false, true, true); let a2 = a1.reverted(); (vex_rr_ok(f, a2, dst.encoding, nds.encoding, src.encoding)) })
            }),
        ensures
            ({
                let f = old(self).features;
                final(self).appends(*old(self), ({ let a1 = InstructionAttr::spec_new(f, vector_len, f.supports_evex(), false, true, true); let a2 = a1.reverted(); vex_rr_bytes(f, a2, dst.encoding, nds.encoding, src.encoding, VEX_SIMD_66, VEX_OPCODE_0F) + seq![0xEF, (0xC0 | rr_bits(dst.encoding, src.encoding))] }))
            }),
    {
        let mut attributes = InstructionAttr::new(&self.features, vector_len, self.features.supports_evex(), false, true, true);
        attributes.set_rex_vex_w_reverted();
        let encode = self.vex_prefix_and_encode(dst.encoding, nds.encoding, src.encoding, VEX_SIMD_66, VEX_OPCODE_0F, &mut attributes);
        self.emit_int16(0xEF, (0xC0 | encode));
    }

    /// `vinserti128 dst, nds, src, imm8`
    pub fn vinserti128(&mut self, dst: XMMRegister, nds: XMMRegister, src: XMMRegister, imm8: u8)
        requires
            dst.wf(),
            nds.wf(),
            src.wf(),
            ({
                let f = old(self).features;
                (f.supports_avx2()) && ((imm8 <= 0x01) && ({ let a1 = InstructionAttr::spec_new(f, AVX_256BIT, false, false, true, true); (vex_rr_ok(f, a1, dst.encoding, nds.encoding, src.encoding)) }))
            }),
        ensures
            ({
                let f = old(self).features;
                final(self).appends(*old(self), ({ let a1 = InstructionAttr::spec_new(f, AVX_256BIT, false, false, true, true); vex_rr_bytes(f, a1, dst.encoding, nds.encoding, src.encoding, VEX_SIMD_66, VEX_OPCODE_0F_3A) + seq![0x38, (0xC0 | rr_bits(dst.encoding, src.encoding)), (imm8 & 0x01)] }))
            }),
    {
        let mut attributes = InstructionAttr::new(&self.features, AVX_256BIT, false, false, true, true);
        let encode = self.vex_prefix_and_encode(dst.encoding, nds.encoding, src.encoding, VEX_SIMD_66, VEX_OPCODE_0F_3A, &mut attributes);
        self.emit_int24(0x38, (0xC0 | encode), (imm8 & 0x01));
    }

    /// `vinserti128 dst, nds, [src], imm8`
    pub fn vinserti128_xxmi(&mut self, dst: XMMRegister, nds: XMMRegister, src: Address, imm8: u8)
        requires
            dst.wf(),
            nds.wf(),
            src.wf(),
            ({
                let f = old(self).features;
                (f.supports_avx2()) && ((imm8 <= 0x01) && ({ let a1 = InstructionAttr::spec_new(f, AVX_256BIT, false, false, true, true); let a2 = a1.with_address(f, EVEX_T4, EVEX_32BIT); (vex_adr_ok(f, a2, nds.encoding, dst.encoding, src)) }))
            }),
        ensures
            ({
                let f = old(self).features;
                final(self).appends(*old(self), ({ let a1 = InstructionAttr::spec_new(f, AVX_256BIT, false, false, true, true); let a2 = a1.with_address(f, EVEX_T4, EVEX_32BIT); vex_adr_bytes(f, a2, src, nds.encoding, dst.encoding, VEX_SIMD_66, VEX_OPCODE_0F_3A) + ({ let a3 = vex_adr_attr(f, a2, nds.encoding, dst.encoding); seq![0x38] + address_bytes(f, Some(a3), dst.encoding, src, true) + seq![(imm8 & 0x01)] }) }))
            }),
    {
        let mut attributes = InstructionAttr::new(&self.features, AVX_256BIT, false, false, true, true);
        attributes.set_address_attributes(&self.features, EVEX_T4, EVEX_32BIT);
        self.vex_prefix(&src, nds.encoding, dst.encoding, VEX_SIMD_66, VEX_OPCODE_0F_3A, &mut attributes);
        self.emit_int8(0x38);
        self.emit_operand_attr(dst.encoding, &src, &attributes, true);
        self.emit_int8((imm8 & 0x01));
    }

    /// `vinsertf128 dst, nds, src, imm8`
    pub fn vinsertf128(&mut self, dst: XMMRegister, nds: XMMRegister, src: XMMRegister, imm8: u8)
        requires
            dst.wf(),
            nds.wf(),
            src.wf(),
            ({
                let f = old(self).features;
                (f.supports_avx()) && ((imm8 <= 0x01) && ({ let a1 = InstructionAttr::spec_new(f, AVX_256BIT, false, false, true, true); (vex_rr_ok(f, a1, dst.encoding, nds.encoding, src.encoding)) }))
            }),
        ensures
            ({
                let f = old(self).features;
                final(self).appends(*old(self), ({ let a1 = InstructionAttr::spec_new(f, AVX_256BIT, false, false, true, true); vex_rr_bytes(f, a1, dst.encoding, nds.encoding, src.encoding, VEX_SIMD_66, VEX_OPCODE_0F_3A) + seq![0x18, (0xC0 | rr_bits(dst.encoding, src.encoding)), (imm8 & 0x01)] }))
            }),
    {
        let mut attributes = InstructionAttr::new(&self.features, AVX_256BIT, false, false, true, true);
        let encode = self.vex_prefix_and_encode(dst.encoding, nds.encoding, src.encoding, VEX_SIMD_66, VEX_OPCODE_0F_3A, &mut attributes);
        self.emit_int24(0x18, (0xC0 | encode), (imm8 & 0x01));
    }

    /// `vinsertf128 dst, nds, [src], imm8`
    pub fn vinsertf128_xxmi(&mut self, dst: XMMRegister, nds: XMMRegister, src: Address, imm8: u8)
        requires
            dst.wf(),
            nds.wf(),
            src.wf(),
            ({
                let f = old(self).features;
                (f.supports_avx()) && ((imm8 <= 0x01) && ({ let a1 = InstructionAttr::spec_new(f, AVX_256BIT, false, false, true, true); let a2 = a1.with_address(f, EVEX_T4, EVEX_32BIT); (vex_adr_ok(f, a2, nds.encoding, dst.encoding, src)) }))
            }),
        ensures
            ({
                let f = old(self).features;
                final(self).appends(*old(self), ({ let a1 = InstructionAttr::spec_new(f, AVX_256BIT, false, false, true, true); let a2 = a1.with_address(f, EVEX_T4, EVEX_32BIT); vex_adr_bytes(f, a2, src, nds.encoding, dst.encoding, VEX_SIMD_66, VEX_OPCODE_0F_3A) + ({ let a3 = vex_adr_attr(f, a2, nds.encoding, dst.encoding); seq![0x18] + address_bytes(f, Some(a3), dst.encoding, src, true) + seq![(imm8 & 0x01)] }) }))
            }),
    {
        let mut attributes = InstructionAttr::new(&self.features, AVX_256BIT, false, false, true, true);
        attributes.set_address_attributes(&self.features, EVEX_T4, EVEX_32BIT);
        self.vex_prefix(&src, nds.encoding, dst.encoding, VEX_SIMD_66, VEX_OPCODE_0F_3A, &mut attributes);
        self.emit_int8(0x18);
        self.emit_operand_attr(dst.encoding, &src, &attributes, true);
        self.emit_int8((imm8 & 0x01));
    }

    /// `vinsertf32x4 dst, nds, src, imm8`
    pub fn vinsertf32x4(&mut self, dst: XMMRegister, nds: XMMRegister, src: XMMRegister, imm8: u8)
        requires
            dst.wf(),
            nds.wf(),
            src.wf(),
            ({
                let f = old(self).features;
                (f.supports_evex()) && ((imm8 <= 0x03) && ({ let a1 = InstructionAttr::spec_new(f, AVX_512BIT, false, false, true, true); (vex_rr_ok(f, a1, dst.encoding, nds.encoding, src.encoding)) }))
            }),
        ensures
            ({
                let f = old(self).features;
                final(self).appends(*old(self), ({ let a1 = InstructionAttr::spec_new(f, AVX_512BIT, false, false, true, true); vex_rr_bytes(f, a1, dst.encoding, nds.encoding, src.encoding, VEX_SIMD_66, VEX_OPCODE_0F_3A) + seq![0x18, (0xC0 | rr_bits(dst.encoding, src.encoding)), (imm8 & 0x03)] }))
            }),
    {
        let mut attributes = InstructionAttr::new(&self.features, AVX_512BIT, false, false, true, true);
        let encode = self.vex_prefix_and_encode(dst.encoding, nds.encoding, src.encoding, VEX_SIMD_66, VEX_OPCODE_0F_3A, &mut attributes);
        self.emit_int24(0x18, (0xC0 | encode), (imm8 & 0x03));
    }

    /// `vinsertf32x4 dst, nds, [src], imm8`
    pub fn vinsertf32x4_xxmi(&mut self, dst: XMMRegister, nds: XMMRegister, src: Address, imm8: u8)
        requires
            dst.wf(),
            nds.wf(),
            src.wf(),
            ({
                let f = old(self).features;
                (f.supports_evex()) && ((imm8 <= 0x03) && ({ let a1 = InstructionAttr::spec_new(f, AVX_512BIT, false, false, true, true); let a2 = a1.with_address(f, EVEX_T4, EVEX_32BIT); (vex_adr_ok(f, a2, nds.encoding, dst.encoding, src)) }))
            }),
        ensures
            ({
                let f = old(self).features;
                final(self).appends(*old(self), ({ let a1 = InstructionAttr::spec_new(f, AVX_512BIT, false, false, true, true); let a2 = a1.with_address(f, EVEX_T4, EVEX_32BIT); vex_adr_bytes(f, a2, src, nds.encoding, dst.encoding, VEX_SIMD_66, VEX_OPCODE_0F_3A) + ({ let a3 = vex_adr_attr(f, a2, nds.encoding, dst.encoding); seq![0x18] + address_bytes(f, Some(a3), dst.encoding, src, true) + seq![(imm8 & 0x03)] }) }))
            }),
    {
        let mut attributes = InstructionAttr::new(&self.features, AVX_512BIT, false, false, true, true);
        attributes.set_address_attributes(&self.features, EVEX_T4, EVEX_32BIT);
        self.vex_prefix(&src, nds.encoding, dst.encoding, VEX_SIMD_66, VEX_OPCODE_0F_3A, &mut attributes);
        self.emit_int8(0x18);
        self.emit_operand_attr(dst.encoding, &src, &attributes, true);
        self.emit_int8((imm8 & 0x03));
    }

    /// `vextracti128 dst, src, imm8`
    pub fn vextracti128(&mut self, dst: XMMRegister, src: XMMRegister, imm8: u8)
        requires
            dst.wf(),
            src.wf(),
            ({
                let f = old(self).features;
                (f.supports_avx2()) && ((imm8 <= 0x01) && ({ let a1 = InstructionAttr::spec_new(f, AVX_256BIT, false, false, true, true); (vex_rr_ok(f, a1, src.encoding, 0, dst.encoding)) }))
            }),
        ensures
            ({
                let f = old(self).features;
                final(self).appends(*old(self), ({ let a1 = InstructionAttr::spec_new(f, AVX_256BIT, false, false, true, true); vex_rr_bytes(f, a1, src.encoding, 0, dst.encoding, VEX_SIMD_66, VEX_OPCODE_0F_3A) + seq![0x39, (0xC0 | rr_bits(src.encoding, dst.encoding)), (imm8 & 0x01)] }))
            }),
    {
        let mut attributes = InstructionAttr::new(&self.features, AVX_256BIT, false, false, true, true);
        let encode = self.vex_prefix_and_encode(src.encoding, 0, dst.encoding, VEX_SIMD_66, VEX_OPCODE_0F_3A, &mut attributes);
        self.emit_int24(0x39, (0xC0 | encode), (imm8 & 0x01));
    }

    /// `vextracti128 [dst], src, imm8`
    pub fn vextracti128_mxi(&mut self, dst: Address, src: XMMRegister, imm8: u8)
        requires
            dst.wf(),
            src.wf(),
            ({
                let f = old(self).features;
                (f.supports_avx2()) && ((imm8 <= 0x01) && ({ let a1 = InstructionAttr::spec_new(f, AVX_256BIT, false, false, true, true); let a2 = a1.with_address(f, EVEX_T4, EVEX_32BIT); let a3 = a2.merging(); (vex_adr_ok(f, a3, 0, src.encoding, dst)) }))
            }),
        ensures
            ({
                let f = old(self).features;
                final(self).appends(*old(self), ({ let a1 = InstructionAttr::spec_new(f, AVX_256BIT, false, false, true, true); let a2 = a1.with_address(f, EVEX_T4, EVEX_32BIT); let a3 = a2.merging(); vex_adr_bytes(f, a3, dst, 0, src.encoding, VEX_SIMD_66, VEX_OPCODE_0F_3A) + ({ let a4 = vex_adr_attr(f, a3, 0, src.encoding); seq![0x39] + address_bytes(f, Some(a4), src.encoding, dst, true) + seq![(imm8 & 0x01)] }) }))
            }),
    {
        let mut attributes = InstructionAttr::new(&self.features, AVX_256BIT, false, false, true, true);
        attributes.set_address_attributes(&self.features, EVEX_T4, EVEX_32BIT);
        attributes.reset_is_clear_context();
        self.vex_prefix(&dst, 0, src.encoding, VEX_SIMD_66, VEX_OPCODE_0F_3A, &mut attributes);
        self.emit_int8(0x39);
        self.emit_operand_attr(src.encoding, &dst, &attributes, true);
        self.emit_int8((imm8 & 0x01));
    }

    /// `vextractf128 dst, src, imm8`
    pub fn vextractf128(&mut self, dst: XMMRegister, src: XMMRegister, imm8: u8)
        requires
            dst.wf(),
            src.wf(),
            ({
                let f = old(self).features;
                (f.supports_avx()) && ((imm8 <= 0x01) && ({ let a1 = InstructionAttr::spec_new(f, AVX_256BIT, false, false, true, true); (vex_rr_ok(f, a1, src.encoding, 0, dst.encoding)) }))
            }),
        ensures
            ({
                let f = old(self).features;
                final(self).appends(*old(self), ({ let a1 = InstructionAttr::spec_new(f, AVX_256BIT, false, false, true, true); vex_rr_bytes(f, a1, src.encoding, 0, dst.encoding, VEX_SIMD_66, VEX_OPCODE_0F_3A) + seq![0x19, (0xC0 | rr_bits(src.encoding, dst.encoding)), (imm8 & 0x01)] }))
            }),
    {
        let mut attributes = InstructionAttr::new(&self.features, AVX_256BIT, false, false, true, true);
        let encode = self.vex_prefix_and_encode(src.encoding, 0, dst.encoding, VEX_SIMD_66, VEX_OPCODE_0F_3A, &mut attributes);
        self.emit_int24(0x19, (0xC0 | encode), (imm8 & 0x01));
    }

    /// `vextractf128 [dst], src, imm8`
    pub fn vextractf128_mxi(&mut self, dst: Address, src: XMMRegister, imm8: u8)
        requires
            dst.wf(),
            src.wf(),
            ({
                let f = old(self).features;
                (f.supports_avx()) && ((imm8 <= 0x01) && ({ let a1 = InstructionAttr::spec_new(f, AVX_256BIT, false, false, true, true); let a2 = a1.with_address(f, EVEX_T4, EVEX_32BIT); let a3 = a2.merging(); (vex_adr_ok(f, a3, 0, src.encoding, dst)) }))
            }),
        ensures
            ({
                let f = old(self).features;
                final(self).appends(*old(self), ({ let a1 = InstructionAttr::spec_new(f, AVX_256BIT, false, false, true, true); let a2 = a1.with_address(f, EVEX_T4, EVEX_32BIT); let a3 = a2.merging(); vex_adr_bytes(f, a3, dst, 0, src.encoding, VEX_SIMD_66, VEX_OPCODE_0F_3A) + ({ let a4 = vex_adr_attr(f, a3, 0, src.encoding); seq![0x19] + address_bytes(f, Some(a4), src.encoding, dst, true) + seq![(imm8 & 0x01)] }) }))
            }),
    {
        let mut attributes = InstructionAttr::new(&self.features, AVX_256BIT, false, false, true, true);
        attributes.set_address_attributes(&self.features, EVEX_T4, EVEX_32BIT);
        attributes.reset_is_clear_context();
        self.vex_prefix(&dst, 0, src.encoding, VEX_SIMD_66, VEX_OPCODE_0F_3A, &mut attributes);
        self.emit_int8(0x19);
        self.emit_operand_attr(src.encoding, &dst, &attributes, true);
        self.emit_int8((imm8 & 0x01));
    }

    /// `vpbroadcastb dst, src, vector_len`
    pub fn vpbroadcastb(&mut self, dst: XMMRegister, src: XMMRegister, vector_len: u8)
        requires
            dst.wf(),
            src.wf(),
            ({
                let f = old(self).features;
                (f.supports_avx2()) && ({ let a1 = InstructionAttr::spec_new(f, vector_len, false, f.legacy_mode_bw(), true, true); (vex_rr_ok(f, a1, dst.encoding, 0, src.encoding)) })
            }),
        ensures
            ({
                let f = old(self).features;
                final(self).appends(*old(self), ({ let a1 = InstructionAttr::spec_new(f, vector_len, false, f.legacy_mode_bw(), true, true); vex_rr_bytes(f, a1, dst.encoding, 0, src.encoding, VEX_SIMD_66, VEX_OPCODE_0F_38) + seq![0x78, (0xC0 | rr_bits(dst.encoding, src.encoding))] }))
            }),
    {
        let mut attributes = InstructionAttr::new(&self.features, vector_len, false, self.features.legacy_mode_bw(), true, true);
        let encode = self.vex_prefix_and_encode(dst.encoding, 0, src.encoding, VEX_SIMD_66, VEX_OPCODE_0F_38, &mut attributes);
        self.emit_int16(0x78, (0xC0 | encode));
    }

    /// `vpbroadcastb dst, [src], vector_len`
    pub fn vpbroadcastb_xm(&mut self, dst: XMMRegister, src: Address, vector_len: u8)
        requires
            dst.wf(),
            src.wf(),
            ({
                let f = old(self).features;
                (f.supports_avx2()) && ({ let a1 = InstructionAttr::spec_new(f, vector_len, false, f.legacy_mode_bw(), true, true); let a2 = a1.with_address(f, EVEX_T1S, EVEX_8BIT); (vex_adr_ok(f, a2, 0, dst.encoding, src)) })
            }),
        ensures
            ({
                let f = old(self).features;
                final(self).appends(*old(self), ({ let a1 = InstructionAttr::spec_new(f, vector_len, false, f.legacy_mode_bw(), true, true); let a2 = a1.with_address(f, EVEX_T1S, EVEX_8BIT); vex_adr_bytes(f, a2, src, 0, dst.encoding, VEX_SIMD_66, VEX_OPCODE_0F_38) + ({ let a3 = vex_adr_attr(f, a2, 0, dst.encoding); seq![0x78] + address_bytes(f, Some(a3), dst.encoding, src, true) }) }))
            }),
    {
        let mut attributes = InstructionAttr::new(&self.features, vector_len, false, self.features.legacy_mode_bw(), true, true);
        attributes.set_address_attributes(&self.features, EVEX_T1S, EVEX_8BIT);
        self.vex_prefix(&src, 0, dst.encoding, VEX_SIMD_66, VEX_OPCODE_0F_38, &mut attributes);
        self.emit_int8(0x78);
        self.emit_operand_attr(dst.encoding, &src, &attributes, true);
    }

    /// `vpbroadcastw dst, src, vector_len`
    pub fn vpbroadcastw(&mut self, dst: XMMRegister, src: XMMRegister, vector_len: u8)
        requires
            dst.wf(),
            src.wf(),
            ({
                let f = old(self).features;
                (f.supports_avx2()) && ({ let a1 = InstructionAttr::spec_new(f, vector_len, false, f.legacy_mode_bw(), true, true); (vex_rr_ok(f, a1, dst.encoding, 0, src.encoding)) })
            }),
        ensures
            ({
                let f = old(self).features;
                final(self).appends(*old(self), ({ let a1 = InstructionAttr::spec_new(f, vector_len, false, f.legacy_mode_bw(), true, true); vex_rr_bytes(f, a1, dst.encoding, 0, src.encoding, VEX_SIMD_66, VEX_OPCODE_0F_38) + seq![0x79, (0xC0 | rr_bits(dst.encoding, src.encoding))] }))
            }),
    {
        let mut attributes = InstructionAttr::new(&self.features, vector_len, false, self.features.legacy_mode_bw(), true, true);
        let encode = self.vex_prefix_and_encode(dst.encoding, 0, src.encoding, VEX_SIMD_66, VEX_OPCODE_0F_38, &mut attributes);
        self.emit_int16(0x79, (0xC0 | encode));
    }

    /// `vpbroadcastw dst, [src], vector_len`
    pub fn vpbroadcastw_xm(&mut self, dst: XMMRegister, src: Address, vector_len: u8)
        requires
            dst.wf(),
            src.wf(),
            ({
                let f = old(self).features;
                (f.supports_avx2()) && ({ let a1 = InstructionAttr::spec_new(f, vector_len, false, f.legacy_mode_bw(), true, true); let a2 = a1.with_address(f, EVEX_T1S, EVEX_16BIT); (vex_adr_ok(f, a2, 0, dst.encoding, src)) })
            }),
        ensures
            ({
                let f = old(self).features;
                final(self).appends(*old(self), ({ let a1 = InstructionAttr::spec_new(f, vector_len, false, f.legacy_mode_bw(), true, true); let a2 = a1.with_address(f, EVEX_T1S, EVEX_16BIT); vex_adr_bytes(f, a2, src, 0, dst.encoding, VEX_SIMD_66, VEX_OPCODE_0F_38) + ({ let a3 = vex_adr_attr(f, a2, 0, dst.encoding); seq![0x79] + address_bytes(f, Some(a3), dst.encoding, src, true) }) }))
            }),
    {
        let mut attributes = InstructionAttr::new(&self.features, vector_len, false, self.features.legacy_mode_bw(), true, true);
        attributes.set_address_attributes(&self.features, EVEX_T1S, EVEX_16BIT);
        self.vex_prefix(&src, 0, dst.encoding, VEX_SIMD_66, VEX_OPCODE_0F_38, &mut attributes);
        self.emit_int8(0x79);
        self.emit_operand_attr(dst.encoding, &src, &attributes, true);
    }

    /// `vpsadbw dst, nds, src, vector_len`
    pub fn vpsadbw(&mut self, dst: XMMRegister, nds: XMMRegister, src: XMMRegister, vector_len: u8)
        requires
            dst.wf(),
            nds.wf(),
            src.wf(),
            ({
                let f = old(self).features;
                (f.use_avx > 0) && ({ let a1 = InstructionAttr::spec_new(f, vector_len, false, f.legacy_mode_bw(), true, true); (vex_rr_ok(f, a1, dst.encoding, nds.encoding, src.encoding)) })
            }),
        ensures
            ({
                let f = old(self).features;
                final(self).appends(*old(self), ({ let a1 = InstructionAttr::spec_new(f, vector_len, false, f.legacy_mode_bw(), true, true); vex_rr_bytes(f, a1, dst.encoding, nds.encoding, src.encoding, VEX_SIMD_66, VEX_OPCODE_0F) + seq![0xF6, (0xC0 | rr_bits(dst.encoding, src.encoding))] }))
            }),
    {
        let mut attributes = InstructionAttr::new(&self.features, vector_len, false, self.features.legacy_mode_bw(), true, true);
        let encode = self.vex_prefix_and_encode(dst.encoding, nds.encoding, src.encoding, VEX_SIMD_66, VEX_OPCODE_0F, &mut attributes);
        self.emit_int16(0xF6, (0xC0 | encode));
    }

    /// `vpunpckhwd dst, nds, src, vector_len`
    pub fn vpunpckhwd(&mut self, dst: XMMRegister, nds: XMMRegister, src: XMMRegister, vector_len: u8)
        requires
            dst.wf(),
            nds.wf(),
            src.wf(),
            ({
                let f = old(self).features;
                (f.use_avx > 0) && ({ let a1 = InstructionAttr::spec_new(f, vector_len, false, false, true, true); (vex_rr_ok(f, a1, dst.encoding, nds.encoding, src.encoding)) })
            }),
        ensures
            ({
                let f = old(self).features;
                final(self).appends(*old(self), ({ let a1 = InstructionAttr::spec_new(f, vector_len, false, false, true, true); vex_rr_bytes(f, a1, dst.encoding, nds.encoding, src.encoding, VEX_SIMD_66, VEX_OPCODE_0F) + seq![0x69, (0xC0 | rr_bits(dst.encoding, src.encoding))] }))
            }),
    {
        let mut attributes = InstructionAttr::new(&self.features, vector_len, false, false, true, true);
        let encode = self.vex_prefix_and_encode(dst.encoding, nds.encoding, src.encoding, VEX_SIMD_66, VEX_OPCODE_0F, &mut attributes);
        self.emit_int16(0x69, (0xC0 | encode));
    }

    /// `vpunpcklwd dst, nds, src, vector_len`
    pub fn vpunpcklwd(&mut self, dst: XMMRegister, nds: XMMRegister, src: XMMRegister, vector_len: u8)
        requires
            dst.wf(),
            nds.wf(),
            src.wf(),
            ({
                let f = old(self).features;
                (f.use_avx > 0) && ({ let a1 = InstructionAttr::spec_new(f, vector_len, false, false, true, true); (vex_rr_ok(f, a1, dst.encoding, nds.encoding, src.encoding)) })
            }),
        ensures
            ({
                let f = old(self).features;
                final(self).appends(*old(self), ({ let a1 = InstructionAttr::spec_new(f, vector_len, false, false, true, true); vex_rr_bytes(f, a1, dst.encoding, nds.encoding, src.encoding, VEX_SIMD_66, VEX_OPCODE_0F) + seq![0x61, (0xC0 | rr_bits(dst.encoding, src.encoding))] }))
            }),
    {
        let mut attributes = InstructionAttr::new(&self.features, vector_len, false, false, true, true);
        let encode = self.vex_prefix_and_encode(dst.encoding, nds.encoding, src.encoding, VEX_SIMD_66, VEX_OPCODE_0F, &mut attributes);
        self.emit_int16(0x61, (0xC0 | encode));
    }

    /// `vpunpckhdq dst, nds, src, vector_len`
    pub fn vpunpckhdq(&mut self, dst: XMMRegister, nds: XMMRegister, src: XMMRegister, vector_len: u8)
        requires
            dst.wf(),
            nds.wf(),
            src.wf(),
            ({
                let f = old(self).features;
                (f.use_avx > 0) && ({ let a1 = InstructionAttr::spec_new(f, vector_len, false, false, true, true); (vex_rr_ok(f, a1, dst.encoding, nds.encoding, src.encoding)) })
            }),
        ensures
            ({
                let f = old(self).features;
                final(self).appends(*old(self), ({ let a1 = InstructionAttr::spec_new(f, vector_len, false, false, true, true); vex_rr_bytes(f, a1, dst.encoding, nds.encoding, src.encoding, VEX_SIMD_66, VEX_OPCODE_0F) + seq![0x6A, (0xC0 | rr_bits(dst.encoding, src.encoding))] }))
            }),
    {
        let mut attributes = InstructionAttr::new(&self.features, vector_len, false, false, true, true);
        let encode = self.vex_prefix_and_encode(dst.encoding, nds.encoding, src.encoding, VEX_SIMD_66, VEX_OPCODE_0F, &mut attributes);
        self.emit_int16(0x6A, (0xC0 | encode));
    }

    /// `vpunpckldq dst, nds, src, vector_len`
    pub fn vpunpckldq(&mut self, dst: XMMRegister, nds: XMMRegister, src: XMMRegister, vector_len: u8)
        requires
            dst.wf(),
            nds.wf(),
            src.wf(),
            ({
                let f = old(self).features;
                (f.use_avx > 0) && ({ let a1 = InstructionAttr::spec_new(f, vector_len, false, false, true, true); (vex_rr_ok(f, a1, dst.encoding, nds.encoding, src.encoding)) })
            }),
        ensures
            ({
                let f = old(self).features;
                final(self).appends(*old(self), ({ let a1 = InstructionAttr::spec_new(f, vector_len, false, false, true, true); vex_rr_bytes(f, a1, dst.encoding, nds.encoding, src.encoding, VEX_SIMD_66, VEX_OPCODE_0F) + seq![0x62, (0xC0 | rr_bits(dst.encoding, src.encoding))] }))
            }),
    {
        let mut attributes = InstructionAttr::new(&self.features, vector_len, false, false, true, true);
        let encode = self.vex_prefix_and_encode(dst.encoding, nds.encoding, src.encoding, VEX_SIMD_66, VEX_OPCODE_0F, &mut attributes);
        self.emit_int16(0x62, (0xC0 | encode));
    }

    /// `vgf2p8affineqb dst, src2, src3, imm8, vector_len`
    pub fn vgf2p8affineqb(&mut self, dst: XMMRegister, src2: XMMRegister, src3: XMMRegister, imm8: i8, vector_len: u8)
        requires
            dst.wf(),
            src2.wf(),
            src3.wf(),
            ({
                let f = old(self).features;
                (f.supports_gfni()) && ((f.supports_sse()) && ({ let a1 = InstructionAttr::spec_new(f, vector_len, true, false, true, true); (vex_rr_ok(f, a1, dst.encoding, src2.encoding, src3.encoding)) }))
            }),
        ensures
            ({
                let f = old(self).features;
                final(self).appends(*old(self), ({ let a1 = InstructionAttr::spec_new(f, vector_len, true, false, true, true); vex_rr_bytes(f, a1, dst.encoding, src2.encoding, src3.encoding, VEX_SIMD_66, VEX_OPCODE_0F_3A) + seq![0xCE, (0xC0 | rr_bits(dst.encoding, src3.encoding)), imm_byte(imm8)] }))
            }),
    {
        let mut attributes = InstructionAttr::new(&self.features, vector_len, true, false, true, true);
        let encode = self.vex_prefix_and_encode(dst.encoding, src2.encoding, src3.encoding, VEX_SIMD_66, VEX_OPCODE_0F_3A, &mut attributes);
        self.emit_int24(0xCE, (0xC0 | encode), imm_byte_exec(imm8));
    }

    /// `vpbroadcastd dst, src, vector_len`
    pub fn vpbroadcastd(&mut self, dst: XMMRegister, src: XMMRegister, vector_len: u8)
        requires
            dst.wf(),
            src.wf(),
            ({
                let f = old(self).features;
                (f.use_avx >= 2) && ({ let a1 = InstructionAttr::spec_new(f, vector_len, false, false, true, true); (vex_rr_ok(f, a1, dst.encoding, 0, src.encoding)) })
            }),
        ensures
            ({
                let f = old(self).features;
                final(self).appends(*old(self), ({ let a1 = InstructionAttr::spec_new(f, vector_len, false, false, true, true); vex_rr_bytes(f, a1, dst.encoding, 0, src.encoding, VEX_SIMD_66, VEX_OPCODE_0F_38) + seq![0x58, (0xC0 | rr_bits(dst.encoding, src.encoding))] }))
            }),
    {
        let mut attributes = InstructionAttr::new(&self.features, vector_len, false, false, true, true);
        let encode = self.vex_prefix_and_encode(dst.encoding, 0, src.encoding, VEX_SIMD_66, VEX_OPCODE_0F_38, &mut attributes);
        self.emit_int16(0x58, (0xC0 | encode));
    }

    /// `vpbroadcastd dst, [src], vector_len`
    pub fn vpbroadcastd_xm(&mut self, dst: XMMRegister, src: Address, vector_len: u8)
        requires
            dst.wf(),
            src.wf(),
            ({
                let f = old(self).features;
                (f.supports_avx2()) && ({ let a1 = InstructionAttr::spec_new(f, vector_len, false, false, true, true); let a2 = a1.with_address(f, EVEX_T1S, EVEX_32BIT); (vex_adr_ok(f, a2, 0, dst.encoding, src)) })
            }),
        ensures
            ({
                let f = old(self).features;
                final(self).appends(*old(self), ({ let a1 = InstructionAttr::spec_new(f, vector_len, false, false, true, true); let a2 = a1.with_address(f, EVEX_T1S, EVEX_32BIT); vex_adr_bytes(f, a2, src, 0, dst.encoding, VEX_SIMD_66, VEX_OPCODE_0F_38) + ({ let a3 = vex_adr_attr(f, a2, 0, dst.encoding); seq![0x58] + address_bytes(f, Some(a3), dst.encoding, src, true) }) }))
            }),
    {
        let mut attributes = InstructionAttr::new(&self.features, vector_len, false, false, true, true);
        attributes.set_address_attributes(&self.features, EVEX_T1S, EVEX_32BIT);
        self.vex_prefix(&src, 0, dst.encoding, VEX_SIMD_66, VEX_OPCODE_0F_38, &mut attributes);
        self.emit_int8(0x58);
        self.emit_operand_attr(dst.encoding, &src, &attributes, true);
    }

    /// `vpbroadcastq dst, src, vector_len`
    pub fn vpbroadcastq(&mut self, dst: XMMRegister, src: XMMRegister, vector_len: u8)
        requires
            dst.wf(),
            src.wf(),
            ({
                let f = old(self).features;
                (f.supports_avx2()) && ({ let a1 = InstructionAttr::spec_new(f, vector_len, f.supports_evex(), false, true, true); let a2 = a1.reverted(); (vex_rr_ok(f, a2, dst.encoding, 0, src.encoding)) })
            }),
        ensures
            ({
                let f = old(self).features;
                final(self).appends(*old(self), ({ let a1 = InstructionAttr::spec_new(f, vector_len, f.supports_evex(), false, true, true); let a2 = a1.reverted(); vex_rr_bytes(f, a2, dst.encoding, 0, src.encoding, VEX_SIMD_66, VEX_OPCODE_0F_38) + seq![0x59, (0xC0 | rr_bits(dst.encoding, src.encoding))] }))
            }),
    {
        let mut attributes = InstructionAttr::new(&self.features, vector_len, self.features.supports_evex(), false, true, true);
        attributes.set_rex_vex_w_reverted();
        let encode = self.vex_prefix_and_encode(dst.encoding, 0, src.encoding, VEX_SIMD_66, VEX_OPCODE_0F_38, &mut attributes);
        self.emit_int16(0x59, (0xC0 | encode));
    }

    /// `vpbroadcastq dst, [src], vector_len`
    pub fn vpbroadcastq_xm(&mut self, dst: XMMRegister, src: Address, vector_len: u8)
        requires
            dst.wf(),
            src.wf(),
            ({
                let f = old(self).features;
                (f.supports_avx2()) && ({ let a1 = InstructionAttr::spec_new(f, vector_len, f.supports_evex(), false, true, true); let a2 = a1.reverted(); let a3 = a2.with_address(f, EVEX_T1S, EVEX_64BIT); (vex_adr_ok(f, a3, 0, dst.encoding, src)) })
            }),
        ensures
            ({
                let f = old(self).features;
                final(self).appends(*old(self), ({ let a1 = InstructionAttr::spec_new(f, vector_len, f.supports_evex(), false, true, true); let a2 = a1.reverted(); let a3 = a2.with_address(f, EVEX_T1S, EVEX_64BIT); vex_adr_bytes(f, a3, src, 0, dst.encoding, VEX_SIMD_66, VEX_OPCODE_0F_38) + ({ let a4 = vex_adr_attr(f, a3, 0, dst.encoding); seq![0x59] + address_bytes(f, Some(a4), dst.encoding, src, true) }) }))
            }),
    {
        let mut attributes = InstructionAttr::new(&self.features, vector_len, self.features.supports_evex(), false, true, true);
        attributes.set_rex_vex_w_reverted();
        attributes.set_address_attributes(&self.features, EVEX_T1S, EVEX_64BIT);
        self.vex_prefix(&src, 0, dst.encoding, VEX_SIMD_66, VEX_OPCODE_0F_38, &mut attributes);
        self.emit_int8(0x59);
        self.emit_operand_attr(dst.encoding, &src, &attributes, true);
    }

    /// `vbroadcastss dst, src, vector_len`
    pub fn vbroadcastss(&mut self, dst: XMMRegister, src: XMMRegister, vector_len: u8)
        requires
            dst.wf(),
            src.wf(),
            ({
                let f = old(self).features;
                (f.supports_avx2()) && ({ let a1 = InstructionAttr::spec_new(f, vector_len, false, false, true, true); (vex_rr_ok(f, a1, dst.encoding, 0, src.encoding)) })
            }),
        ensures
            ({
                let f = old(self).features;
                final(self).appends(*old(self), ({ let a1 = InstructionAttr::spec_new(f, vector_len, false, false, true, true); vex_rr_bytes(f, a1, dst.encoding, 0, src.encoding, VEX_SIMD_66, VEX_OPCODE_0F_38) + seq![0x18, (0xC0 | rr_bits(dst.encoding, src.encoding))] }))
            }),
    {
        let mut attributes = InstructionAttr::new(&self.features, vector_len, false, false, true, true);
        let encode = self.vex_prefix_and_encode(dst.encoding, 0, src.encoding, VEX_SIMD_66, VEX_OPCODE_0F_38, &mut attributes);
        self.emit_int16(0x18, (0xC0 | encode));
    }

    /// `vbroadcastss dst, [src], vector_len`
    pub fn vbroadcastss_xm(&mut self, dst: XMMRegister, src: Address, vector_len: u8)
        requires
            dst.wf(),
            src.wf(),
            ({
                let f = old(self).features;
                (f.supports_avx()) && ({ let a1 = InstructionAttr::spec_new(f, vector_len, false, false, true, true); let a2 = a1.with_address(f, EVEX_T1S, EVEX_32BIT); (vex_adr_ok(f, a2, 0, dst.encoding, src)) })
            }),
        ensures
            ({
                let f = old(self).features;
                final(self).appends(*old(self), ({ let a1 = InstructionAttr::spec_new(f, vector_len, false, false, true, true); let a2 = a1.with_address(f, EVEX_T1S, EVEX_32BIT); vex_adr_bytes(f, a2, src, 0, dst.encoding, VEX_SIMD_66, VEX_OPCODE_0F_38) + ({ let a3 = vex_adr_attr(f, a2, 0, dst.encoding); seq![0x18] + address_bytes(f, Some(a3), dst.encoding, src, true) }) }))
            }),
    {
        let mut attributes = InstructionAttr::new(&self.features, vector_len, false, false, true, true);
        attributes.set_address_attributes(&self.features, EVEX_T1S, EVEX_32BIT);
        self.vex_prefix(&src, 0, dst.encoding, VEX_SIMD_66, VEX_OPCODE_0F_38, &mut attributes);
        self.emit_int8(0x18);
        self.emit_operand_attr(dst.encoding, &src, &attributes, true);
    }

    /// `vbroadcastsd dst, src, vector_len`
    pub fn vbroadcastsd(&mut self, dst: XMMRegister, src: XMMRegister, vector_len: u8)
        requires
            dst.wf(),
            src.wf(),
            ({
                let f = old(self).features;
                (f.supports_avx2()) && (((vector_len == AVX_256BIT) || (vector_len == AVX_512BIT)) && ({ let a1 = InstructionAttr::spec_new(f, vector_len, f.supports_evex(), false, true, true); let a2 = a1.reverted(); (vex_rr_ok(f, a2, dst.encoding, 0, src.encoding)) }))
            }),
        ensures
            ({
                let f = old(self).features;
                final(self).appends(*old(self), ({ let a1 = InstructionAttr::spec_new(f, vector_len, f.supports_evex(), false, true, true); let a2 = a1.reverted(); vex_rr_bytes(f, a2, dst.encoding, 0, src.encoding, VEX_SIMD_66, VEX_OPCODE_0F_38) + seq![0x19, (0xC0 | rr_bits(dst.encoding, src.encoding))] }))
            }),
    {
        let mut attributes = InstructionAttr::new(&self.features, vector_len, self.features.supports_evex(), false, true, true);
        attributes.set_rex_vex_w_reverted();
        let encode = self.vex_prefix_and_encode(dst.encoding, 0, src.encoding, VEX_SIMD_66, VEX_OPCODE_0F_38, &mut attributes);
        self.emit_int16(0x19, (0xC0 | encode));
    }

    /// `vbroadcastsd dst, [src], vector_len`
    pub fn vbroadcastsd_xm(&mut self, dst: XMMRegister, src: Address, vector_len: u8)
        requires
            dst.wf(),
            src.wf(),
            ({
                let f = old(self).features;
                (f.supports_avx()) && (((vector_len == AVX_256BIT) || (vector_len == AVX_512BIT)) && ({ let a1 = InstructionAttr::spec_new(f, vector_len, f.supports_evex(), false, true, true); let a2 = a1.with_address(f, EVEX_T1S, EVEX_64BIT); let a3 = a2.reverted(); (vex_adr_ok(f, a3, 0, dst.encoding, src)) }))
            }),
        ensures
            ({
                let f = old(self).features;
                final(self).appends(*old(self), ({ let a1 = InstructionAttr::spec_new(f, vector_len, f.supports_evex(), false, true, true); let a2 = a1.with_address(f, EVEX_T1S, EVEX_64BIT); let a3 = a2.reverted(); vex_adr_bytes(f, a3, src, 0, dst.encoding, VEX_SIMD_66, VEX_OPCODE_0F_38) + ({ let a4 = vex_adr_attr(f, a3, 0, dst.encoding); seq![0x19] + address_bytes(f, Some(a4), dst.encoding, src, true) }) }))
            }),
    {
        let mut attributes = InstructionAttr::new(&self.features, vector_len, self.features.supports_evex(), false, true, true);
        attributes.set_address_attributes(&self.features, EVEX_T1S, EVEX_64BIT);
        attributes.set_rex_vex_w_reverted();
        self.vex_prefix(&src, 0, dst.encoding, VEX_SIMD_66, VEX_OPCODE_0F_38, &mut attributes);
        self.emit_int8(0x19);
        self.emit_operand_attr(dst.encoding, &src, &attributes, true);
    }

    /// `vbroadcastf128 dst, [src], vector_len`
    pub fn vbroadcastf128(&mut self, dst: XMMRegister, src: Address, vector_len: u8)
        requires
            dst.wf(),
            src.wf(),
            ({
                let f = old(self).features;
                (f.supports_avx()) && ((vector_len == AVX_256BIT) && ({ let a1 = InstructionAttr::spec_new(f, vector_len, false, false, true, true); let a2 = a1.with_address(f, EVEX_T4, EVEX_32BIT); (vex_adr_ok(f, a2, 0, dst.encoding, src)) }))
            }),
        ensures
            ({
                let f = old(self).features;
                final(self).appends(*old(self), ({ let a1 = InstructionAttr::spec_new(f, vector_len, false, false, true, true); let a2 = a1.with_address(f, EVEX_T4, EVEX_32BIT); vex_adr_bytes(f, a2, src, 0, dst.encoding, VEX_SIMD_66, VEX_OPCODE_0F_38) + ({ let a3 = vex_adr_attr(f, a2, 0, dst.encoding); seq![0x1A] + address_bytes(f, Some(a3), dst.encoding, src, true) }) }))
            }),
    {
        let mut attributes = InstructionAttr::new(&self.features, vector_len, false, false, true, true);
        attributes.set_address_attributes(&self.features, EVEX_T4, EVEX_32BIT);
        self.vex_prefix(&src, 0, dst.encoding, VEX_SIMD_66, VEX_OPCODE_0F_38, &mut attributes);
        self.emit_int8(0x1A);
        self.emit_operand_attr(dst.encoding, &src, &attributes, true);
    }

    /// `vpgatherdd dst, [src], mask, vector_len`
    pub fn vpgatherdd(&mut self, dst: XMMRegister, src: Address, mask: XMMRegister, vector_len: u8)
        requires
            dst.wf(),
            src.wf(),
            mask.wf(),
            ({
                let f = old(self).features;
                (f.supports_avx2()) && (((vector_len == AVX_128BIT) || (vector_len == AVX_256BIT)) && ((src.xmmindex is Some) && ((src.xmmindex != Some(dst)) && ({ let a1 = InstructionAttr::spec_new(f, vector_len, false, true, true, true); (vex_adr_ok(f, a1, mask.encoding, dst.encoding, src)) }))))
            }),
        ensures
            ({
                let f = old(self).features;
                final(self).appends(*old(self), ({ let a1 = InstructionAttr::spec_new(f, vector_len, false, true, true, true); vex_adr_bytes(f, a1, src, mask.encoding, dst.encoding, VEX_SIMD_66, VEX_OPCODE_0F_38) + ({ let a2 = vex_adr_attr(f, a1, mask.encoding, dst.encoding); seq![0x90] + address_bytes(f, Some(a2), dst.encoding, src, true) }) }))
            }),
    {
        let mut attributes = InstructionAttr::new(&self.features, vector_len, false, true, true, true);
        self.vex_prefix(&src, mask.encoding, dst.encoding, VEX_SIMD_66, VEX_OPCODE_0F_38, &mut attributes);
        self.emit_int8(0x90);
        self.emit_operand_attr(dst.encoding, &src, &attributes, true);
    }

    /// `vpgatherdq dst, [src], mask, vector_len`
    pub fn vpgatherdq(&mut self, dst: XMMRegister, src: Address, mask: XMMRegister, vector_len: u8)
        requires
            dst.wf(),
            src.wf(),
            mask.wf(),
            ({
                let f = old(self).features;
                (f.supports_avx2()) && (((vector_len == AVX_128BIT) || (vector_len == AVX_256BIT)) && ((src.xmmindex is Some) && ((src.xmmindex != Some(dst)) && ({ let a1 = InstructionAttr::spec_new(f, vector_len, true, true, true, true); (vex_adr_ok(f, a1, mask.encoding, dst.encoding, src)) }))))
            }),
        ensures
            ({
                let f = old(self).features;
                final(self).appends(*old(self), ({ let a1 = InstructionAttr::spec_new(f, vector_len, true, true, true, true); vex_adr_bytes(f, a1, src, mask.encoding, dst.encoding, VEX_SIMD_66, VEX_OPCODE_0F_38) + ({ let a2 = vex_adr_attr(f, a1, mask.encoding, dst.encoding); seq![0x90] + address_bytes(f, Some(a2), dst.encoding, src, true) }) }))
            }),
    {
        let mut attributes = InstructionAttr::new(&self.features, vector_len, true, true, true, true);
        self.vex_prefix(&src, mask.encoding, dst.encoding, VEX_SIMD_66, VEX_OPCODE_0F_38, &mut attributes);
        self.emit_int8(0x90);
        self.emit_operand_attr(dst.encoding, &src, &attributes, true);
    }

    /// `vgatherdpd dst, [src], mask, vector_len`
    pub fn vgatherdpd(&mut self, dst: XMMRegister, src: Address, mask: XMMRegister, vector_len: u8)
        requires
            dst.wf(),
            src.wf(),
            mask.wf(),
            ({
                let f = old(self).features;
                (f.supports_avx2()) && (((vector_len == AVX_128BIT) || (vector_len == AVX_256BIT)) && ((src.xmmindex is Some) && ((src.xmmindex != Some(dst)) && ({ let a1 = InstructionAttr::spec_new(f, vector_len, true, true, true, true); (vex_adr_ok(f, a1, mask.encoding, dst.encoding, src)) }))))
            }),
        ensures
            ({
                let f = old(self).features;
                final(self).appends(*old(self), ({ let a1 = InstructionAttr::spec_new(f, vector_len, true, true, true, true); vex_adr_bytes(f, a1, src, mask.encoding, dst.encoding, VEX_SIMD_66, VEX_OPCODE_0F_38) + ({ let a2 = vex_adr_attr(f, a1, mask.encoding, dst.encoding); seq![0x92] + address_bytes(f, Some(a2), dst.encoding, src, true) }) }))
            }),
    {
        let mut attributes = InstructionAttr::new(&self.features, vector_len, true, true, true, true);
        self.vex_prefix(&src, mask.encoding, dst.encoding, VEX_SIMD_66, VEX_OPCODE_0F_38, &mut attributes);
        self.emit_int8(0x92);
        self.emit_operand_attr(dst.encoding, &src, &attributes, true);
    }

    /// `vgatherdps dst, [src], mask, vector_len`
    pub fn vgatherdps(&mut self, dst: XMMRegister, src: Address, mask: XMMRegister, vector_len: u8)
        requires
            dst.wf(),
            src.wf(),
            mask.wf(),
            ({
                let f = old(self).features;
                (f.supports_avx2()) && (((vector_len == AVX_128BIT) || (vector_len == AVX_256BIT)) && ((src.xmmindex is Some) && ((src.xmmindex != Some(dst)) && ({ let a1 = InstructionAttr::spec_new(f, vector_len, false, true, false, true); (vex_adr_ok(f, a1, mask.encoding, dst.encoding, src)) }))))
            }),
        ensures
            ({
                let f = old(self).features;
                final(self).appends(*old(self), ({ let a1 = InstructionAttr::spec_new(f, vector_len, false, true, false, true); vex_adr_bytes(f, a1, src, mask.encoding, dst.encoding, VEX_SIMD_66, VEX_OPCODE_0F_38) + ({ let a2 = vex_adr_attr(f, a1, mask.encoding, dst.encoding); seq![0x92] + address_bytes(f, Some(a2), dst.encoding, src, true) }) }))
            }),
    {
        let mut attributes = InstructionAttr::new(&self.features, vector_len, false, true, false, true);
        self.vex_prefix(&src, mask.encoding, dst.encoding, VEX_SIMD_66, VEX_OPCODE_0F_38, &mut attributes);
        self.emit_int8(0x92);
        self.emit_operand_attr(dst.encoding, &src, &attributes, true);
    }

    /// `vpclmulqdq dst, nds, src, mask`
    pub fn vpclmulqdq(&mut self, dst: XMMRegister, nds: XMMRegister, src: XMMRegister, mask: i32)
        requires
            dst.wf(),
            nds.wf(),
            src.wf(),
            ({
                let f = old(self).features;
                (f.supports_avx() && f.supports_clmul()) && ({ let a1 = InstructionAttr::spec_new(f, AVX_128BIT, false, true, true, true); (vex_rr_ok(f, a1, dst.encoding, nds.encoding, src.encoding)) })
            }),
        ensures
            ({
                let f = old(self).features;
                final(self).appends(*old(self), ({ let a1 = InstructionAttr::spec_new(f, AVX_128BIT, false, true, true, true); vex_rr_bytes(f, a1, dst.encoding, nds.encoding, src.encoding, VEX_SIMD_66, VEX_OPCODE_0F_3A) + seq![0x44, (0xC0 | rr_bits(dst.encoding, src.encoding)), low8(mask)] }))
            }),
    {
        let mut attributes = InstructionAttr::new(&self.features, AVX_128BIT, false, true, true, true);
        let encode = self.vex_prefix_and_encode(dst.encoding, nds.encoding, src.encoding, VEX_SIMD_66, VEX_OPCODE_0F_3A, &mut attributes);
        self.emit_int24(0x44, (0xC0 | encode), low8_exec(mask));
    }

    /// `vzeroupper_uncached`
    pub fn vzeroupper_uncached(&mut self)
        requires
            ({
                let f = old(self).features;
                (if f.supports_vzeroupper() { ({ let a1 = InstructionAttr::spec_new(f, AVX_128BIT, false, true, true, false); (vex_rr_ok(f, a1, 0, 0, 0)) }) } else { true })
            }),
        ensures
            ({
                let f = old(self).features;
                final(self).appends(*old(self), (if f.supports_vzeroupper() { ({ let a1 = InstructionAttr::spec_new(f, AVX_128BIT, false, true, true, false); vex_rr_bytes(f, a1, 0, 0, 0, VEX_SIMD_NONE, VEX_OPCODE_0F) + seq![0x77] }) } else { Seq::<u8>::empty() }))
            }),
    {
        if self.features.supports_vzeroupper() {
            let mut attributes = InstructionAttr::new(&self.features, AVX_128BIT, false, true, true, false);
            let _ = self.vex_prefix_and_encode(0, 0, 0, VEX_SIMD_NONE, VEX_OPCODE_0F, &mut attributes);
            self.emit_int8(0x77);
        } else {
        }
    }

    /// `vmaxss dst, nds, src`
    pub fn vmaxss(&mut self, dst: XMMRegister, nds: XMMRegister, src: XMMRegister)
        requires
            dst.wf(),
            nds.wf(),
            src.wf(),
            ({
                let f = old(self).features;
                (f.supports_avx()) && ({ let a1 = InstructionAttr::spec_new(f, AVX_128BIT, false, false, true, false); (vex_rr_ok(f, a1, dst.encoding, nds.encoding, src.encoding)) })
            }),
        ensures
            ({
                let f = old(self).features;
                final(self).appends(*old(self), ({ let a1 = InstructionAttr::spec_new(f, AVX_128BIT, false, false, true, false); vex_rr_bytes(f, a1, dst.encoding, nds.encoding, src.encoding, VEX_SIMD_F3, VEX_OPCODE_0F) + seq![0x5F, (0xC0 | rr_bits(dst.encoding, src.encoding))] }))
            }),
    {
        let mut attributes = InstructionAttr::new(&self.features, AVX_128BIT, false, false, true, false);
        let encode = self.vex_prefix_and_encode(dst.encoding, nds.encoding, src.encoding, VEX_SIMD_F3, VEX_OPCODE_0F, &mut attributes);
        self.emit_int16(0x5F, (0xC0 | encode));
    }

    /// `vmaxsd dst, nds, src`
    pub fn vmaxsd(&mut self, dst: XMMRegister, nds: XMMRegister, src: XMMRegister)
        requires
            dst.wf(),
            nds.wf(),
            src.wf(),
            ({
                let f = old(self).features;
                (f.supports_avx()) && ({ let a1 = InstructionAttr::spec_new(f, AVX_128BIT, f.supports_evex(), false, true, false); let a2 = a1.reverted(); (vex_rr_ok(f, a2, dst.encoding, nds.encoding, src.encoding)) })
            }),
        ensures
            ({
                let f = old(self).features;
                final(self).appends(*old(self), ({ let a1 = InstructionAttr::spec_new(f, AVX_128BIT, f.supports_evex(), false, true, false); let a2 = a1.reverted(); vex_rr_bytes(f, a2, dst.encoding, nds.encoding, src.encoding, VEX_SIMD_F2, VEX_OPCODE_0F) + seq![0x5F, (0xC0 | rr_bits(dst.encoding, src.encoding))] }))
            }),
    {
        let mut attributes = InstructionAttr::new(&self.features, AVX_128BIT, self.features.supports_evex(), false, true, false);
        attributes.set_rex_vex_w_reverted();
        let encode = self.vex_prefix_and_encode(dst.encoding, nds.encoding, src.encoding, VEX_SIMD_F2, VEX_OPCODE_0F, &mut attributes);
        self.emit_int16(0x5F, (0xC0 | encode));
    }

    /// `vminss dst, nds, src`
    pub fn vminss(&mut self, dst: XMMRegister, nds: XMMRegister, src: XMMRegister)
        requires
            dst.wf(),
            nds.wf(),
            src.wf(),
            ({
                let f = old(self).features;
                (f.supports_avx()) && ({ let a1 = InstructionAttr::spec_new(f, AVX_128BIT, false, false, true, false); (vex_rr_ok(f, a1, dst.encoding, nds.encoding, src.encoding)) })
            }),
        ensures
            ({
                let f = old(self).features;
                final(self).appends(*old(self), ({ let a1 = InstructionAttr::spec_new(f, AVX_128BIT, false, false, true, false); vex_rr_bytes(f, a1, dst.encoding, nds.encoding, src.encoding, VEX_SIMD_F3, VEX_OPCODE_0F) + seq![0x5D, (0xC0 | rr_bits(dst.encoding, src.encoding))] }))
            }),
    {
        let mut attributes = InstructionAttr::new(&self.features, AVX_128BIT, false, false, true, false);
        let encode = self.vex_prefix_and_encode(dst.encoding, nds.encoding, src.encoding, VEX_SIMD_F3, VEX_OPCODE_0F, &mut attributes);
        self.emit_int16(0x5D, (0xC0 | encode));
    }

    /// `vminsd dst, nds, src`
    pub fn vminsd(&mut self, dst: XMMRegister, nds: XMMRegister, src: XMMRegister)
        requires
            dst.wf(),
            nds.wf(),
            src.wf(),
            ({
                let f = old(self).features;
                (f.supports_avx()) && ({ let a1 = InstructionAttr::spec_new(f, AVX_128BIT, f.supports_evex(), false, true, false); let a2 = a1.reverted(); (vex_rr_ok(f, a2, dst.encoding, nds.encoding, src.encoding)) })
            }),
        ensures
            ({
                let f = old(self).features;
                final(self).appends(*old(self), ({ let a1 = InstructionAttr::spec_new(f, AVX_128BIT, f.supports_evex(), false, true, false); let a2 = a1.reverted(); vex_rr_bytes(f, a2, dst.encoding, nds.encoding, src.encoding, VEX_SIMD_F2, VEX_OPCODE_0F) + seq![0x5D, (0xC0 | rr_bits(dst.encoding, src.encoding))] }))
            }),
    {
        let mut attributes = InstructionAttr::new(&self.features, AVX_128BIT, self.features.supports_evex(), false, true, false);
        attributes.set_rex_vex_w_reverted();
        let encode = self.vex_prefix_and_encode(dst.encoding, nds.encoding, src.encoding, VEX_SIMD_F2, VEX_OPCODE_0F, &mut attributes);
        self.emit_int16(0x5D, (0xC0 | encode));
    }

    /// `blendvpb dst, nds, src1, src2, vector_len`
    pub fn blendvpb(&mut self, dst: XMMRegister, nds: XMMRegister, src1: XMMRegister, src2: XMMRegister, vector_len: u8)
        requires
            dst.wf(),
            nds.wf(),
            src1.wf(),
            src2.wf(),
            ({
                let f = old(self).features;
                (f.supports_avx()) && ((vector_len <= AVX_256BIT) && ({ let a1 = InstructionAttr::spec_new(f, vector_len, false, true, true, true); (vex_rr_ok(f, a1, dst.encoding, nds.encoding, src1.encoding)) }))
            }),
        ensures
            ({
                let f = old(self).features;
                final(self).appends(*old(self), ({ let a1 = InstructionAttr::spec_new(f, vector_len, false, true, true, true); vex_rr_bytes(f, a1, dst.encoding, nds.encoding, src1.encoding, VEX_SIMD_66, VEX_OPCODE_0F_3A) + seq![0x4C, (0xC0 | rr_bits(dst.encoding, src1.encoding)), (0xF0 & (src2.encoding << 4))] }))
            }),
    {
        let mut attributes = InstructionAttr::new(&self.features, vector_len, false, true, true, true);
        let encode = self.vex_prefix_and_encode(dst.encoding, nds.encoding, src1.encoding, VEX_SIMD_66, VEX_OPCODE_0F_3A, &mut attributes);
        let src2_enc: u8 = src2.encoding;
        self.emit_int24(0x4C, (0xC0 | encode), (0xF0 & (src2_enc << 4)));
    }

    /// `vblendvpd dst, nds, src1, src2, vector_len`
    pub fn vblendvpd(&mut self, dst: XMMRegister, nds: XMMRegister, src1: XMMRegister, src2: XMMRegister, vector_len: u8)
        requires
            dst.wf(),
            nds.wf(),
            src1.wf(),
            src2.wf(),
            ({
                let f = old(self).features;
                ((f.use_avx > 0) && ((vector_len == AVX_128BIT) || (vector_len == AVX_256BIT))) && ((vector_len <= AVX_256BIT) && ({ let a1 = InstructionAttr::spec_new(f, vector_len, false, true, true, true); (vex_rr_ok(f, a1, dst.encoding, nds.encoding, src1.encoding)) }))
            }),
        ensures
            ({
                let f = old(self).features;
                final(self).appends(*old(self), ({ let a1 = InstructionAttr::spec_new(f, vector_len, false, true, true, true); vex_rr_bytes(f, a1, dst.encoding, nds.encoding, src1.encoding, VEX_SIMD_66, VEX_OPCODE_0F_3A) + seq![0x4B, (0xC0 | rr_bits(dst.encoding, src1.encoding)), (0xF0 & (src2.encoding << 4))] }))
            }),
    {
        let mut attributes = InstructionAttr::new(&self.features, vector_len, false, true, true, true);
        let encode = self.vex_prefix_and_encode(dst.encoding, nds.encoding, src1.encoding, VEX_SIMD_66, VEX_OPCODE_0F_3A, &mut attributes);
        let src2_enc: u8 = src2.encoding;
        self.emit_int24(0x4B, (0xC0 | encode), (0xF0 & (src2_enc << 4)));
    }

    /// `vpblendd dst, nds, src, imm8, vector_len`
    pub fn vpblendd(&mut self, dst: XMMRegister, nds: XMMRegister, src: XMMRegister, imm8: i8, vector_len: u8)
        requires
            dst.wf(),
            nds.wf(),
            src.wf(),
            ({
                let f = old(self).features;
                (f.supports_avx2()) && ((vector_len <= AVX_256BIT) && ({ let a1 = InstructionAttr::spec_new(f, vector_len, false, true, true, true); (vex_rr_ok(f, a1, dst.encoding, nds.encoding, src.encoding)) }))
            }),
        ensures
            ({
                let f = old(self).features;
                final(self).appends(*old(self), ({ let a1 = InstructionAttr::spec_new(f, vector_len, false, true, true, true); vex_rr_bytes(f, a1, dst.encoding, nds.encoding, src.encoding, VEX_SIMD_66, VEX_OPCODE_0F_3A) + seq![0x02, (0xC0 | rr_bits(dst.encoding, src.encoding)), imm_byte(imm8)] }))
            }),
    {
        let mut attributes = InstructionAttr::new(&self.features, vector_len, false, true, true, true);
        let encode = self.vex_prefix_and_encode(dst.encoding, nds.encoding, src.encoding, VEX_SIMD_66, VEX_OPCODE_0F_3A, &mut attributes);
        self.emit_int24(0x02, (0xC0 | encode), imm_byte_exec(imm8));
    }

    /// `vcmpps dst, nds, src, comparison, vector_len`
    pub fn vcmpps(&mut self, dst: XMMRegister, nds: XMMRegister, src: XMMRegister, comparison: i32, vector_len: u8)
        requires
            dst.wf(),
            nds.wf(),
            src.wf(),
            ({
                let f = old(self).features;
                (f.supports_avx()) && ((vector_len <= AVX_256BIT) && ({ let a1 = InstructionAttr::spec_new(f, vector_len, false, true, true, true); (vex_rr_ok(f, a1, dst.encoding, nds.encoding, src.encoding)) }))
            }),
        ensures
            ({
                let f = old(self).features;
                final(self).appends(*old(self), ({ let a1 = InstructionAttr::spec_new(f, vector_len, false, true, true, true); vex_rr_bytes(f, a1, dst.encoding, nds.encoding, src.encoding, VEX_SIMD_NONE, VEX_OPCODE_0F) + seq![0xC2, (0xC0 | rr_bits(dst.encoding, src.encoding)), low8(comparison)] }))
            }),
    {
        let mut attributes = InstructionAttr::new(&self.features, vector_len, false, true, true, true);
        let encode = self.vex_prefix_and_encode(dst.encoding, nds.encoding, src.encoding, VEX_SIMD_NONE, VEX_OPCODE_0F, &mut attributes);
        self.emit_int24(0xC2, (0xC0 | encode), low8_exec(comparison));
    }

    /// `vblendvps dst, nds, src1, src2, vector_len`
    pub fn vblendvps(&mut self, dst: XMMRegister, nds: XMMRegister, src1: XMMRegister, src2: XMMRegister, vector_len: u8)
        requires
            dst.wf(),
            nds.wf(),
            src1.wf(),
            src2.wf(),
            ({
                let f = old(self).features;
                ((f.use_avx > 0) && ((vector_len == AVX_128BIT) || (vector_len == AVX_256BIT))) && ({ let a1 = InstructionAttr::spec_new(f, vector_len, false, true, true, false); (vex_rr_ok(f, a1, dst.encoding, nds.encoding, src1.encoding)) })
            }),
        ensures
            ({
                let f = old(self).features;
                final(self).appends(*old(self), ({ let a1 = InstructionAttr::spec_new(f, vector_len, false, true, true, false); vex_rr_bytes(f, a1, dst.encoding, nds.encoding, src1.encoding, VEX_SIMD_66, VEX_OPCODE_0F_3A) + seq![0x4A, (0xC0 | rr_bits(dst.encoding, src1.encoding)), (0xF0 & (src2.encoding << 4))] }))
            }),
    {
        let mut attributes = InstructionAttr::new(&self.features, vector_len, false, true, true, false);
        let encode = self.vex_prefix_and_encode(dst.encoding, nds.encoding, src1.encoding, VEX_SIMD_66, VEX_OPCODE_0F_3A, &mut attributes);
        let src2_enc: u8 = src2.encoding;
        self.emit_int24(0x4A, (0xC0 | encode), (0xF0 & (src2_enc << 4)));
    }

    /// `vblendps dst, nds, src, imm8, vector_len`
    pub fn vblendps(&mut self, dst: XMMRegister, nds: XMMRegister, src: XMMRegister, imm8: i8, vector_len: u8)
        requires
            dst.wf(),
            nds.wf(),
            src.wf(),
            ({
                let f = old(self).features;
                ({ let a1 = InstructionAttr::spec_new(f, vector_len, false, true, true, false); (vex_rr_ok(f, a1, dst.encoding, nds.encoding, src.encoding)) })
            }),
        ensures
            ({
                let f = old(self).features;
                final(self).appends(*old(self), ({ let a1 = InstructionAttr::spec_new(f, vector_len, false, true, true, false); vex_rr_bytes(f, a1, dst.encoding, nds.encoding, src.encoding, VEX_SIMD_66, VEX_OPCODE_0F_3A) + seq![0x0C, (0xC0 | rr_bits(dst.encoding, src.encoding)), imm_byte(imm8)] }))
            }),
    {
        let mut attributes = InstructionAttr::new(&self.features, vector_len, false, true, true, false);
        let encode = self.vex_prefix_and_encode(dst.encoding, nds.encoding, src.encoding, VEX_SIMD_66, VEX_OPCODE_0F_3A, &mut attributes);
        self.emit_int24(0x0C, (0xC0 | encode), imm_byte_exec(imm8));
    }

    /// `vpcmpgtb dst, nds, src, vector_len`
    pub fn vpcmpgtb(&mut self, dst: XMMRegister, nds: XMMRegister, src: XMMRegister, vector_len: u8)
        requires
            dst.wf(),
            nds.wf(),
            src.wf(),
            ({
                let f = old(self).features;
                (if (vector_len == AVX_128BIT) { f.supports_avx() } else { f.supports_avx2() }) && ((vector_len <= AVX_256BIT) && ({ let a1 = InstructionAttr::spec_new(f, vector_len, false, true, true, false); (vex_rr_ok(f, a1, dst.encoding, nds.encoding, src.encoding)) }))
            }),
        ensures
            ({
                let f = old(self).features;
                final(self).appends(*old(self), ({ let a1 = InstructionAttr::spec_new(f, vector_len, false, true, true, false); vex_rr_bytes(f, a1, dst.encoding, nds.encoding, src.encoding, VEX_SIMD_66, VEX_OPCODE_0F) + seq![0x64, (0xC0 | rr_bits(dst.encoding, src.encoding))] }))
            }),
    {
        let mut attributes = InstructionAttr::new(&self.features, vector_len, false, true, true, false);
        let encode = self.vex_prefix_and_encode(dst.encoding, nds.encoding, src.encoding, VEX_SIMD_66, VEX_OPCODE_0F, &mut attributes);
        self.emit_int16(0x64, (0xC0 | encode));
    }

    /// `vpcmpgtw dst, nds, src, vector_len`
    pub fn vpcmpgtw(&mut self, dst: XMMRegister, nds: XMMRegister, src: XMMRegister, vector_len: u8)
        requires
            dst.wf(),
            nds.wf(),
            src.wf(),
            ({
                let f = old(self).features;
                (if (vector_len == AVX_128BIT) { f.supports_avx() } else { f.supports_avx2() }) && ((vector_len <= AVX_256BIT) && ({ let a1 = InstructionAttr::spec_new(f, vector_len, false, true, true, false); (vex_rr_ok(f, a1, dst.encoding, nds.encoding, src.encoding)) }))
            }),
        ensures
            ({
                let f = old(self).features;
                final(self).appends(*old(self), ({ let a1 = InstructionAttr::spec_new(f, vector_len, false, true, true, false); vex_rr_bytes(f, a1, dst.encoding, nds.encoding, src.encoding, VEX_SIMD_66, VEX_OPCODE_0F) + seq![0x65, (0xC0 | rr_bits(dst.encoding, src.encoding))] }))
            }),
    {
        let mut attributes = InstructionAttr::new(&self.features, vector_len, false, true, true, false);
        let encode = self.vex_prefix_and_encode(dst.encoding, nds.encoding, src.encoding, VEX_SIMD_66, VEX_OPCODE_0F, &mut attributes);
        self.emit_int16(0x65, (0xC0 | encode));
    }

    /// `vpcmpgtd dst, nds, src, vector_len`
    pub fn vpcmpgtd(&mut self, dst: XMMRegister, nds: XMMRegister, src: XMMRegister, vector_len: u8)
        requires
            dst.wf(),
            nds.wf(),
            src.wf(),
            ({
                let f = old(self).features;
                (if (vector_len == AVX_128BIT) { f.supports_avx() } else { f.supports_avx2() }) && ((vector_len <= AVX_256BIT) && ({ let a1 = InstructionAttr::spec_new(f, vector_len, false, true, true, false); (vex_rr_ok(f, a1, dst.encoding, nds.encoding, src.encoding)) }))
            }),
        ensures
            ({
                let f = old(self).features;
                final(self).appends(*old(self), ({ let a1 = InstructionAttr::spec_new(f, vector_len, false, true, true, false); vex_rr_bytes(f, a1, dst.encoding, nds.encoding, src.encoding, VEX_SIMD_66, VEX_OPCODE_0F) + seq![0x66, (0xC0 | rr_bits(dst.encoding, src.encoding))] }))
            }),
    {
        let mut attributes = InstructionAttr::new(&self.features, vector_len, false, true, true, false);
        let encode = self.vex_prefix_and_encode(dst.encoding, nds.encoding, src.encoding, VEX_SIMD_66, VEX_OPCODE_0F, &mut attributes);
        self.emit_int16(0x66, (0xC0 | encode));
    }

    /// `vpcmpgtq dst, nds, src, vector_len`
    pub fn vpcmpgtq(&mut self, dst: XMMRegister, nds: XMMRegister, src: XMMRegister, vector_len: u8)
        requires
            dst.wf(),
            nds.wf(),
            src.wf(),
            ({
                let f = old(self).features;
                (if (vector_len == AVX_128BIT) { f.supports_avx() } else { f.supports_avx2() }) && ((vector_len <= AVX_256BIT) && ({ let a1 = InstructionAttr::spec_new(f, vector_len, false, true, true, false); (vex_rr_ok(f, a1, dst.encoding, nds.encoding, src.encoding)) }))
            }),
        ensures
            ({
                let f = old(self).features;
                final(self).appends(*old(self), ({ let a1 = InstructionAttr::spec_new(f, vector_len, false, true, true, false); vex_rr_bytes(f, a1, dst.encoding, nds.encoding, src.encoding, VEX_SIMD_66, VEX_OPCODE_0F_38) + seq![0x37, (0xC0 | rr_bits(dst.encoding, src.encoding))] }))
            }),
    {
        let mut attributes = InstructionAttr::new(&self.features, vector_len, false, true, true, false);
        let encode = self.vex_prefix_and_encode(dst.encoding, nds.encoding, src.encoding, VEX_SIMD_66, VEX_OPCODE_0F_38, &mut attributes);
        self.emit_int16(0x37, (0xC0 | encode));
    }

    /// `vpblendvb dst, nds, src, mask, vector_len`
    pub fn vpblendvb(&mut self, dst: XMMRegister, nds: XMMRegister, src: XMMRegister, mask: XMMRegister, vector_len: u8)
        requires
            dst.wf(),
            nds.wf(),
            src.wf(),
            mask.wf(),
            ({
                let f = old(self).features;
                (f.supports_avx()) && ({ let a1 = InstructionAttr::spec_new(f, vector_len, false, true, true, false); (vex_rr_ok(f, a1, dst.encoding, nds.encoding, src.encoding)) })
            }),
        ensures
            ({
                let f = old(self).features;
                final(self).appends(*old(self), ({ let a1 = InstructionAttr::spec_new(f, vector_len, false, true, true, false); vex_rr_bytes(f, a1, dst.encoding, nds.encoding, src.encoding, VEX_SIMD_66, VEX_OPCODE_0F_3A) + seq![0x4C, (0xC0 | rr_bits(dst.encoding, src.encoding)), (0xF0 & (mask.encoding << 4))] }))
            }),
    {
        let mut attributes = InstructionAttr::new(&self.features, vector_len, false, true, true, false);
        let encode = self.vex_prefix_and_encode(dst.encoding, nds.encoding, src.encoding, VEX_SIMD_66, VEX_OPCODE_0F_3A, &mut attributes);
        let mask_enc: u8 = mask.encoding;
        self.emit_int24(0x4C, (0xC0 | encode), (0xF0 & (mask_enc << 4)));
    }

    /// `bzhiq dst, src1, src2`
    pub fn bzhiq(&mut self, dst: Register, src1: Register, src2: Register)
        requires
            dst.wf(),
            src1.wf(),
            src2.wf(),
            ({
                let f = old(self).features;
                (f.supports_bmi2()) && ({ let a1 = InstructionAttr::spec_new(f, AVX_128BIT, true, true, true, false); (vex_rr_ok(f, a1, dst.encoding, src2.encoding, src1.encoding)) })
            }),
        ensures
            ({
                let f = old(self).features;
                final(self).appends(*old(self), ({ let a1 = InstructionAttr::spec_new(f, AVX_128BIT, true, true, true, false); vex_rr_bytes(f, a1, dst.encoding, src2.encoding, src1.encoding, VEX_SIMD_NONE, VEX_OPCODE_0F_38) + seq![0xF5, (0xC0 | rr_bits(dst.encoding, src1.encoding))] }))
            }),
    {
        let mut attributes = InstructionAttr::new(&self.features, AVX_128BIT, true, true, true, false);
        let encode = self.vex_prefix_and_encode(dst.encoding, src2.encoding, src1.encoding, VEX_SIMD_NONE, VEX_OPCODE_0F_38, &mut attributes);
        self.emit_int16(0xF5, (0xC0 | encode));
    }

    /// `pextl dst, src1, src2`
    pub fn pextl(&mut self, dst: Register, src1: Register, src2: Register)
        requires
            dst.wf(),
            src1.wf(),
            src2.wf(),
            ({
                let f = old(self).features;
                (f.supports_bmi2()) && ({ let a1 = InstructionAttr::spec_new(f, AVX_128BIT, false, true, true, false); (vex_rr_ok(f, a1, dst.encoding, src1.encoding, src2.encoding)) })
            }),
        ensures
            ({
                let f = old(self).features;
                final(self).appends(*old(self), ({ let a1 = InstructionAttr::spec_new(f, AVX_128BIT, false, true, true, false); vex_rr_bytes(f, a1, dst.encoding, src1.encoding, src2.encoding, VEX_SIMD_F3, VEX_OPCODE_0F_38) + seq![0xF5, (0xC0 | rr_bits(dst.encoding, src2.encoding))] }))
            }),
    {
        let mut attributes = InstructionAttr::new(&self.features, AVX_128BIT, false, true, true, false);
        let encode = self.vex_prefix_and_encode(dst.encoding, src1.encoding, src2.encoding, VEX_SIMD_F3, VEX_OPCODE_0F_38, &mut attributes);
        self.emit_int16(0xF5, (0xC0 | encode));
    }

    /// `pdepl dst, src1, src2`
    pub fn pdepl(&mut self, dst: Register, src1: Register, src2: Register)
        requires
            dst.wf(),
            src1.wf(),
            src2.wf(),
            ({
                let f = old(self).features;
                (f.supports_bmi2()) && ({ let a1 = InstructionAttr::spec_new(f, AVX_128BIT, false, true, true, false); (vex_rr_ok(f, a1, dst.encoding, src1.encoding, src2.encoding)) })
            }),
        ensures
            ({
                let f = old(self).features;
                final(self).appends(*old(self), ({ let a1 = InstructionAttr::spec_new(f, AVX_128BIT, false, true, true, false); vex_rr_bytes(f, a1, dst.encoding, src1.encoding, src2.encoding, VEX_SIMD_F2, VEX_OPCODE_0F_38) + seq![0xF5, (0xC0 | rr_bits(dst.encoding, src2.encoding))] }))
            }),
    {
        let mut attributes = InstructionAttr::new(&self.features, AVX_128BIT, false, true, true, false);
        let encode = self.vex_prefix_and_encode(dst.encoding, src1.encoding, src2.encoding, VEX_SIMD_F2, VEX_OPCODE_0F_38, &mut attributes);
        self.emit_int16(0xF5, (0xC0 | encode));
    }

    /// `pextq dst, src1, src2`
    pub fn pextq(&mut self, dst: Register, src1: Register, src2: Register)
        requires
            dst.wf(),
            src1.wf(),
            src2.wf(),
            ({
                let f = old(self).features;
                (f.supports_bmi2()) && ({ let a1 = InstructionAttr::spec_new(f, AVX_128BIT, true, true, true, false); (vex_rr_ok(f, a1, dst.encoding, src1.encoding, src2.encoding)) })
            }),
        ensures
            ({
                let f = old(self).features;
                final(self).appends(*old(self), ({ let a1 = InstructionAttr::spec_new(f, AVX_128BIT, true, true, true, false); vex_rr_bytes(f, a1, dst.encoding, src1.encoding, src2.encoding, VEX_SIMD_F3, VEX_OPCODE_0F_38) + seq![0xF5, (0xC0 | rr_bits(dst.encoding, src2.encoding))] }))
            }),
    {
        let mut attributes = InstructionAttr::new(&self.features, AVX_128BIT, true, true, true, false);
        let encode = self.vex_prefix_and_encode(dst.encoding, src1.encoding, src2.encoding, VEX_SIMD_F3, VEX_OPCODE_0F_38, &mut attributes);
        self.emit_int16(0xF5, (0xC0 | encode));
    }

    /// `pdepq dst, src1, src2`
    pub fn pdepq(&mut self, dst: Register, src1: Register, src2: Register)
        requires
            dst.wf(),
            src1.wf(),
            src2.wf(),
            ({
                let f = old(self).features;
                (f.supports_bmi2()) && ({ let a1 = InstructionAttr::spec_new(f, AVX_128BIT, true, true, true, false); (vex_rr_ok(f, a1, dst.encoding, src1.encoding, src2.encoding)) })
            }),
        ensures
            ({
                let f = old(self).features;
                final(self).appends(*old(self), ({ let a1 = InstructionAttr::spec_new(f, AVX_128BIT, true, true, true, false); vex_rr_bytes(f, a1, dst.encoding, src1.encoding, src2.encoding, VEX_SIMD_F2, VEX_OPCODE_0F_38) + seq![0xF5, (0xC0 | rr_bits(dst.encoding, src2.encoding))] }))
            }),
    {
        let mut attributes = InstructionAttr::new(&self.features, AVX_128BIT, true, true, true, false);
        let encode = self.vex_prefix_and_encode(dst.encoding, src1.encoding, src2.encoding, VEX_SIMD_F2, VEX_OPCODE_0F_38, &mut attributes);
        self.emit_int16(0xF5, (0xC0 | encode));
    }

    /// `pextl dst, src1, [src2]`
    pub fn pextl_rrm(&mut self, dst: Register, src1: Register, src2: Address)
        requires
            dst.wf(),
            src1.wf(),
            src2.wf(),
            ({
                let f = old(self).features;
                (f.supports_bmi2()) && ({ let a1 = InstructionAttr::spec_new(f, AVX_128BIT, false, true, true, false); (vex_adr_ok(f, a1, src1.encoding, dst.encoding, src2)) })
            }),
        ensures
            ({
                let f = old(self).features;
                final(self).appends(*old(self), ({ let a1 = InstructionAttr::spec_new(f, AVX_128BIT, false, true, true, false); vex_adr_bytes(f, a1, src2, src1.encoding, dst.encoding, VEX_SIMD_F3, VEX_OPCODE_0F_38) + ({ let a2 = vex_adr_attr(f, a1, src1.encoding, dst.encoding); seq![0xF5] + address_bytes(f, Some(a2), dst.encoding, src2, false) }) }))
            }),
    {
        let mut attributes = InstructionAttr::new(&self.features, AVX_128BIT, false, true, true, false);
        self.vex_prefix(&src2, src1.encoding, dst.encoding, VEX_SIMD_F3, VEX_OPCODE_0F_38, &mut attributes);
        self.emit_int8(0xF5);
        self.emit_operand_attr(dst.encoding, &src2, &attributes, false);
    }

    /// `pdepl dst, src1, [src2]`
    pub fn pdepl_rrm(&mut self, dst: Register, src1: Register, src2: Address)
        requires
            dst.wf(),
            src1.wf(),
            src2.wf(),
            ({
                let f = old(self).features;
                (f.supports_bmi2()) && ({ let a1 = InstructionAttr::spec_new(f, AVX_128BIT, false, true, true, false); (vex_adr_ok(f, a1, src1.encoding, dst.encoding, src2)) })
            }),
        ensures
            ({
                let f = old(self).features;
                final(self).appends(*old(self), ({ let a1 = InstructionAttr::spec_new(f, AVX_128BIT, false, true, true, false); vex_adr_bytes(f, a1, src2, src1.encoding, dst.encoding, VEX_SIMD_F2, VEX_OPCODE_0F_38) + ({ let a2 = vex_adr_attr(f, a1, src1.encoding, dst.encoding); seq![0xF5] + address_bytes(f, Some(a2), dst.encoding, src2, false) }) }))
            }),
    {
        let mut attributes = InstructionAttr::new(&self.features, AVX_128BIT, false, true, true, false);
        self.vex_prefix(&src2, src1.encoding, dst.encoding, VEX_SIMD_F2, VEX_OPCODE_0F_38, &mut attributes);
        self.emit_int8(0xF5);
        self.emit_operand_attr(dst.encoding, &src2, &attributes, false);
    }

    /// `pextq dst, src1, [src2]`
    pub fn pextq_rrm(&mut self, dst: Register, src1: Register, src2: Address)
        requires
            dst.wf(),
            src1.wf(),
            src2.wf(),
            ({
                let f = old(self).features;
                (f.supports_bmi2()) && ({ let a1 = InstructionAttr::spec_new(f, AVX_128BIT, true, true, true, false); (vex_adr_ok(f, a1, src1.encoding, dst.encoding, src2)) })
            }),
        ensures
            ({
                let f = old(self).features;
                final(self).appends(*old(self), ({ let a1 = InstructionAttr::spec_new(f, AVX_128BIT, true, true, true, false); vex_adr_bytes(f, a1, src2, src1.encoding, dst.encoding, VEX_SIMD_F3, VEX_OPCODE_0F_38) + ({ let a2 = vex_adr_attr(f, a1, src1.encoding, dst.encoding); seq![0xF5] + address_bytes(f, Some(a2), dst.encoding, src2, false) }) }))
            }),
    {
        let mut attributes = InstructionAttr::new(&self.features, AVX_128BIT, true, true, true, false);
        self.vex_prefix(&src2, src1.encoding, dst.encoding, VEX_SIMD_F3, VEX_OPCODE_0F_38, &mut attributes);
        self.emit_int8(0xF5);
        self.emit_operand_attr(dst.encoding, &src2, &attributes, false);
    }

    /// `pdepq dst, src1, [src2]`
    pub fn pdepq_rrm(&mut self, dst: Register, src1: Register, src2: Address)
        requires
            dst.wf(),
            src1.wf(),
            src2.wf(),
            ({
                let f = old(self).features;
                (f.supports_bmi2()) && ({ let a1 = InstructionAttr::spec_new(f, AVX_128BIT, true, true, true, false); (vex_adr_ok(f, a1, src1.encoding, dst.encoding, src2)) })
            }),
        ensures
            ({
                let f = old(self).features;
                final(self).appends(*old(self), ({ let a1 = InstructionAttr::spec_new(f, AVX_128BIT, true, true, true, false); vex_adr_bytes(f, a1, src2, src1.encoding, dst.encoding, VEX_SIMD_F2, VEX_OPCODE_0F_38) + ({ let a2 = vex_adr_attr(f, a1, src1.encoding, dst.encoding); seq![0xF5] + address_bytes(f, Some(a2), dst.encoding, src2, false) }) }))
            }),
    {
        let mut attributes = InstructionAttr::new(&self.features, AVX_128BIT, true, true, true, false);
        self.vex_prefix(&src2, src1.encoding, dst.encoding, VEX_SIMD_F2, VEX_OPCODE_0F_38, &mut attributes);
        self.emit_int8(0xF5);
        self.emit_operand_attr(dst.encoding, &src2, &attributes, false);
    }

    /// `sarxl dst, src1, src2`
    pub fn sarxl(&mut self, dst: Register, src1: Register, src2: Register)
        requires
            dst.wf(),
            src1.wf(),
            src2.wf(),
            ({
                let f = old(self).features;
                (f.supports_bmi2()) && ({ let a1 = InstructionAttr::spec_new(f, AVX_128BIT, false, true, true, true); (vex_rr_ok(f, a1, dst.encoding, src2.encoding, src1.encoding)) })
            }),
        ensures
            ({
                let f = old(self).features;
                final(self).appends(*old(self), ({ let a1 = InstructionAttr::spec_new(f, AVX_128BIT, false, true, true, true); vex_rr_bytes(f, a1, dst.encoding, src2.encoding, src1.encoding, VEX_SIMD_F3, VEX_OPCODE_0F_38) + seq![0xF7, (0xC0 | rr_bits(dst.encoding, src1.encoding))] }))
            }),
    {
        let mut attributes = InstructionAttr::new(&self.features, AVX_128BIT, false, true, true, true);
        let encode = self.vex_prefix_and_encode(dst.encoding, src2.encoding, src1.encoding, VEX_SIMD_F3, VEX_OPCODE_0F_38, &mut attributes);
        self.emit_int16(0xF7, (0xC0 | encode));
    }

    /// `sarxl dst, [src1], src2`
    pub fn sarxl_rmr(&mut self, dst: Register, src1: Address, src2: Register)
        requires
            dst.wf(),
            src1.wf(),
            src2.wf(),
            ({
                let f = old(self).features;
                (f.supports_bmi2()) && ({ let a1 = InstructionAttr::spec_new(f, AVX_128BIT, false, true, true, true); (vex_adr_ok(f, a1, src2.encoding, dst.encoding, src1)) })
            }),
        ensures
            ({
                let f = old(self).features;
                final(self).appends(*old(self), ({ let a1 = InstructionAttr::spec_new(f, AVX_128BIT, false, true, true, true); vex_adr_bytes(f, a1, src1, src2.encoding, dst.encoding, VEX_SIMD_F3, VEX_OPCODE_0F_38) + ({ let a2 = vex_adr_attr(f, a1, src2.encoding, dst.encoding); seq![0xF7] + address_bytes(f, Some(a2), dst.encoding, src1, false) }) }))
            }),
    {
        let mut attributes = InstructionAttr::new(&self.features, AVX_128BIT, false, true, true, true);
        self.vex_prefix(&src1, src2.encoding, dst.encoding, VEX_SIMD_F3, VEX_OPCODE_0F_38, &mut attributes);
        self.emit_int8(0xF7);
        self.emit_operand_attr(dst.encoding, &src1, &attributes, false);
    }

    /// `sarxq dst, src1, src2`
    pub fn sarxq(&mut self, dst: Register, src1: Register, src2: Register)
        requires
            dst.wf(),
            src1.wf(),
            src2.wf(),
            ({
                let f = old(self).features;
                (f.supports_bmi2()) && ({ let a1 = InstructionAttr::spec_new(f, AVX_128BIT, true, true, true, true); (vex_rr_ok(f, a1, dst.encoding, src2.encoding, src1.encoding)) })
            }),
        ensures
            ({
                let f = old(self).features;
                final(self).appends(*old(self), ({ let a1 = InstructionAttr::spec_new(f, AVX_128BIT, true, true, true, true); vex_rr_bytes(f, a1, dst.encoding, src2.encoding, src1.encoding, VEX_SIMD_F3, VEX_OPCODE_0F_38) + seq![0xF7, (0xC0 | rr_bits(dst.encoding, src1.encoding))] }))
            }),
    {
        let mut attributes = InstructionAttr::new(&self.features, AVX_128BIT, true, true, true, true);
        let encode = self.vex_prefix_and_encode(dst.encoding, src2.encoding, src1.encoding, VEX_SIMD_F3, VEX_OPCODE_0F_38, &mut attributes);
        self.emit_int16(0xF7, (0xC0 | encode));
    }

    /// `sarxq dst, [src1], src2`
    pub fn sarxq_rmr(&mut self, dst: Register, src1: Address, src2: Register)
        requires
            dst.wf(),
            src1.wf(),
            src2.wf(),
            ({
                let f = old(self).features;
                (f.supports_bmi2()) && ({ let a1 = InstructionAttr::spec_new(f, AVX_128BIT, true, true, true, true); (vex_adr_ok(f, a1, src2.encoding, dst.encoding, src1)) })
            }),
        ensures
            ({
                let f = old(self).features;
                final(self).appends(*old(self), ({ let a1 = InstructionAttr::spec_new(f, AVX_128BIT, true, true, true, true); vex_adr_bytes(f, a1, src1, src2.encoding, dst.encoding, VEX_SIMD_F3, VEX_OPCODE_0F_38) + ({ let a2 = vex_adr_attr(f, a1, src2.encoding, dst.encoding); seq![0xF7] + address_bytes(f, Some(a2), dst.encoding, src1, false) }) }))
            }),
    {
        let mut attributes = InstructionAttr::new(&self.features, AVX_128BIT, true, true, true, true);
        self.vex_prefix(&src1, src2.encoding, dst.encoding, VEX_SIMD_F3, VEX_OPCODE_0F_38, &mut attributes);
        self.emit_int8(0xF7);
        self.emit_operand_attr(dst.encoding, &src1, &attributes, false);
    }

    /// `shlxl dst, src1, src2`
    pub fn shlxl(&mut self, dst: Register, src1: Register, src2: Register)
        requires
            dst.wf(),
            src1.wf(),
            src2.wf(),
            ({
                let f = old(self).features;
                (f.supports_bmi2()) && ({ let a1 = InstructionAttr::spec_new(f, AVX_128BIT, false, true, true, true); (vex_rr_ok(f, a1, dst.encoding, src2.encoding, src1.encoding)) })
            }),
        ensures
            ({
                let f = old(self).features;
                final(self).appends(*old(self), ({ let a1 = InstructionAttr::spec_new(f, AVX_128BIT, false, true, true, true); vex_rr_bytes(f, a1, dst.encoding, src2.encoding, src1.encoding, VEX_SIMD_66, VEX_OPCODE_0F_38) + seq![0xF7, (0xC0 | rr_bits(dst.encoding, src1.encoding))] }))
            }),
    {
        let mut attributes = InstructionAttr::new(&self.features, AVX_128BIT, false, true, true, true);
        let encode = self.vex_prefix_and_encode(dst.encoding, src2.encoding, src1.encoding, VEX_SIMD_66, VEX_OPCODE_0F_38, &mut attributes);
        self.emit_int16(0xF7, (0xC0 | encode));
    }

    /// `shlxl dst, [src1], src2`
    pub fn shlxl_rmr(&mut self, dst: Register, src1: Address, src2: Register)
        requires
            dst.wf(),
            src1.wf(),
            src2.wf(),
            ({
                let f = old(self).features;
                (f.supports_bmi2()) && ({ let a1 = InstructionAttr::spec_new(f, AVX_128BIT, false, true, true, true); (vex_adr_ok(f, a1, src2.encoding, dst.encoding, src1)) })
            }),
        ensures
            ({
                let f = old(self).features;
                final(self).appends(*old(self), ({ let a1 = InstructionAttr::spec_new(f, AVX_128BIT, false, true, true, true); vex_adr_bytes(f, a1, src1, src2.encoding, dst.encoding, VEX_SIMD_66, VEX_OPCODE_0F_38) + ({ let a2 = vex_adr_attr(f, a1, src2.encoding, dst.encoding); seq![0xF7] + address_bytes(f, Some(a2), dst.encoding, src1, false) }) }))
            }),
    {
        let mut attributes = InstructionAttr::new(&self.features, AVX_128BIT, false, true, true, true);
        self.vex_prefix(&src1, src2.encoding, dst.encoding, VEX_SIMD_66, VEX_OPCODE_0F_38, &mut attributes);
        self.emit_int8(0xF7);
        self.emit_operand_attr(dst.encoding, &src1, &attributes, false);
    }

    /// `shlxq dst, src1, src2`
    pub fn shlxq(&mut self, dst: Register, src1: Register, src2: Register)
        requires
            dst.wf(),
            src1.wf(),
            src2.wf(),
            ({
                let f = old(self).features;
                (f.supports_bmi2()) && ({ let a1 = InstructionAttr::spec_new(f, AVX_128BIT, true, true, true, true); (vex_rr_ok(f, a1, dst.encoding, src2.encoding, src1.encoding)) })
            }),
        ensures
            ({
                let f = old(self).features;
                final(self).appends(*old(self), ({ let a1 = InstructionAttr::spec_new(f, AVX_128BIT, true, true, true, true); vex_rr_bytes(f, a1, dst.encoding, src2.encoding, src1.encoding, VEX_SIMD_66, VEX_OPCODE_0F_38) + seq![0xF7, (0xC0 | rr_bits(dst.encoding, src1.encoding))] }))
            }),
    {
        let mut attributes = InstructionAttr::new(&self.features, AVX_128BIT, true, true, true, true);
        let encode = self.vex_prefix_and_encode(dst.encoding, src2.encoding, src1.encoding, VEX_SIMD_66, VEX_OPCODE_0F_38, &mut attributes);
        self.emit_int16(0xF7, (0xC0 | encode));
    }

    /// `shlxq dst, [src1], src2`
    pub fn shlxq_rmr(&mut self, dst: Register, src1: Address, src2: Register)
        requires
            dst.wf(),
            src1.wf(),
            src2.wf(),
            ({
                let f = old(self).features;
                (f.supports_bmi2()) && ({ let a1 = InstructionAttr::spec_new(f, AVX_128BIT, true, true, true, true); (vex_adr_ok(f, a1, src2.encoding, dst.encoding, src1)) })
            }),
        ensures
            ({
                let f = old(self).features;
                final(self).appends(*old(self), ({ let a1 = InstructionAttr::spec_new(f, AVX_128BIT, true, true, true, true); vex_adr_bytes(f, a1, src1, src2.encoding, dst.encoding, VEX_SIMD_66, VEX_OPCODE_0F_38) + ({ let a2 = vex_adr_attr(f, a1, src2.encoding, dst.encoding); seq![0xF7] + address_bytes(f, Some(a2), dst.encoding, src1, false) }) }))
            }),
    {
        let mut attributes = InstructionAttr::new(&self.features, AVX_128BIT, true, true, true, true);
        self.vex_prefix(&src1, src2.encoding, dst.encoding, VEX_SIMD_66, VEX_OPCODE_0F_38, &mut attributes);
        self.emit_int8(0xF7);
        self.emit_operand_attr(dst.encoding, &src1, &attributes, false);
    }

    /// `shrxl dst, src1, src2`
    pub fn shrxl(&mut self, dst: Register, src1: Register, src2: Register)
        requires
            dst.wf(),
            src1.wf(),
            src2.wf(),
            ({
                let f = old(self).features;
                (f.supports_bmi2()) && ({ let a1 = InstructionAttr::spec_new(f, AVX_128BIT, false, true, true, true); (vex_rr_ok(f, a1, dst.encoding, src2.encoding, src1.encoding)) })
            }),
        ensures
            ({
                let f = old(self).features;
                final(self).appends(*old(self), ({ let a1 = InstructionAttr::spec_new(f, AVX_128BIT, false, true, true, true); vex_rr_bytes(f, a1, dst.encoding, src2.encoding, src1.encoding, VEX_SIMD_F2, VEX_OPCODE_0F_38) + seq![0xF7, (0xC0 | rr_bits(dst.encoding, src1.encoding))] }))
            }),
    {
        let mut attributes = InstructionAttr::new(&self.features, AVX_128BIT, false, true, true, true);
        let encode = self.vex_prefix_and_encode(dst.encoding, src2.encoding, src1.encoding, VEX_SIMD_F2, VEX_OPCODE_0F_38, &mut attributes);
        self.emit_int16(0xF7, (0xC0 | encode));
    }

    /// `shrxl dst, [src1], src2`
    pub fn shrxl_rmr(&mut self, dst: Register, src1: Address, src2: Register)
        requires
            dst.wf(),
            src1.wf(),
            src2.wf(),
            ({
                let f = old(self).features;
                (f.supports_bmi2()) && ({ let a1 = InstructionAttr::spec_new(f, AVX_128BIT, false, true, true, true); (vex_adr_ok(f, a1, src2.encoding, dst.encoding, src1)) })
            }),
        ensures
            ({
                let f = old(self).features;
                final(self).appends(*old(self), ({ let a1 = InstructionAttr::spec_new(f, AVX_128BIT, false, true, true, true); vex_adr_bytes(f, a1, src1, src2.encoding, dst.encoding, VEX_SIMD_F2, VEX_OPCODE_0F_38) + ({ let a2 = vex_adr_attr(f, a1, src2.encoding, dst.encoding); seq![0xF7] + address_bytes(f, Some(a2), dst.encoding, src1, false) }) }))
            }),
    {
        let mut attributes = InstructionAttr::new(&self.features, AVX_128BIT, false, true, true, true);
        self.vex_prefix(&src1, src2.encoding, dst.encoding, VEX_SIMD_F2, VEX_OPCODE_0F_38, &mut attributes);
        self.emit_int8(0xF7);
        self.emit_operand_attr(dst.encoding, &src1, &attributes, false);
    }

    /// `shrxq dst, src1, src2`
    pub fn shrxq(&mut self, dst: Register, src1: Register, src2: Register)
        requires
            dst.wf(),
            src1.wf(),
            src2.wf(),
            ({
                let f = old(self).features;
                (f.supports_bmi2()) && ({ let a1 = InstructionAttr::spec_new(f, AVX_128BIT, true, true, true, true); (vex_rr_ok(f, a1, dst.encoding, src2.encoding, src1.encoding)) })
            }),
        ensures
            ({
                let f = old(self).features;
                final(self).appends(*old(self), ({ let a1 = InstructionAttr::spec_new(f, AVX_128BIT, true, true, true, true); vex_rr_bytes(f, a1, dst.encoding, src2.encoding, src1.encoding, VEX_SIMD_F2, VEX_OPCODE_0F_38) + seq![0xF7, (0xC0 | rr_bits(dst.encoding, src1.encoding))] }))
            }),
    {
        let mut attributes = InstructionAttr::new(&self.features, AVX_128BIT, true, true, true, true);
        let encode = self.vex_prefix_and_encode(dst.encoding, src2.encoding, src1.encoding, VEX_SIMD_F2, VEX_OPCODE_0F_38, &mut attributes);
        self.emit_int16(0xF7, (0xC0 | encode));
    }

    /// `shrxq dst, [src1], src2`
    pub fn shrxq_rmr(&mut self, dst: Register, src1: Address, src2: Register)
        requires
            dst.wf(),
            src1.wf(),
            src2.wf(),
            ({
                let f = old(self).features;
                (f.supports_bmi2()) && ({ let a1 = InstructionAttr::spec_new(f, AVX_128BIT, true, true, true, true); (vex_adr_ok(f, a1, src2.encoding, dst.encoding, src1)) })
            }),
        ensures
            ({
                let f = old(self).features;
                final(self).appends(*old(self), ({ let a1 = InstructionAttr::spec_new(f, AVX_128BIT, true, true, true, true); vex_adr_bytes(f, a1, src1, src2.encoding, dst.encoding, VEX_SIMD_F2, VEX_OPCODE_0F_38) + ({ let a2 = vex_adr_attr(f, a1, src2.encoding, dst.encoding); seq![0xF7] + address_bytes(f, Some(a2), dst.encoding, src1, false) }) }))
            }),
    {
        let mut attributes = InstructionAttr::new(&self.features, AVX_128BIT, true, true, true, true);
        self.vex_prefix(&src1, src2.encoding, dst.encoding, VEX_SIMD_F2, VEX_OPCODE_0F_38, &mut attributes);
        self.emit_int8(0xF7);
        self.emit_operand_attr(dst.encoding, &src1, &attributes, false);
    }

    /// `andnq dst, src1, src2`
    pub fn andnq(&mut self, dst: Register, src1: Register, src2: Register)
        requires
            dst.wf(),
            src1.wf(),
            src2.wf(),
            ({
                let f = old(self).features;
                (f.supports_bmi1()) && ({ let a1 = InstructionAttr::spec_new(f, AVX_128BIT, true, true, true, false); (vex_rr_ok(f, a1, dst.encoding, src1.encoding, src2.encoding)) })
            }),
        ensures
            ({
                let f = old(self).features;
                final(self).appends(*old(self), ({ let a1 = InstructionAttr::spec_new(f, AVX_128BIT, true, true, true, false); vex_rr_bytes(f, a1, dst.encoding, src1.encoding, src2.encoding, VEX_SIMD_NONE, VEX_OPCODE_0F_38) + seq![0xF2, (0xC0 | rr_bits(dst.encoding, src2.encoding))] }))
            }),
    {
        let mut attributes = InstructionAttr::new(&self.features, AVX_128BIT, true, true, true, false);
        let encode = self.vex_prefix_and_encode(dst.encoding, src1.encoding, src2.encoding, VEX_SIMD_NONE, VEX_OPCODE_0F_38, &mut attributes);
        self.emit_int16(0xF2, (0xC0 | encode));
    }

    /// `andnq dst, src1, [src2]`
    pub fn andnq_rrm(&mut self, dst: Register, src1: Register, src2: Address)
        requires
            dst.wf(),
            src1.wf(),
            src2.wf(),
            ({
                let f = old(self).features;
                (f.supports_bmi1()) && ({ let a1 = InstructionAttr::spec_new(f, AVX_128BIT, true, true, true, false); (vex_adr_ok(f, a1, src1.encoding, dst.encoding, src2)) })
            }),
        ensures
            ({
                let f = old(self).features;
                final(self).appends(*old(self), ({ let a1 = InstructionAttr::spec_new(f, AVX_128BIT, true, true, true, false); vex_adr_bytes(f, a1, src2, src1.encoding, dst.encoding, VEX_SIMD_NONE, VEX_OPCODE_0F_38) + ({ let a2 = vex_adr_attr(f, a1, src1.encoding, dst.encoding); seq![0xF2] + address_bytes(f, Some(a2), dst.encoding, src2, false) }) }))
            }),
    {
        let mut attributes = InstructionAttr::new(&self.features, AVX_128BIT, true, true, true, false);
        self.vex_prefix(&src2, src1.encoding, dst.encoding, VEX_SIMD_NONE, VEX_OPCODE_0F_38, &mut attributes);
        self.emit_int8(0xF2);
        self.emit_operand_attr(dst.encoding, &src2, &attributes, false);
    }

    /// `blsiq dst, src`
    pub fn blsiq(&mut self, dst: Register, src: Register)
        requires
            dst.wf(),
            src.wf(),
            ({
                let f = old(self).features;
                (f.supports_bmi1()) && ({ let a1 = InstructionAttr::spec_new(f, AVX_128BIT, true, true, true, false); (vex_rr_ok(f, a1, 3, dst.encoding, src.encoding)) })
            }),
        ensures
            ({
                let f = old(self).features;
                final(self).appends(*old(self), ({ let a1 = InstructionAttr::spec_new(f, AVX_128BIT, true, true, true, false); vex_rr_bytes(f, a1, 3, dst.encoding, src.encoding, VEX_SIMD_NONE, VEX_OPCODE_0F_38) + seq![0xF3, (0xC0 | rr_bits(3, src.encoding))] }))
            }),
    {
        let mut attributes = InstructionAttr::new(&self.features, AVX_128BIT, true, true, true, false);
        let encode = self.vex_prefix_and_encode(3, dst.encoding, src.encoding, VEX_SIMD_NONE, VEX_OPCODE_0F_38, &mut attributes);
        self.emit_int16(0xF3, (0xC0 | encode));
    }

    /// `blsiq dst, [src]`
    pub fn blsiq_rm(&mut self, dst: Register, src: Address)
        requires
            dst.wf(),
            src.wf(),
            ({
                let f = old(self).features;
                (f.supports_bmi1()) && ({ let a1 = InstructionAttr::spec_new(f, AVX_128BIT, true, true, true, false); (vex_adr_ok(f, a1, dst.encoding, 3, src)) })
            }),
        ensures
            ({
                let f = old(self).features;
                final(self).appends(*old(self), ({ let a1 = InstructionAttr::spec_new(f, AVX_128BIT, true, true, true, false); vex_adr_bytes(f, a1, src, dst.encoding, 3, VEX_SIMD_NONE, VEX_OPCODE_0F_38) + ({ let a2 = vex_adr_attr(f, a1, dst.encoding, 3); seq![0xF3] + address_bytes(f, Some(a2), 3, src, false) }) }))
            }),
    {
        let mut attributes = InstructionAttr::new(&self.features, AVX_128BIT, true, true, true, false);
        self.vex_prefix(&src, dst.encoding, 3, VEX_SIMD_NONE, VEX_OPCODE_0F_38, &mut attributes);
        self.emit_int8(0xF3);
        self.emit_operand_attr(3, &src, &attributes, false);
    }

    /// `blsmskq dst, src`
    pub fn blsmskq(&mut self, dst: Register, src: Register)
        requires
            dst.wf(),
            src.wf(),
            ({
                let f = old(self).features;
                (f.supports_bmi1()) && ({ let a1 = InstructionAttr::spec_new(f, AVX_128BIT, true, true, true, false); (vex_rr_ok(f, a1, 2, dst.encoding, src.encoding)) })
            }),
        ensures
            ({
                let f = old(self).features;
                final(self).appends(*old(self), ({ let a1 = InstructionAttr::spec_new(f, AVX_128BIT, true, true, true, false); vex_rr_bytes(f, a1, 2, dst.encoding, src.encoding, VEX_SIMD_NONE, VEX_OPCODE_0F_38) + seq![0xF3, (0xC0 | rr_bits(2, src.encoding))] }))
            }),
    {
        let mut attributes = InstructionAttr::new(&self.features, AVX_128BIT, true, true, true, false);
        let encode = self.vex_prefix_and_encode(2, dst.encoding, src.encoding, VEX_SIMD_NONE, VEX_OPCODE_0F_38, &mut attributes);
        self.emit_int16(0xF3, (0xC0 | encode));
    }

    /// `blsmskq dst, [src]`
    pub fn blsmskq_rm(&mut self, dst: Register, src: Address)
        requires
            dst.wf(),
            src.wf(),
            ({
                let f = old(self).features;
                (f.supports_bmi1()) && ({ let a1 = InstructionAttr::spec_new(f, AVX_128BIT, true, true, true, false); (vex_adr_ok(f, a1, dst.encoding, 2, src)) })
            }),
        ensures
            ({
                let f = old(self).features;
                final(self).appends(*old(self), ({ let a1 = InstructionAttr::spec_new(f, AVX_128BIT, true, true, true, false); vex_adr_bytes(f, a1, src, dst.encoding, 2, VEX_SIMD_NONE, VEX_OPCODE_0F_38) + ({ let a2 = vex_adr_attr(f, a1, dst.encoding, 2); seq![0xF3] + address_bytes(f, Some(a2), 2, src, false) }) }))
            }),
    {
        let mut attributes = InstructionAttr::new(&self.features, AVX_128BIT, true, true, true, false);
        self.vex_prefix(&src, dst.encoding, 2, VEX_SIMD_NONE, VEX_OPCODE_0F_38, &mut attributes);
        self.emit_int8(0xF3);
        self.emit_operand_attr(2, &src, &attributes, false);
    }

    /// `blsrq dst, src`
    pub fn blsrq(&mut self, dst: Register, src: Register)
        requires
            dst.wf(),
            src.wf(),
            ({
                let f = old(self).features;
                (f.supports_bmi1()) && ({ let a1 = InstructionAttr::spec_new(f, AVX_128BIT, true, true, true, false); (vex_rr_ok(f, a1, 1, dst.encoding, src.encoding)) })
            }),
        ensures
            ({
                let f = old(self).features;
                final(self).appends(*old(self), ({ let a1 = InstructionAttr::spec_new(f, AVX_128BIT, true, true, true, false); vex_rr_bytes(f, a1, 1, dst.encoding, src.encoding, VEX_SIMD_NONE, VEX_OPCODE_0F_38) + seq![0xF3, (0xC0 | rr_bits(1, src.encoding))] }))
            }),
    {
        let mut attributes = InstructionAttr::new(&self.features, AVX_128BIT, true, true, true, false);
        let encode = self.vex_prefix_and_encode(1, dst.encoding, src.encoding, VEX_SIMD_NONE, VEX_OPCODE_0F_38, &mut attributes);
        self.emit_int16(0xF3, (0xC0 | encode));
    }

    /// `blsrq dst, [src]`
    pub fn blsrq_rm(&mut self, dst: Register, src: Address)
        requires
            dst.wf(),
            src.wf(),
            ({
                let f = old(self).features;
                (f.supports_bmi1()) && ({ let a1 = InstructionAttr::spec_new(f, AVX_128BIT, true, true, true, false); (vex_adr_ok(f, a1, dst.encoding, 1, src)) })
            }),
        ensures
            ({
                let f = old(self).features;
                final(self).appends(*old(self), ({ let a1 = InstructionAttr::spec_new(f, AVX_128BIT, true, true, true, false); vex_adr_bytes(f, a1, src, dst.encoding, 1, VEX_SIMD_NONE, VEX_OPCODE_0F_38) + ({ let a2 = vex_adr_attr(f, a1, dst.encoding, 1); seq![0xF3] + address_bytes(f, Some(a2), 1, src, false) }) }))
            }),
    {
        let mut attributes = InstructionAttr::new(&self.features, AVX_128BIT, true, true, true, false);
        self.vex_prefix(&src, dst.encoding, 1, VEX_SIMD_NONE, VEX_OPCODE_0F_38, &mut attributes);
        self.emit_int8(0xF3);
        self.emit_operand_attr(1, &src, &attributes, false);
    }

    /// `mulxq dst1, dst2, src`
    pub fn mulxq(&mut self, dst1: Register, dst2: Register, src: Register)
        requires
            dst1.wf(),
            dst2.wf(),
            src.wf(),
            ({
                let f = old(self).features;
                (f.supports_bmi2()) && ({ let a1 = InstructionAttr::spec_new(f, AVX_128BIT, true, true, true, false); (vex_rr_ok(f, a1, dst1.encoding, dst2.encoding, src.encoding)) })
            }),
        ensures
            ({
                let f = old(self).features;
                final(self).appends(*old(self), ({ let a1 = InstructionAttr::spec_new(f, AVX_128BIT, true, true, true, false); vex_rr_bytes(f, a1, dst1.encoding, dst2.encoding, src.encoding, VEX_SIMD_F2, VEX_OPCODE_0F_38) + seq![0xF6, (0xC0 | rr_bits(dst1.encoding, src.encoding))] }))
            }),
    {
        let mut attributes = InstructionAttr::new(&self.features, AVX_128BIT, true, true, true, false);
        let encode = self.vex_prefix_and_encode(dst1.encoding, dst2.encoding, src.encoding, VEX_SIMD_F2, VEX_OPCODE_0F_38, &mut attributes);
        self.emit_int16(0xF6, (0xC0 | encode));
    }

    /// `vzeroall`
    pub fn vzeroall(&mut self)
        requires
            ({
                let f = old(self).features;
                (f.supports_avx()) && ({ let a1 = InstructionAttr::spec_new(f, AVX_256BIT, false, true, true, false); (vex_rr_ok(f, a1, 0, 0, 0)) })
            }),
        ensures
            ({
                let f = old(self).features;
                final(self).appends(*old(self), ({ let a1 = InstructionAttr::spec_new(f, AVX_256BIT, false, true, true, false); vex_rr_bytes(f, a1, 0, 0, 0, VEX_SIMD_NONE, VEX_OPCODE_0F) + seq![0x77] }))
            }),
    {
        let mut attributes = InstructionAttr::new(&self.features, AVX_256BIT, false, true, true, false);
        let _ = self.vex_prefix_and_encode(0, 0, 0, VEX_SIMD_NONE, VEX_OPCODE_0F, &mut attributes);
        self.emit_int8(0x77);
    }

    /// `rorxl dst, src, imm8`
    pub fn rorxl(&mut self, dst: Register, src: Register, imm8: i8)
        requires
            dst.wf(),
            src.wf(),
            ({
                let f = old(self).features;
                (f.supports_bmi2()) && ({ let a1 = InstructionAttr::spec_new(f, AVX_128BIT, false, true, true, false); (vex_rr_ok(f, a1, dst.encoding, 0, src.encoding)) })
            }),
        ensures
            ({
                let f = old(self).features;
                final(self).appends(*old(self), ({ let a1 = InstructionAttr::spec_new(f, AVX_128BIT, false, true, true, false); vex_rr_bytes(f, a1, dst.encoding, 0, src.encoding, VEX_SIMD_F2, VEX_OPCODE_0F_3A) + seq![0xF0, (0xC0 | rr_bits(dst.encoding, src.encoding)), imm_byte(imm8)] }))
            }),
    {
        let mut attributes = InstructionAttr::new(&self.features, AVX_128BIT, false, true, true, false);
        let encode = self.vex_prefix_and_encode(dst.encoding, 0, src.encoding, VEX_SIMD_F2, VEX_OPCODE_0F_3A, &mut attributes);
        self.emit_int24(0xF0, (0xC0 | encode), imm_byte_exec(imm8));
    }

    /// `rorxl dst, [src], imm8`
    pub fn rorxl_rmi(&mut self, dst: Register, src: Address, imm8: i8)
        requires
            dst.wf(),
            src.wf(),
            ({
                let f = old(self).features;
                (f.supports_bmi2()) && ({ let a1 = InstructionAttr::spec_new(f, AVX_128BIT, false, true, true, false); (vex_adr_ok(f, a1, 0, dst.encoding, src)) })
            }),
        ensures
            ({
                let f = old(self).features;
                final(self).appends(*old(self), ({ let a1 = InstructionAttr::spec_new(f, AVX_128BIT, false, true, true, false); vex_adr_bytes(f, a1, src, 0, dst.encoding, VEX_SIMD_F2, VEX_OPCODE_0F_3A) + ({ let a2 = vex_adr_attr(f, a1, 0, dst.encoding); seq![0xF0] + address_bytes(f, Some(a2), dst.encoding, src, false) + seq![imm_byte(imm8)] }) }))
            }),
    {
        let mut attributes = InstructionAttr::new(&self.features, AVX_128BIT, false, true, true, false);
        self.vex_prefix(&src, 0, dst.encoding, VEX_SIMD_F2, VEX_OPCODE_0F_3A, &mut attributes);
        self.emit_int8(0xF0);
        self.emit_operand_attr(dst.encoding, &src, &attributes, false);
        self.emit_int8(imm_byte_exec(imm8));
    }

    /// `rorxq dst, src, imm8`
    pub fn rorxq(&mut self, dst: Register, src: Register, imm8: i8)
        requires
            dst.wf(),
            src.wf(),
            ({
                let f = old(self).features;
                (f.supports_bmi2()) && ({ let a1 = InstructionAttr::spec_new(f, AVX_128BIT, true, true, true, false); (vex_rr_ok(f, a1, dst.encoding, 0, src.encoding)) })
            }),
        ensures
            ({
                let f = old(self).features;
                final(self).appends(*old(self), ({ let a1 = InstructionAttr::spec_new(f, AVX_128BIT, true, true, true, false); vex_rr_bytes(f, a1, dst.encoding, 0, src.encoding, VEX_SIMD_F2, VEX_OPCODE_0F_3A) + seq![0xF0, (0xC0 | rr_bits(dst.encoding, src.encoding)), imm_byte(imm8)] }))
            }),
    {
        let mut attributes = InstructionAttr::new(&self.features, AVX_128BIT, true, true, true, false);
        let encode = self.vex_prefix_and_encode(dst.encoding, 0, src.encoding, VEX_SIMD_F2, VEX_OPCODE_0F_3A, &mut attributes);
        self.emit_int24(0xF0, (0xC0 | encode), imm_byte_exec(imm8));
    }

    /// `rorxq dst, [src], imm8`
    pub fn rorxq_rmi(&mut self, dst: Register, src: Address, imm8: i8)
        requires
            dst.wf(),
            src.wf(),
            ({
                let f = old(self).features;
                (f.supports_bmi2()) && ({ let a1 = InstructionAttr::spec_new(f, AVX_128BIT, true, true, true, false); (vex_adr_ok(f, a1, 0, dst.encoding, src)) })
            }),
        ensures
            ({
                let f = old(self).features;
                final(self).appends(*old(self), ({ let a1 = InstructionAttr::spec_new(f, AVX_128BIT, true, true, true, false); vex_adr_bytes(f, a1, src, 0, dst.encoding, VEX_SIMD_F2, VEX_OPCODE_0F_3A) + ({ let a2 = vex_adr_attr(f, a1, 0, dst.encoding); seq![0xF0] + address_bytes(f, Some(a2), dst.encoding, src, false) + seq![imm_byte(imm8)] }) }))
            }),
    {
        let mut attributes = InstructionAttr::new(&self.features, AVX_128BIT, true, true, true, false);
        self.vex_prefix(&src, 0, dst.encoding, VEX_SIMD_F2, VEX_OPCODE_0F_3A, &mut attributes);
        self.emit_int8(0xF0);
        self.emit_operand_attr(dst.encoding, &src, &attributes, false);
        self.emit_int8(imm_byte_exec(imm8));
    }
}

} // verus!
