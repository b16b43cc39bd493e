//! SSE instructions: legacy encoded without AVX, VEX or EVEX encoded when AVX is enabled.
use vstd::prelude::*;
use crate::address::Address;
use crate::assembler::Assembler;
use crate::attributes::{AVX_128BIT, AVX_256BIT, AVX_512BIT, EVEX_16BIT, EVEX_32BIT, EVEX_64BIT, EVEX_8BIT, EVEX_DUP, EVEX_FV, EVEX_FVM, EVEX_HVM, EVEX_NOBIT, EVEX_T1S, InstructionAttr, VEX_OPCODE_0F, VEX_OPCODE_0F_38, VEX_OPCODE_0F_3A, VEX_SIMD_66, VEX_SIMD_F2, VEX_SIMD_F3, VEX_SIMD_NONE};
use crate::encoding::{address_bytes, imm_byte, imm_byte_exec, low8, low8_exec, rr_bits, simd_adr_attr, simd_adr_bytes, simd_adr_ok, simd_rr_bytes, simd_rr_ok};
use crate::registers::{Register, XMMRegister};

verus! {

impl Assembler {
    /// `addsd dst, src`
    pub fn addsd(&mut self, dst: XMMRegister, src: XMMRegister)
        requires
            dst.wf(),
            src.wf(),
            ({
                let f = old(self).features;
                ({ let a1 = InstructionAttr::spec_new(f, AVX_128BIT, f.supports_evex(), false, true, false); let a2 = a1.reverted(); (simd_rr_ok(f, a2, dst.encoding, Some(dst.encoding), src.encoding)) })
            }),
        ensures
            ({
                let f = old(self).features;
                final(self).appends(*old(self), ({ let a1 = InstructionAttr::spec_new(f, AVX_128BIT, f.supports_evex(), false, true, false); let a2 = a1.reverted(); simd_rr_bytes(f, a2, dst.encoding, Some(dst.encoding), src.encoding, VEX_SIMD_F2, VEX_OPCODE_0F) + seq![0x58, (0xC0 | rr_bits(dst.encoding, src.encoding))] }))
            }),
    {
        let mut attributes = InstructionAttr::new(&self.features, AVX_128BIT, self.features.supports_evex(), false, true, false);
        attributes.set_rex_vex_w_reverted();
        let encode = self.simd_prefix_and_encode(dst.encoding, Some(dst.encoding), src.encoding, VEX_SIMD_F2, VEX_OPCODE_0F, &mut attributes);
        self.emit_int16(0x58, (0xC0 | encode));
    }

    /// `addsd dst, [src]`
    pub fn addsd_xm(&mut self, dst: XMMRegister, src: Address)
        requires
            dst.wf(),
            src.wf(),
            ({
                let f = old(self).features;
                ({ let a1 = InstructionAttr::spec_new(f, AVX_128BIT, f.supports_evex(), false, true, false); let a2 = a1.with_address(f, EVEX_T1S, EVEX_64BIT); let a3 = a2.reverted(); (simd_adr_ok(f, a3, dst.encoding, Some(dst.encoding), src)) })
            }),
        ensures
            ({
                let f = old(self).features;
                final(self).appends(*old(self), ({ let a1 = InstructionAttr::spec_new(f, AVX_128BIT, f.supports_evex(), false, true, false); let a2 = a1.with_address(f, EVEX_T1S, EVEX_64BIT); let a3 = a2.reverted(); simd_adr_bytes(f, a3, dst.encoding, Some(dst.encoding), src, VEX_SIMD_F2, VEX_OPCODE_0F) + ({ let a4 = simd_adr_attr(f, a3, dst.encoding, Some(dst.encoding)); seq![0x58] + address_bytes(f, Some(a4), dst.encoding, src, true) }) }))
            }),
    {
        let mut attributes = InstructionAttr::new(&self.features, AVX_128BIT, self.features.supports_evex(), false, true, false);
        attributes.set_address_attributes(&self.features, EVEX_T1S, EVEX_64BIT);
        attributes.set_rex_vex_w_reverted();
        self.simd_prefix(dst.encoding, Some(dst.encoding), &src, VEX_SIMD_F2, VEX_OPCODE_0F, &mut attributes);
        self.emit_int8(0x58);
        self.emit_operand_attr(dst.encoding, &src, &attributes, true);
    }

    /// `addss dst, src`
    pub fn addss(&mut self, dst: XMMRegister, src: XMMRegister)
        requires
            dst.wf(),
            src.wf(),
            ({
                let f = old(self).features;
                ({ let a1 = InstructionAttr::spec_new(f, AVX_128BIT, false, false, true, false); (simd_rr_ok(f, a1, dst.encoding, Some(dst.encoding), src.encoding)) })
            }),
        ensures
            ({
                let f = old(self).features;
                final(self).appends(*old(self), ({ let a1 = InstructionAttr::spec_new(f, AVX_128BIT, false, false, true, false); simd_rr_bytes(f, a1, dst.encoding, Some(dst.encoding), src.encoding, VEX_SIMD_F3, VEX_OPCODE_0F) + seq![0x58, (0xC0 | rr_bits(dst.encoding, src.encoding))] }))
            }),
    {
        let mut attributes = InstructionAttr::new(&self.features, AVX_128BIT, false, false, true, false);
        let encode = self.simd_prefix_and_encode(dst.encoding, Some(dst.encoding), src.encoding, VEX_SIMD_F3, VEX_OPCODE_0F, &mut attributes);
        self.emit_int16(0x58, (0xC0 | encode));
    }

    /// `addss dst, [src]`
    pub fn addss_xm(&mut self, dst: XMMRegister, src: Address)
        requires
            dst.wf(),
            src.wf(),
            ({
                let f = old(self).features;
                ({ let a1 = InstructionAttr::spec_new(f, AVX_128BIT, false, false, true, false); let a2 = a1.with_address(f, EVEX_T1S, EVEX_32BIT); (simd_adr_ok(f, a2, dst.encoding, Some(dst.encoding), src)) })
            }),
        ensures
            ({
                let f = old(self).features;
                final(self).appends(*old(self), ({ let a1 = InstructionAttr::spec_new(f, AVX_128BIT, false, false, true, false); let a2 = a1.with_address(f, EVEX_T1S, EVEX_32BIT); simd_adr_bytes(f, a2, dst.encoding, Some(dst.encoding), src, VEX_SIMD_F3, VEX_OPCODE_0F) + ({ let a3 = simd_adr_attr(f, a2, dst.encoding, Some(dst.encoding)); seq![0x58] + address_bytes(f, Some(a3), dst.encoding, src, true) }) }))
            }),
    {
        let mut attributes = InstructionAttr::new(&self.features, AVX_128BIT, false, false, true, false);
        attributes.set_address_attributes(&self.features, EVEX_T1S, EVEX_32BIT);
        self.simd_prefix(dst.encoding, Some(dst.encoding), &src, VEX_SIMD_F3, VEX_OPCODE_0F, &mut attributes);
        self.emit_int8(0x58);
        self.emit_operand_attr(dst.encoding, &src, &attributes, true);
    }

    /// `aesdec dst, [src]`
    pub fn aesdec_xm(&mut self, dst: XMMRegister, src: Address)
        requires
            dst.wf(),
            src.wf(),
            ({
                let f = old(self).features;
                (f.supports_aes()) && ({ let a1 = InstructionAttr::spec_new(f, AVX_128BIT, false, true, true, false); (simd_adr_ok(f, a1, dst.encoding, Some(dst.encoding), src)) })
            }),
        ensures
            ({
                let f = old(self).features;
                final(self).appends(*old(self), ({ let a1 = InstructionAttr::spec_new(f, AVX_128BIT, false, true, true, false); simd_adr_bytes(f, a1, dst.encoding, Some(dst.encoding), src, VEX_SIMD_66, VEX_OPCODE_0F_38) + ({ let a2 = simd_adr_attr(f, a1, dst.encoding, Some(dst.encoding)); seq![0xDE] + address_bytes(f, Some(a2), dst.encoding, src, true) }) }))
            }),
    {
        let mut attributes = InstructionAttr::new(&self.features, AVX_128BIT, false, true, true, false);
        self.simd_prefix(dst.encoding, Some(dst.encoding), &src, VEX_SIMD_66, VEX_OPCODE_0F_38, &mut attributes);
        self.emit_int8(0xDE);
        self.emit_operand_attr(dst.encoding, &src, &attributes, true);
    }

    /// `aesdec dst, src`
    pub fn aesdec(&mut self, dst: XMMRegister, src: XMMRegister)
        requires
            dst.wf(),
            src.wf(),
            ({
                let f = old(self).features;
                (f.supports_aes()) && ({ let a1 = InstructionAttr::spec_new(f, AVX_128BIT, false, true, true, false); (simd_rr_ok(f, a1, dst.encoding, Some(dst.encoding), src.encoding)) })
            }),
        ensures
            ({
                let f = old(self).features;
                final(self).appends(*old(self), ({ let a1 = InstructionAttr::spec_new(f, AVX_128BIT, false, true, true, false); simd_rr_bytes(f, a1, dst.encoding, Some(dst.encoding), src.encoding, VEX_SIMD_66, VEX_OPCODE_0F_38) + seq![0xDE, (0xC0 | rr_bits(dst.encoding, src.encoding))] }))
            }),
    {
        let mut attributes = InstructionAttr::new(&self.features, AVX_128BIT, false, true, true, false);
        let encode = self.simd_prefix_and_encode(dst.encoding, Some(dst.encoding), src.encoding, VEX_SIMD_66, VEX_OPCODE_0F_38, &mut attributes);
        self.emit_int16(0xDE, (0xC0 | encode));
    }

    /// `aesdeclast dst, [src]`
    pub fn aesdeclast_xm(&mut self, dst: XMMRegister, src: Address)
        requires
            dst.wf(),
            src.wf(),
            ({
                let f = old(self).features;
                (f.supports_aes()) && ({ let a1 = InstructionAttr::spec_new(f, AVX_128BIT, false, true, true, false); (simd_adr_ok(f, a1, dst.encoding, Some(dst.encoding), src)) })
            }),
        ensures
            ({
                let f = old(self).features;
                final(self).appends(*old(self), ({ let a1 = InstructionAttr::spec_new(f, AVX_128BIT, false, true, true, false); simd_adr_bytes(f, a1, dst.encoding, Some(dst.encoding), src, VEX_SIMD_66, VEX_OPCODE_0F_38) + ({ let a2 = simd_adr_attr(f, a1, dst.encoding, Some(dst.encoding)); seq![0xDF] + address_bytes(f, Some(a2), dst.encoding, src, true) }) }))
            }),
    {
        let mut attributes = InstructionAttr::new(&self.features, AVX_128BIT, false, true, true, false);
        self.simd_prefix(dst.encoding, Some(dst.encoding), &src, VEX_SIMD_66, VEX_OPCODE_0F_38, &mut attributes);
        self.emit_int8(0xDF);
        self.emit_operand_attr(dst.encoding, &src, &attributes, true);
    }

    /// `aesdeclast dst, src`
    pub fn aesdeclast(&mut self, dst: XMMRegister, src: XMMRegister)
        requires
            dst.wf(),
            src.wf(),
            ({
                let f = old(self).features;
                (f.supports_aes()) && ({ let a1 = InstructionAttr::spec_new(f, AVX_128BIT, false, true, true, false); (simd_rr_ok(f, a1, dst.encoding, Some(dst.encoding), src.encoding)) })
            }),
        ensures
            ({
                let f = old(self).features;
                final(self).appends(*old(self), ({ let a1 = InstructionAttr::spec_new(f, AVX_128BIT, false, true, true, false); simd_rr_bytes(f, a1, dst.encoding, Some(dst.encoding), src.encoding, VEX_SIMD_66, VEX_OPCODE_0F_38) + seq![0xDF, (0xC0 | rr_bits(dst.encoding, src.encoding))] }))
            }),
    {
        let mut attributes = InstructionAttr::new(&self.features, AVX_128BIT, false, true, true, false);
        let encode = self.simd_prefix_and_encode(dst.encoding, Some(dst.encoding), src.encoding, VEX_SIMD_66, VEX_OPCODE_0F_38, &mut attributes);
        self.emit_int16(0xDF, (0xC0 | encode));
    }

    /// `aesenc dst, [src]`
    pub fn aesenc_xm(&mut self, dst: XMMRegister, src: Address)
        requires
            dst.wf(),
            src.wf(),
            ({
                let f = old(self).features;
                (f.supports_aes()) && ({ let a1 = InstructionAttr::spec_new(f, AVX_128BIT, false, true, true, false); (simd_adr_ok(f, a1, dst.encoding, Some(dst.encoding), src)) })
            }),
        ensures
            ({
                let f = old(self).features;
                final(self).appends(*old(self), ({ let a1 = InstructionAttr::spec_new(f, AVX_128BIT, false, true, true, false); simd_adr_bytes(f, a1, dst.encoding, Some(dst.encoding), src, VEX_SIMD_66, VEX_OPCODE_0F_38) + ({ let a2 = simd_adr_attr(f, a1, dst.encoding, Some(dst.encoding)); seq![0xDC] + address_bytes(f, Some(a2), dst.encoding, src, true) }) }))
            }),
    {
        let mut attributes = InstructionAttr::new(&self.features, AVX_128BIT, false, true, true, false);
        self.simd_prefix(dst.encoding, Some(dst.encoding), &src, VEX_SIMD_66, VEX_OPCODE_0F_38, &mut attributes);
        self.emit_int8(0xDC);
        self.emit_operand_attr(dst.encoding, &src, &attributes, true);
    }

    /// `aesenc dst, src`
    pub fn aesenc(&mut self, dst: XMMRegister, src: XMMRegister)
        requires
            dst.wf(),
            src.wf(),
            ({
                let f = old(self).features;
                (f.supports_aes()) && ({ let a1 = InstructionAttr::spec_new(f, AVX_128BIT, false, true, true, false); (simd_rr_ok(f, a1, dst.encoding, Some(dst.encoding), src.encoding)) })
            }),
        ensures
            ({
                let f = old(self).features;
                final(self).appends(*old(self), ({ let a1 = InstructionAttr::spec_new(f, AVX_128BIT, false, true, true, false); simd_rr_bytes(f, a1, dst.encoding, Some(dst.encoding), src.encoding, VEX_SIMD_66, VEX_OPCODE_0F_38) + seq![0xDC, (0xC0 | rr_bits(dst.encoding, src.encoding))] }))
            }),
    {
        let mut attributes = InstructionAttr::new(&self.features, AVX_128BIT, false, true, true, false);
        let encode = self.simd_prefix_and_encode(dst.encoding, Some(dst.encoding), src.encoding, VEX_SIMD_66, VEX_OPCODE_0F_38, &mut attributes);
        self.emit_int16(0xDC, (0xC0 | encode));
    }

    /// `aesenclast dst, [src]`
    pub fn aesenclast_xm(&mut self, dst: XMMRegister, src: Address)
        requires
            dst.wf(),
            src.wf(),
            ({
                let f = old(self).features;
                (f.supports_aes()) && ({ let a1 = InstructionAttr::spec_new(f, AVX_128BIT, false, true, true, false); (simd_adr_ok(f, a1, dst.encoding, Some(dst.encoding), src)) })
            }),
        ensures
            ({
                let f = old(self).features;
                final(self).appends(*old(self), ({ let a1 = InstructionAttr::spec_new(f, AVX_128BIT, false, true, true, false); simd_adr_bytes(f, a1, dst.encoding, Some(dst.encoding), src, VEX_SIMD_66, VEX_OPCODE_0F_38) + ({ let a2 = simd_adr_attr(f, a1, dst.encoding, Some(dst.encoding)); seq![0xDD] + address_bytes(f, Some(a2), dst.encoding, src, true) }) }))
            }),
    {
        let mut attributes = InstructionAttr::new(&self.features, AVX_128BIT, false, true, true, false);
        self.simd_prefix(dst.encoding, Some(dst.encoding), &src, VEX_SIMD_66, VEX_OPCODE_0F_38, &mut attributes);
        self.emit_int8(0xDD);
        self.emit_operand_attr(dst.encoding, &src, &attributes, true);
    }

    /// `aesenclast dst, src`
    pub fn aesenclast(&mut self, dst: XMMRegister, src: XMMRegister)
        requires
            dst.wf(),
            src.wf(),
            ({
                let f = old(self).features;
                (f.supports_aes()) && ({ let a1 = InstructionAttr::spec_new(f, AVX_128BIT, false, true, true, false); (simd_rr_ok(f, a1, dst.encoding, Some(dst.encoding), src.encoding)) })
            }),
        ensures
            ({
                let f = old(self).features;
                final(self).appends(*old(self), ({ let a1 = InstructionAttr::spec_new(f, AVX_128BIT, false, true, true, false); simd_rr_bytes(f, a1, dst.encoding, Some(dst.encoding), src.encoding, VEX_SIMD_66, VEX_OPCODE_0F_38) + seq![0xDD, (0xC0 | rr_bits(dst.encoding, src.encoding))] }))
            }),
    {
        let mut attributes = InstructionAttr::new(&self.features, AVX_128BIT, false, true, true, false);
        let encode = self.simd_prefix_and_encode(dst.encoding, Some(dst.encoding), src.encoding, VEX_SIMD_66, VEX_OPCODE_0F_38, &mut attributes);
        self.emit_int16(0xDD, (0xC0 | encode));
    }

    /// `comisd dst, [src]`
    pub fn comisd_xm(&mut self, dst: XMMRegister, src: Address)
        requires
            dst.wf(),
            src.wf(),
            ({
                let f = old(self).features;
                ({ let a1 = InstructionAttr::spec_new(f, AVX_128BIT, f.supports_evex(), false, true, false); let a2 = a1.with_address(f, EVEX_T1S, EVEX_64BIT); let a3 = a2.reverted(); (simd_adr_ok(f, a3, dst.encoding, None, src)) })
            }),
        ensures
            ({
                let f = old(self).features;
                final(self).appends(*old(self), ({ let a1 = InstructionAttr::spec_new(f, AVX_128BIT, f.supports_evex(), false, true, false); let a2 = a1.with_address(f, EVEX_T1S, EVEX_64BIT); let a3 = a2.reverted(); simd_adr_bytes(f, a3, dst.encoding, None, src, VEX_SIMD_66, VEX_OPCODE_0F) + ({ let a4 = simd_adr_attr(f, a3, dst.encoding, None); seq![0x2F] + address_bytes(f, Some(a4), dst.encoding, src, true) }) }))
            }),
    {
        let mut attributes = InstructionAttr::new(&self.features, AVX_128BIT, self.features.supports_evex(), false, true, false);
        attributes.set_address_attributes(&self.features, EVEX_T1S, EVEX_64BIT);
        attributes.set_rex_vex_w_reverted();
        self.simd_prefix(dst.encoding, None, &src, VEX_SIMD_66, VEX_OPCODE_0F, &mut attributes);
        self.emit_int8(0x2F);
        self.emit_operand_attr(dst.encoding, &src, &attributes, true);
    }

    /// `comisd dst, src`
    pub fn comisd(&mut self, dst: XMMRegister, src: XMMRegister)
        requires
            dst.wf(),
            src.wf(),
            ({
                let f = old(self).features;
                ({ let a1 = InstructionAttr::spec_new(f, AVX_128BIT, f.supports_evex(), false, true, false); let a2 = a1.reverted(); (simd_rr_ok(f, a2, dst.encoding, None, src.encoding)) })
            }),
        ensures
            ({
                let f = old(self).features;
                final(self).appends(*old(self), ({ let a1 = InstructionAttr::spec_new(f, AVX_128BIT, f.supports_evex(), false, true, false); let a2 = a1.reverted(); simd_rr_bytes(f, a2, dst.encoding, None, src.encoding, VEX_SIMD_66, VEX_OPCODE_0F) + seq![0x2F, (0xC0 | rr_bits(dst.encoding, src.encoding))] }))
            }),
    {
        let mut attributes = InstructionAttr::new(&self.features, AVX_128BIT, self.features.supports_evex(), false, true, false);
        attributes.set_rex_vex_w_reverted();
        let encode = self.simd_prefix_and_encode(dst.encoding, None, src.encoding, VEX_SIMD_66, VEX_OPCODE_0F, &mut attributes);
        self.emit_int16(0x2F, (0xC0 | encode));
    }

    /// `comiss dst, [src]`
    pub fn comiss_xm(&mut self, dst: XMMRegister, src: Address)
        requires
            dst.wf(),
            src.wf(),
            ({
                let f = old(self).features;
                ({ let a1 = InstructionAttr::spec_new(f, AVX_128BIT, false, false, true, false); let a2 = a1.with_address(f, EVEX_T1S, EVEX_32BIT); (simd_adr_ok(f, a2, dst.encoding, None, src)) })
            }),
        ensures
            ({
                let f = old(self).features;
                final(self).appends(*old(self), ({ let a1 = InstructionAttr::spec_new(f, AVX_128BIT, false, false, true, false); let a2 = a1.with_address(f, EVEX_T1S, EVEX_32BIT); simd_adr_bytes(f, a2, dst.encoding, None, src, VEX_SIMD_NONE, VEX_OPCODE_0F) + ({ let a3 = simd_adr_attr(f, a2, dst.encoding, None); seq![0x2F] + address_bytes(f, Some(a3), dst.encoding, src, true) }) }))
            }),
    {
        let mut attributes = InstructionAttr::new(&self.features, AVX_128BIT, false, false, true, false);
        attributes.set_address_attributes(&self.features, EVEX_T1S, EVEX_32BIT);
        self.simd_prefix(dst.encoding, None, &src, VEX_SIMD_NONE, VEX_OPCODE_0F, &mut attributes);
        self.emit_int8(0x2F);
        self.emit_operand_attr(dst.encoding, &src, &attributes, true);
    }

    /// `comiss dst, src`
    pub fn comiss(&mut self, dst: XMMRegister, src: XMMRegister)
        requires
            dst.wf(),
            src.wf(),
            ({
                let f = old(self).features;
                ({ let a1 = InstructionAttr::spec_new(f, AVX_128BIT, false, false, true, false); (simd_rr_ok(f, a1, dst.encoding, None, src.encoding)) })
            }),
        ensures
            ({
                let f = old(self).features;
                final(self).appends(*old(self), ({ let a1 = InstructionAttr::spec_new(f, AVX_128BIT, false, false, true, false); simd_rr_bytes(f, a1, dst.encoding, None, src.encoding, VEX_SIMD_NONE, VEX_OPCODE_0F) + seq![0x2F, (0xC0 | rr_bits(dst.encoding, src.encoding))] }))
            }),
    {
        let mut attributes = InstructionAttr::new(&self.features, AVX_128BIT, false, false, true, false);
        let encode = self.simd_prefix_and_encode(dst.encoding, None, src.encoding, VEX_SIMD_NONE, VEX_OPCODE_0F, &mut attributes);
        self.emit_int16(0x2F, (0xC0 | encode));
    }

    /// `cvtdq2pd dst, src`
    pub fn cvtdq2pd(&mut self, dst: XMMRegister, src: XMMRegister)
        requires
            dst.wf(),
            src.wf(),
            ({
                let f = old(self).features;
                ({ let a1 = InstructionAttr::spec_new(f, AVX_128BIT, false, false, true, true); (simd_rr_ok(f, a1, dst.encoding, None, src.encoding)) })
            }),
        ensures
            ({
                let f = old(self).features;
                final(self).appends(*old(self), ({ let a1 = InstructionAttr::spec_new(f, AVX_128BIT, false, false, true, true); simd_rr_bytes(f, a1, dst.encoding, None, src.encoding, VEX_SIMD_F3, VEX_OPCODE_0F) + seq![0xE6, (0xC0 | rr_bits(dst.encoding, src.encoding))] }))
            }),
    {
        let mut attributes = InstructionAttr::new(&self.features, AVX_128BIT, false, false, true, true);
        let encode = self.simd_prefix_and_encode(dst.encoding, None, src.encoding, VEX_SIMD_F3, VEX_OPCODE_0F, &mut attributes);
        self.emit_int16(0xE6, (0xC0 | encode));
    }

    /// `vcvtdq2pd dst, src, vector_len`
    pub fn vcvtdq2pd(&mut self, dst: XMMRegister, src: XMMRegister, vector_len: u8)
        requires
            dst.wf(),
            src.wf(),
            ({
                let f = old(self).features;
                (if (vector_len <= AVX_256BIT) { f.supports_avx() } else { f.supports_evex() }) && ({ let a1 = InstructionAttr::spec_new(f, vector_len, false, false, true, true); (simd_rr_ok(f, a1, dst.encoding, None, src.encoding)) })
            }),
        ensures
            ({
                let f = old(self).features;
                final(self).appends(*old(self), ({ let a1 = InstructionAttr::spec_new(f, vector_len, false, false, true, true); simd_rr_bytes(f, a1, dst.encoding, None, src.encoding, VEX_SIMD_F3, VEX_OPCODE_0F) + seq![0xE6, (0xC0 | rr_bits(dst.encoding, src.encoding))] }))
            }),
    {
        let mut attributes = InstructionAttr::new(&self.features, vector_len, false, false, true, true);
        let encode = self.simd_prefix_and_encode(dst.encoding, None, src.encoding, VEX_SIMD_F3, VEX_OPCODE_0F, &mut attributes);
        self.emit_int16(0xE6, (0xC0 | encode));
    }

    /// `cvtdq2ps dst, src`
    pub fn cvtdq2ps(&mut self, dst: XMMRegister, src: XMMRegister)
        requires
            dst.wf(),
            src.wf(),
            ({
                let f = old(self).features;
                ({ let a1 = InstructionAttr::spec_new(f, AVX_128BIT, false, false, true, true); (simd_rr_ok(f, a1, dst.encoding, None, src.encoding)) })
            }),
        ensures
            ({
                let f = old(self).features;
                final(self).appends(*old(self), ({ let a1 = InstructionAttr::spec_new(f, AVX_128BIT, false, false, true, true); simd_rr_bytes(f, a1, dst.encoding, None, src.encoding, VEX_SIMD_NONE, VEX_OPCODE_0F) + seq![0x5B, (0xC0 | rr_bits(dst.encoding, src.encoding))] }))
            }),
    {
        let mut attributes = InstructionAttr::new(&self.features, AVX_128BIT, false, false, true, true);
        let encode = self.simd_prefix_and_encode(dst.encoding, None, src.encoding, VEX_SIMD_NONE, VEX_OPCODE_0F, &mut attributes);
        self.emit_int16(0x5B, (0xC0 | encode));
    }

    /// `vcvtdq2ps dst, src, vector_len`
    pub fn vcvtdq2ps(&mut self, dst: XMMRegister, src: XMMRegister, vector_len: u8)
        requires
            dst.wf(),
            src.wf(),
            ({
                let f = old(self).features;
                (if (vector_len <= AVX_256BIT) { f.supports_avx() } else { f.supports_evex() }) && ({ let a1 = InstructionAttr::spec_new(f, vector_len, false, false, true, true); (simd_rr_ok(f, a1, dst.encoding, None, src.encoding)) })
            }),
        ensures
            ({
                let f = old(self).features;
                final(self).appends(*old(self), ({ let a1 = InstructionAttr::spec_new(f, vector_len, false, false, true, true); simd_rr_bytes(f, a1, dst.encoding, None, src.encoding, VEX_SIMD_NONE, VEX_OPCODE_0F) + seq![0x5B, (0xC0 | rr_bits(dst.encoding, src.encoding))] }))
            }),
    {
        let mut attributes = InstructionAttr::new(&self.features, vector_len, false, false, true, true);
        let encode = self.simd_prefix_and_encode(dst.encoding, None, src.encoding, VEX_SIMD_NONE, VEX_OPCODE_0F, &mut attributes);
        self.emit_int16(0x5B, (0xC0 | encode));
    }

    /// `cvtsd2ss dst, src`
    pub fn cvtsd2ss(&mut self, dst: XMMRegister, src: XMMRegister)
        requires
            dst.wf(),
            src.wf(),
            ({
                let f = old(self).features;
                ({ let a1 = InstructionAttr::spec_new(f, AVX_128BIT, f.supports_evex(), false, true, false); let a2 = a1.reverted(); (simd_rr_ok(f, a2, dst.encoding, Some(dst.encoding), src.encoding)) })
            }),
        ensures
            ({
                let f = old(self).features;
                final(self).appends(*old(self), ({ let a1 = InstructionAttr::spec_new(f, AVX_128BIT, f.supports_evex(), false, true, false); let a2 = a1.reverted(); simd_rr_bytes(f, a2, dst.encoding, Some(dst.encoding), src.encoding, VEX_SIMD_F2, VEX_OPCODE_0F) + seq![0x5A, (0xC0 | rr_bits(dst.encoding, src.encoding))] }))
            }),
    {
        let mut attributes = InstructionAttr::new(&self.features, AVX_128BIT, self.features.supports_evex(), false, true, false);
        attributes.set_rex_vex_w_reverted();
        let encode = self.simd_prefix_and_encode(dst.encoding, Some(dst.encoding), src.encoding, VEX_SIMD_F2, VEX_OPCODE_0F, &mut attributes);
        self.emit_int16(0x5A, (0xC0 | encode));
    }

    /// `cvtsd2ss dst, [src]`
    pub fn cvtsd2ss_xm(&mut self, dst: XMMRegister, src: Address)
        requires
            dst.wf(),
            src.wf(),
            ({
                let f = old(self).features;
                ({ let a1 = InstructionAttr::spec_new(f, AVX_128BIT, f.supports_evex(), false, true, false); let a2 = a1.with_address(f, EVEX_T1S, EVEX_64BIT); let a3 = a2.reverted(); (simd_adr_ok(f, a3, dst.encoding, Some(dst.encoding), src)) })
            }),
        ensures
            ({
                let f = old(self).features;
                final(self).appends(*old(self), ({ let a1 = InstructionAttr::spec_new(f, AVX_128BIT, f.supports_evex(), false, true, false); let a2 = a1.with_address(f, EVEX_T1S, EVEX_64BIT); let a3 = a2.reverted(); simd_adr_bytes(f, a3, dst.encoding, Some(dst.encoding), src, VEX_SIMD_F2, VEX_OPCODE_0F) + ({ let a4 = simd_adr_attr(f, a3, dst.encoding, Some(dst.encoding)); seq![0x5A] + address_bytes(f, Some(a4), dst.encoding, src, true) }) }))
            }),
    {
        let mut attributes = InstructionAttr::new(&self.features, AVX_128BIT, self.features.supports_evex(), false, true, false);
        attributes.set_address_attributes(&self.features, EVEX_T1S, EVEX_64BIT);
        attributes.set_rex_vex_w_reverted();
        self.simd_prefix(dst.encoding, Some(dst.encoding), &src, VEX_SIMD_F2, VEX_OPCODE_0F, &mut attributes);
        self.emit_int8(0x5A);
        self.emit_operand_attr(dst.encoding, &src, &attributes, true);
    }

    /// `cvtsi2sdl dst, src`
    pub fn cvtsi2sdl(&mut self, dst: XMMRegister, src: Register)
        requires
            dst.wf(),
            src.wf(),
            ({
                let f = old(self).features;
                ({ let a1 = InstructionAttr::spec_new(f, AVX_128BIT, false, false, true, false); (simd_rr_ok(f, a1, dst.encoding, Some(dst.encoding), src.encoding)) })
            }),
        ensures
            ({
                let f = old(self).features;
                final(self).appends(*old(self), ({ let a1 = InstructionAttr::spec_new(f, AVX_128BIT, false, false, true, false); simd_rr_bytes(f, a1, dst.encoding, Some(dst.encoding), src.encoding, VEX_SIMD_F2, VEX_OPCODE_0F) + seq![0x2A, (0xC0 | rr_bits(dst.encoding, src.encoding))] }))
            }),
    {
        let mut attributes = InstructionAttr::new(&self.features, AVX_128BIT, false, false, true, false);
        let encode = self.simd_prefix_and_encode(dst.encoding, Some(dst.encoding), src.encoding, VEX_SIMD_F2, VEX_OPCODE_0F, &mut attributes);
        self.emit_int16(0x2A, (0xC0 | encode));
    }

    /// `cvtsi2sdl dst, [src]`
    pub fn cvtsi2sdl_xm(&mut self, dst: XMMRegister, src: Address)
        requires
            dst.wf(),
            src.wf(),
            ({
                let f = old(self).features;
                ({ let a1 = InstructionAttr::spec_new(f, AVX_128BIT, false, false, true, false); let a2 = a1.with_address(f, EVEX_T1S, EVEX_32BIT); (simd_adr_ok(f, a2, dst.encoding, Some(dst.encoding), src)) })
            }),
        ensures
            ({
                let f = old(self).features;
                final(self).appends(*old(self), ({ let a1 = InstructionAttr::spec_new(f, AVX_128BIT, false, false, true, false); let a2 = a1.with_address(f, EVEX_T1S, EVEX_32BIT); simd_adr_bytes(f, a2, dst.encoding, Some(dst.encoding), src, VEX_SIMD_F2, VEX_OPCODE_0F) + ({ let a3 = simd_adr_attr(f, a2, dst.encoding, Some(dst.encoding)); seq![0x2A] + address_bytes(f, Some(a3), dst.encoding, src, true) }) }))
            }),
    {
        let mut attributes = InstructionAttr::new(&self.features, AVX_128BIT, false, false, true, false);
        attributes.set_address_attributes(&self.features, EVEX_T1S, EVEX_32BIT);
        self.simd_prefix(dst.encoding, Some(dst.encoding), &src, VEX_SIMD_F2, VEX_OPCODE_0F, &mut attributes);
        self.emit_int8(0x2A);
        self.emit_operand_attr(dst.encoding, &src, &attributes, true);
    }

    /// `cvtsi2ssl dst, src`
    pub fn cvtsi2ssl(&mut self, dst: XMMRegister, src: Register)
        requires
            dst.wf(),
            src.wf(),
            ({
                let f = old(self).features;
                ({ let a1 = InstructionAttr::spec_new(f, AVX_128BIT, false, false, true, false); (simd_rr_ok(f, a1, dst.encoding, Some(dst.encoding), src.encoding)) })
            }),
        ensures
            ({
                let f = old(self).features;
                final(self).appends(*old(self), ({ let a1 = InstructionAttr::spec_new(f, AVX_128BIT, false, false, true, false); simd_rr_bytes(f, a1, dst.encoding, Some(dst.encoding), src.encoding, VEX_SIMD_F3, VEX_OPCODE_0F) + seq![0x2A, (0xC0 | rr_bits(dst.encoding, src.encoding))] }))
            }),
    {
        let mut attributes = InstructionAttr::new(&self.features, AVX_128BIT, false, false, true, false);
        let encode = self.simd_prefix_and_encode(dst.encoding, Some(dst.encoding), src.encoding, VEX_SIMD_F3, VEX_OPCODE_0F, &mut attributes);
        self.emit_int16(0x2A, (0xC0 | encode));
    }

    /// `cvtsi2ssl dst, [src]`
    pub fn cvtsi2ssl_xm(&mut self, dst: XMMRegister, src: Address)
        requires
            dst.wf(),
            src.wf(),
            ({
                let f = old(self).features;
                ({ let a1 = InstructionAttr::spec_new(f, AVX_128BIT, false, false, true, false); let a2 = a1.with_address(f, EVEX_T1S, EVEX_32BIT); (simd_adr_ok(f, a2, dst.encoding, Some(dst.encoding), src)) })
            }),
        ensures
            ({
                let f = old(self).features;
                final(self).appends(*old(self), ({ let a1 = InstructionAttr::spec_new(f, AVX_128BIT, false, false, true, false); let a2 = a1.with_address(f, EVEX_T1S, EVEX_32BIT); simd_adr_bytes(f, a2, dst.encoding, Some(dst.encoding), src, VEX_SIMD_F3, VEX_OPCODE_0F) + ({ let a3 = simd_adr_attr(f, a2, dst.encoding, Some(dst.encoding)); seq![0x2A] + address_bytes(f, Some(a3), dst.encoding, src, true) }) }))
            }),
    {
        let mut attributes = InstructionAttr::new(&self.features, AVX_128BIT, false, false, true, false);
        attributes.set_address_attributes(&self.features, EVEX_T1S, EVEX_32BIT);
        self.simd_prefix(dst.encoding, Some(dst.encoding), &src, VEX_SIMD_F3, VEX_OPCODE_0F, &mut attributes);
        self.emit_int8(0x2A);
        self.emit_operand_attr(dst.encoding, &src, &attributes, true);
    }

    /// `cvtsi2ssq dst, src`
    pub fn cvtsi2ssq(&mut self, dst: XMMRegister, src: Register)
        requires
            dst.wf(),
            src.wf(),
            ({
                let f = old(self).features;
                ({ let a1 = InstructionAttr::spec_new(f, AVX_128BIT, true, false, true, false); (simd_rr_ok(f, a1, dst.encoding, Some(dst.encoding), src.encoding)) })
            }),
        ensures
            ({
                let f = old(self).features;
                final(self).appends(*old(self), ({ let a1 = InstructionAttr::spec_new(f, AVX_128BIT, true, false, true, false); simd_rr_bytes(f, a1, dst.encoding, Some(dst.encoding), src.encoding, VEX_SIMD_F3, VEX_OPCODE_0F) + seq![0x2A, (0xC0 | rr_bits(dst.encoding, src.encoding))] }))
            }),
    {
        let mut attributes = InstructionAttr::new(&self.features, AVX_128BIT, true, false, true, false);
        let encode = self.simd_prefix_and_encode(dst.encoding, Some(dst.encoding), src.encoding, VEX_SIMD_F3, VEX_OPCODE_0F, &mut attributes);
        self.emit_int16(0x2A, (0xC0 | encode));
    }

    /// `cvtss2sd dst, src`
    pub fn cvtss2sd(&mut self, dst: XMMRegister, src: XMMRegister)
        requires
            dst.wf(),
            src.wf(),
            ({
                let f = old(self).features;
                ({ let a1 = InstructionAttr::spec_new(f, AVX_128BIT, false, false, true, false); (simd_rr_ok(f, a1, dst.encoding, Some(dst.encoding), src.encoding)) })
            }),
        ensures
            ({
                let f = old(self).features;
                final(self).appends(*old(self), ({ let a1 = InstructionAttr::spec_new(f, AVX_128BIT, false, false, true, false); simd_rr_bytes(f, a1, dst.encoding, Some(dst.encoding), src.encoding, VEX_SIMD_F3, VEX_OPCODE_0F) + seq![0x5A, (0xC0 | rr_bits(dst.encoding, src.encoding))] }))
            }),
    {
        let mut attributes = InstructionAttr::new(&self.features, AVX_128BIT, false, false, true, false);
        let encode = self.simd_prefix_and_encode(dst.encoding, Some(dst.encoding), src.encoding, VEX_SIMD_F3, VEX_OPCODE_0F, &mut attributes);
        self.emit_int16(0x5A, (0xC0 | encode));
    }

    /// `cvtss2sd dst, [src]`
    pub fn cvtss2sd_xm(&mut self, dst: XMMRegister, src: Address)
        requires
            dst.wf(),
            src.wf(),
            ({
                let f = old(self).features;
                ({ let a1 = InstructionAttr::spec_new(f, AVX_128BIT, false, false, true, false); let a2 = a1.with_address(f, EVEX_T1S, EVEX_32BIT); (simd_adr_ok(f, a2, dst.encoding, Some(dst.encoding), src)) })
            }),
        ensures
            ({
                let f = old(self).features;
                final(self).appends(*old(self), ({ let a1 = InstructionAttr::spec_new(f, AVX_128BIT, false, false, true, false); let a2 = a1.with_address(f, EVEX_T1S, EVEX_32BIT); simd_adr_bytes(f, a2, dst.encoding, Some(dst.encoding), src, VEX_SIMD_F3, VEX_OPCODE_0F) + ({ let a3 = simd_adr_attr(f, a2, dst.encoding, Some(dst.encoding)); seq![0x5A] + address_bytes(f, Some(a3), dst.encoding, src, true) }) }))
            }),
    {
        let mut attributes = InstructionAttr::new(&self.features, AVX_128BIT, false, false, true, false);
        attributes.set_address_attributes(&self.features, EVEX_T1S, EVEX_32BIT);
        self.simd_prefix(dst.encoding, Some(dst.encoding), &src, VEX_SIMD_F3, VEX_OPCODE_0F, &mut attributes);
        self.emit_int8(0x5A);
        self.emit_operand_attr(dst.encoding, &src, &attributes, true);
    }

    /// `cvttsd2sil dst, src`
    pub fn cvttsd2sil(&mut self, dst: Register, src: XMMRegister)
        requires
            dst.wf(),
            src.wf(),
            ({
                let f = old(self).features;
                ({ let a1 = InstructionAttr::spec_new(f, AVX_128BIT, false, false, true, false); (simd_rr_ok(f, a1, dst.encoding, None, src.encoding)) })
            }),
        ensures
            ({
                let f = old(self).features;
                final(self).appends(*old(self), ({ let a1 = InstructionAttr::spec_new(f, AVX_128BIT, false, false, true, false); simd_rr_bytes(f, a1, dst.encoding, None, src.encoding, VEX_SIMD_F2, VEX_OPCODE_0F) + seq![0x2C, (0xC0 | rr_bits(dst.encoding, src.encoding))] }))
            }),
    {
        let mut attributes = InstructionAttr::new(&self.features, AVX_128BIT, false, false, true, false);
        let encode = self.simd_prefix_and_encode(dst.encoding, None, src.encoding, VEX_SIMD_F2, VEX_OPCODE_0F, &mut attributes);
        self.emit_int16(0x2C, (0xC0 | encode));
    }

    /// `cvtss2sil dst, src`
    pub fn cvtss2sil(&mut self, dst: Register, src: XMMRegister)
        requires
            dst.wf(),
            src.wf(),
            ({
                let f = old(self).features;
                ({ let a1 = InstructionAttr::spec_new(f, AVX_128BIT, false, false, true, false); (simd_rr_ok(f, a1, dst.encoding, None, src.encoding)) })
            }),
        ensures
            ({
                let f = old(self).features;
                final(self).appends(*old(self), ({ let a1 = InstructionAttr::spec_new(f, AVX_128BIT, false, false, true, false); simd_rr_bytes(f, a1, dst.encoding, None, src.encoding, VEX_SIMD_F3, VEX_OPCODE_0F) + seq![0x2D, (0xC0 | rr_bits(dst.encoding, src.encoding))] }))
            }),
    {
        let mut attributes = InstructionAttr::new(&self.features, AVX_128BIT, false, false, true, false);
        let encode = self.simd_prefix_and_encode(dst.encoding, None, src.encoding, VEX_SIMD_F3, VEX_OPCODE_0F, &mut attributes);
        self.emit_int16(0x2D, (0xC0 | encode));
    }

    /// `cvttss2sil dst, src`
    pub fn cvttss2sil(&mut self, dst: Register, src: XMMRegister)
        requires
            dst.wf(),
            src.wf(),
            ({
                let f = old(self).features;
                ({ let a1 = InstructionAttr::spec_new(f, AVX_128BIT, false, false, true, false); (simd_rr_ok(f, a1, dst.encoding, None, src.encoding)) })
            }),
        ensures
            ({
                let f = old(self).features;
                final(self).appends(*old(self), ({ let a1 = InstructionAttr::spec_new(f, AVX_128BIT, false, false, true, false); simd_rr_bytes(f, a1, dst.encoding, None, src.encoding, VEX_SIMD_F3, VEX_OPCODE_0F) + seq![0x2C, (0xC0 | rr_bits(dst.encoding, src.encoding))] }))
            }),
    {
        let mut attributes = InstructionAttr::new(&self.features, AVX_128BIT, false, false, true, false);
        let encode = self.simd_prefix_and_encode(dst.encoding, None, src.encoding, VEX_SIMD_F3, VEX_OPCODE_0F, &mut attributes);
        self.emit_int16(0x2C, (0xC0 | encode));
    }

    /// `cvttpd2dq dst, src`
    pub fn cvttpd2dq(&mut self, dst: XMMRegister, src: XMMRegister)
        requires
            dst.wf(),
            src.wf(),
            ({
                let f = old(self).features;
                ({ let vector_len = (if f.supports_avx512novl() { AVX_512BIT } else { AVX_128BIT }); let a1 = InstructionAttr::spec_new(f, vector_len, true, false, true, true); (simd_rr_ok(f, a1, dst.encoding, None, src.encoding)) })
            }),
        ensures
            ({
                let f = old(self).features;
                final(self).appends(*old(self), ({ let vector_len = (if f.supports_avx512novl() { AVX_512BIT } else { AVX_128BIT }); let a1 = InstructionAttr::spec_new(f, vector_len, true, false, true, true); simd_rr_bytes(f, a1, dst.encoding, None, src.encoding, VEX_SIMD_66, VEX_OPCODE_0F) + seq![0xE6, (0xC0 | rr_bits(dst.encoding, src.encoding))] }))
            }),
    {
        let vector_len: u8 = (if self.features.supports_avx512novl() { AVX_512BIT } else { AVX_128BIT });
        let mut attributes = InstructionAttr::new(&self.features, vector_len, true, false, true, true);
        let encode = self.simd_prefix_and_encode(dst.encoding, None, src.encoding, VEX_SIMD_66, VEX_OPCODE_0F, &mut attributes);
        self.emit_int16(0xE6, (0xC0 | encode));
    }

    /// `pabsb dst, src`
    pub fn pabsb(&mut self, dst: XMMRegister, src: XMMRegister)
        requires
            dst.wf(),
            src.wf(),
            ({
                let f = old(self).features;
                (f.supports_ssse3()) && ({ let a1 = InstructionAttr::spec_new(f, AVX_128BIT, false, f.legacy_mode_bw(), true, true); (simd_rr_ok(f, a1, dst.encoding, None, src.encoding)) })
            }),
        ensures
            ({
                let f = old(self).features;
                final(self).appends(*old(self), ({ let a1 = InstructionAttr::spec_new(f, AVX_128BIT, false, f.legacy_mode_bw(), true, true); simd_rr_bytes(f, a1, dst.encoding, None, src.encoding, VEX_SIMD_66, VEX_OPCODE_0F_38) + seq![0x1C, (0xC0 | rr_bits(dst.encoding, src.encoding))] }))
            }),
    {
        let mut attributes = InstructionAttr::new(&self.features, AVX_128BIT, false, self.features.legacy_mode_bw(), true, true);
        let encode = self.simd_prefix_and_encode(dst.encoding, None, src.encoding, VEX_SIMD_66, VEX_OPCODE_0F_38, &mut attributes);
        self.emit_int16(0x1C, (0xC0 | encode));
    }

    /// `pabsw dst, src`
    pub fn pabsw(&mut self, dst: XMMRegister, src: XMMRegister)
        requires
            dst.wf(),
            src.wf(),
            ({
                let f = old(self).features;
                (f.supports_ssse3()) && ({ let a1 = InstructionAttr::spec_new(f, AVX_128BIT, false, f.legacy_mode_bw(), true, true); (simd_rr_ok(f, a1, dst.encoding, None, src.encoding)) })
            }),
        ensures
            ({
                let f = old(self).features;
                final(self).appends(*old(self), ({ let a1 = InstructionAttr::spec_new(f, AVX_128BIT, false, f.legacy_mode_bw(), true, true); simd_rr_bytes(f, a1, dst.encoding, None, src.encoding, VEX_SIMD_66, VEX_OPCODE_0F_38) + seq![0x1D, (0xC0 | rr_bits(dst.encoding, src.encoding))] }))
            }),
    {
        let mut attributes = InstructionAttr::new(&self.features, AVX_128BIT, false, self.features.legacy_mode_bw(), true, true);
        let encode = self.simd_prefix_and_encode(dst.encoding, None, src.encoding, VEX_SIMD_66, VEX_OPCODE_0F_38, &mut attributes);
        self.emit_int16(0x1D, (0xC0 | encode));
    }

    /// `pabsd dst, src`
    pub fn pabsd(&mut self, dst: XMMRegister, src: XMMRegister)
        requires
            dst.wf(),
            src.wf(),
            ({
                let f = old(self).features;
                (f.supports_ssse3()) && ({ let a1 = InstructionAttr::spec_new(f, AVX_128BIT, false, false, true, true); (simd_rr_ok(f, a1, dst.encoding, None, src.encoding)) })
            }),
        ensures
            ({
                let f = old(self).features;
                final(self).appends(*old(self), ({ let a1 = InstructionAttr::spec_new(f, AVX_128BIT, false, false, true, true); simd_rr_bytes(f, a1, dst.encoding, None, src.encoding, VEX_SIMD_66, VEX_OPCODE_0F_38) + seq![0x1E, (0xC0 | rr_bits(dst.encoding, src.encoding))] }))
            }),
    {
        let mut attributes = InstructionAttr::new(&self.features, AVX_128BIT, false, false, true, true);
        let encode = self.simd_prefix_and_encode(dst.encoding, None, src.encoding, VEX_SIMD_66, VEX_OPCODE_0F_38, &mut attributes);
        self.emit_int16(0x1E, (0xC0 | encode));
    }

    /// `divsd dst, [src]`
    pub fn divsd_xm(&mut self, dst: XMMRegister, src: Address)
        requires
            dst.wf(),
            src.wf(),
            ({
                let f = old(self).features;
                ({ let a1 = InstructionAttr::spec_new(f, AVX_128BIT, f.supports_evex(), false, true, false); let a2 = a1.with_address(f, EVEX_T1S, EVEX_64BIT); let a3 = a2.reverted(); (simd_adr_ok(f, a3, dst.encoding, Some(dst.encoding), src)) })
            }),
        ensures
            ({
                let f = old(self).features;
                final(self).appends(*old(self), ({ let a1 = InstructionAttr::spec_new(f, AVX_128BIT, f.supports_evex(), false, true, false); let a2 = a1.with_address(f, EVEX_T1S, EVEX_64BIT); let a3 = a2.reverted(); simd_adr_bytes(f, a3, dst.encoding, Some(dst.encoding), src, VEX_SIMD_F2, VEX_OPCODE_0F) + ({ let a4 = simd_adr_attr(f, a3, dst.encoding, Some(dst.encoding)); seq![0x5E] + address_bytes(f, Some(a4), dst.encoding, src, true) }) }))
            }),
    {
        let mut attributes = InstructionAttr::new(&self.features, AVX_128BIT, self.features.supports_evex(), false, true, false);
        attributes.set_address_attributes(&self.features, EVEX_T1S, EVEX_64BIT);
        attributes.set_rex_vex_w_reverted();
        self.simd_prefix(dst.encoding, Some(dst.encoding), &src, VEX_SIMD_F2, VEX_OPCODE_0F, &mut attributes);
        self.emit_int8(0x5E);
        self.emit_operand_attr(dst.encoding, &src, &attributes, true);
    }

    /// `divsd dst, src`
    pub fn divsd(&mut self, dst: XMMRegister, src: XMMRegister)
        requires
            dst.wf(),
            src.wf(),
            ({
                let f = old(self).features;
                ({ let a1 = InstructionAttr::spec_new(f, AVX_128BIT, f.supports_evex(), false, true, false); let a2 = a1.reverted(); (simd_rr_ok(f, a2, dst.encoding, Some(dst.encoding), src.encoding)) })
            }),
        ensures
            ({
                let f = old(self).features;
                final(self).appends(*old(self), ({ let a1 = InstructionAttr::spec_new(f, AVX_128BIT, f.supports_evex(), false, true, false); let a2 = a1.reverted(); simd_rr_bytes(f, a2, dst.encoding, Some(dst.encoding), src.encoding, VEX_SIMD_F2, VEX_OPCODE_0F) + seq![0x5E, (0xC0 | rr_bits(dst.encoding, src.encoding))] }))
            }),
    {
        let mut attributes = InstructionAttr::new(&self.features, AVX_128BIT, self.features.supports_evex(), false, true, false);
        attributes.set_rex_vex_w_reverted();
        let encode = self.simd_prefix_and_encode(dst.encoding, Some(dst.encoding), src.encoding, VEX_SIMD_F2, VEX_OPCODE_0F, &mut attributes);
        self.emit_int16(0x5E, (0xC0 | encode));
    }

    /// `divss dst, [src]`
    pub fn divss_xm(&mut self, dst: XMMRegister, src: Address)
        requires
            dst.wf(),
            src.wf(),
            ({
                let f = old(self).features;
                ({ let a1 = InstructionAttr::spec_new(f, AVX_128BIT, false, false, true, false); let a2 = a1.with_address(f, EVEX_T1S, EVEX_32BIT); (simd_adr_ok(f, a2, dst.encoding, Some(dst.encoding), src)) })
            }),
        ensures
            ({
                let f = old(self).features;
                final(self).appends(*old(self), ({ let a1 = InstructionAttr::spec_new(f, AVX_128BIT, false, false, true, false); let a2 = a1.with_address(f, EVEX_T1S, EVEX_32BIT); simd_adr_bytes(f, a2, dst.encoding, Some(dst.encoding), src, VEX_SIMD_F3, VEX_OPCODE_0F) + ({ let a3 = simd_adr_attr(f, a2, dst.encoding, Some(dst.encoding)); seq![0x5E] + address_bytes(f, Some(a3), dst.encoding, src, true) }) }))
            }),
    {
        let mut attributes = InstructionAttr::new(&self.features, AVX_128BIT, false, false, true, false);
        attributes.set_address_attributes(&self.features, EVEX_T1S, EVEX_32BIT);
        self.simd_prefix(dst.encoding, Some(dst.encoding), &src, VEX_SIMD_F3, VEX_OPCODE_0F, &mut attributes);
        self.emit_int8(0x5E);
        self.emit_operand_attr(dst.encoding, &src, &attributes, true);
    }

    /// `divss dst, src`
    pub fn divss(&mut self, dst: XMMRegister, src: XMMRegister)
        requires
            dst.wf(),
            src.wf(),
            ({
                let f = old(self).features;
                ({ let a1 = InstructionAttr::spec_new(f, AVX_128BIT, false, false, true, false); (simd_rr_ok(f, a1, dst.encoding, Some(dst.encoding), src.encoding)) })
            }),
        ensures
            ({
                let f = old(self).features;
                final(self).appends(*old(self), ({ let a1 = InstructionAttr::spec_new(f, AVX_128BIT, false, false, true, false); simd_rr_bytes(f, a1, dst.encoding, Some(dst.encoding), src.encoding, VEX_SIMD_F3, VEX_OPCODE_0F) + seq![0x5E, (0xC0 | rr_bits(dst.encoding, src.encoding))] }))
            }),
    {
        let mut attributes = InstructionAttr::new(&self.features, AVX_128BIT, false, false, true, false);
        let encode = self.simd_prefix_and_encode(dst.encoding, Some(dst.encoding), src.encoding, VEX_SIMD_F3, VEX_OPCODE_0F, &mut attributes);
        self.emit_int16(0x5E, (0xC0 | encode));
    }

    /// `movapd dst, src`
    pub fn movapd(&mut self, dst: XMMRegister, src: XMMRegister)
        requires
            dst.wf(),
            src.wf(),
            ({
                let f = old(self).features;
                ({ let vector_len = (if f.supports_avx512novl() { AVX_512BIT } else { AVX_128BIT }); let a1 = InstructionAttr::spec_new(f, vector_len, f.supports_evex(), false, true, true); let a2 = a1.reverted(); (simd_rr_ok(f, a2, dst.encoding, None, src.encoding)) })
            }),
        ensures
            ({
                let f = old(self).features;
                final(self).appends(*old(self), ({ let vector_len = (if f.supports_avx512novl() { AVX_512BIT } else { AVX_128BIT }); let a1 = InstructionAttr::spec_new(f, vector_len, f.supports_evex(), false, true, true); let a2 = a1.reverted(); simd_rr_bytes(f, a2, dst.encoding, None, src.encoding, VEX_SIMD_66, VEX_OPCODE_0F) + seq![0x28, (0xC0 | rr_bits(dst.encoding, src.encoding))] }))
            }),
    {
        let vector_len: u8 = (if self.features.supports_avx512novl() { AVX_512BIT } else { AVX_128BIT });
        let mut attributes = InstructionAttr::new(&self.features, vector_len, self.features.supports_evex(), false, true, true);
        attributes.set_rex_vex_w_reverted();
        let encode = self.simd_prefix_and_encode(dst.encoding, None, src.encoding, VEX_SIMD_66, VEX_OPCODE_0F, &mut attributes);
        self.emit_int16(0x28, (0xC0 | encode));
    }

    /// `movaps dst, src`
    pub fn movaps(&mut self, dst: XMMRegister, src: XMMRegister)
        requires
            dst.wf(),
            src.wf(),
            ({
                let f = old(self).features;
                ({ let vector_len = (if f.supports_avx512novl() { AVX_512BIT } else { AVX_128BIT }); let a1 = InstructionAttr::spec_new(f, vector_len, false, false, true, true); (simd_rr_ok(f, a1, dst.encoding, None, src.encoding)) })
            }),
        ensures
            ({
                let f = old(self).features;
                final(self).appends(*old(self), ({ let vector_len = (if f.supports_avx512novl() { AVX_512BIT } else { AVX_128BIT }); let a1 = InstructionAttr::spec_new(f, vector_len, false, false, true, true); simd_rr_bytes(f, a1, dst.encoding, None, src.encoding, VEX_SIMD_NONE, VEX_OPCODE_0F) + seq![0x28, (0xC0 | rr_bits(dst.encoding, src.encoding))] }))
            }),
    {
        let vector_len: u8 = (if self.features.supports_avx512novl() { AVX_512BIT } else { AVX_128BIT });
        let mut attributes = InstructionAttr::new(&self.features, vector_len, false, false, true, true);
        let encode = self.simd_prefix_and_encode(dst.encoding, None, src.encoding, VEX_SIMD_NONE, VEX_OPCODE_0F, &mut attributes);
        self.emit_int16(0x28, (0xC0 | encode));
    }

    /// `movlhps dst, src`
    pub fn movlhps(&mut self, dst: XMMRegister, src: XMMRegister)
        requires
            dst.wf(),
            src.wf(),
            ({
                let f = old(self).features;
                ({ let a1 = InstructionAttr::spec_new(f, AVX_128BIT, false, false, true, true); (simd_rr_ok(f, a1, dst.encoding, Some(src.encoding), src.encoding)) })
            }),
        ensures
            ({
                let f = old(self).features;
                final(self).appends(*old(self), ({ let a1 = InstructionAttr::spec_new(f, AVX_128BIT, false, false, true, true); simd_rr_bytes(f, a1, dst.encoding, Some(src.encoding), src.encoding, VEX_SIMD_NONE, VEX_OPCODE_0F) + seq![0x16, (0xC0 | rr_bits(dst.encoding, src.encoding))] }))
            }),
    {
        let mut attributes = InstructionAttr::new(&self.features, AVX_128BIT, false, false, true, true);
        let encode = self.simd_prefix_and_encode(dst.encoding, Some(src.encoding), src.encoding, VEX_SIMD_NONE, VEX_OPCODE_0F, &mut attributes);
        self.emit_int16(0x16, (0xC0 | encode));
    }

    /// `movddup dst, src`
    pub fn movddup(&mut self, dst: XMMRegister, src: XMMRegister)
        requires
            dst.wf(),
            src.wf(),
            ({
                let f = old(self).features;
                ({ let vector_len = (if f.supports_avx512novl() { AVX_512BIT } else { AVX_128BIT }); let a1 = InstructionAttr::spec_new(f, vector_len, f.supports_evex(), false, true, true); let a2 = a1.reverted(); (simd_rr_ok(f, a2, dst.encoding, None, src.encoding)) })
            }),
        ensures
            ({
                let f = old(self).features;
                final(self).appends(*old(self), ({ let vector_len = (if f.supports_avx512novl() { AVX_512BIT } else { AVX_128BIT }); let a1 = InstructionAttr::spec_new(f, vector_len, f.supports_evex(), false, true, true); let a2 = a1.reverted(); simd_rr_bytes(f, a2, dst.encoding, None, src.encoding, VEX_SIMD_F2, VEX_OPCODE_0F) + seq![0x12, (0xC0 | rr_bits(dst.encoding, src.encoding))] }))
            }),
    {
        let vector_len: u8 = (if self.features.supports_avx512novl() { AVX_512BIT } else { AVX_128BIT });
        let mut attributes = InstructionAttr::new(&self.features, vector_len, self.features.supports_evex(), false, true, true);
        attributes.set_rex_vex_w_reverted();
        let encode = self.simd_prefix_and_encode(dst.encoding, None, src.encoding, VEX_SIMD_F2, VEX_OPCODE_0F, &mut attributes);
        self.emit_int16(0x12, (0xC0 | encode));
    }

    /// `movddup dst, [src]`
    pub fn movddup_xm(&mut self, dst: XMMRegister, src: Address)
        requires
            dst.wf(),
            src.wf(),
            ({
                let f = old(self).features;
                ({ let a1 = InstructionAttr::spec_new(f, AVX_128BIT, f.supports_evex(), false, true, true); let a2 = a1.with_address(f, EVEX_DUP, EVEX_64BIT); let a3 = a2.reverted(); (simd_adr_ok(f, a3, dst.encoding, None, src)) })
            }),
        ensures
            ({
                let f = old(self).features;
                final(self).appends(*old(self), ({ let a1 = InstructionAttr::spec_new(f, AVX_128BIT, f.supports_evex(), false, true, true); let a2 = a1.with_address(f, EVEX_DUP, EVEX_64BIT); let a3 = a2.reverted(); simd_adr_bytes(f, a3, dst.encoding, None, src, VEX_SIMD_F2, VEX_OPCODE_0F) + ({ let a4 = simd_adr_attr(f, a3, dst.encoding, None); seq![0x12] + address_bytes(f, Some(a4), dst.encoding, src, true) }) }))
            }),
    {
        let mut attributes = InstructionAttr::new(&self.features, AVX_128BIT, self.features.supports_evex(), false, true, true);
        attributes.set_address_attributes(&self.features, EVEX_DUP, EVEX_64BIT);
        attributes.set_rex_vex_w_reverted();
        self.simd_prefix(dst.encoding, None, &src, VEX_SIMD_F2, VEX_OPCODE_0F, &mut attributes);
        self.emit_int8(0x12);
        self.emit_operand_attr(dst.encoding, &src, &attributes, true);
    }

    /// `vmovddup dst, [src], vector_len`
    pub fn vmovddup(&mut self, dst: XMMRegister, src: Address, vector_len: u8)
        requires
            dst.wf(),
            src.wf(),
            ({
                let f = old(self).features;
                (f.supports_avx()) && ({ let a1 = InstructionAttr::spec_new(f, vector_len, f.supports_evex(), false, true, true); let a2 = a1.with_address(f, EVEX_DUP, EVEX_64BIT); let a3 = a2.reverted(); (simd_adr_ok(f, a3, dst.encoding, None, src)) })
            }),
        ensures
            ({
                let f = old(self).features;
                final(self).appends(*old(self), ({ let a1 = InstructionAttr::spec_new(f, vector_len, f.supports_evex(), false, true, true); let a2 = a1.with_address(f, EVEX_DUP, EVEX_64BIT); let a3 = a2.reverted(); simd_adr_bytes(f, a3, dst.encoding, None, src, VEX_SIMD_F2, VEX_OPCODE_0F) + ({ let a4 = simd_adr_attr(f, a3, dst.encoding, None); seq![0x12] + address_bytes(f, Some(a4), dst.encoding, src, true) }) }))
            }),
    {
        let mut attributes = InstructionAttr::new(&self.features, vector_len, self.features.supports_evex(), false, true, true);
        attributes.set_address_attributes(&self.features, EVEX_DUP, EVEX_64BIT);
        attributes.set_rex_vex_w_reverted();
        self.simd_prefix(dst.encoding, None, &src, VEX_SIMD_F2, VEX_OPCODE_0F, &mut attributes);
        self.emit_int8(0x12);
        self.emit_operand_attr(dst.encoding, &src, &attributes, true);
    }

    /// `movdl dst, src`
    pub fn movdl(&mut self, dst: XMMRegister, src: Register)
        requires
            dst.wf(),
            src.wf(),
            ({
                let f = old(self).features;
                ({ let a1 = InstructionAttr::spec_new(f, AVX_128BIT, false, false, true, false); (simd_rr_ok(f, a1, dst.encoding, None, src.encoding)) })
            }),
        ensures
            ({
                let f = old(self).features;
                final(self).appends(*old(self), ({ let a1 = InstructionAttr::spec_new(f, AVX_128BIT, false, false, true, false); simd_rr_bytes(f, a1, dst.encoding, None, src.encoding, VEX_SIMD_66, VEX_OPCODE_0F) + seq![0x6E, (0xC0 | rr_bits(dst.encoding, src.encoding))] }))
            }),
    {
        let mut attributes = InstructionAttr::new(&self.features, AVX_128BIT, false, false, true, false);
        let encode = self.simd_prefix_and_encode(dst.encoding, None, src.encoding, VEX_SIMD_66, VEX_OPCODE_0F, &mut attributes);
        self.emit_int16(0x6E, (0xC0 | encode));
    }

    /// `movdl dst, src`
    pub fn movdl_rx(&mut self, dst: Register, src: XMMRegister)
        requires
            dst.wf(),
            src.wf(),
            ({
                let f = old(self).features;
                ({ let a1 = InstructionAttr::spec_new(f, AVX_128BIT, false, false, true, false); (simd_rr_ok(f, a1, src.encoding, None, dst.encoding)) })
            }),
        ensures
            ({
                let f = old(self).features;
                final(self).appends(*old(self), ({ let a1 = InstructionAttr::spec_new(f, AVX_128BIT, false, false, true, false); simd_rr_bytes(f, a1, src.encoding, None, dst.encoding, VEX_SIMD_66, VEX_OPCODE_0F) + seq![0x7E, (0xC0 | rr_bits(src.encoding, dst.encoding))] }))
            }),
    {
        let mut attributes = InstructionAttr::new(&self.features, AVX_128BIT, false, false, true, false);
        let encode = self.simd_prefix_and_encode(src.encoding, None, dst.encoding, VEX_SIMD_66, VEX_OPCODE_0F, &mut attributes);
        self.emit_int16(0x7E, (0xC0 | encode));
    }

    /// `movdl dst, [src]`
    pub fn movdl_xm(&mut self, dst: XMMRegister, src: Address)
        requires
            dst.wf(),
            src.wf(),
            ({
                let f = old(self).features;
                ({ let a1 = InstructionAttr::spec_new(f, AVX_128BIT, false, false, true, false); let a2 = a1.with_address(f, EVEX_T1S, EVEX_32BIT); (simd_adr_ok(f, a2, dst.encoding, None, src)) })
            }),
        ensures
            ({
                let f = old(self).features;
                final(self).appends(*old(self), ({ let a1 = InstructionAttr::spec_new(f, AVX_128BIT, false, false, true, false); let a2 = a1.with_address(f, EVEX_T1S, EVEX_32BIT); simd_adr_bytes(f, a2, dst.encoding, None, src, VEX_SIMD_66, VEX_OPCODE_0F) + ({ let a3 = simd_adr_attr(f, a2, dst.encoding, None); seq![0x6E] + address_bytes(f, Some(a3), dst.encoding, src, true) }) }))
            }),
    {
        let mut attributes = InstructionAttr::new(&self.features, AVX_128BIT, false, false, true, false);
        attributes.set_address_attributes(&self.features, EVEX_T1S, EVEX_32BIT);
        self.simd_prefix(dst.encoding, None, &src, VEX_SIMD_66, VEX_OPCODE_0F, &mut attributes);
        self.emit_int8(0x6E);
        self.emit_operand_attr(dst.encoding, &src, &attributes, true);
    }

    /// `movdl [dst], src`
    pub fn movdl_mx(&mut self, dst: Address, src: XMMRegister)
        requires
            dst.wf(),
            src.wf(),
            ({
                let f = old(self).features;
                ({ let a1 = InstructionAttr::spec_new(f, AVX_128BIT, false, false, true, false); let a2 = a1.with_address(f, EVEX_T1S, EVEX_32BIT); (simd_adr_ok(f, a2, src.encoding, None, dst)) })
            }),
        ensures
            ({
                let f = old(self).features;
                final(self).appends(*old(self), ({ let a1 = InstructionAttr::spec_new(f, AVX_128BIT, false, false, true, false); let a2 = a1.with_address(f, EVEX_T1S, EVEX_32BIT); simd_adr_bytes(f, a2, src.encoding, None, dst, VEX_SIMD_66, VEX_OPCODE_0F) + ({ let a3 = simd_adr_attr(f, a2, src.encoding, None); seq![0x7E] + address_bytes(f, Some(a3), src.encoding, dst, true) }) }))
            }),
    {
        let mut attributes = InstructionAttr::new(&self.features, AVX_128BIT, false, false, true, false);
        attributes.set_address_attributes(&self.features, EVEX_T1S, EVEX_32BIT);
        self.simd_prefix(src.encoding, None, &dst, VEX_SIMD_66, VEX_OPCODE_0F, &mut attributes);
        self.emit_int8(0x7E);
        self.emit_operand_attr(src.encoding, &dst, &attributes, true);
    }

    /// `movdqa dst, src`
    pub fn movdqa(&mut self, dst: XMMRegister, src: XMMRegister)
        requires
            dst.wf(),
            src.wf(),
            ({
                let f = old(self).features;
                ({ let a1 = InstructionAttr::spec_new(f, AVX_128BIT, false, false, true, true); (simd_rr_ok(f, a1, dst.encoding, None, src.encoding)) })
            }),
        ensures
            ({
                let f = old(self).features;
                final(self).appends(*old(self), ({ let a1 = InstructionAttr::spec_new(f, AVX_128BIT, false, false, true, true); simd_rr_bytes(f, a1, dst.encoding, None, src.encoding, VEX_SIMD_66, VEX_OPCODE_0F) + seq![0x6F, (0xC0 | rr_bits(dst.encoding, src.encoding))] }))
            }),
    {
        let mut attributes = InstructionAttr::new(&self.features, AVX_128BIT, false, false, true, true);
        let encode = self.simd_prefix_and_encode(dst.encoding, None, src.encoding, VEX_SIMD_66, VEX_OPCODE_0F, &mut attributes);
        self.emit_int16(0x6F, (0xC0 | encode));
    }

    /// `movdqa dst, [src]`
    pub fn movdqa_xm(&mut self, dst: XMMRegister, src: Address)
        requires
            dst.wf(),
            src.wf(),
            ({
                let f = old(self).features;
                ({ let a1 = InstructionAttr::spec_new(f, AVX_128BIT, false, false, true, true); let a2 = a1.with_address(f, EVEX_FVM, EVEX_NOBIT); (simd_adr_ok(f, a2, dst.encoding, None, src)) })
            }),
        ensures
            ({
                let f = old(self).features;
                final(self).appends(*old(self), ({ let a1 = InstructionAttr::spec_new(f, AVX_128BIT, false, false, true, true); let a2 = a1.with_address(f, EVEX_FVM, EVEX_NOBIT); simd_adr_bytes(f, a2, dst.encoding, None, src, VEX_SIMD_66, VEX_OPCODE_0F) + ({ let a3 = simd_adr_attr(f, a2, dst.encoding, None); seq![0x6F] + address_bytes(f, Some(a3), dst.encoding, src, true) }) }))
            }),
    {
        let mut attributes = InstructionAttr::new(&self.features, AVX_128BIT, false, false, true, true);
        attributes.set_address_attributes(&self.features, EVEX_FVM, EVEX_NOBIT);
        self.simd_prefix(dst.encoding, None, &src, VEX_SIMD_66, VEX_OPCODE_0F, &mut attributes);
        self.emit_int8(0x6F);
        self.emit_operand_attr(dst.encoding, &src, &attributes, true);
    }

    /// `movdqu dst, [src]`
    pub fn movdqu_xm(&mut self, dst: XMMRegister, src: Address)
        requires
            dst.wf(),
            src.wf(),
            ({
                let f = old(self).features;
                ({ let a1 = InstructionAttr::spec_new(f, AVX_128BIT, false, false, true, true); let a2 = a1.with_address(f, EVEX_FVM, EVEX_NOBIT); (simd_adr_ok(f, a2, dst.encoding, None, src)) })
            }),
        ensures
            ({
                let f = old(self).features;
                final(self).appends(*old(self), ({ let a1 = InstructionAttr::spec_new(f, AVX_128BIT, false, false, true, true); let a2 = a1.with_address(f, EVEX_FVM, EVEX_NOBIT); simd_adr_bytes(f, a2, dst.encoding, None, src, VEX_SIMD_F3, VEX_OPCODE_0F) + ({ let a3 = simd_adr_attr(f, a2, dst.encoding, None); seq![0x6F] + address_bytes(f, Some(a3), dst.encoding, src, true) }) }))
            }),
    {
        let mut attributes = InstructionAttr::new(&self.features, AVX_128BIT, false, false, true, true);
        attributes.set_address_attributes(&self.features, EVEX_FVM, EVEX_NOBIT);
        self.simd_prefix(dst.encoding, None, &src, VEX_SIMD_F3, VEX_OPCODE_0F, &mut attributes);
        self.emit_int8(0x6F);
        self.emit_operand_attr(dst.encoding, &src, &attributes, true);
    }

    /// `movdqu dst, src`
    pub fn movdqu(&mut self, dst: XMMRegister, src: XMMRegister)
        requires
            dst.wf(),
            src.wf(),
            ({
                let f = old(self).features;
                ({ let a1 = InstructionAttr::spec_new(f, AVX_128BIT, false, false, true, true); (simd_rr_ok(f, a1, dst.encoding, None, src.encoding)) })
            }),
        ensures
            ({
                let f = old(self).features;
                final(self).appends(*old(self), ({ let a1 = InstructionAttr::spec_new(f, AVX_128BIT, false, false, true, true); simd_rr_bytes(f, a1, dst.encoding, None, src.encoding, VEX_SIMD_F3, VEX_OPCODE_0F) + seq![0x6F, (0xC0 | rr_bits(dst.encoding, src.encoding))] }))
            }),
    {
        let mut attributes = InstructionAttr::new(&self.features, AVX_128BIT, false, false, true, true);
        let encode = self.simd_prefix_and_encode(dst.encoding, None, src.encoding, VEX_SIMD_F3, VEX_OPCODE_0F, &mut attributes);
        self.emit_int16(0x6F, (0xC0 | encode));
    }

    /// `movdqu [dst], src`
    pub fn movdqu_mx(&mut self, dst: Address, src: XMMRegister)
        requires
            dst.wf(),
            src.wf(),
            ({
                let f = old(self).features;
                ({ let a1 = InstructionAttr::spec_new(f, AVX_128BIT, false, false, true, true); let a2 = a1.with_address(f, EVEX_FVM, EVEX_NOBIT); let a3 = a2.merging(); (simd_adr_ok(f, a3, src.encoding, None, dst)) })
            }),
        ensures
            ({
                let f = old(self).features;
                final(self).appends(*old(self), ({ let a1 = InstructionAttr::spec_new(f, AVX_128BIT, false, false, true, true); let a2 = a1.with_address(f, EVEX_FVM, EVEX_NOBIT); let a3 = a2.merging(); simd_adr_bytes(f, a3, src.encoding, None, dst, VEX_SIMD_F3, VEX_OPCODE_0F) + ({ let a4 = simd_adr_attr(f, a3, src.encoding, None); seq![0x7F] + address_bytes(f, Some(a4), src.encoding, dst, true) }) }))
            }),
    {
        let mut attributes = InstructionAttr::new(&self.features, AVX_128BIT, false, false, true, true);
        attributes.set_address_attributes(&self.features, EVEX_FVM, EVEX_NOBIT);
        attributes.reset_is_clear_context();
        self.simd_prefix(src.encoding, None, &dst, VEX_SIMD_F3, VEX_OPCODE_0F, &mut attributes);
        self.emit_int8(0x7F);
        self.emit_operand_attr(src.encoding, &dst, &attributes, true);
    }

    /// `movlpd dst, [src]`
    pub fn movlpd(&mut self, dst: XMMRegister, src: Address)
        requires
            dst.wf(),
            src.wf(),
            ({
                let f = old(self).features;
                ({ let a1 = InstructionAttr::spec_new(f, AVX_128BIT, f.supports_evex(), false, true, true); let a2 = a1.with_address(f, EVEX_T1S, EVEX_64BIT); let a3 = a2.reverted(); (simd_adr_ok(f, a3, dst.encoding, Some(dst.encoding), src)) })
            }),
        ensures
            ({
                let f = old(self).features;
                final(self).appends(*old(self), ({ let a1 = InstructionAttr::spec_new(f, AVX_128BIT, f.supports_evex(), false, true, true); let a2 = a1.with_address(f, EVEX_T1S, EVEX_64BIT); let a3 = a2.reverted(); simd_adr_bytes(f, a3, dst.encoding, Some(dst.encoding), src, VEX_SIMD_66, VEX_OPCODE_0F) + ({ let a4 = simd_adr_attr(f, a3, dst.encoding, Some(dst.encoding)); seq![0x12] + address_bytes(f, Some(a4), dst.encoding, src, true) }) }))
            }),
    {
        let mut attributes = InstructionAttr::new(&self.features, AVX_128BIT, self.features.supports_evex(), false, true, true);
        attributes.set_address_attributes(&self.features, EVEX_T1S, EVEX_64BIT);
        attributes.set_rex_vex_w_reverted();
        self.simd_prefix(dst.encoding, Some(dst.encoding), &src, VEX_SIMD_66, VEX_OPCODE_0F, &mut attributes);
        self.emit_int8(0x12);
        self.emit_operand_attr(dst.encoding, &src, &attributes, true);
    }

    /// `movq dst, [src]`
    pub fn movq_xm(&mut self, dst: XMMRegister, src: Address)
        requires
            dst.wf(),
            src.wf(),
            ({
                let f = old(self).features;
                ({ let a1 = InstructionAttr::spec_new(f, AVX_128BIT, f.supports_evex(), false, true, false); let a2 = a1.with_address(f, EVEX_T1S, EVEX_64BIT); let a3 = a2.reverted(); (simd_adr_ok(f, a3, dst.encoding, None, src)) })
            }),
        ensures
            ({
                let f = old(self).features;
                final(self).appends(*old(self), ({ let a1 = InstructionAttr::spec_new(f, AVX_128BIT, f.supports_evex(), false, true, false); let a2 = a1.with_address(f, EVEX_T1S, EVEX_64BIT); let a3 = a2.reverted(); simd_adr_bytes(f, a3, dst.encoding, None, src, VEX_SIMD_F3, VEX_OPCODE_0F) + ({ let a4 = simd_adr_attr(f, a3, dst.encoding, None); seq![0x7E] + address_bytes(f, Some(a4), dst.encoding, src, true) }) }))
            }),
    {
        let mut attributes = InstructionAttr::new(&self.features, AVX_128BIT, self.features.supports_evex(), false, true, false);
        attributes.set_address_attributes(&self.features, EVEX_T1S, EVEX_64BIT);
        attributes.set_rex_vex_w_reverted();
        self.simd_prefix(dst.encoding, None, &src, VEX_SIMD_F3, VEX_OPCODE_0F, &mut attributes);
        self.emit_int8(0x7E);
        self.emit_operand_attr(dst.encoding, &src, &attributes, true);
    }

    /// `movq [dst], src`
    pub fn movq_mx(&mut self, dst: Address, src: XMMRegister)
        requires
            dst.wf(),
            src.wf(),
            ({
                let f = old(self).features;
                ({ let a1 = InstructionAttr::spec_new(f, AVX_128BIT, f.supports_evex(), false, true, false); let a2 = a1.with_address(f, EVEX_T1S, EVEX_64BIT); let a3 = a2.reverted(); (simd_adr_ok(f, a3, src.encoding, None, dst)) })
            }),
        ensures
            ({
                let f = old(self).features;
                final(self).appends(*old(self), ({ let a1 = InstructionAttr::spec_new(f, AVX_128BIT, f.supports_evex(), false, true, false); let a2 = a1.with_address(f, EVEX_T1S, EVEX_64BIT); let a3 = a2.reverted(); simd_adr_bytes(f, a3, src.encoding, None, dst, VEX_SIMD_66, VEX_OPCODE_0F) + ({ let a4 = simd_adr_attr(f, a3, src.encoding, None); seq![0xD6] + address_bytes(f, Some(a4), src.encoding, dst, true) }) }))
            }),
    {
        let mut attributes = InstructionAttr::new(&self.features, AVX_128BIT, self.features.supports_evex(), false, true, false);
        attributes.set_address_attributes(&self.features, EVEX_T1S, EVEX_64BIT);
        attributes.set_rex_vex_w_reverted();
        self.simd_prefix(src.encoding, None, &dst, VEX_SIMD_66, VEX_OPCODE_0F, &mut attributes);
        self.emit_int8(0xD6);
        self.emit_operand_attr(src.encoding, &dst, &attributes, true);
    }

    /// `movq dst, src`
    pub fn movq(&mut self, dst: XMMRegister, src: XMMRegister)
        requires
            dst.wf(),
            src.wf(),
            ({
                let f = old(self).features;
                ({ let a1 = InstructionAttr::spec_new(f, AVX_128BIT, f.supports_evex(), false, true, false); let a2 = a1.reverted(); (simd_rr_ok(f, a2, src.encoding, None, dst.encoding)) })
            }),
        ensures
            ({
                let f = old(self).features;
                final(self).appends(*old(self), ({ let a1 = InstructionAttr::spec_new(f, AVX_128BIT, f.supports_evex(), false, true, false); let a2 = a1.reverted(); simd_rr_bytes(f, a2, src.encoding, None, dst.encoding, VEX_SIMD_66, VEX_OPCODE_0F) + seq![0xD6, (0xC0 | rr_bits(src.encoding, dst.encoding))] }))
            }),
    {
        let mut attributes = InstructionAttr::new(&self.features, AVX_128BIT, self.features.supports_evex(), false, true, false);
        attributes.set_rex_vex_w_reverted();
        let encode = self.simd_prefix_and_encode(src.encoding, None, dst.encoding, VEX_SIMD_66, VEX_OPCODE_0F, &mut attributes);
        self.emit_int16(0xD6, (0xC0 | encode));
    }

    /// `movq dst, src`
    pub fn movq_rx(&mut self, dst: Register, src: XMMRegister)
        requires
            dst.wf(),
            src.wf(),
            ({
                let f = old(self).features;
                ({ let a1 = InstructionAttr::spec_new(f, AVX_128BIT, true, false, true, false); (simd_rr_ok(f, a1, src.encoding, None, dst.encoding)) })
            }),
        ensures
            ({
                let f = old(self).features;
                final(self).appends(*old(self), ({ let a1 = InstructionAttr::spec_new(f, AVX_128BIT, true, false, true, false); simd_rr_bytes(f, a1, src.encoding, None, dst.encoding, VEX_SIMD_66, VEX_OPCODE_0F) + seq![0x7E, (0xC0 | rr_bits(src.encoding, dst.encoding))] }))
            }),
    {
        let mut attributes = InstructionAttr::new(&self.features, AVX_128BIT, true, false, true, false);
        let encode = self.simd_prefix_and_encode(src.encoding, None, dst.encoding, VEX_SIMD_66, VEX_OPCODE_0F, &mut attributes);
        self.emit_int16(0x7E, (0xC0 | encode));
    }

    /// `movq dst, src`
    pub fn movq_xr(&mut self, dst: XMMRegister, src: Register)
        requires
            dst.wf(),
            src.wf(),
            ({
                let f = old(self).features;
                ({ let a1 = InstructionAttr::spec_new(f, AVX_128BIT, true, false, true, false); (simd_rr_ok(f, a1, dst.encoding, None, src.encoding)) })
            }),
        ensures
            ({
                let f = old(self).features;
                final(self).appends(*old(self), ({ let a1 = InstructionAttr::spec_new(f, AVX_128BIT, true, false, true, false); simd_rr_bytes(f, a1, dst.encoding, None, src.encoding, VEX_SIMD_66, VEX_OPCODE_0F) + seq![0x6E, (0xC0 | rr_bits(dst.encoding, src.encoding))] }))
            }),
    {
        let mut attributes = InstructionAttr::new(&self.features, AVX_128BIT, true, false, true, false);
        let encode = self.simd_prefix_and_encode(dst.encoding, None, src.encoding, VEX_SIMD_66, VEX_OPCODE_0F, &mut attributes);
        self.emit_int16(0x6E, (0xC0 | encode));
    }

    /// `movsd dst, src`
    pub fn movsd(&mut self, dst: XMMRegister, src: XMMRegister)
        requires
            dst.wf(),
            src.wf(),
            ({
                let f = old(self).features;
                ({ let a1 = InstructionAttr::spec_new(f, AVX_128BIT, f.supports_evex(), false, true, false); let a2 = a1.reverted(); (simd_rr_ok(f, a2, dst.encoding, Some(dst.encoding), src.encoding)) })
            }),
        ensures
            ({
                let f = old(self).features;
                final(self).appends(*old(self), ({ let a1 = InstructionAttr::spec_new(f, AVX_128BIT, f.supports_evex(), false, true, false); let a2 = a1.reverted(); simd_rr_bytes(f, a2, dst.encoding, Some(dst.encoding), src.encoding, VEX_SIMD_F2, VEX_OPCODE_0F) + seq![0x10, (0xC0 | rr_bits(dst.encoding, src.encoding))] }))
            }),
    {
        let mut attributes = InstructionAttr::new(&self.features, AVX_128BIT, self.features.supports_evex(), false, true, false);
        attributes.set_rex_vex_w_reverted();
        let encode = self.simd_prefix_and_encode(dst.encoding, Some(dst.encoding), src.encoding, VEX_SIMD_F2, VEX_OPCODE_0F, &mut attributes);
        self.emit_int16(0x10, (0xC0 | encode));
    }

    /// `movsd dst, [src]`
    pub fn movsd_xm(&mut self, dst: XMMRegister, src: Address)
        requires
            dst.wf(),
            src.wf(),
            ({
                let f = old(self).features;
                ({ let a1 = InstructionAttr::spec_new(f, AVX_128BIT, f.supports_evex(), false, true, false); let a2 = a1.with_address(f, EVEX_T1S, EVEX_64BIT); let a3 = a2.reverted(); (simd_adr_ok(f, a3, dst.encoding, None, src)) })
            }),
        ensures
            ({
                let f = old(self).features;
                final(self).appends(*old(self), ({ let a1 = InstructionAttr::spec_new(f, AVX_128BIT, f.supports_evex(), false, true, false); let a2 = a1.with_address(f, EVEX_T1S, EVEX_64BIT); let a3 = a2.reverted(); simd_adr_bytes(f, a3, dst.encoding, None, src, VEX_SIMD_F2, VEX_OPCODE_0F) + ({ let a4 = simd_adr_attr(f, a3, dst.encoding, None); seq![0x10] + address_bytes(f, Some(a4), dst.encoding, src, true) }) }))
            }),
    {
        let mut attributes = InstructionAttr::new(&self.features, AVX_128BIT, self.features.supports_evex(), false, true, false);
        attributes.set_address_attributes(&self.features, EVEX_T1S, EVEX_64BIT);
        attributes.set_rex_vex_w_reverted();
        self.simd_prefix(dst.encoding, None, &src, VEX_SIMD_F2, VEX_OPCODE_0F, &mut attributes);
        self.emit_int8(0x10);
        self.emit_operand_attr(dst.encoding, &src, &attributes, true);
    }

    /// `movsd [dst], src`
    pub fn movsd_mx(&mut self, dst: Address, src: XMMRegister)
        requires
            dst.wf(),
            src.wf(),
            ({
                let f = old(self).features;
                ({ let a1 = InstructionAttr::spec_new(f, AVX_128BIT, f.supports_evex(), false, true, false); let a2 = a1.with_address(f, EVEX_T1S, EVEX_64BIT); let a3 = a2.merging(); let a4 = a3.reverted(); (simd_adr_ok(f, a4, src.encoding, None, dst)) })
            }),
        ensures
            ({
                let f = old(self).features;
                final(self).appends(*old(self), ({ let a1 = InstructionAttr::spec_new(f, AVX_128BIT, f.supports_evex(), false, true, false); let a2 = a1.with_address(f, EVEX_T1S, EVEX_64BIT); let a3 = a2.merging(); let a4 = a3.reverted(); simd_adr_bytes(f, a4, src.encoding, None, dst, VEX_SIMD_F2, VEX_OPCODE_0F) + ({ let a5 = simd_adr_attr(f, a4, src.encoding, None); seq![0x11] + address_bytes(f, Some(a5), src.encoding, dst, true) }) }))
            }),
    {
        let mut attributes = InstructionAttr::new(&self.features, AVX_128BIT, self.features.supports_evex(), false, true, false);
        attributes.set_address_attributes(&self.features, EVEX_T1S, EVEX_64BIT);
        attributes.reset_is_clear_context();
        attributes.set_rex_vex_w_reverted();
        self.simd_prefix(src.encoding, None, &dst, VEX_SIMD_F2, VEX_OPCODE_0F, &mut attributes);
        self.emit_int8(0x11);
        self.emit_operand_attr(src.encoding, &dst, &attributes, true);
    }

    /// `movss dst, src`
    pub fn movss(&mut self, dst: XMMRegister, src: XMMRegister)
        requires
            dst.wf(),
            src.wf(),
            ({
                let f = old(self).features;
                ({ let a1 = InstructionAttr::spec_new(f, AVX_128BIT, false, false, true, false); (simd_rr_ok(f, a1, dst.encoding, Some(dst.encoding), src.encoding)) })
            }),
        ensures
            ({
                let f = old(self).features;
                final(self).appends(*old(self), ({ let a1 = InstructionAttr::spec_new(f, AVX_128BIT, false, false, true, false); simd_rr_bytes(f, a1, dst.encoding, Some(dst.encoding), src.encoding, VEX_SIMD_F3, VEX_OPCODE_0F) + seq![0x10, (0xC0 | rr_bits(dst.encoding, src.encoding))] }))
            }),
    {
        let mut attributes = InstructionAttr::new(&self.features, AVX_128BIT, false, false, true, false);
        let encode = self.simd_prefix_and_encode(dst.encoding, Some(dst.encoding), src.encoding, VEX_SIMD_F3, VEX_OPCODE_0F, &mut attributes);
        self.emit_int16(0x10, (0xC0 | encode));
    }

    /// `movss dst, [src]`
    pub fn movss_xm(&mut self, dst: XMMRegister, src: Address)
        requires
            dst.wf(),
            src.wf(),
            ({
                let f = old(self).features;
                ({ let a1 = InstructionAttr::spec_new(f, AVX_128BIT, false, false, true, false); let a2 = a1.with_address(f, EVEX_T1S, EVEX_32BIT); (simd_adr_ok(f, a2, dst.encoding, None, src)) })
            }),
        ensures
            ({
                let f = old(self).features;
                final(self).appends(*old(self), ({ let a1 = InstructionAttr::spec_new(f, AVX_128BIT, false, false, true, false); let a2 = a1.with_address(f, EVEX_T1S, EVEX_32BIT); simd_adr_bytes(f, a2, dst.encoding, None, src, VEX_SIMD_F3, VEX_OPCODE_0F) + ({ let a3 = simd_adr_attr(f, a2, dst.encoding, None); seq![0x10] + address_bytes(f, Some(a3), dst.encoding, src, true) }) }))
            }),
    {
        let mut attributes = InstructionAttr::new(&self.features, AVX_128BIT, false, false, true, false);
        attributes.set_address_attributes(&self.features, EVEX_T1S, EVEX_32BIT);
        self.simd_prefix(dst.encoding, None, &src, VEX_SIMD_F3, VEX_OPCODE_0F, &mut attributes);
        self.emit_int8(0x10);
        self.emit_operand_attr(dst.encoding, &src, &attributes, true);
    }

    /// `movss [dst], src`
    pub fn movss_mx(&mut self, dst: Address, src: XMMRegister)
        requires
            dst.wf(),
            src.wf(),
            ({
                let f = old(self).features;
                ({ let a1 = InstructionAttr::spec_new(f, AVX_128BIT, false, false, true, false); let a2 = a1.with_address(f, EVEX_T1S, EVEX_32BIT); let a3 = a2.merging(); (simd_adr_ok(f, a3, src.encoding, None, dst)) })
            }),
        ensures
            ({
                let f = old(self).features;
                final(self).appends(*old(self), ({ let a1 = InstructionAttr::spec_new(f, AVX_128BIT, false, false, true, false); let a2 = a1.with_address(f, EVEX_T1S, EVEX_32BIT); let a3 = a2.merging(); simd_adr_bytes(f, a3, src.encoding, None, dst, VEX_SIMD_F3, VEX_OPCODE_0F) + ({ let a4 = simd_adr_attr(f, a3, src.encoding, None); seq![0x11] + address_bytes(f, Some(a4), src.encoding, dst, true) }) }))
            }),
    {
        let mut attributes = InstructionAttr::new(&self.features, AVX_128BIT, false, false, true, false);
        attributes.set_address_attributes(&self.features, EVEX_T1S, EVEX_32BIT);
        attributes.reset_is_clear_context();
        self.simd_prefix(src.encoding, None, &dst, VEX_SIMD_F3, VEX_OPCODE_0F, &mut attributes);
        self.emit_int8(0x11);
        self.emit_operand_attr(src.encoding, &dst, &attributes, true);
    }

    /// `movups dst, [src]`
    pub fn movups(&mut self, dst: XMMRegister, src: Address)
        requires
            dst.wf(),
            src.wf(),
            ({
                let f = old(self).features;
                ({ let a1 = InstructionAttr::spec_new(f, AVX_128BIT, false, false, true, true); let a2 = a1.with_address(f, EVEX_FVM, EVEX_32BIT); (simd_adr_ok(f, a2, dst.encoding, None, src)) })
            }),
        ensures
            ({
                let f = old(self).features;
                final(self).appends(*old(self), ({ let a1 = InstructionAttr::spec_new(f, AVX_128BIT, false, false, true, true); let a2 = a1.with_address(f, EVEX_FVM, EVEX_32BIT); simd_adr_bytes(f, a2, dst.encoding, None, src, VEX_SIMD_NONE, VEX_OPCODE_0F) + ({ let a3 = simd_adr_attr(f, a2, dst.encoding, None); seq![0x10] + address_bytes(f, Some(a3), dst.encoding, src, true) }) }))
            }),
    {
        let mut attributes = InstructionAttr::new(&self.features, AVX_128BIT, false, false, true, true);
        attributes.set_address_attributes(&self.features, EVEX_FVM, EVEX_32BIT);
        self.simd_prefix(dst.encoding, None, &src, VEX_SIMD_NONE, VEX_OPCODE_0F, &mut attributes);
        self.emit_int8(0x10);
        self.emit_operand_attr(dst.encoding, &src, &attributes, true);
    }

    /// `vmovups dst, [src], vector_len`
    pub fn vmovups(&mut self, dst: XMMRegister, src: Address, vector_len: u8)
        requires
            dst.wf(),
            src.wf(),
            ({
                let f = old(self).features;
                (if (vector_len == AVX_512BIT) { f.supports_evex() } else { f.supports_avx() }) && ({ let a1 = InstructionAttr::spec_new(f, vector_len, false, false, true, true); let a2 = a1.with_address(f, EVEX_FVM, EVEX_32BIT); (simd_adr_ok(f, a2, dst.encoding, None, src)) })
            }),
        ensures
            ({
                let f = old(self).features;
                final(self).appends(*old(self), ({ let a1 = InstructionAttr::spec_new(f, vector_len, false, false, true, true); let a2 = a1.with_address(f, EVEX_FVM, EVEX_32BIT); simd_adr_bytes(f, a2, dst.encoding, None, src, VEX_SIMD_NONE, VEX_OPCODE_0F) + ({ let a3 = simd_adr_attr(f, a2, dst.encoding, None); seq![0x10] + address_bytes(f, Some(a3), dst.encoding, src, true) }) }))
            }),
    {
        let mut attributes = InstructionAttr::new(&self.features, vector_len, false, false, true, true);
        attributes.set_address_attributes(&self.features, EVEX_FVM, EVEX_32BIT);
        self.simd_prefix(dst.encoding, None, &src, VEX_SIMD_NONE, VEX_OPCODE_0F, &mut attributes);
        self.emit_int8(0x10);
        self.emit_operand_attr(dst.encoding, &src, &attributes, true);
    }

    /// `movups [dst], src`
    pub fn movups_mx(&mut self, dst: Address, src: XMMRegister)
        requires
            dst.wf(),
            src.wf(),
            ({
                let f = old(self).features;
                ({ let a1 = InstructionAttr::spec_new(f, AVX_128BIT, false, false, true, true); let a2 = a1.with_address(f, EVEX_FVM, EVEX_32BIT); (simd_adr_ok(f, a2, src.encoding, None, dst)) })
            }),
        ensures
            ({
                let f = old(self).features;
                final(self).appends(*old(self), ({ let a1 = InstructionAttr::spec_new(f, AVX_128BIT, false, false, true, true); let a2 = a1.with_address(f, EVEX_FVM, EVEX_32BIT); simd_adr_bytes(f, a2, src.encoding, None, dst, VEX_SIMD_NONE, VEX_OPCODE_0F) + ({ let a3 = simd_adr_attr(f, a2, src.encoding, None); seq![0x11] + address_bytes(f, Some(a3), src.encoding, dst, true) }) }))
            }),
    {
        let mut attributes = InstructionAttr::new(&self.features, AVX_128BIT, false, false, true, true);
        attributes.set_address_attributes(&self.features, EVEX_FVM, EVEX_32BIT);
        self.simd_prefix(src.encoding, None, &dst, VEX_SIMD_NONE, VEX_OPCODE_0F, &mut attributes);
        self.emit_int8(0x11);
        self.emit_operand_attr(src.encoding, &dst, &attributes, true);
    }

    /// `vmovups [dst], src, vector_len`
    pub fn vmovups_mx(&mut self, dst: Address, src: XMMRegister, vector_len: u8)
        requires
            dst.wf(),
            src.wf(),
            ({
                let f = old(self).features;
                (if (vector_len == AVX_512BIT) { f.supports_evex() } else { f.supports_avx() }) && ({ let a1 = InstructionAttr::spec_new(f, vector_len, false, false, true, true); let a2 = a1.with_address(f, EVEX_FVM, EVEX_32BIT); (simd_adr_ok(f, a2, src.encoding, None, dst)) })
            }),
        ensures
            ({
                let f = old(self).features;
                final(self).appends(*old(self), ({ let a1 = InstructionAttr::spec_new(f, vector_len, false, false, true, true); let a2 = a1.with_address(f, EVEX_FVM, EVEX_32BIT); simd_adr_bytes(f, a2, src.encoding, None, dst, VEX_SIMD_NONE, VEX_OPCODE_0F) + ({ let a3 = simd_adr_attr(f, a2, src.encoding, None); seq![0x11] + address_bytes(f, Some(a3), src.encoding, dst, true) }) }))
            }),
    {
        let mut attributes = InstructionAttr::new(&self.features, vector_len, false, false, true, true);
        attributes.set_address_attributes(&self.features, EVEX_FVM, EVEX_32BIT);
        self.simd_prefix(src.encoding, None, &dst, VEX_SIMD_NONE, VEX_OPCODE_0F, &mut attributes);
        self.emit_int8(0x11);
        self.emit_operand_attr(src.encoding, &dst, &attributes, true);
    }

    /// `mulsd dst, [src]`
    pub fn mulsd_xm(&mut self, dst: XMMRegister, src: Address)
        requires
            dst.wf(),
            src.wf(),
            ({
                let f = old(self).features;
                ({ let a1 = InstructionAttr::spec_new(f, AVX_128BIT, f.supports_evex(), false, true, false); let a2 = a1.with_address(f, EVEX_T1S, EVEX_64BIT); let a3 = a2.reverted(); (simd_adr_ok(f, a3, dst.encoding, Some(dst.encoding), src)) })
            }),
        ensures
            ({
                let f = old(self).features;
                final(self).appends(*old(self), ({ let a1 = InstructionAttr::spec_new(f, AVX_128BIT, f.supports_evex(), false, true, false); let a2 = a1.with_address(f, EVEX_T1S, EVEX_64BIT); let a3 = a2.reverted(); simd_adr_bytes(f, a3, dst.encoding, Some(dst.encoding), src, VEX_SIMD_F2, VEX_OPCODE_0F) + ({ let a4 = simd_adr_attr(f, a3, dst.encoding, Some(dst.encoding)); seq![0x59] + address_bytes(f, Some(a4), dst.encoding, src, true) }) }))
            }),
    {
        let mut attributes = InstructionAttr::new(&self.features, AVX_128BIT, self.features.supports_evex(), false, true, false);
        attributes.set_address_attributes(&self.features, EVEX_T1S, EVEX_64BIT);
        attributes.set_rex_vex_w_reverted();
        self.simd_prefix(dst.encoding, Some(dst.encoding), &src, VEX_SIMD_F2, VEX_OPCODE_0F, &mut attributes);
        self.emit_int8(0x59);
        self.emit_operand_attr(dst.encoding, &src, &attributes, true);
    }

    /// `mulsd dst, src`
    pub fn mulsd(&mut self, dst: XMMRegister, src: XMMRegister)
        requires
            dst.wf(),
            src.wf(),
            ({
                let f = old(self).features;
                ({ let a1 = InstructionAttr::spec_new(f, AVX_128BIT, f.supports_evex(), false, true, false); let a2 = a1.reverted(); (simd_rr_ok(f, a2, dst.encoding, Some(dst.encoding), src.encoding)) })
            }),
        ensures
            ({
                let f = old(self).features;
                final(self).appends(*old(self), ({ let a1 = InstructionAttr::spec_new(f, AVX_128BIT, f.supports_evex(), false, true, false); let a2 = a1.reverted(); simd_rr_bytes(f, a2, dst.encoding, Some(dst.encoding), src.encoding, VEX_SIMD_F2, VEX_OPCODE_0F) + seq![0x59, (0xC0 | rr_bits(dst.encoding, src.encoding))] }))
            }),
    {
        let mut attributes = InstructionAttr::new(&self.features, AVX_128BIT, self.features.supports_evex(), false, true, false);
        attributes.set_rex_vex_w_reverted();
        let encode = self.simd_prefix_and_encode(dst.encoding, Some(dst.encoding), src.encoding, VEX_SIMD_F2, VEX_OPCODE_0F, &mut attributes);
        self.emit_int16(0x59, (0xC0 | encode));
    }

    /// `mulss dst, [src]`
    pub fn mulss_xm(&mut self, dst: XMMRegister, src: Address)
        requires
            dst.wf(),
            src.wf(),
            ({
                let f = old(self).features;
                ({ let a1 = InstructionAttr::spec_new(f, AVX_128BIT, false, false, true, false); let a2 = a1.with_address(f, EVEX_T1S, EVEX_32BIT); (simd_adr_ok(f, a2, dst.encoding, Some(dst.encoding), src)) })
            }),
        ensures
            ({
                let f = old(self).features;
                final(self).appends(*old(self), ({ let a1 = InstructionAttr::spec_new(f, AVX_128BIT, false, false, true, false); let a2 = a1.with_address(f, EVEX_T1S, EVEX_32BIT); simd_adr_bytes(f, a2, dst.encoding, Some(dst.encoding), src, VEX_SIMD_F3, VEX_OPCODE_0F) + ({ let a3 = simd_adr_attr(f, a2, dst.encoding, Some(dst.encoding)); seq![0x59] + address_bytes(f, Some(a3), dst.encoding, src, true) }) }))
            }),
    {
        let mut attributes = InstructionAttr::new(&self.features, AVX_128BIT, false, false, true, false);
        attributes.set_address_attributes(&self.features, EVEX_T1S, EVEX_32BIT);
        self.simd_prefix(dst.encoding, Some(dst.encoding), &src, VEX_SIMD_F3, VEX_OPCODE_0F, &mut attributes);
        self.emit_int8(0x59);
        self.emit_operand_attr(dst.encoding, &src, &attributes, true);
    }

    /// `mulss dst, src`
    pub fn mulss(&mut self, dst: XMMRegister, src: XMMRegister)
        requires
            dst.wf(),
            src.wf(),
            ({
                let f = old(self).features;
                ({ let a1 = InstructionAttr::spec_new(f, AVX_128BIT, false, false, true, false); (simd_rr_ok(f, a1, dst.encoding, Some(dst.encoding), src.encoding)) })
            }),
        ensures
            ({
                let f = old(self).features;
                final(self).appends(*old(self), ({ let a1 = InstructionAttr::spec_new(f, AVX_128BIT, false, false, true, false); simd_rr_bytes(f, a1, dst.encoding, Some(dst.encoding), src.encoding, VEX_SIMD_F3, VEX_OPCODE_0F) + seq![0x59, (0xC0 | rr_bits(dst.encoding, src.encoding))] }))
            }),
    {
        let mut attributes = InstructionAttr::new(&self.features, AVX_128BIT, false, false, true, false);
        let encode = self.simd_prefix_and_encode(dst.encoding, Some(dst.encoding), src.encoding, VEX_SIMD_F3, VEX_OPCODE_0F, &mut attributes);
        self.emit_int16(0x59, (0xC0 | encode));
    }

    /// `packsswb dst, src`
    pub fn packsswb(&mut self, dst: XMMRegister, src: XMMRegister)
        requires
            dst.wf(),
            src.wf(),
            ({
                let f = old(self).features;
                ({ let a1 = InstructionAttr::spec_new(f, AVX_128BIT, false, f.legacy_mode_bw(), true, true); (simd_rr_ok(f, a1, dst.encoding, Some(dst.encoding), src.encoding)) })
            }),
        ensures
            ({
                let f = old(self).features;
                final(self).appends(*old(self), ({ let a1 = InstructionAttr::spec_new(f, AVX_128BIT, false, f.legacy_mode_bw(), true, true); simd_rr_bytes(f, a1, dst.encoding, Some(dst.encoding), src.encoding, VEX_SIMD_66, VEX_OPCODE_0F) + seq![0x63, (0xC0 | rr_bits(dst.encoding, src.encoding))] }))
            }),
    {
        let mut attributes = InstructionAttr::new(&self.features, AVX_128BIT, false, self.features.legacy_mode_bw(), true, true);
        let encode = self.simd_prefix_and_encode(dst.encoding, Some(dst.encoding), src.encoding, VEX_SIMD_66, VEX_OPCODE_0F, &mut attributes);
        self.emit_int16(0x63, (0xC0 | encode));
    }

    /// `packssdw dst, src`
    pub fn packssdw(&mut self, dst: XMMRegister, src: XMMRegister)
        requires
            dst.wf(),
            src.wf(),
            ({
                let f = old(self).features;
                (f.supports_sse2()) && ({ let a1 = InstructionAttr::spec_new(f, AVX_128BIT, false, f.legacy_mode_bw(), true, true); (simd_rr_ok(f, a1, dst.encoding, Some(dst.encoding), src.encoding)) })
            }),
        ensures
            ({
                let f = old(self).features;
                final(self).appends(*old(self), ({ let a1 = InstructionAttr::spec_new(f, AVX_128BIT, false, f.legacy_mode_bw(), true, true); simd_rr_bytes(f, a1, dst.encoding, Some(dst.encoding), src.encoding, VEX_SIMD_66, VEX_OPCODE_0F) + seq![0x6B, (0xC0 | rr_bits(dst.encoding, src.encoding))] }))
            }),
    {
        let mut attributes = InstructionAttr::new(&self.features, AVX_128BIT, false, self.features.legacy_mode_bw(), true, true);
        let encode = self.simd_prefix_and_encode(dst.encoding, Some(dst.encoding), src.encoding, VEX_SIMD_66, VEX_OPCODE_0F, &mut attributes);
        self.emit_int16(0x6B, (0xC0 | encode));
    }

    /// `packuswb dst, [src]`
    pub fn packuswb_xm(&mut self, dst: XMMRegister, src: Address)
        requires
            dst.wf(),
            src.wf(),
            ({
                let f = old(self).features;
                (f.use_avx > 0) && ({ let a1 = InstructionAttr::spec_new(f, AVX_128BIT, false, f.legacy_mode_bw(), true, true); let a2 = a1.with_address(f, EVEX_FV, EVEX_32BIT); (simd_adr_ok(f, a2, dst.encoding, Some(dst.encoding), src)) })
            }),
        ensures
            ({
                let f = old(self).features;
                final(self).appends(*old(self), ({ let a1 = InstructionAttr::spec_new(f, AVX_128BIT, false, f.legacy_mode_bw(), true, true); let a2 = a1.with_address(f, EVEX_FV, EVEX_32BIT); simd_adr_bytes(f, a2, dst.encoding, Some(dst.encoding), src, VEX_SIMD_66, VEX_OPCODE_0F) + ({ let a3 = simd_adr_attr(f, a2, dst.encoding, Some(dst.encoding)); seq![0x67] + address_bytes(f, Some(a3), dst.encoding, src, true) }) }))
            }),
    {
        let mut attributes = InstructionAttr::new(&self.features, AVX_128BIT, false, self.features.legacy_mode_bw(), true, true);
        attributes.set_address_attributes(&self.features, EVEX_FV, EVEX_32BIT);
        self.simd_prefix(dst.encoding, Some(dst.encoding), &src, VEX_SIMD_66, VEX_OPCODE_0F, &mut attributes);
        self.emit_int8(0x67);
        self.emit_operand_attr(dst.encoding, &src, &attributes, true);
    }

    /// `packuswb dst, src`
    pub fn packuswb(&mut self, dst: XMMRegister, src: XMMRegister)
        requires
            dst.wf(),
            src.wf(),
            ({
                let f = old(self).features;
                ({ let a1 = InstructionAttr::spec_new(f, AVX_128BIT, false, f.legacy_mode_bw(), true, true); (simd_rr_ok(f, a1, dst.encoding, Some(dst.encoding), src.encoding)) })
            }),
        ensures
            ({
                let f = old(self).features;
                final(self).appends(*old(self), ({ let a1 = InstructionAttr::spec_new(f, AVX_128BIT, false, f.legacy_mode_bw(), true, true); simd_rr_bytes(f, a1, dst.encoding, Some(dst.encoding), src.encoding, VEX_SIMD_66, VEX_OPCODE_0F) + seq![0x67, (0xC0 | rr_bits(dst.encoding, src.encoding))] }))
            }),
    {
        let mut attributes = InstructionAttr::new(&self.features, AVX_128BIT, false, self.features.legacy_mode_bw(), true, true);
        let encode = self.simd_prefix_and_encode(dst.encoding, Some(dst.encoding), src.encoding, VEX_SIMD_66, VEX_OPCODE_0F, &mut attributes);
        self.emit_int16(0x67, (0xC0 | encode));
    }

    /// `packusdw dst, src`
    pub fn packusdw(&mut self, dst: XMMRegister, src: XMMRegister)
        requires
            dst.wf(),
            src.wf(),
            ({
                let f = old(self).features;
                (f.supports_sse4_1()) && ({ let a1 = InstructionAttr::spec_new(f, AVX_128BIT, false, f.legacy_mode_bw(), true, true); (simd_rr_ok(f, a1, dst.encoding, Some(dst.encoding), src.encoding)) })
            }),
        ensures
            ({
                let f = old(self).features;
                final(self).appends(*old(self), ({ let a1 = InstructionAttr::spec_new(f, AVX_128BIT, false, f.legacy_mode_bw(), true, true); simd_rr_bytes(f, a1, dst.encoding, Some(dst.encoding), src.encoding, VEX_SIMD_66, VEX_OPCODE_0F_38) + seq![0x2B, (0xC0 | rr_bits(dst.encoding, src.encoding))] }))
            }),
    {
        let mut attributes = InstructionAttr::new(&self.features, AVX_128BIT, false, self.features.legacy_mode_bw(), true, true);
        let encode = self.simd_prefix_and_encode(dst.encoding, Some(dst.encoding), src.encoding, VEX_SIMD_66, VEX_OPCODE_0F_38, &mut attributes);
        self.emit_int16(0x2B, (0xC0 | encode));
    }

    /// `pcmpestri dst, [src], imm8`
    pub fn pcmpestri(&mut self, dst: XMMRegister, src: Address, imm8: i8)
        requires
            dst.wf(),
            src.wf(),
            ({
                let f = old(self).features;
                (f.supports_sse4_2()) && ({ let a1 = InstructionAttr::spec_new(f, AVX_128BIT, false, true, true, false); (simd_adr_ok(f, a1, dst.encoding, None, src)) })
            }),
        ensures
            ({
                let f = old(self).features;
                final(self).appends(*old(self), ({ let a1 = InstructionAttr::spec_new(f, AVX_128BIT, false, true, true, false); simd_adr_bytes(f, a1, dst.encoding, None, src, VEX_SIMD_66, VEX_OPCODE_0F_3A) + ({ let a2 = simd_adr_attr(f, a1, dst.encoding, None); seq![0x61] + address_bytes(f, Some(a2), dst.encoding, src, true) + seq![imm_byte(imm8)] }) }))
            }),
    {
        let mut attributes = InstructionAttr::new(&self.features, AVX_128BIT, false, true, true, false);
        self.simd_prefix(dst.encoding, None, &src, VEX_SIMD_66, VEX_OPCODE_0F_3A, &mut attributes);
        self.emit_int8(0x61);
        self.emit_operand_attr(dst.encoding, &src, &attributes, true);
        self.emit_int8(imm_byte_exec(imm8));
    }

    /// `pcmpestri dst, src, imm8`
    pub fn pcmpestri_xxi(&mut self, dst: XMMRegister, src: XMMRegister, imm8: i8)
        requires
            dst.wf(),
            src.wf(),
            ({
                let f = old(self).features;
                (f.supports_sse4_2()) && ({ let a1 = InstructionAttr::spec_new(f, AVX_128BIT, false, true, true, false); (simd_rr_ok(f, a1, dst.encoding, None, src.encoding)) })
            }),
        ensures
            ({
                let f = old(self).features;
                final(self).appends(*old(self), ({ let a1 = InstructionAttr::spec_new(f, AVX_128BIT, false, true, true, false); simd_rr_bytes(f, a1, dst.encoding, None, src.encoding, VEX_SIMD_66, VEX_OPCODE_0F_3A) + seq![0x61, (0xC0 | rr_bits(dst.encoding, src.encoding)), imm_byte(imm8)] }))
            }),
    {
        let mut attributes = InstructionAttr::new(&self.features, AVX_128BIT, false, true, true, false);
        let encode = self.simd_prefix_and_encode(dst.encoding, None, src.encoding, VEX_SIMD_66, VEX_OPCODE_0F_3A, &mut attributes);
        self.emit_int24(0x61, (0xC0 | encode), imm_byte_exec(imm8));
    }

    /// `pcmpeqb dst, src`
    pub fn pcmpeqb(&mut self, dst: XMMRegister, src: XMMRegister)
        requires
            dst.wf(),
            src.wf(),
            ({
                let f = old(self).features;
                (f.supports_sse2()) && ({ let a1 = InstructionAttr::spec_new(f, AVX_128BIT, false, true, true, false); (simd_rr_ok(f, a1, dst.encoding, Some(dst.encoding), src.encoding)) })
            }),
        ensures
            ({
                let f = old(self).features;
                final(self).appends(*old(self), ({ let a1 = InstructionAttr::spec_new(f, AVX_128BIT, false, true, true, false); simd_rr_bytes(f, a1, dst.encoding, Some(dst.encoding), src.encoding, VEX_SIMD_66, VEX_OPCODE_0F) + seq![0x74, (0xC0 | rr_bits(dst.encoding, src.encoding))] }))
            }),
    {
        let mut attributes = InstructionAttr::new(&self.features, AVX_128BIT, false, true, true, false);
        let encode = self.simd_prefix_and_encode(dst.encoding, Some(dst.encoding), src.encoding, VEX_SIMD_66, VEX_OPCODE_0F, &mut attributes);
        self.emit_int16(0x74, (0xC0 | encode));
    }

    /// `pcmpeqw dst, src`
    pub fn pcmpeqw(&mut self, dst: XMMRegister, src: XMMRegister)
        requires
            dst.wf(),
            src.wf(),
            ({
                let f = old(self).features;
                (f.supports_sse2()) && ({ let a1 = InstructionAttr::spec_new(f, AVX_128BIT, false, true, true, false); (simd_rr_ok(f, a1, dst.encoding, Some(dst.encoding), src.encoding)) })
            }),
        ensures
            ({
                let f = old(self).features;
                final(self).appends(*old(self), ({ let a1 = InstructionAttr::spec_new(f, AVX_128BIT, false, true, true, false); simd_rr_bytes(f, a1, dst.encoding, Some(dst.encoding), src.encoding, VEX_SIMD_66, VEX_OPCODE_0F) + seq![0x75, (0xC0 | rr_bits(dst.encoding, src.encoding))] }))
            }),
    {
        let mut attributes = InstructionAttr::new(&self.features, AVX_128BIT, false, true, true, false);
        let encode = self.simd_prefix_and_encode(dst.encoding, Some(dst.encoding), src.encoding, VEX_SIMD_66, VEX_OPCODE_0F, &mut attributes);
        self.emit_int16(0x75, (0xC0 | encode));
    }

    /// `pcmpeqd dst, src`
    pub fn pcmpeqd(&mut self, dst: XMMRegister, src: XMMRegister)
        requires
            dst.wf(),
            src.wf(),
            ({
                let f = old(self).features;
                (f.supports_sse2()) && ({ let a1 = InstructionAttr::spec_new(f, AVX_128BIT, false, true, true, false); (simd_rr_ok(f, a1, dst.encoding, Some(dst.encoding), src.encoding)) })
            }),
        ensures
            ({
                let f = old(self).features;
                final(self).appends(*old(self), ({ let a1 = InstructionAttr::spec_new(f, AVX_128BIT, false, true, true, false); simd_rr_bytes(f, a1, dst.encoding, Some(dst.encoding), src.encoding, VEX_SIMD_66, VEX_OPCODE_0F) + seq![0x76, (0xC0 | rr_bits(dst.encoding, src.encoding))] }))
            }),
    {
        let mut attributes = InstructionAttr::new(&self.features, AVX_128BIT, false, true, true, false);
        let encode = self.simd_prefix_and_encode(dst.encoding, Some(dst.encoding), src.encoding, VEX_SIMD_66, VEX_OPCODE_0F, &mut attributes);
        self.emit_int16(0x76, (0xC0 | encode));
    }

    /// `pcmpeqq dst, src`
    pub fn pcmpeqq(&mut self, dst: XMMRegister, src: XMMRegister)
        requires
            dst.wf(),
            src.wf(),
            ({
                let f = old(self).features;
                (f.supports_sse4_1()) && ({ let a1 = InstructionAttr::spec_new(f, AVX_128BIT, false, true, true, false); (simd_rr_ok(f, a1, dst.encoding, Some(dst.encoding), src.encoding)) })
            }),
        ensures
            ({
                let f = old(self).features;
                final(self).appends(*old(self), ({ let a1 = InstructionAttr::spec_new(f, AVX_128BIT, false, true, true, false); simd_rr_bytes(f, a1, dst.encoding, Some(dst.encoding), src.encoding, VEX_SIMD_66, VEX_OPCODE_0F_38) + seq![0x29, (0xC0 | rr_bits(dst.encoding, src.encoding))] }))
            }),
    {
        let mut attributes = InstructionAttr::new(&self.features, AVX_128BIT, false, true, true, false);
        let encode = self.simd_prefix_and_encode(dst.encoding, Some(dst.encoding), src.encoding, VEX_SIMD_66, VEX_OPCODE_0F_38, &mut attributes);
        self.emit_int16(0x29, (0xC0 | encode));
    }

    /// `pcmpgtq dst, src`
    pub fn pcmpgtq(&mut self, dst: XMMRegister, src: XMMRegister)
        requires
            dst.wf(),
            src.wf(),
            ({
                let f = old(self).features;
                (f.supports_sse4_1()) && ({ let a1 = InstructionAttr::spec_new(f, AVX_128BIT, false, true, true, false); (simd_rr_ok(f, a1, dst.encoding, Some(dst.encoding), src.encoding)) })
            }),
        ensures
            ({
                let f = old(self).features;
                final(self).appends(*old(self), ({ let a1 = InstructionAttr::spec_new(f, AVX_128BIT, false, true, true, false); simd_rr_bytes(f, a1, dst.encoding, Some(dst.encoding), src.encoding, VEX_SIMD_66, VEX_OPCODE_0F_38) + seq![0x37, (0xC0 | rr_bits(dst.encoding, src.encoding))] }))
            }),
    {
        let mut attributes = InstructionAttr::new(&self.features, AVX_128BIT, false, true, true, false);
        let encode = self.simd_prefix_and_encode(dst.encoding, Some(dst.encoding), src.encoding, VEX_SIMD_66, VEX_OPCODE_0F_38, &mut attributes);
        self.emit_int16(0x37, (0xC0 | encode));
    }

    /// `pmovmskb dst, src`
    pub fn pmovmskb(&mut self, dst: Register, src: XMMRegister)
        requires
            dst.wf(),
            src.wf(),
            ({
                let f = old(self).features;
                (f.supports_sse2()) && ({ let a1 = InstructionAttr::spec_new(f, AVX_128BIT, false, true, true, false); (simd_rr_ok(f, a1, dst.encoding, None, src.encoding)) })
            }),
        ensures
            ({
                let f = old(self).features;
                final(self).appends(*old(self), ({ let a1 = InstructionAttr::spec_new(f, AVX_128BIT, false, true, true, false); simd_rr_bytes(f, a1, dst.encoding, None, src.encoding, VEX_SIMD_66, VEX_OPCODE_0F) + seq![0xD7, (0xC0 | rr_bits(dst.encoding, src.encoding))] }))
            }),
    {
        let mut attributes = InstructionAttr::new(&self.features, AVX_128BIT, false, true, true, false);
        let encode = self.simd_prefix_and_encode(dst.encoding, None, src.encoding, VEX_SIMD_66, VEX_OPCODE_0F, &mut attributes);
        self.emit_int16(0xD7, (0xC0 | encode));
    }

    /// `pextrd dst, src, imm8`
    pub fn pextrd(&mut self, dst: Register, src: XMMRegister, imm8: i8)
        requires
            dst.wf(),
            src.wf(),
            ({
                let f = old(self).features;
                (f.supports_sse4_1()) && ({ let a1 = InstructionAttr::spec_new(f, AVX_128BIT, false, f.legacy_mode_dq(), true, false); (simd_rr_ok(f, a1, src.encoding, None, dst.encoding)) })
            }),
        ensures
            ({
                let f = old(self).features;
                final(self).appends(*old(self), ({ let a1 = InstructionAttr::spec_new(f, AVX_128BIT, false, f.legacy_mode_dq(), true, false); simd_rr_bytes(f, a1, src.encoding, None, dst.encoding, VEX_SIMD_66, VEX_OPCODE_0F_3A) + seq![0x16, (0xC0 | rr_bits(src.encoding, dst.encoding)), imm_byte(imm8)] }))
            }),
    {
        let mut attributes = InstructionAttr::new(&self.features, AVX_128BIT, false, self.features.legacy_mode_dq(), true, false);
        let encode = self.simd_prefix_and_encode(src.encoding, None, dst.encoding, VEX_SIMD_66, VEX_OPCODE_0F_3A, &mut attributes);
        self.emit_int24(0x16, (0xC0 | encode), imm_byte_exec(imm8));
    }

    /// `pextrd [dst], src, imm8`
    pub fn pextrd_mxi(&mut self, dst: Address, src: XMMRegister, imm8: i8)
        requires
            dst.wf(),
            src.wf(),
            ({
                let f = old(self).features;
                (f.supports_sse4_1()) && ({ let a1 = InstructionAttr::spec_new(f, AVX_128BIT, false, f.legacy_mode_dq(), true, false); let a2 = a1.with_address(f, EVEX_T1S, EVEX_32BIT); (simd_adr_ok(f, a2, src.encoding, None, dst)) })
            }),
        ensures
            ({
                let f = old(self).features;
                final(self).appends(*old(self), ({ let a1 = InstructionAttr::spec_new(f, AVX_128BIT, false, f.legacy_mode_dq(), true, false); let a2 = a1.with_address(f, EVEX_T1S, EVEX_32BIT); simd_adr_bytes(f, a2, src.encoding, None, dst, VEX_SIMD_66, VEX_OPCODE_0F_3A) + ({ let a3 = simd_adr_attr(f, a2, src.encoding, None); seq![0x16] + address_bytes(f, Some(a3), src.encoding, dst, true) + seq![imm_byte(imm8)] }) }))
            }),
    {
        let mut attributes = InstructionAttr::new(&self.features, AVX_128BIT, false, self.features.legacy_mode_dq(), true, false);
        attributes.set_address_attributes(&self.features, EVEX_T1S, EVEX_32BIT);
        self.simd_prefix(src.encoding, None, &dst, VEX_SIMD_66, VEX_OPCODE_0F_3A, &mut attributes);
        self.emit_int8(0x16);
        self.emit_operand_attr(src.encoding, &dst, &attributes, true);
        self.emit_int8(imm_byte_exec(imm8));
    }

    /// `pextrq dst, src, imm8`
    pub fn pextrq(&mut self, dst: Register, src: XMMRegister, imm8: i8)
        requires
            dst.wf(),
            src.wf(),
            ({
                let f = old(self).features;
                (f.supports_sse4_1()) && ({ let a1 = InstructionAttr::spec_new(f, AVX_128BIT, true, f.legacy_mode_dq(), true, false); (simd_rr_ok(f, a1, src.encoding, None, dst.encoding)) })
            }),
        ensures
            ({
                let f = old(self).features;
                final(self).appends(*old(self), ({ let a1 = InstructionAttr::spec_new(f, AVX_128BIT, true, f.legacy_mode_dq(), true, false); simd_rr_bytes(f, a1, src.encoding, None, dst.encoding, VEX_SIMD_66, VEX_OPCODE_0F_3A) + seq![0x16, (0xC0 | rr_bits(src.encoding, dst.encoding)), imm_byte(imm8)] }))
            }),
    {
        let mut attributes = InstructionAttr::new(&self.features, AVX_128BIT, true, self.features.legacy_mode_dq(), true, false);
        let encode = self.simd_prefix_and_encode(src.encoding, None, dst.encoding, VEX_SIMD_66, VEX_OPCODE_0F_3A, &mut attributes);
        self.emit_int24(0x16, (0xC0 | encode), imm_byte_exec(imm8));
    }

    /// `pextrq [dst], src, imm8`
    pub fn pextrq_mxi(&mut self, dst: Address, src: XMMRegister, imm8: i8)
        requires
            dst.wf(),
            src.wf(),
            ({
                let f = old(self).features;
                (f.supports_sse4_1()) && ({ let a1 = InstructionAttr::spec_new(f, AVX_128BIT, true, f.legacy_mode_dq(), true, false); let a2 = a1.with_address(f, EVEX_T1S, EVEX_64BIT); (simd_adr_ok(f, a2, src.encoding, None, dst)) })
            }),
        ensures
            ({
                let f = old(self).features;
                final(self).appends(*old(self), ({ let a1 = InstructionAttr::spec_new(f, AVX_128BIT, true, f.legacy_mode_dq(), true, false); let a2 = a1.with_address(f, EVEX_T1S, EVEX_64BIT); simd_adr_bytes(f, a2, src.encoding, None, dst, VEX_SIMD_66, VEX_OPCODE_0F_3A) + ({ let a3 = simd_adr_attr(f, a2, src.encoding, None); seq![0x16] + address_bytes(f, Some(a3), src.encoding, dst, true) + seq![imm_byte(imm8)] }) }))
            }),
    {
        let mut attributes = InstructionAttr::new(&self.features, AVX_128BIT, true, self.features.legacy_mode_dq(), true, false);
        attributes.set_address_attributes(&self.features, EVEX_T1S, EVEX_64BIT);
        self.simd_prefix(src.encoding, None, &dst, VEX_SIMD_66, VEX_OPCODE_0F_3A, &mut attributes);
        self.emit_int8(0x16);
        self.emit_operand_attr(src.encoding, &dst, &attributes, true);
        self.emit_int8(imm_byte_exec(imm8));
    }

    /// `pextrw dst, src, imm8`
    pub fn pextrw(&mut self, dst: Register, src: XMMRegister, imm8: i8)
        requires
            dst.wf(),
            src.wf(),
            ({
                let f = old(self).features;
                (f.supports_sse2()) && ({ let a1 = InstructionAttr::spec_new(f, AVX_128BIT, false, f.legacy_mode_bw(), true, false); (simd_rr_ok(f, a1, dst.encoding, None, src.encoding)) })
            }),
        ensures
            ({
                let f = old(self).features;
                final(self).appends(*old(self), ({ let a1 = InstructionAttr::spec_new(f, AVX_128BIT, false, f.legacy_mode_bw(), true, false); simd_rr_bytes(f, a1, dst.encoding, None, src.encoding, VEX_SIMD_66, VEX_OPCODE_0F) + seq![0xC5, (0xC0 | rr_bits(dst.encoding, src.encoding)), imm_byte(imm8)] }))
            }),
    {
        let mut attributes = InstructionAttr::new(&self.features, AVX_128BIT, false, self.features.legacy_mode_bw(), true, false);
        let encode = self.simd_prefix_and_encode(dst.encoding, None, src.encoding, VEX_SIMD_66, VEX_OPCODE_0F, &mut attributes);
        self.emit_int24(0xC5, (0xC0 | encode), imm_byte_exec(imm8));
    }

    /// `pextrw [dst], src, imm8`
    pub fn pextrw_mxi(&mut self, dst: Address, src: XMMRegister, imm8: i8)
        requires
            dst.wf(),
            src.wf(),
            ({
                let f = old(self).features;
                (f.supports_sse4_1()) && ({ let a1 = InstructionAttr::spec_new(f, AVX_128BIT, false, f.legacy_mode_bw(), true, false); let a2 = a1.with_address(f, EVEX_T1S, EVEX_16BIT); (simd_adr_ok(f, a2, src.encoding, None, dst)) })
            }),
        ensures
            ({
                let f = old(self).features;
                final(self).appends(*old(self), ({ let a1 = InstructionAttr::spec_new(f, AVX_128BIT, false, f.legacy_mode_bw(), true, false); let a2 = a1.with_address(f, EVEX_T1S, EVEX_16BIT); simd_adr_bytes(f, a2, src.encoding, None, dst, VEX_SIMD_66, VEX_OPCODE_0F_3A) + ({ let a3 = simd_adr_attr(f, a2, src.encoding, None); seq![0x15] + address_bytes(f, Some(a3), src.encoding, dst, true) + seq![imm_byte(imm8)] }) }))
            }),
    {
        let mut attributes = InstructionAttr::new(&self.features, AVX_128BIT, false, self.features.legacy_mode_bw(), true, false);
        attributes.set_address_attributes(&self.features, EVEX_T1S, EVEX_16BIT);
        self.simd_prefix(src.encoding, None, &dst, VEX_SIMD_66, VEX_OPCODE_0F_3A, &mut attributes);
        self.emit_int8(0x15);
        self.emit_operand_attr(src.encoding, &dst, &attributes, true);
        self.emit_int8(imm_byte_exec(imm8));
    }

    /// `pextrb dst, src, imm8`
    pub fn pextrb(&mut self, dst: Register, src: XMMRegister, imm8: i8)
        requires
            dst.wf(),
            src.wf(),
            ({
                let f = old(self).features;
                (f.supports_sse4_1()) && ({ let a1 = InstructionAttr::spec_new(f, AVX_128BIT, false, f.legacy_mode_bw(), true, false); (simd_rr_ok(f, a1, src.encoding, None, dst.encoding)) })
            }),
        ensures
            ({
                let f = old(self).features;
                final(self).appends(*old(self), ({ let a1 = InstructionAttr::spec_new(f, AVX_128BIT, false, f.legacy_mode_bw(), true, false); simd_rr_bytes(f, a1, src.encoding, None, dst.encoding, VEX_SIMD_66, VEX_OPCODE_0F_3A) + seq![0x14, (0xC0 | rr_bits(src.encoding, dst.encoding)), imm_byte(imm8)] }))
            }),
    {
        let mut attributes = InstructionAttr::new(&self.features, AVX_128BIT, false, self.features.legacy_mode_bw(), true, false);
        let encode = self.simd_prefix_and_encode(src.encoding, None, dst.encoding, VEX_SIMD_66, VEX_OPCODE_0F_3A, &mut attributes);
        self.emit_int24(0x14, (0xC0 | encode), imm_byte_exec(imm8));
    }

    /// `pextrb [dst], src, imm8`
    pub fn pextrb_mxi(&mut self, dst: Address, src: XMMRegister, imm8: i8)
        requires
            dst.wf(),
            src.wf(),
            ({
                let f = old(self).features;
                (f.supports_sse4_1()) && ({ let a1 = InstructionAttr::spec_new(f, AVX_128BIT, false, f.legacy_mode_bw(), true, false); let a2 = a1.with_address(f, EVEX_T1S, EVEX_8BIT); (simd_adr_ok(f, a2, src.encoding, None, dst)) })
            }),
        ensures
            ({
                let f = old(self).features;
                final(self).appends(*old(self), ({ let a1 = InstructionAttr::spec_new(f, AVX_128BIT, false, f.legacy_mode_bw(), true, false); let a2 = a1.with_address(f, EVEX_T1S, EVEX_8BIT); simd_adr_bytes(f, a2, src.encoding, None, dst, VEX_SIMD_66, VEX_OPCODE_0F_3A) + ({ let a3 = simd_adr_attr(f, a2, src.encoding, None); seq![0x14] + address_bytes(f, Some(a3), src.encoding, dst, true) + seq![imm_byte(imm8)] }) }))
            }),
    {
        let mut attributes = InstructionAttr::new(&self.features, AVX_128BIT, false, self.features.legacy_mode_bw(), true, false);
        attributes.set_address_attributes(&self.features, EVEX_T1S, EVEX_8BIT);
        self.simd_prefix(src.encoding, None, &dst, VEX_SIMD_66, VEX_OPCODE_0F_3A, &mut attributes);
        self.emit_int8(0x14);
        self.emit_operand_attr(src.encoding, &dst, &attributes, true);
        self.emit_int8(imm_byte_exec(imm8));
    }

    /// `pinsrd dst, src, imm8`
    pub fn pinsrd(&mut self, dst: XMMRegister, src: Register, imm8: i8)
        requires
            dst.wf(),
            src.wf(),
            ({
                let f = old(self).features;
                (f.supports_sse4_1()) && ({ let a1 = InstructionAttr::spec_new(f, AVX_128BIT, false, f.legacy_mode_dq(), true, false); (simd_rr_ok(f, a1, dst.encoding, Some(dst.encoding), src.encoding)) })
            }),
        ensures
            ({
                let f = old(self).features;
                final(self).appends(*old(self), ({ let a1 = InstructionAttr::spec_new(f, AVX_128BIT, false, f.legacy_mode_dq(), true, false); simd_rr_bytes(f, a1, dst.encoding, Some(dst.encoding), src.encoding, VEX_SIMD_66, VEX_OPCODE_0F_3A) + seq![0x22, (0xC0 | rr_bits(dst.encoding, src.encoding)), imm_byte(imm8)] }))
            }),
    {
        let mut attributes = InstructionAttr::new(&self.features, AVX_128BIT, false, self.features.legacy_mode_dq(), true, false);
        let encode = self.simd_prefix_and_encode(dst.encoding, Some(dst.encoding), src.encoding, VEX_SIMD_66, VEX_OPCODE_0F_3A, &mut attributes);
        self.emit_int24(0x22, (0xC0 | encode), imm_byte_exec(imm8));
    }

    /// `pinsrd dst, [src], imm8`
    pub fn pinsrd_xmi(&mut self, dst: XMMRegister, src: Address, imm8: i8)
        requires
            dst.wf(),
            src.wf(),
            ({
                let f = old(self).features;
                (f.supports_sse4_1()) && ({ let a1 = InstructionAttr::spec_new(f, AVX_128BIT, false, f.legacy_mode_dq(), true, false); let a2 = a1.with_address(f, EVEX_T1S, EVEX_32BIT); (simd_adr_ok(f, a2, dst.encoding, Some(dst.encoding), src)) })
            }),
        ensures
            ({
                let f = old(self).features;
                final(self).appends(*old(self), ({ let a1 = InstructionAttr::spec_new(f, AVX_128BIT, false, f.legacy_mode_dq(), true, false); let a2 = a1.with_address(f, EVEX_T1S, EVEX_32BIT); simd_adr_bytes(f, a2, dst.encoding, Some(dst.encoding), src, VEX_SIMD_66, VEX_OPCODE_0F_3A) + ({ let a3 = simd_adr_attr(f, a2, dst.encoding, Some(dst.encoding)); seq![0x22] + address_bytes(f, Some(a3), dst.encoding, src, true) + seq![imm_byte(imm8)] }) }))
            }),
    {
        let mut attributes = InstructionAttr::new(&self.features, AVX_128BIT, false, self.features.legacy_mode_dq(), true, false);
        attributes.set_address_attributes(&self.features, EVEX_T1S, EVEX_32BIT);
        self.simd_prefix(dst.encoding, Some(dst.encoding), &src, VEX_SIMD_66, VEX_OPCODE_0F_3A, &mut attributes);
        self.emit_int8(0x22);
        self.emit_operand_attr(dst.encoding, &src, &attributes, true);
        self.emit_int8(imm_byte_exec(imm8));
    }

    /// `pinsrq dst, src, imm8`
    pub fn pinsrq(&mut self, dst: XMMRegister, src: Register, imm8: i8)
        requires
            dst.wf(),
            src.wf(),
            ({
                let f = old(self).features;
                (f.supports_sse4_1()) && ({ let a1 = InstructionAttr::spec_new(f, AVX_128BIT, true, f.legacy_mode_dq(), true, false); (simd_rr_ok(f, a1, dst.encoding, Some(dst.encoding), src.encoding)) })
            }),
        ensures
            ({
                let f = old(self).features;
                final(self).appends(*old(self), ({ let a1 = InstructionAttr::spec_new(f, AVX_128BIT, true, f.legacy_mode_dq(), true, false); simd_rr_bytes(f, a1, dst.encoding, Some(dst.encoding), src.encoding, VEX_SIMD_66, VEX_OPCODE_0F_3A) + seq![0x22, (0xC0 | rr_bits(dst.encoding, src.encoding)), imm_byte(imm8)] }))
            }),
    {
        let mut attributes = InstructionAttr::new(&self.features, AVX_128BIT, true, self.features.legacy_mode_dq(), true, false);
        let encode = self.simd_prefix_and_encode(dst.encoding, Some(dst.encoding), src.encoding, VEX_SIMD_66, VEX_OPCODE_0F_3A, &mut attributes);
        self.emit_int24(0x22, (0xC0 | encode), imm_byte_exec(imm8));
    }

    /// `pinsrq dst, [src], imm8`
    pub fn pinsrq_xmi(&mut self, dst: XMMRegister, src: Address, imm8: i8)
        requires
            dst.wf(),
            src.wf(),
            ({
                let f = old(self).features;
                (f.supports_sse4_1()) && ({ let a1 = InstructionAttr::spec_new(f, AVX_128BIT, true, f.legacy_mode_dq(), true, false); let a2 = a1.with_address(f, EVEX_T1S, EVEX_64BIT); (simd_adr_ok(f, a2, dst.encoding, Some(dst.encoding), src)) })
            }),
        ensures
            ({
                let f = old(self).features;
                final(self).appends(*old(self), ({ let a1 = InstructionAttr::spec_new(f, AVX_128BIT, true, f.legacy_mode_dq(), true, false); let a2 = a1.with_address(f, EVEX_T1S, EVEX_64BIT); simd_adr_bytes(f, a2, dst.encoding, Some(dst.encoding), src, VEX_SIMD_66, VEX_OPCODE_0F_3A) + ({ let a3 = simd_adr_attr(f, a2, dst.encoding, Some(dst.encoding)); seq![0x22] + address_bytes(f, Some(a3), dst.encoding, src, true) + seq![imm_byte(imm8)] }) }))
            }),
    {
        let mut attributes = InstructionAttr::new(&self.features, AVX_128BIT, true, self.features.legacy_mode_dq(), true, false);
        attributes.set_address_attributes(&self.features, EVEX_T1S, EVEX_64BIT);
        self.simd_prefix(dst.encoding, Some(dst.encoding), &src, VEX_SIMD_66, VEX_OPCODE_0F_3A, &mut attributes);
        self.emit_int8(0x22);
        self.emit_operand_attr(dst.encoding, &src, &attributes, true);
        self.emit_int8(imm_byte_exec(imm8));
    }

    /// `pinsrw dst, src, imm8`
    pub fn pinsrw(&mut self, dst: XMMRegister, src: Register, imm8: i8)
        requires
            dst.wf(),
            src.wf(),
            ({
                let f = old(self).features;
                (f.supports_sse2()) && ({ let a1 = InstructionAttr::spec_new(f, AVX_128BIT, false, f.legacy_mode_bw(), true, false); (simd_rr_ok(f, a1, dst.encoding, Some(dst.encoding), src.encoding)) })
            }),
        ensures
            ({
                let f = old(self).features;
                final(self).appends(*old(self), ({ let a1 = InstructionAttr::spec_new(f, AVX_128BIT, false, f.legacy_mode_bw(), true, false); simd_rr_bytes(f, a1, dst.encoding, Some(dst.encoding), src.encoding, VEX_SIMD_66, VEX_OPCODE_0F) + seq![0xC4, (0xC0 | rr_bits(dst.encoding, src.encoding)), imm_byte(imm8)] }))
            }),
    {
        let mut attributes = InstructionAttr::new(&self.features, AVX_128BIT, false, self.features.legacy_mode_bw(), true, false);
        let encode = self.simd_prefix_and_encode(dst.encoding, Some(dst.encoding), src.encoding, VEX_SIMD_66, VEX_OPCODE_0F, &mut attributes);
        self.emit_int24(0xC4, (0xC0 | encode), imm_byte_exec(imm8));
    }

    /// `pinsrw dst, [src], imm8`
    pub fn pinsrw_xmi(&mut self, dst: XMMRegister, src: Address, imm8: i8)
        requires
            dst.wf(),
            src.wf(),
            ({
                let f = old(self).features;
                (f.supports_sse2()) && ({ let a1 = InstructionAttr::spec_new(f, AVX_128BIT, false, f.legacy_mode_bw(), true, false); let a2 = a1.with_address(f, EVEX_T1S, EVEX_16BIT); (simd_adr_ok(f, a2, dst.encoding, Some(dst.encoding), src)) })
            }),
        ensures
            ({
                let f = old(self).features;
                final(self).appends(*old(self), ({ let a1 = InstructionAttr::spec_new(f, AVX_128BIT, false, f.legacy_mode_bw(), true, false); let a2 = a1.with_address(f, EVEX_T1S, EVEX_16BIT); simd_adr_bytes(f, a2, dst.encoding, Some(dst.encoding), src, VEX_SIMD_66, VEX_OPCODE_0F) + ({ let a3 = simd_adr_attr(f, a2, dst.encoding, Some(dst.encoding)); seq![0xC4] + address_bytes(f, Some(a3), dst.encoding, src, true) + seq![imm_byte(imm8)] }) }))
            }),
    {
        let mut attributes = InstructionAttr::new(&self.features, AVX_128BIT, false, self.features.legacy_mode_bw(), true, false);
        attributes.set_address_attributes(&self.features, EVEX_T1S, EVEX_16BIT);
        self.simd_prefix(dst.encoding, Some(dst.encoding), &src, VEX_SIMD_66, VEX_OPCODE_0F, &mut attributes);
        self.emit_int8(0xC4);
        self.emit_operand_attr(dst.encoding, &src, &attributes, true);
        self.emit_int8(imm_byte_exec(imm8));
    }

    /// `pinsrb dst, [src], imm8`
    pub fn pinsrb(&mut self, dst: XMMRegister, src: Address, imm8: i8)
        requires
            dst.wf(),
            src.wf(),
            ({
                let f = old(self).features;
                (f.supports_sse4_1()) && ({ let a1 = InstructionAttr::spec_new(f, AVX_128BIT, false, f.legacy_mode_bw(), true, false); let a2 = a1.with_address(f, EVEX_T1S, EVEX_8BIT); (simd_adr_ok(f, a2, dst.encoding, Some(dst.encoding), src)) })
            }),
        ensures
            ({
                let f = old(self).features;
                final(self).appends(*old(self), ({ let a1 = InstructionAttr::spec_new(f, AVX_128BIT, false, f.legacy_mode_bw(), true, false); let a2 = a1.with_address(f, EVEX_T1S, EVEX_8BIT); simd_adr_bytes(f, a2, dst.encoding, Some(dst.encoding), src, VEX_SIMD_66, VEX_OPCODE_0F_3A) + ({ let a3 = simd_adr_attr(f, a2, dst.encoding, Some(dst.encoding)); seq![0x20] + address_bytes(f, Some(a3), dst.encoding, src, true) + seq![imm_byte(imm8)] }) }))
            }),
    {
        let mut attributes = InstructionAttr::new(&self.features, AVX_128BIT, false, self.features.legacy_mode_bw(), true, false);
        attributes.set_address_attributes(&self.features, EVEX_T1S, EVEX_8BIT);
        self.simd_prefix(dst.encoding, Some(dst.encoding), &src, VEX_SIMD_66, VEX_OPCODE_0F_3A, &mut attributes);
        self.emit_int8(0x20);
        self.emit_operand_attr(dst.encoding, &src, &attributes, true);
        self.emit_int8(imm_byte_exec(imm8));
    }

    /// `pinsrb dst, src, imm8`
    pub fn pinsrb_xri(&mut self, dst: XMMRegister, src: Register, imm8: i8)
        requires
            dst.wf(),
            src.wf(),
            ({
                let f = old(self).features;
                (f.supports_sse4_1()) && ({ let a1 = InstructionAttr::spec_new(f, AVX_128BIT, false, f.legacy_mode_bw(), true, false); (simd_rr_ok(f, a1, dst.encoding, Some(dst.encoding), src.encoding)) })
            }),
        ensures
            ({
                let f = old(self).features;
                final(self).appends(*old(self), ({ let a1 = InstructionAttr::spec_new(f, AVX_128BIT, false, f.legacy_mode_bw(), true, false); simd_rr_bytes(f, a1, dst.encoding, Some(dst.encoding), src.encoding, VEX_SIMD_66, VEX_OPCODE_0F_3A) + seq![0x20, (0xC0 | rr_bits(dst.encoding, src.encoding)), imm_byte(imm8)] }))
            }),
    {
        let mut attributes = InstructionAttr::new(&self.features, AVX_128BIT, false, self.features.legacy_mode_bw(), true, false);
        let encode = self.simd_prefix_and_encode(dst.encoding, Some(dst.encoding), src.encoding, VEX_SIMD_66, VEX_OPCODE_0F_3A, &mut attributes);
        self.emit_int24(0x20, (0xC0 | encode), imm_byte_exec(imm8));
    }

    /// `insertps dst, src, imm8`
    pub fn insertps(&mut self, dst: XMMRegister, src: XMMRegister, imm8: i8)
        requires
            dst.wf(),
            src.wf(),
            ({
                let f = old(self).features;
                (f.supports_sse4_1()) && ({ let a1 = InstructionAttr::spec_new(f, AVX_128BIT, false, false, true, false); (simd_rr_ok(f, a1, dst.encoding, Some(dst.encoding), src.encoding)) })
            }),
        ensures
            ({
                let f = old(self).features;
                final(self).appends(*old(self), ({ let a1 = InstructionAttr::spec_new(f, AVX_128BIT, false, false, true, false); simd_rr_bytes(f, a1, dst.encoding, Some(dst.encoding), src.encoding, VEX_SIMD_66, VEX_OPCODE_0F_3A) + seq![0x21, (0xC0 | rr_bits(dst.encoding, src.encoding)), imm_byte(imm8)] }))
            }),
    {
        let mut attributes = InstructionAttr::new(&self.features, AVX_128BIT, false, false, true, false);
        let encode = self.simd_prefix_and_encode(dst.encoding, Some(dst.encoding), src.encoding, VEX_SIMD_66, VEX_OPCODE_0F_3A, &mut attributes);
        self.emit_int24(0x21, (0xC0 | encode), imm_byte_exec(imm8));
    }

    /// `pmovzxbw dst, [src]`
    pub fn pmovzxbw_xm(&mut self, dst: XMMRegister, src: Address)
        requires
            dst.wf(),
            src.wf(),
            ({
                let f = old(self).features;
                (f.supports_sse4_1()) && ({ let a1 = InstructionAttr::spec_new(f, AVX_128BIT, false, f.legacy_mode_bw(), true, true); let a2 = a1.with_address(f, EVEX_HVM, EVEX_NOBIT); (simd_adr_ok(f, a2, dst.encoding, None, src)) })
            }),
        ensures
            ({
                let f = old(self).features;
                final(self).appends(*old(self), ({ let a1 = InstructionAttr::spec_new(f, AVX_128BIT, false, f.legacy_mode_bw(), true, true); let a2 = a1.with_address(f, EVEX_HVM, EVEX_NOBIT); simd_adr_bytes(f, a2, dst.encoding, None, src, VEX_SIMD_66, VEX_OPCODE_0F_38) + ({ let a3 = simd_adr_attr(f, a2, dst.encoding, None); seq![0x30] + address_bytes(f, Some(a3), dst.encoding, src, true) }) }))
            }),
    {
        let mut attributes = InstructionAttr::new(&self.features, AVX_128BIT, false, self.features.legacy_mode_bw(), true, true);
        attributes.set_address_attributes(&self.features, EVEX_HVM, EVEX_NOBIT);
        self.simd_prefix(dst.encoding, None, &src, VEX_SIMD_66, VEX_OPCODE_0F_38, &mut attributes);
        self.emit_int8(0x30);
        self.emit_operand_attr(dst.encoding, &src, &attributes, true);
    }

    /// `pmovzxbw dst, src`
    pub fn pmovzxbw(&mut self, dst: XMMRegister, src: XMMRegister)
        requires
            dst.wf(),
            src.wf(),
            ({
                let f = old(self).features;
                (f.supports_sse4_1()) && ({ let a1 = InstructionAttr::spec_new(f, AVX_128BIT, false, f.legacy_mode_bw(), true, true); (simd_rr_ok(f, a1, dst.encoding, None, src.encoding)) })
            }),
        ensures
            ({
                let f = old(self).features;
                final(self).appends(*old(self), ({ let a1 = InstructionAttr::spec_new(f, AVX_128BIT, false, f.legacy_mode_bw(), true, true); simd_rr_bytes(f, a1, dst.encoding, None, src.encoding, VEX_SIMD_66, VEX_OPCODE_0F_38) + seq![0x30, (0xC0 | rr_bits(dst.encoding, src.encoding))] }))
            }),
    {
        let mut attributes = InstructionAttr::new(&self.features, AVX_128BIT, false, self.features.legacy_mode_bw(), true, true);
        let encode = self.simd_prefix_and_encode(dst.encoding, None, src.encoding, VEX_SIMD_66, VEX_OPCODE_0F_38, &mut attributes);
        self.emit_int16(0x30, (0xC0 | encode));
    }

    /// `pmovsxbw dst, src`
    pub fn pmovsxbw(&mut self, dst: XMMRegister, src: XMMRegister)
        requires
            dst.wf(),
            src.wf(),
            ({
                let f = old(self).features;
                (f.supports_sse4_1()) && ({ let a1 = InstructionAttr::spec_new(f, AVX_128BIT, false, f.legacy_mode_bw(), true, true); (simd_rr_ok(f, a1, dst.encoding, None, src.encoding)) })
            }),
        ensures
            ({
                let f = old(self).features;
                final(self).appends(*old(self), ({ let a1 = InstructionAttr::spec_new(f, AVX_128BIT, false, f.legacy_mode_bw(), true, true); simd_rr_bytes(f, a1, dst.encoding, None, src.encoding, VEX_SIMD_66, VEX_OPCODE_0F_38) + seq![0x20, (0xC0 | rr_bits(dst.encoding, src.encoding))] }))
            }),
    {
        let mut attributes = InstructionAttr::new(&self.features, AVX_128BIT, false, self.features.legacy_mode_bw(), true, true);
        let encode = self.simd_prefix_and_encode(dst.encoding, None, src.encoding, VEX_SIMD_66, VEX_OPCODE_0F_38, &mut attributes);
        self.emit_int16(0x20, (0xC0 | encode));
    }

    /// `pmovzxdq dst, src`
    pub fn pmovzxdq(&mut self, dst: XMMRegister, src: XMMRegister)
        requires
            dst.wf(),
            src.wf(),
            ({
                let f = old(self).features;
                (f.supports_sse4_1()) && ({ let a1 = InstructionAttr::spec_new(f, AVX_128BIT, false, false, true, true); (simd_rr_ok(f, a1, dst.encoding, None, src.encoding)) })
            }),
        ensures
            ({
                let f = old(self).features;
                final(self).appends(*old(self), ({ let a1 = InstructionAttr::spec_new(f, AVX_128BIT, false, false, true, true); simd_rr_bytes(f, a1, dst.encoding, None, src.encoding, VEX_SIMD_66, VEX_OPCODE_0F_38) + seq![0x35, (0xC0 | rr_bits(dst.encoding, src.encoding))] }))
            }),
    {
        let mut attributes = InstructionAttr::new(&self.features, AVX_128BIT, false, false, true, true);
        let encode = self.simd_prefix_and_encode(dst.encoding, None, src.encoding, VEX_SIMD_66, VEX_OPCODE_0F_38, &mut attributes);
        self.emit_int16(0x35, (0xC0 | encode));
    }

    /// `pmovsxbd dst, src`
    pub fn pmovsxbd(&mut self, dst: XMMRegister, src: XMMRegister)
        requires
            dst.wf(),
            src.wf(),
            ({
                let f = old(self).features;
                (f.supports_sse4_1()) && ({ let a1 = InstructionAttr::spec_new(f, AVX_128BIT, false, false, true, true); (simd_rr_ok(f, a1, dst.encoding, None, src.encoding)) })
            }),
        ensures
            ({
                let f = old(self).features;
                final(self).appends(*old(self), ({ let a1 = InstructionAttr::spec_new(f, AVX_128BIT, false, false, true, true); simd_rr_bytes(f, a1, dst.encoding, None, src.encoding, VEX_SIMD_66, VEX_OPCODE_0F_38) + seq![0x21, (0xC0 | rr_bits(dst.encoding, src.encoding))] }))
            }),
    {
        let mut attributes = InstructionAttr::new(&self.features, AVX_128BIT, false, false, true, true);
        let encode = self.simd_prefix_and_encode(dst.encoding, None, src.encoding, VEX_SIMD_66, VEX_OPCODE_0F_38, &mut attributes);
        self.emit_int16(0x21, (0xC0 | encode));
    }

    /// `pmovzxbd dst, src`
    pub fn pmovzxbd(&mut self, dst: XMMRegister, src: XMMRegister)
        requires
            dst.wf(),
            src.wf(),
            ({
                let f = old(self).features;
                (f.supports_sse4_1()) && ({ let a1 = InstructionAttr::spec_new(f, AVX_128BIT, false, false, true, true); (simd_rr_ok(f, a1, dst.encoding, None, src.encoding)) })
            }),
        ensures
            ({
                let f = old(self).features;
                final(self).appends(*old(self), ({ let a1 = InstructionAttr::spec_new(f, AVX_128BIT, false, false, true, true); simd_rr_bytes(f, a1, dst.encoding, None, src.encoding, VEX_SIMD_66, VEX_OPCODE_0F_38) + seq![0x31, (0xC0 | rr_bits(dst.encoding, src.encoding))] }))
            }),
    {
        let mut attributes = InstructionAttr::new(&self.features, AVX_128BIT, false, false, true, true);
        let encode = self.simd_prefix_and_encode(dst.encoding, None, src.encoding, VEX_SIMD_66, VEX_OPCODE_0F_38, &mut attributes);
        self.emit_int16(0x31, (0xC0 | encode));
    }

    /// `pmovsxbq dst, src`
    pub fn pmovsxbq(&mut self, dst: XMMRegister, src: XMMRegister)
        requires
            dst.wf(),
            src.wf(),
            ({
                let f = old(self).features;
                (f.supports_sse4_1()) && ({ let a1 = InstructionAttr::spec_new(f, AVX_128BIT, false, false, true, true); (simd_rr_ok(f, a1, dst.encoding, None, src.encoding)) })
            }),
        ensures
            ({
                let f = old(self).features;
                final(self).appends(*old(self), ({ let a1 = InstructionAttr::spec_new(f, AVX_128BIT, false, false, true, true); simd_rr_bytes(f, a1, dst.encoding, None, src.encoding, VEX_SIMD_66, VEX_OPCODE_0F_38) + seq![0x22, (0xC0 | rr_bits(dst.encoding, src.encoding))] }))
            }),
    {
        let mut attributes = InstructionAttr::new(&self.features, AVX_128BIT, false, false, true, true);
        let encode = self.simd_prefix_and_encode(dst.encoding, None, src.encoding, VEX_SIMD_66, VEX_OPCODE_0F_38, &mut attributes);
        self.emit_int16(0x22, (0xC0 | encode));
    }

    /// `pmovsxwd dst, src`
    pub fn pmovsxwd(&mut self, dst: XMMRegister, src: XMMRegister)
        requires
            dst.wf(),
            src.wf(),
            ({
                let f = old(self).features;
                (f.supports_sse4_1()) && ({ let a1 = InstructionAttr::spec_new(f, AVX_128BIT, false, false, true, true); (simd_rr_ok(f, a1, dst.encoding, None, src.encoding)) })
            }),
        ensures
            ({
                let f = old(self).features;
                final(self).appends(*old(self), ({ let a1 = InstructionAttr::spec_new(f, AVX_128BIT, false, false, true, true); simd_rr_bytes(f, a1, dst.encoding, None, src.encoding, VEX_SIMD_66, VEX_OPCODE_0F_38) + seq![0x23, (0xC0 | rr_bits(dst.encoding, src.encoding))] }))
            }),
    {
        let mut attributes = InstructionAttr::new(&self.features, AVX_128BIT, false, false, true, true);
        let encode = self.simd_prefix_and_encode(dst.encoding, None, src.encoding, VEX_SIMD_66, VEX_OPCODE_0F_38, &mut attributes);
        self.emit_int16(0x23, (0xC0 | encode));
    }

    /// `vpmovsxbw dst, src, vector_len`
    pub fn vpmovsxbw(&mut self, dst: XMMRegister, src: XMMRegister, vector_len: u8)
        requires
            dst.wf(),
            src.wf(),
            ({
                let f = old(self).features;
                (if (vector_len == AVX_128BIT) { f.supports_avx() } else { (if (vector_len == AVX_256BIT) { f.supports_avx2() } else { (if (vector_len == AVX_512BIT) { f.supports_avx512bw() } else { false }) }) }) && ({ let a1 = InstructionAttr::spec_new(f, vector_len, false, f.legacy_mode_bw(), true, true); (simd_rr_ok(f, a1, dst.encoding, None, src.encoding)) })
            }),
        ensures
            ({
                let f = old(self).features;
                final(self).appends(*old(self), ({ let a1 = InstructionAttr::spec_new(f, vector_len, false, f.legacy_mode_bw(), true, true); simd_rr_bytes(f, a1, dst.encoding, None, src.encoding, VEX_SIMD_66, VEX_OPCODE_0F_38) + seq![0x20, (0xC0 | rr_bits(dst.encoding, src.encoding))] }))
            }),
    {
        let mut attributes = InstructionAttr::new(&self.features, vector_len, false, self.features.legacy_mode_bw(), true, true);
        let encode = self.simd_prefix_and_encode(dst.encoding, None, src.encoding, VEX_SIMD_66, VEX_OPCODE_0F_38, &mut attributes);
        self.emit_int16(0x20, (0xC0 | encode));
    }

    /// `vpmovzxdq dst, src, vector_len`
    pub fn vpmovzxdq(&mut self, dst: XMMRegister, src: XMMRegister, vector_len: u8)
        requires
            dst.wf(),
            src.wf(),
            ({
                let f = old(self).features;
                (if (vector_len > AVX_128BIT) { f.supports_avx2() } else { f.supports_avx() }) && ({ let a1 = InstructionAttr::spec_new(f, vector_len, false, false, true, true); (simd_rr_ok(f, a1, dst.encoding, None, src.encoding)) })
            }),
        ensures
            ({
                let f = old(self).features;
                final(self).appends(*old(self), ({ let a1 = InstructionAttr::spec_new(f, vector_len, false, false, true, true); simd_rr_bytes(f, a1, dst.encoding, None, src.encoding, VEX_SIMD_66, VEX_OPCODE_0F_38) + seq![0x35, (0xC0 | rr_bits(dst.encoding, src.encoding))] }))
            }),
    {
        let mut attributes = InstructionAttr::new(&self.features, vector_len, false, false, true, true);
        let encode = self.simd_prefix_and_encode(dst.encoding, None, src.encoding, VEX_SIMD_66, VEX_OPCODE_0F_38, &mut attributes);
        self.emit_int16(0x35, (0xC0 | encode));
    }

    /// `vpmovzxbd dst, src, vector_len`
    pub fn vpmovzxbd(&mut self, dst: XMMRegister, src: XMMRegister, vector_len: u8)
        requires
            dst.wf(),
            src.wf(),
            ({
                let f = old(self).features;
                (if (vector_len > AVX_128BIT) { f.supports_avx2() } else { f.supports_avx() }) && ({ let a1 = InstructionAttr::spec_new(f, vector_len, false, false, true, true); (simd_rr_ok(f, a1, dst.encoding, None, src.encoding)) })
            }),
        ensures
            ({
                let f = old(self).features;
                final(self).appends(*old(self), ({ let a1 = InstructionAttr::spec_new(f, vector_len, false, false, true, true); simd_rr_bytes(f, a1, dst.encoding, None, src.encoding, VEX_SIMD_66, VEX_OPCODE_0F_38) + seq![0x31, (0xC0 | rr_bits(dst.encoding, src.encoding))] }))
            }),
    {
        let mut attributes = InstructionAttr::new(&self.features, vector_len, false, false, true, true);
        let encode = self.simd_prefix_and_encode(dst.encoding, None, src.encoding, VEX_SIMD_66, VEX_OPCODE_0F_38, &mut attributes);
        self.emit_int16(0x31, (0xC0 | encode));
    }

    /// `vpmovzxbq dst, src, vector_len`
    pub fn vpmovzxbq(&mut self, dst: XMMRegister, src: XMMRegister, vector_len: u8)
        requires
            dst.wf(),
            src.wf(),
            ({
                let f = old(self).features;
                (if (vector_len > AVX_128BIT) { f.supports_avx2() } else { f.supports_avx() }) && ({ let a1 = InstructionAttr::spec_new(f, vector_len, false, false, true, true); (simd_rr_ok(f, a1, dst.encoding, None, src.encoding)) })
            }),
        ensures
            ({
                let f = old(self).features;
                final(self).appends(*old(self), ({ let a1 = InstructionAttr::spec_new(f, vector_len, false, false, true, true); simd_rr_bytes(f, a1, dst.encoding, None, src.encoding, VEX_SIMD_66, VEX_OPCODE_0F_38) + seq![0x32, (0xC0 | rr_bits(dst.encoding, src.encoding))] }))
            }),
    {
        let mut attributes = InstructionAttr::new(&self.features, vector_len, false, false, true, true);
        let encode = self.simd_prefix_and_encode(dst.encoding, None, src.encoding, VEX_SIMD_66, VEX_OPCODE_0F_38, &mut attributes);
        self.emit_int16(0x32, (0xC0 | encode));
    }

    /// `vpmovsxbd dst, src, vector_len`
    pub fn vpmovsxbd(&mut self, dst: XMMRegister, src: XMMRegister, vector_len: u8)
        requires
            dst.wf(),
            src.wf(),
            ({
                let f = old(self).features;
                (if (vector_len == AVX_128BIT) { f.supports_avx() } else { (if (vector_len == AVX_256BIT) { f.supports_avx2() } else { f.supports_evex() }) }) && ({ let a1 = InstructionAttr::spec_new(f, vector_len, false, false, true, true); (simd_rr_ok(f, a1, dst.encoding, None, src.encoding)) })
            }),
        ensures
            ({
                let f = old(self).features;
                final(self).appends(*old(self), ({ let a1 = InstructionAttr::spec_new(f, vector_len, false, false, true, true); simd_rr_bytes(f, a1, dst.encoding, None, src.encoding, VEX_SIMD_66, VEX_OPCODE_0F_38) + seq![0x21, (0xC0 | rr_bits(dst.encoding, src.encoding))] }))
            }),
    {
        let mut attributes = InstructionAttr::new(&self.features, vector_len, false, false, true, true);
        let encode = self.simd_prefix_and_encode(dst.encoding, None, src.encoding, VEX_SIMD_66, VEX_OPCODE_0F_38, &mut attributes);
        self.emit_int16(0x21, (0xC0 | encode));
    }

    /// `vpmovsxbq dst, src, vector_len`
    pub fn vpmovsxbq(&mut self, dst: XMMRegister, src: XMMRegister, vector_len: u8)
        requires
            dst.wf(),
            src.wf(),
            ({
                let f = old(self).features;
                (if (vector_len == AVX_128BIT) { f.supports_avx() } else { (if (vector_len == AVX_256BIT) { f.supports_avx2() } else { f.supports_evex() }) }) && ({ let a1 = InstructionAttr::spec_new(f, vector_len, false, false, true, true); (simd_rr_ok(f, a1, dst.encoding, None, src.encoding)) })
            }),
        ensures
            ({
                let f = old(self).features;
                final(self).appends(*old(self), ({ let a1 = InstructionAttr::spec_new(f, vector_len, false, false, true, true); simd_rr_bytes(f, a1, dst.encoding, None, src.encoding, VEX_SIMD_66, VEX_OPCODE_0F_38) + seq![0x22, (0xC0 | rr_bits(dst.encoding, src.encoding))] }))
            }),
    {
        let mut attributes = InstructionAttr::new(&self.features, vector_len, false, false, true, true);
        let encode = self.simd_prefix_and_encode(dst.encoding, None, src.encoding, VEX_SIMD_66, VEX_OPCODE_0F_38, &mut attributes);
        self.emit_int16(0x22, (0xC0 | encode));
    }

    /// `vpmovsxwd dst, src, vector_len`
    pub fn vpmovsxwd(&mut self, dst: XMMRegister, src: XMMRegister, vector_len: u8)
        requires
            dst.wf(),
            src.wf(),
            ({
                let f = old(self).features;
                (if (vector_len == AVX_128BIT) { f.supports_avx() } else { (if (vector_len == AVX_256BIT) { f.supports_avx2() } else { f.supports_evex() }) }) && ({ let a1 = InstructionAttr::spec_new(f, vector_len, false, false, true, true); (simd_rr_ok(f, a1, dst.encoding, None, src.encoding)) })
            }),
        ensures
            ({
                let f = old(self).features;
                final(self).appends(*old(self), ({ let a1 = InstructionAttr::spec_new(f, vector_len, false, false, true, true); simd_rr_bytes(f, a1, dst.encoding, None, src.encoding, VEX_SIMD_66, VEX_OPCODE_0F_38) + seq![0x23, (0xC0 | rr_bits(dst.encoding, src.encoding))] }))
            }),
    {
        let mut attributes = InstructionAttr::new(&self.features, vector_len, false, false, true, true);
        let encode = self.simd_prefix_and_encode(dst.encoding, None, src.encoding, VEX_SIMD_66, VEX_OPCODE_0F_38, &mut attributes);
        self.emit_int16(0x23, (0xC0 | encode));
    }

    /// `vpmovsxwq dst, src, vector_len`
    pub fn vpmovsxwq(&mut self, dst: XMMRegister, src: XMMRegister, vector_len: u8)
        requires
            dst.wf(),
            src.wf(),
            ({
                let f = old(self).features;
                (if (vector_len == AVX_128BIT) { f.supports_avx() } else { (if (vector_len == AVX_256BIT) { f.supports_avx2() } else { f.supports_evex() }) }) && ({ let a1 = InstructionAttr::spec_new(f, vector_len, false, false, true, true); (simd_rr_ok(f, a1, dst.encoding, None, src.encoding)) })
            }),
        ensures
            ({
                let f = old(self).features;
                final(self).appends(*old(self), ({ let a1 = InstructionAttr::spec_new(f, vector_len, false, false, true, true); simd_rr_bytes(f, a1, dst.encoding, None, src.encoding, VEX_SIMD_66, VEX_OPCODE_0F_38) + seq![0x24, (0xC0 | rr_bits(dst.encoding, src.encoding))] }))
            }),
    {
        let mut attributes = InstructionAttr::new(&self.features, vector_len, false, false, true, true);
        let encode = self.simd_prefix_and_encode(dst.encoding, None, src.encoding, VEX_SIMD_66, VEX_OPCODE_0F_38, &mut attributes);
        self.emit_int16(0x24, (0xC0 | encode));
    }

    /// `vpmovsxdq dst, src, vector_len`
    pub fn vpmovsxdq(&mut self, dst: XMMRegister, src: XMMRegister, vector_len: u8)
        requires
            dst.wf(),
            src.wf(),
            ({
                let f = old(self).features;
                (if (vector_len == AVX_128BIT) { f.supports_avx() } else { (if (vector_len == AVX_256BIT) { f.supports_avx2() } else { f.supports_evex() }) }) && ({ let a1 = InstructionAttr::spec_new(f, vector_len, false, false, true, true); (simd_rr_ok(f, a1, dst.encoding, None, src.encoding)) })
            }),
        ensures
            ({
                let f = old(self).features;
                final(self).appends(*old(self), ({ let a1 = InstructionAttr::spec_new(f, vector_len, false, false, true, true); simd_rr_bytes(f, a1, dst.encoding, None, src.encoding, VEX_SIMD_66, VEX_OPCODE_0F_38) + seq![0x25, (0xC0 | rr_bits(dst.encoding, src.encoding))] }))
            }),
    {
        let mut attributes = InstructionAttr::new(&self.features, vector_len, false, false, true, true);
        let encode = self.simd_prefix_and_encode(dst.encoding, None, src.encoding, VEX_SIMD_66, VEX_OPCODE_0F_38, &mut attributes);
        self.emit_int16(0x25, (0xC0 | encode));
    }

    /// `pmaddwd dst, src`
    pub fn pmaddwd(&mut self, dst: XMMRegister, src: XMMRegister)
        requires
            dst.wf(),
            src.wf(),
            ({
                let f = old(self).features;
                ({ let a1 = InstructionAttr::spec_new(f, AVX_128BIT, false, f.legacy_mode_bw(), true, true); (simd_rr_ok(f, a1, dst.encoding, Some(dst.encoding), src.encoding)) })
            }),
        ensures
            ({
                let f = old(self).features;
                final(self).appends(*old(self), ({ let a1 = InstructionAttr::spec_new(f, AVX_128BIT, false, f.legacy_mode_bw(), true, true); simd_rr_bytes(f, a1, dst.encoding, Some(dst.encoding), src.encoding, VEX_SIMD_66, VEX_OPCODE_0F) + seq![0xF5, (0xC0 | rr_bits(dst.encoding, src.encoding))] }))
            }),
    {
        let mut attributes = InstructionAttr::new(&self.features, AVX_128BIT, false, self.features.legacy_mode_bw(), true, true);
        let encode = self.simd_prefix_and_encode(dst.encoding, Some(dst.encoding), src.encoding, VEX_SIMD_66, VEX_OPCODE_0F, &mut attributes);
        self.emit_int16(0xF5, (0xC0 | encode));
    }

    /// `vpmaddwd dst, nds, src, vector_len`
    pub fn vpmaddwd(&mut self, dst: XMMRegister, nds: XMMRegister, src: XMMRegister, vector_len: u8)
        requires
            dst.wf(),
            nds.wf(),
            src.wf(),
            ({
                let f = old(self).features;
                (if (vector_len == AVX_128BIT) { f.supports_avx() } else { (if (vector_len == AVX_256BIT) { f.supports_avx2() } else { (if (vector_len == AVX_512BIT) { f.supports_evex() } else { false }) }) }) && ({ let a1 = InstructionAttr::spec_new(f, vector_len, false, f.legacy_mode_bw(), true, true); (simd_rr_ok(f, a1, dst.encoding, Some(nds.encoding), src.encoding)) })
            }),
        ensures
            ({
                let f = old(self).features;
                final(self).appends(*old(self), ({ let a1 = InstructionAttr::spec_new(f, vector_len, false, f.legacy_mode_bw(), true, true); simd_rr_bytes(f, a1, dst.encoding, Some(nds.encoding), src.encoding, VEX_SIMD_66, VEX_OPCODE_0F) + seq![0xF5, (0xC0 | rr_bits(dst.encoding, src.encoding))] }))
            }),
    {
        let mut attributes = InstructionAttr::new(&self.features, vector_len, false, self.features.legacy_mode_bw(), true, true);
        let encode = self.simd_prefix_and_encode(dst.encoding, Some(nds.encoding), src.encoding, VEX_SIMD_66, VEX_OPCODE_0F, &mut attributes);
        self.emit_int16(0xF5, (0xC0 | encode));
    }

    /// `vpmaddubsw dst, src1, src2, vector_len`
    pub fn vpmaddubsw(&mut self, dst: XMMRegister, src1: XMMRegister, src2: XMMRegister, vector_len: u8)
        requires
            dst.wf(),
            src1.wf(),
            src2.wf(),
            ({
                let f = old(self).features;
                (if (vector_len == AVX_128BIT) { f.supports_avx() } else { (if (vector_len == AVX_256BIT) { f.supports_avx2() } else { (if (vector_len == AVX_512BIT) { f.supports_avx512bw() } else { false }) }) }) && ({ let a1 = InstructionAttr::spec_new(f, vector_len, false, f.legacy_mode_bw(), true, true); (simd_rr_ok(f, a1, dst.encoding, Some(src1.encoding), src2.encoding)) })
            }),
        ensures
            ({
                let f = old(self).features;
                final(self).appends(*old(self), ({ let a1 = InstructionAttr::spec_new(f, vector_len, false, f.legacy_mode_bw(), true, true); simd_rr_bytes(f, a1, dst.encoding, Some(src1.encoding), src2.encoding, VEX_SIMD_66, VEX_OPCODE_0F_38) + seq![0x04, (0xC0 | rr_bits(dst.encoding, src2.encoding))] }))
            }),
    {
        let mut attributes = InstructionAttr::new(&self.features, vector_len, false, self.features.legacy_mode_bw(), true, true);
        let encode = self.simd_prefix_and_encode(dst.encoding, Some(src1.encoding), src2.encoding, VEX_SIMD_66, VEX_OPCODE_0F_38, &mut attributes);
        self.emit_int16(0x04, (0xC0 | encode));
    }

    /// `pshufb dst, src`
    pub fn pshufb(&mut self, dst: XMMRegister, src: XMMRegister)
        requires
            dst.wf(),
            src.wf(),
            ({
                let f = old(self).features;
                (f.supports_ssse3()) && ({ let a1 = InstructionAttr::spec_new(f, AVX_128BIT, false, f.legacy_mode_bw(), true, true); (simd_rr_ok(f, a1, dst.encoding, Some(dst.encoding), src.encoding)) })
            }),
        ensures
            ({
                let f = old(self).features;
                final(self).appends(*old(self), ({ let a1 = InstructionAttr::spec_new(f, AVX_128BIT, false, f.legacy_mode_bw(), true, true); simd_rr_bytes(f, a1, dst.encoding, Some(dst.encoding), src.encoding, VEX_SIMD_66, VEX_OPCODE_0F_38) + seq![0x00, (0xC0 | rr_bits(dst.encoding, src.encoding))] }))
            }),
    {
        let mut attributes = InstructionAttr::new(&self.features, AVX_128BIT, false, self.features.legacy_mode_bw(), true, true);
        let encode = self.simd_prefix_and_encode(dst.encoding, Some(dst.encoding), src.encoding, VEX_SIMD_66, VEX_OPCODE_0F_38, &mut attributes);
        self.emit_int16(0x00, (0xC0 | encode));
    }

    /// `vpshufb dst, nds, src, vector_len`
    pub fn vpshufb(&mut self, dst: XMMRegister, nds: XMMRegister, src: XMMRegister, vector_len: u8)
        requires
            dst.wf(),
            nds.wf(),
            src.wf(),
            ({
                let f = old(self).features;
                (if (vector_len == AVX_128BIT) { f.supports_avx() } else { (if (vector_len == AVX_256BIT) { f.supports_avx2() } else { (if (vector_len == AVX_512BIT) { f.supports_avx512bw() } else { false }) }) }) && ({ let a1 = InstructionAttr::spec_new(f, vector_len, false, f.legacy_mode_bw(), true, true); (simd_rr_ok(f, a1, dst.encoding, Some(nds.encoding), src.encoding)) })
            }),
        ensures
            ({
                let f = old(self).features;
                final(self).appends(*old(self), ({ let a1 = InstructionAttr::spec_new(f, vector_len, false, f.legacy_mode_bw(), true, true); simd_rr_bytes(f, a1, dst.encoding, Some(nds.encoding), src.encoding, VEX_SIMD_66, VEX_OPCODE_0F_38) + seq![0x00, (0xC0 | rr_bits(dst.encoding, src.encoding))] }))
            }),
    {
        let mut attributes = InstructionAttr::new(&self.features, vector_len, false, self.features.legacy_mode_bw(), true, true);
        let encode = self.simd_prefix_and_encode(dst.encoding, Some(nds.encoding), src.encoding, VEX_SIMD_66, VEX_OPCODE_0F_38, &mut attributes);
        self.emit_int16(0x00, (0xC0 | encode));
    }

    /// `pshufb dst, [src]`
    pub fn pshufb_xm(&mut self, dst: XMMRegister, src: Address)
        requires
            dst.wf(),
            src.wf(),
            ({
                let f = old(self).features;
                (f.supports_ssse3()) && ({ let a1 = InstructionAttr::spec_new(f, AVX_128BIT, false, f.legacy_mode_bw(), true, true); let a2 = a1.with_address(f, EVEX_FVM, EVEX_NOBIT); (simd_adr_ok(f, a2, dst.encoding, Some(dst.encoding), src)) })
            }),
        ensures
            ({
                let f = old(self).features;
                final(self).appends(*old(self), ({ let a1 = InstructionAttr::spec_new(f, AVX_128BIT, false, f.legacy_mode_bw(), true, true); let a2 = a1.with_address(f, EVEX_FVM, EVEX_NOBIT); simd_adr_bytes(f, a2, dst.encoding, Some(dst.encoding), src, VEX_SIMD_66, VEX_OPCODE_0F_38) + ({ let a3 = simd_adr_attr(f, a2, dst.encoding, Some(dst.encoding)); seq![0x00] + address_bytes(f, Some(a3), dst.encoding, src, true) }) }))
            }),
    {
        let mut attributes = InstructionAttr::new(&self.features, AVX_128BIT, false, self.features.legacy_mode_bw(), true, true);
        attributes.set_address_attributes(&self.features, EVEX_FVM, EVEX_NOBIT);
        self.simd_prefix(dst.encoding, Some(dst.encoding), &src, VEX_SIMD_66, VEX_OPCODE_0F_38, &mut attributes);
        self.emit_int8(0x00);
        self.emit_operand_attr(dst.encoding, &src, &attributes, true);
    }

    /// `pshufd dst, src, mode`
    pub fn pshufd(&mut self, dst: XMMRegister, src: XMMRegister, mode: i32)
        requires
            dst.wf(),
            src.wf(),
            ({
                let f = old(self).features;
                (0 <= mode && mode < 256) && ({ let vector_len = (if f.supports_avx512novl() { AVX_512BIT } else { AVX_128BIT }); let a1 = InstructionAttr::spec_new(f, vector_len, false, false, true, true); (simd_rr_ok(f, a1, dst.encoding, None, src.encoding)) })
            }),
        ensures
            ({
                let f = old(self).features;
                final(self).appends(*old(self), ({ let vector_len = (if f.supports_avx512novl() { AVX_512BIT } else { AVX_128BIT }); let a1 = InstructionAttr::spec_new(f, vector_len, false, false, true, true); simd_rr_bytes(f, a1, dst.encoding, None, src.encoding, VEX_SIMD_66, VEX_OPCODE_0F) + seq![0x70, (0xC0 | rr_bits(dst.encoding, src.encoding)), low8(mode)] }))
            }),
    {
        let vector_len: u8 = (if self.features.supports_avx512novl() { AVX_512BIT } else { AVX_128BIT });
        let mut attributes = InstructionAttr::new(&self.features, vector_len, false, false, true, true);
        let encode = self.simd_prefix_and_encode(dst.encoding, None, src.encoding, VEX_SIMD_66, VEX_OPCODE_0F, &mut attributes);
        self.emit_int24(0x70, (0xC0 | encode), low8_exec(mode));
    }

    /// `vpshufd dst, src, mode, vector_len`
    pub fn vpshufd(&mut self, dst: XMMRegister, src: XMMRegister, mode: i32, vector_len: u8)
        requires
            dst.wf(),
            src.wf(),
            ({
                let f = old(self).features;
                (if (vector_len == AVX_128BIT) { f.supports_avx() } else { (if (vector_len == AVX_256BIT) { f.supports_avx2() } else { (if (vector_len == AVX_512BIT) { f.supports_evex() } else { false }) }) }) && ({ let a1 = InstructionAttr::spec_new(f, vector_len, false, false, true, true); (simd_rr_ok(f, a1, dst.encoding, None, src.encoding)) })
            }),
        ensures
            ({
                let f = old(self).features;
                final(self).appends(*old(self), ({ let a1 = InstructionAttr::spec_new(f, vector_len, false, false, true, true); simd_rr_bytes(f, a1, dst.encoding, None, src.encoding, VEX_SIMD_66, VEX_OPCODE_0F) + seq![0x70, (0xC0 | rr_bits(dst.encoding, src.encoding)), low8(mode)] }))
            }),
    {
        let mut attributes = InstructionAttr::new(&self.features, vector_len, false, false, true, true);
        let encode = self.simd_prefix_and_encode(dst.encoding, None, src.encoding, VEX_SIMD_66, VEX_OPCODE_0F, &mut attributes);
        self.emit_int24(0x70, (0xC0 | encode), low8_exec(mode));
    }

    /// `pshufd dst, [src], mode`
    pub fn pshufd_xmi(&mut self, dst: XMMRegister, src: Address, mode: i32)
        requires
            dst.wf(),
            src.wf(),
            ({
                let f = old(self).features;
                (0 <= mode && mode < 256) && ((f.use_avx > 0) && ({ let a1 = InstructionAttr::spec_new(f, AVX_128BIT, false, false, true, true); let a2 = a1.with_address(f, EVEX_FV, EVEX_32BIT); (simd_adr_ok(f, a2, dst.encoding, None, src)) }))
            }),
        ensures
            ({
                let f = old(self).features;
                final(self).appends(*old(self), ({ let a1 = InstructionAttr::spec_new(f, AVX_128BIT, false, false, true, true); let a2 = a1.with_address(f, EVEX_FV, EVEX_32BIT); simd_adr_bytes(f, a2, dst.encoding, None, src, VEX_SIMD_66, VEX_OPCODE_0F) + ({ let a3 = simd_adr_attr(f, a2, dst.encoding, None); seq![0x70] + address_bytes(f, Some(a3), dst.encoding, src, true) + seq![low8(mode)] }) }))
            }),
    {
        let mut attributes = InstructionAttr::new(&self.features, AVX_128BIT, false, false, true, true);
        attributes.set_address_attributes(&self.features, EVEX_FV, EVEX_32BIT);
        self.simd_prefix(dst.encoding, None, &src, VEX_SIMD_66, VEX_OPCODE_0F, &mut attributes);
        self.emit_int8(0x70);
        self.emit_operand_attr(dst.encoding, &src, &attributes, true);
        self.emit_int8(low8_exec(mode));
    }

    /// `pshufhw dst, src, mode`
    pub fn pshufhw(&mut self, dst: XMMRegister, src: XMMRegister, mode: i32)
        requires
            dst.wf(),
            src.wf(),
            ({
                let f = old(self).features;
                (0 <= mode && mode < 256) && ({ let a1 = InstructionAttr::spec_new(f, AVX_128BIT, false, f.legacy_mode_bw(), true, true); (simd_rr_ok(f, a1, dst.encoding, None, src.encoding)) })
            }),
        ensures
            ({
                let f = old(self).features;
                final(self).appends(*old(self), ({ let a1 = InstructionAttr::spec_new(f, AVX_128BIT, false, f.legacy_mode_bw(), true, true); simd_rr_bytes(f, a1, dst.encoding, None, src.encoding, VEX_SIMD_F3, VEX_OPCODE_0F) + seq![0x70, (0xC0 | rr_bits(dst.encoding, src.encoding)), low8(mode)] }))
            }),
    {
        let mut attributes = InstructionAttr::new(&self.features, AVX_128BIT, false, self.features.legacy_mode_bw(), true, true);
        let encode = self.simd_prefix_and_encode(dst.encoding, None, src.encoding, VEX_SIMD_F3, VEX_OPCODE_0F, &mut attributes);
        self.emit_int24(0x70, (0xC0 | encode), low8_exec(mode));
    }

    /// `vpshufhw dst, src, mode, vector_len`
    pub fn vpshufhw(&mut self, dst: XMMRegister, src: XMMRegister, mode: i32, vector_len: u8)
        requires
            dst.wf(),
            src.wf(),
            ({
                let f = old(self).features;
                (if (vector_len == AVX_128BIT) { f.supports_avx() } else { (if (vector_len == AVX_256BIT) { f.supports_avx2() } else { (if (vector_len == AVX_512BIT) { f.supports_avx512bw() } else { false }) }) }) && ({ let a1 = InstructionAttr::spec_new(f, vector_len, false, f.legacy_mode_bw(), true, true); (simd_rr_ok(f, a1, dst.encoding, None, src.encoding)) })
            }),
        ensures
            ({
                let f = old(self).features;
                final(self).appends(*old(self), ({ let a1 = InstructionAttr::spec_new(f, vector_len, false, f.legacy_mode_bw(), true, true); simd_rr_bytes(f, a1, dst.encoding, None, src.encoding, VEX_SIMD_F3, VEX_OPCODE_0F) + seq![0x70, (0xC0 | rr_bits(dst.encoding, src.encoding)), low8(mode)] }))
            }),
    {
        let mut attributes = InstructionAttr::new(&self.features, vector_len, false, self.features.legacy_mode_bw(), true, true);
        let encode = self.simd_prefix_and_encode(dst.encoding, None, src.encoding, VEX_SIMD_F3, VEX_OPCODE_0F, &mut attributes);
        self.emit_int24(0x70, (0xC0 | encode), low8_exec(mode));
    }

    /// `pshuflw dst, src, mode`
    pub fn pshuflw(&mut self, dst: XMMRegister, src: XMMRegister, mode: i32)
        requires
            dst.wf(),
            src.wf(),
            ({
                let f = old(self).features;
                (0 <= mode && mode < 256) && ({ let a1 = InstructionAttr::spec_new(f, AVX_128BIT, false, f.legacy_mode_bw(), true, true); (simd_rr_ok(f, a1, dst.encoding, None, src.encoding)) })
            }),
        ensures
            ({
                let f = old(self).features;
                final(self).appends(*old(self), ({ let a1 = InstructionAttr::spec_new(f, AVX_128BIT, false, f.legacy_mode_bw(), true, true); simd_rr_bytes(f, a1, dst.encoding, None, src.encoding, VEX_SIMD_F2, VEX_OPCODE_0F) + seq![0x70, (0xC0 | rr_bits(dst.encoding, src.encoding)), low8(mode)] }))
            }),
    {
        let mut attributes = InstructionAttr::new(&self.features, AVX_128BIT, false, self.features.legacy_mode_bw(), true, true);
        let encode = self.simd_prefix_and_encode(dst.encoding, None, src.encoding, VEX_SIMD_F2, VEX_OPCODE_0F, &mut attributes);
        self.emit_int24(0x70, (0xC0 | encode), low8_exec(mode));
    }

    /// `pshuflw dst, [src], mode`
    pub fn pshuflw_xmi(&mut self, dst: XMMRegister, src: Address, mode: i32)
        requires
            dst.wf(),
            src.wf(),
            ({
                let f = old(self).features;
                (0 <= mode && mode < 256) && ((f.use_avx > 0) && ({ let a1 = InstructionAttr::spec_new(f, AVX_128BIT, false, f.legacy_mode_bw(), true, true); let a2 = a1.with_address(f, EVEX_FVM, EVEX_NOBIT); (simd_adr_ok(f, a2, dst.encoding, None, src)) }))
            }),
        ensures
            ({
                let f = old(self).features;
                final(self).appends(*old(self), ({ let a1 = InstructionAttr::spec_new(f, AVX_128BIT, false, f.legacy_mode_bw(), true, true); let a2 = a1.with_address(f, EVEX_FVM, EVEX_NOBIT); simd_adr_bytes(f, a2, dst.encoding, None, src, VEX_SIMD_F2, VEX_OPCODE_0F) + ({ let a3 = simd_adr_attr(f, a2, dst.encoding, None); seq![0x70] + address_bytes(f, Some(a3), dst.encoding, src, true) + seq![low8(mode)] }) }))
            }),
    {
        let mut attributes = InstructionAttr::new(&self.features, AVX_128BIT, false, self.features.legacy_mode_bw(), true, true);
        attributes.set_address_attributes(&self.features, EVEX_FVM, EVEX_NOBIT);
        self.simd_prefix(dst.encoding, None, &src, VEX_SIMD_F2, VEX_OPCODE_0F, &mut attributes);
        self.emit_int8(0x70);
        self.emit_operand_attr(dst.encoding, &src, &attributes, true);
        self.emit_int8(low8_exec(mode));
    }

    /// `vpshuflw dst, src, mode, vector_len`
    pub fn vpshuflw(&mut self, dst: XMMRegister, src: XMMRegister, mode: i32, vector_len: u8)
        requires
            dst.wf(),
            src.wf(),
            ({
                let f = old(self).features;
                (if (vector_len == AVX_128BIT) { f.supports_avx() } else { (if (vector_len == AVX_256BIT) { f.supports_avx2() } else { (if (vector_len == AVX_512BIT) { f.supports_avx512bw() } else { false }) }) }) && ({ let a1 = InstructionAttr::spec_new(f, vector_len, false, f.legacy_mode_bw(), true, true); (simd_rr_ok(f, a1, dst.encoding, None, src.encoding)) })
            }),
        ensures
            ({
                let f = old(self).features;
                final(self).appends(*old(self), ({ let a1 = InstructionAttr::spec_new(f, vector_len, false, f.legacy_mode_bw(), true, true); simd_rr_bytes(f, a1, dst.encoding, None, src.encoding, VEX_SIMD_F2, VEX_OPCODE_0F) + seq![0x70, (0xC0 | rr_bits(dst.encoding, src.encoding)), low8(mode)] }))
            }),
    {
        let mut attributes = InstructionAttr::new(&self.features, vector_len, false, self.features.legacy_mode_bw(), true, true);
        let encode = self.simd_prefix_and_encode(dst.encoding, None, src.encoding, VEX_SIMD_F2, VEX_OPCODE_0F, &mut attributes);
        self.emit_int24(0x70, (0xC0 | encode), low8_exec(mode));
    }

    /// `shufpd dst, src, imm8`
    pub fn shufpd(&mut self, dst: XMMRegister, src: XMMRegister, imm8: i8)
        requires
            dst.wf(),
            src.wf(),
            ({
                let f = old(self).features;
                (0 <= imm8 && imm8 < 256) && ({ let a1 = InstructionAttr::spec_new(f, AVX_128BIT, false, false, true, true); (simd_rr_ok(f, a1, dst.encoding, Some(dst.encoding), src.encoding)) })
            }),
        ensures
            ({
                let f = old(self).features;
                final(self).appends(*old(self), ({ let a1 = InstructionAttr::spec_new(f, AVX_128BIT, false, false, true, true); simd_rr_bytes(f, a1, dst.encoding, Some(dst.encoding), src.encoding, VEX_SIMD_66, VEX_OPCODE_0F) + seq![0xC6, (0xC0 | rr_bits(dst.encoding, src.encoding)), imm_byte(imm8)] }))
            }),
    {
        let mut attributes = InstructionAttr::new(&self.features, AVX_128BIT, false, false, true, true);
        let encode = self.simd_prefix_and_encode(dst.encoding, Some(dst.encoding), src.encoding, VEX_SIMD_66, VEX_OPCODE_0F, &mut attributes);
        self.emit_int24(0xC6, (0xC0 | encode), imm_byte_exec(imm8));
    }

    /// `shufps dst, src, imm8`
    pub fn shufps(&mut self, dst: XMMRegister, src: XMMRegister, imm8: i8)
        requires
            dst.wf(),
            src.wf(),
            ({
                let f = old(self).features;
                (0 <= imm8 && imm8 < 256) && ({ let a1 = InstructionAttr::spec_new(f, AVX_128BIT, false, false, true, true); (simd_rr_ok(f, a1, dst.encoding, Some(dst.encoding), src.encoding)) })
            }),
        ensures
            ({
                let f = old(self).features;
                final(self).appends(*old(self), ({ let a1 = InstructionAttr::spec_new(f, AVX_128BIT, false, false, true, true); simd_rr_bytes(f, a1, dst.encoding, Some(dst.encoding), src.encoding, VEX_SIMD_NONE, VEX_OPCODE_0F) + seq![0xC6, (0xC0 | rr_bits(dst.encoding, src.encoding)), imm_byte(imm8)] }))
            }),
    {
        let mut attributes = InstructionAttr::new(&self.features, AVX_128BIT, false, false, true, true);
        let encode = self.simd_prefix_and_encode(dst.encoding, Some(dst.encoding), src.encoding, VEX_SIMD_NONE, VEX_OPCODE_0F, &mut attributes);
        self.emit_int24(0xC6, (0xC0 | encode), imm_byte_exec(imm8));
    }

    /// `psrldq dst, shift`
    pub fn psrldq(&mut self, dst: XMMRegister, shift: i32)
        requires
            dst.wf(),
            ({
                let f = old(self).features;
                ({ let a1 = InstructionAttr::spec_new(f, AVX_128BIT, false, f.legacy_mode_bw(), true, true); (simd_rr_ok(f, a1, 3, Some(dst.encoding), dst.encoding)) })
            }),
        ensures
            ({
                let f = old(self).features;
                final(self).appends(*old(self), ({ let a1 = InstructionAttr::spec_new(f, AVX_128BIT, false, f.legacy_mode_bw(), true, true); simd_rr_bytes(f, a1, 3, Some(dst.encoding), dst.encoding, VEX_SIMD_66, VEX_OPCODE_0F) + seq![0x73, (0xC0 | rr_bits(3, dst.encoding)), low8(shift)] }))
            }),
    {
        let mut attributes = InstructionAttr::new(&self.features, AVX_128BIT, false, self.features.legacy_mode_bw(), true, true);
        let encode = self.simd_prefix_and_encode(3, Some(dst.encoding), dst.encoding, VEX_SIMD_66, VEX_OPCODE_0F, &mut attributes);
        self.emit_int24(0x73, (0xC0 | encode), low8_exec(shift));
    }

    /// `pslldq dst, shift`
    pub fn pslldq(&mut self, dst: XMMRegister, shift: i32)
        requires
            dst.wf(),
            ({
                let f = old(self).features;
                ({ let a1 = InstructionAttr::spec_new(f, AVX_128BIT, false, f.legacy_mode_bw(), true, true); (simd_rr_ok(f, a1, 7, Some(dst.encoding), dst.encoding)) })
            }),
        ensures
            ({
                let f = old(self).features;
                final(self).appends(*old(self), ({ let a1 = InstructionAttr::spec_new(f, AVX_128BIT, false, f.legacy_mode_bw(), true, true); simd_rr_bytes(f, a1, 7, Some(dst.encoding), dst.encoding, VEX_SIMD_66, VEX_OPCODE_0F) + seq![0x73, (0xC0 | rr_bits(7, dst.encoding)), low8(shift)] }))
            }),
    {
        let mut attributes = InstructionAttr::new(&self.features, AVX_128BIT, false, self.features.legacy_mode_bw(), true, true);
        let encode = self.simd_prefix_and_encode(7, Some(dst.encoding), dst.encoding, VEX_SIMD_66, VEX_OPCODE_0F, &mut attributes);
        self.emit_int24(0x73, (0xC0 | encode), low8_exec(shift));
    }

    /// `ptest dst, [src]`
    pub fn ptest_xm(&mut self, dst: XMMRegister, src: Address)
        requires
            dst.wf(),
            src.wf(),
            ({
                let f = old(self).features;
                (f.supports_sse4_1()) && ((f.use_avx > 0) && ({ let a1 = InstructionAttr::spec_new(f, AVX_128BIT, false, true, true, false); (simd_adr_ok(f, a1, dst.encoding, None, src)) }))
            }),
        ensures
            ({
                let f = old(self).features;
                final(self).appends(*old(self), ({ let a1 = InstructionAttr::spec_new(f, AVX_128BIT, false, true, true, false); simd_adr_bytes(f, a1, dst.encoding, None, src, VEX_SIMD_66, VEX_OPCODE_0F_38) + ({ let a2 = simd_adr_attr(f, a1, dst.encoding, None); seq![0x17] + address_bytes(f, Some(a2), dst.encoding, src, true) }) }))
            }),
    {
        let mut attributes = InstructionAttr::new(&self.features, AVX_128BIT, false, true, true, false);
        self.simd_prefix(dst.encoding, None, &src, VEX_SIMD_66, VEX_OPCODE_0F_38, &mut attributes);
        self.emit_int8(0x17);
        self.emit_operand_attr(dst.encoding, &src, &attributes, true);
    }

    /// `ptest dst, src`
    pub fn ptest(&mut self, dst: XMMRegister, src: XMMRegister)
        requires
            dst.wf(),
            src.wf(),
            ({
                let f = old(self).features;
                (f.supports_sse4_1() || f.supports_avx()) && ({ let a1 = InstructionAttr::spec_new(f, AVX_128BIT, false, true, true, false); (simd_rr_ok(f, a1, dst.encoding, None, src.encoding)) })
            }),
        ensures
            ({
                let f = old(self).features;
                final(self).appends(*old(self), ({ let a1 = InstructionAttr::spec_new(f, AVX_128BIT, false, true, true, false); simd_rr_bytes(f, a1, dst.encoding, None, src.encoding, VEX_SIMD_66, VEX_OPCODE_0F_38) + seq![0x17] + seq![(0xC0 | rr_bits(dst.encoding, src.encoding))] }))
            }),
    {
        let mut attributes = InstructionAttr::new(&self.features, AVX_128BIT, false, true, true, false);
        let encode = self.simd_prefix_and_encode(dst.encoding, None, src.encoding, VEX_SIMD_66, VEX_OPCODE_0F_38, &mut attributes);
        self.emit_int8(0x17);
        self.emit_int8((0xC0 | encode));
    }

    /// `punpcklbw dst, [src]`
    pub fn punpcklbw_xm(&mut self, dst: XMMRegister, src: Address)
        requires
            dst.wf(),
            src.wf(),
            ({
                let f = old(self).features;
                (f.use_avx > 0) && ({ let a1 = InstructionAttr::spec_new(f, AVX_128BIT, false, f.legacy_mode_vlbw(), true, true); let a2 = a1.with_address(f, EVEX_FVM, EVEX_NOBIT); (simd_adr_ok(f, a2, dst.encoding, Some(dst.encoding), src)) })
            }),
        ensures
            ({
                let f = old(self).features;
                final(self).appends(*old(self), ({ let a1 = InstructionAttr::spec_new(f, AVX_128BIT, false, f.legacy_mode_vlbw(), true, true); let a2 = a1.with_address(f, EVEX_FVM, EVEX_NOBIT); simd_adr_bytes(f, a2, dst.encoding, Some(dst.encoding), src, VEX_SIMD_66, VEX_OPCODE_0F) + ({ let a3 = simd_adr_attr(f, a2, dst.encoding, Some(dst.encoding)); seq![0x60] + address_bytes(f, Some(a3), dst.encoding, src, true) }) }))
            }),
    {
        let mut attributes = InstructionAttr::new(&self.features, AVX_128BIT, false, self.features.legacy_mode_vlbw(), true, true);
        attributes.set_address_attributes(&self.features, EVEX_FVM, EVEX_NOBIT);
        self.simd_prefix(dst.encoding, Some(dst.encoding), &src, VEX_SIMD_66, VEX_OPCODE_0F, &mut attributes);
        self.emit_int8(0x60);
        self.emit_operand_attr(dst.encoding, &src, &attributes, true);
    }

    /// `punpcklbw dst, src`
    pub fn punpcklbw(&mut self, dst: XMMRegister, src: XMMRegister)
        requires
            dst.wf(),
            src.wf(),
            ({
                let f = old(self).features;
                ({ let a1 = InstructionAttr::spec_new(f, AVX_128BIT, false, f.legacy_mode_vlbw(), true, true); (simd_rr_ok(f, a1, dst.encoding, Some(dst.encoding), src.encoding)) })
            }),
        ensures
            ({
                let f = old(self).features;
                final(self).appends(*old(self), ({ let a1 = InstructionAttr::spec_new(f, AVX_128BIT, false, f.legacy_mode_vlbw(), true, true); simd_rr_bytes(f, a1, dst.encoding, Some(dst.encoding), src.encoding, VEX_SIMD_66, VEX_OPCODE_0F) + seq![0x60, (0xC0 | rr_bits(dst.encoding, src.encoding))] }))
            }),
    {
        let mut attributes = InstructionAttr::new(&self.features, AVX_128BIT, false, self.features.legacy_mode_vlbw(), true, true);
        let encode = self.simd_prefix_and_encode(dst.encoding, Some(dst.encoding), src.encoding, VEX_SIMD_66, VEX_OPCODE_0F, &mut attributes);
        self.emit_int16(0x60, (0xC0 | encode));
    }

    /// `punpckldq dst, [src]`
    pub fn punpckldq_xm(&mut self, dst: XMMRegister, src: Address)
        requires
            dst.wf(),
            src.wf(),
            ({
                let f = old(self).features;
                (f.use_avx > 0) && ({ let a1 = InstructionAttr::spec_new(f, AVX_128BIT, false, false, true, true); let a2 = a1.with_address(f, EVEX_FV, EVEX_32BIT); (simd_adr_ok(f, a2, dst.encoding, Some(dst.encoding), src)) })
            }),
        ensures
            ({
                let f = old(self).features;
                final(self).appends(*old(self), ({ let a1 = InstructionAttr::spec_new(f, AVX_128BIT, false, false, true, true); let a2 = a1.with_address(f, EVEX_FV, EVEX_32BIT); simd_adr_bytes(f, a2, dst.encoding, Some(dst.encoding), src, VEX_SIMD_66, VEX_OPCODE_0F) + ({ let a3 = simd_adr_attr(f, a2, dst.encoding, Some(dst.encoding)); seq![0x62] + address_bytes(f, Some(a3), dst.encoding, src, true) }) }))
            }),
    {
        let mut attributes = InstructionAttr::new(&self.features, AVX_128BIT, false, false, true, true);
        attributes.set_address_attributes(&self.features, EVEX_FV, EVEX_32BIT);
        self.simd_prefix(dst.encoding, Some(dst.encoding), &src, VEX_SIMD_66, VEX_OPCODE_0F, &mut attributes);
        self.emit_int8(0x62);
        self.emit_operand_attr(dst.encoding, &src, &attributes, true);
    }

    /// `punpckldq dst, src`
    pub fn punpckldq(&mut self, dst: XMMRegister, src: XMMRegister)
        requires
            dst.wf(),
            src.wf(),
            ({
                let f = old(self).features;
                ({ let a1 = InstructionAttr::spec_new(f, AVX_128BIT, false, false, true, true); (simd_rr_ok(f, a1, dst.encoding, Some(dst.encoding), src.encoding)) })
            }),
        ensures
            ({
                let f = old(self).features;
                final(self).appends(*old(self), ({ let a1 = InstructionAttr::spec_new(f, AVX_128BIT, false, false, true, true); simd_rr_bytes(f, a1, dst.encoding, Some(dst.encoding), src.encoding, VEX_SIMD_66, VEX_OPCODE_0F) + seq![0x62, (0xC0 | rr_bits(dst.encoding, src.encoding))] }))
            }),
    {
        let mut attributes = InstructionAttr::new(&self.features, AVX_128BIT, false, false, true, true);
        let encode = self.simd_prefix_and_encode(dst.encoding, Some(dst.encoding), src.encoding, VEX_SIMD_66, VEX_OPCODE_0F, &mut attributes);
        self.emit_int16(0x62, (0xC0 | encode));
    }

    /// `punpcklqdq dst, src`
    pub fn punpcklqdq(&mut self, dst: XMMRegister, src: XMMRegister)
        requires
            dst.wf(),
            src.wf(),
            ({
                let f = old(self).features;
                ({ let a1 = InstructionAttr::spec_new(f, AVX_128BIT, f.supports_evex(), false, true, true); let a2 = a1.reverted(); (simd_rr_ok(f, a2, dst.encoding, Some(dst.encoding), src.encoding)) })
            }),
        ensures
            ({
                let f = old(self).features;
                final(self).appends(*old(self), ({ let a1 = InstructionAttr::spec_new(f, AVX_128BIT, f.supports_evex(), false, true, true); let a2 = a1.reverted(); simd_rr_bytes(f, a2, dst.encoding, Some(dst.encoding), src.encoding, VEX_SIMD_66, VEX_OPCODE_0F) + seq![0x6C, (0xC0 | rr_bits(dst.encoding, src.encoding))] }))
            }),
    {
        let mut attributes = InstructionAttr::new(&self.features, AVX_128BIT, self.features.supports_evex(), false, true, true);
        attributes.set_rex_vex_w_reverted();
        let encode = self.simd_prefix_and_encode(dst.encoding, Some(dst.encoding), src.encoding, VEX_SIMD_66, VEX_OPCODE_0F, &mut attributes);
        self.emit_int16(0x6C, (0xC0 | encode));
    }

    /// `rcpps dst, src`
    pub fn rcpps(&mut self, dst: XMMRegister, src: XMMRegister)
        requires
            dst.wf(),
            src.wf(),
            ({
                let f = old(self).features;
                ({ let a1 = InstructionAttr::spec_new(f, AVX_128BIT, false, true, true, false); (simd_rr_ok(f, a1, dst.encoding, None, src.encoding)) })
            }),
        ensures
            ({
                let f = old(self).features;
                final(self).appends(*old(self), ({ let a1 = InstructionAttr::spec_new(f, AVX_128BIT, false, true, true, false); simd_rr_bytes(f, a1, dst.encoding, None, src.encoding, VEX_SIMD_NONE, VEX_OPCODE_0F) + seq![0x53, (0xC0 | rr_bits(dst.encoding, src.encoding))] }))
            }),
    {
        let mut attributes = InstructionAttr::new(&self.features, AVX_128BIT, false, true, true, false);
        let encode = self.simd_prefix_and_encode(dst.encoding, None, src.encoding, VEX_SIMD_NONE, VEX_OPCODE_0F, &mut attributes);
        self.emit_int16(0x53, (0xC0 | encode));
    }

    /// `rcpss dst, src`
    pub fn rcpss(&mut self, dst: XMMRegister, src: XMMRegister)
        requires
            dst.wf(),
            src.wf(),
            ({
                let f = old(self).features;
                ({ let a1 = InstructionAttr::spec_new(f, AVX_128BIT, false, true, true, false); (simd_rr_ok(f, a1, dst.encoding, Some(dst.encoding), src.encoding)) })
            }),
        ensures
            ({
                let f = old(self).features;
                final(self).appends(*old(self), ({ let a1 = InstructionAttr::spec_new(f, AVX_128BIT, false, true, true, false); simd_rr_bytes(f, a1, dst.encoding, Some(dst.encoding), src.encoding, VEX_SIMD_F3, VEX_OPCODE_0F) + seq![0x53, (0xC0 | rr_bits(dst.encoding, src.encoding))] }))
            }),
    {
        let mut attributes = InstructionAttr::new(&self.features, AVX_128BIT, false, true, true, false);
        let encode = self.simd_prefix_and_encode(dst.encoding, Some(dst.encoding), src.encoding, VEX_SIMD_F3, VEX_OPCODE_0F, &mut attributes);
        self.emit_int16(0x53, (0xC0 | encode));
    }

    /// `palignr dst, src, imm8`
    pub fn palignr(&mut self, dst: XMMRegister, src: XMMRegister, imm8: i8)
        requires
            dst.wf(),
            src.wf(),
            ({
                let f = old(self).features;
                (f.supports_ssse3()) && ({ let a1 = InstructionAttr::spec_new(f, AVX_128BIT, false, f.legacy_mode_bw(), true, true); (simd_rr_ok(f, a1, dst.encoding, Some(dst.encoding), src.encoding)) })
            }),
        ensures
            ({
                let f = old(self).features;
                final(self).appends(*old(self), ({ let a1 = InstructionAttr::spec_new(f, AVX_128BIT, false, f.legacy_mode_bw(), true, true); simd_rr_bytes(f, a1, dst.encoding, Some(dst.encoding), src.encoding, VEX_SIMD_66, VEX_OPCODE_0F_3A) + seq![0x0F, (0xC0 | rr_bits(dst.encoding, src.encoding)), imm_byte(imm8)] }))
            }),
    {
        let mut attributes = InstructionAttr::new(&self.features, AVX_128BIT, false, self.features.legacy_mode_bw(), true, true);
        let encode = self.simd_prefix_and_encode(dst.encoding, Some(dst.encoding), src.encoding, VEX_SIMD_66, VEX_OPCODE_0F_3A, &mut attributes);
        self.emit_int24(0x0F, (0xC0 | encode), imm_byte_exec(imm8));
    }

    /// `vpalignr dst, nds, src, imm8, vector_len`
    pub fn vpalignr(&mut self, dst: XMMRegister, nds: XMMRegister, src: XMMRegister, imm8: i8, vector_len: u8)
        requires
            dst.wf(),
            nds.wf(),
            src.wf(),
            ({
                let f = old(self).features;
                (if (vector_len == AVX_128BIT) { f.supports_avx() } else { (if (vector_len == AVX_256BIT) { f.supports_avx2() } else { false }) }) && ({ let a1 = InstructionAttr::spec_new(f, vector_len, false, f.legacy_mode_bw(), true, true); (simd_rr_ok(f, a1, dst.encoding, Some(nds.encoding), src.encoding)) })
            }),
        ensures
            ({
                let f = old(self).features;
                final(self).appends(*old(self), ({ let a1 = InstructionAttr::spec_new(f, vector_len, false, f.legacy_mode_bw(), true, true); simd_rr_bytes(f, a1, dst.encoding, Some(nds.encoding), src.encoding, VEX_SIMD_66, VEX_OPCODE_0F_3A) + seq![0x0F, (0xC0 | rr_bits(dst.encoding, src.encoding)), imm_byte(imm8)] }))
            }),
    {
        let mut attributes = InstructionAttr::new(&self.features, vector_len, false, self.features.legacy_mode_bw(), true, true);
        let encode = self.simd_prefix_and_encode(dst.encoding, Some(nds.encoding), src.encoding, VEX_SIMD_66, VEX_OPCODE_0F_3A, &mut attributes);
        self.emit_int24(0x0F, (0xC0 | encode), imm_byte_exec(imm8));
    }

    /// `pblendw dst, src, imm8`
    pub fn pblendw(&mut self, dst: XMMRegister, src: XMMRegister, imm8: i8)
        requires
            dst.wf(),
            src.wf(),
            ({
                let f = old(self).features;
                (f.supports_sse4_1()) && ({ let a1 = InstructionAttr::spec_new(f, AVX_128BIT, false, true, true, false); (simd_rr_ok(f, a1, dst.encoding, Some(dst.encoding), src.encoding)) })
            }),
        ensures
            ({
                let f = old(self).features;
                final(self).appends(*old(self), ({ let a1 = InstructionAttr::spec_new(f, AVX_128BIT, false, true, true, false); simd_rr_bytes(f, a1, dst.encoding, Some(dst.encoding), src.encoding, VEX_SIMD_66, VEX_OPCODE_0F_3A) + seq![0x0E, (0xC0 | rr_bits(dst.encoding, src.encoding)), imm_byte(imm8)] }))
            }),
    {
        let mut attributes = InstructionAttr::new(&self.features, AVX_128BIT, false, true, true, false);
        let encode = self.simd_prefix_and_encode(dst.encoding, Some(dst.encoding), src.encoding, VEX_SIMD_66, VEX_OPCODE_0F_3A, &mut attributes);
        self.emit_int24(0x0E, (0xC0 | encode), imm_byte_exec(imm8));
    }

    /// `roundsd dst, src, rmode`
    pub fn roundsd(&mut self, dst: XMMRegister, src: XMMRegister, rmode: i32)
        requires
            dst.wf(),
            src.wf(),
            ({
                let f = old(self).features;
                (f.supports_sse4_1()) && ({ let a1 = InstructionAttr::spec_new(f, AVX_128BIT, false, true, true, false); (simd_rr_ok(f, a1, dst.encoding, Some(dst.encoding), src.encoding)) })
            }),
        ensures
            ({
                let f = old(self).features;
                final(self).appends(*old(self), ({ let a1 = InstructionAttr::spec_new(f, AVX_128BIT, false, true, true, false); simd_rr_bytes(f, a1, dst.encoding, Some(dst.encoding), src.encoding, VEX_SIMD_66, VEX_OPCODE_0F_3A) + seq![0x0B, (0xC0 | rr_bits(dst.encoding, src.encoding)), low8(rmode)] }))
            }),
    {
        let mut attributes = InstructionAttr::new(&self.features, AVX_128BIT, false, true, true, false);
        let encode = self.simd_prefix_and_encode(dst.encoding, Some(dst.encoding), src.encoding, VEX_SIMD_66, VEX_OPCODE_0F_3A, &mut attributes);
        self.emit_int24(0x0B, (0xC0 | encode), low8_exec(rmode));
    }

    /// `roundsd dst, [src], rmode`
    pub fn roundsd_xmi(&mut self, dst: XMMRegister, src: Address, rmode: i32)
        requires
            dst.wf(),
            src.wf(),
            ({
                let f = old(self).features;
                (f.supports_sse4_1()) && ({ let a1 = InstructionAttr::spec_new(f, AVX_128BIT, false, true, true, false); (simd_adr_ok(f, a1, dst.encoding, Some(dst.encoding), src)) })
            }),
        ensures
            ({
                let f = old(self).features;
                final(self).appends(*old(self), ({ let a1 = InstructionAttr::spec_new(f, AVX_128BIT, false, true, true, false); simd_adr_bytes(f, a1, dst.encoding, Some(dst.encoding), src, VEX_SIMD_66, VEX_OPCODE_0F_3A) + ({ let a2 = simd_adr_attr(f, a1, dst.encoding, Some(dst.encoding)); seq![0x0B] + address_bytes(f, Some(a2), dst.encoding, src, true) + seq![low8(rmode)] }) }))
            }),
    {
        let mut attributes = InstructionAttr::new(&self.features, AVX_128BIT, false, true, true, false);
        self.simd_prefix(dst.encoding, Some(dst.encoding), &src, VEX_SIMD_66, VEX_OPCODE_0F_3A, &mut attributes);
        self.emit_int8(0x0B);
        self.emit_operand_attr(dst.encoding, &src, &attributes, true);
        self.emit_int8(low8_exec(rmode));
    }

    /// `sqrtsd dst, src`
    pub fn sqrtsd(&mut self, dst: XMMRegister, src: XMMRegister)
        requires
            dst.wf(),
            src.wf(),
            ({
                let f = old(self).features;
                ({ let a1 = InstructionAttr::spec_new(f, AVX_128BIT, f.supports_evex(), false, true, false); let a2 = a1.reverted(); (simd_rr_ok(f, a2, dst.encoding, Some(dst.encoding), src.encoding)) })
            }),
        ensures
            ({
                let f = old(self).features;
                final(self).appends(*old(self), ({ let a1 = InstructionAttr::spec_new(f, AVX_128BIT, f.supports_evex(), false, true, false); let a2 = a1.reverted(); simd_rr_bytes(f, a2, dst.encoding, Some(dst.encoding), src.encoding, VEX_SIMD_F2, VEX_OPCODE_0F) + seq![0x51, (0xC0 | rr_bits(dst.encoding, src.encoding))] }))
            }),
    {
        let mut attributes = InstructionAttr::new(&self.features, AVX_128BIT, self.features.supports_evex(), false, true, false);
        attributes.set_rex_vex_w_reverted();
        let encode = self.simd_prefix_and_encode(dst.encoding, Some(dst.encoding), src.encoding, VEX_SIMD_F2, VEX_OPCODE_0F, &mut attributes);
        self.emit_int16(0x51, (0xC0 | encode));
    }

    /// `sqrtsd dst, [src]`
    pub fn sqrtsd_xm(&mut self, dst: XMMRegister, src: Address)
        requires
            dst.wf(),
            src.wf(),
            ({
                let f = old(self).features;
                ({ let a1 = InstructionAttr::spec_new(f, AVX_128BIT, f.supports_evex(), false, true, false); let a2 = a1.with_address(f, EVEX_T1S, EVEX_64BIT); let a3 = a2.reverted(); (simd_adr_ok(f, a3, dst.encoding, Some(dst.encoding), src)) })
            }),
        ensures
            ({
                let f = old(self).features;
                final(self).appends(*old(self), ({ let a1 = InstructionAttr::spec_new(f, AVX_128BIT, f.supports_evex(), false, true, false); let a2 = a1.with_address(f, EVEX_T1S, EVEX_64BIT); let a3 = a2.reverted(); simd_adr_bytes(f, a3, dst.encoding, Some(dst.encoding), src, VEX_SIMD_F2, VEX_OPCODE_0F) + ({ let a4 = simd_adr_attr(f, a3, dst.encoding, Some(dst.encoding)); seq![0x51] + address_bytes(f, Some(a4), dst.encoding, src, true) }) }))
            }),
    {
        let mut attributes = InstructionAttr::new(&self.features, AVX_128BIT, self.features.supports_evex(), false, true, false);
        attributes.set_address_attributes(&self.features, EVEX_T1S, EVEX_64BIT);
        attributes.set_rex_vex_w_reverted();
        self.simd_prefix(dst.encoding, Some(dst.encoding), &src, VEX_SIMD_F2, VEX_OPCODE_0F, &mut attributes);
        self.emit_int8(0x51);
        self.emit_operand_attr(dst.encoding, &src, &attributes, true);
    }

    /// `sqrtss dst, src`
    pub fn sqrtss(&mut self, dst: XMMRegister, src: XMMRegister)
        requires
            dst.wf(),
            src.wf(),
            ({
                let f = old(self).features;
                ({ let a1 = InstructionAttr::spec_new(f, AVX_128BIT, false, false, true, false); (simd_rr_ok(f, a1, dst.encoding, Some(dst.encoding), src.encoding)) })
            }),
        ensures
            ({
                let f = old(self).features;
                final(self).appends(*old(self), ({ let a1 = InstructionAttr::spec_new(f, AVX_128BIT, false, false, true, false); simd_rr_bytes(f, a1, dst.encoding, Some(dst.encoding), src.encoding, VEX_SIMD_F3, VEX_OPCODE_0F) + seq![0x51, (0xC0 | rr_bits(dst.encoding, src.encoding))] }))
            }),
    {
        let mut attributes = InstructionAttr::new(&self.features, AVX_128BIT, false, false, true, false);
        let encode = self.simd_prefix_and_encode(dst.encoding, Some(dst.encoding), src.encoding, VEX_SIMD_F3, VEX_OPCODE_0F, &mut attributes);
        self.emit_int16(0x51, (0xC0 | encode));
    }

    /// `sqrtss dst, [src]`
    pub fn sqrtss_xm(&mut self, dst: XMMRegister, src: Address)
        requires
            dst.wf(),
            src.wf(),
            ({
                let f = old(self).features;
                ({ let a1 = InstructionAttr::spec_new(f, AVX_128BIT, false, false, true, false); let a2 = a1.with_address(f, EVEX_T1S, EVEX_32BIT); (simd_adr_ok(f, a2, dst.encoding, Some(dst.encoding), src)) })
            }),
        ensures
            ({
                let f = old(self).features;
                final(self).appends(*old(self), ({ let a1 = InstructionAttr::spec_new(f, AVX_128BIT, false, false, true, false); let a2 = a1.with_address(f, EVEX_T1S, EVEX_32BIT); simd_adr_bytes(f, a2, dst.encoding, Some(dst.encoding), src, VEX_SIMD_F3, VEX_OPCODE_0F) + ({ let a3 = simd_adr_attr(f, a2, dst.encoding, Some(dst.encoding)); seq![0x51] + address_bytes(f, Some(a3), dst.encoding, src, true) }) }))
            }),
    {
        let mut attributes = InstructionAttr::new(&self.features, AVX_128BIT, false, false, true, false);
        attributes.set_address_attributes(&self.features, EVEX_T1S, EVEX_32BIT);
        self.simd_prefix(dst.encoding, Some(dst.encoding), &src, VEX_SIMD_F3, VEX_OPCODE_0F, &mut attributes);
        self.emit_int8(0x51);
        self.emit_operand_attr(dst.encoding, &src, &attributes, true);
    }

    /// `subsd dst, src`
    pub fn subsd(&mut self, dst: XMMRegister, src: XMMRegister)
        requires
            dst.wf(),
            src.wf(),
            ({
                let f = old(self).features;
                ({ let a1 = InstructionAttr::spec_new(f, AVX_128BIT, f.supports_evex(), false, true, false); let a2 = a1.reverted(); (simd_rr_ok(f, a2, dst.encoding, Some(dst.encoding), src.encoding)) })
            }),
        ensures
            ({
                let f = old(self).features;
                final(self).appends(*old(self), ({ let a1 = InstructionAttr::spec_new(f, AVX_128BIT, f.supports_evex(), false, true, false); let a2 = a1.reverted(); simd_rr_bytes(f, a2, dst.encoding, Some(dst.encoding), src.encoding, VEX_SIMD_F2, VEX_OPCODE_0F) + seq![0x5C, (0xC0 | rr_bits(dst.encoding, src.encoding))] }))
            }),
    {
        let mut attributes = InstructionAttr::new(&self.features, AVX_128BIT, self.features.supports_evex(), false, true, false);
        attributes.set_rex_vex_w_reverted();
        let encode = self.simd_prefix_and_encode(dst.encoding, Some(dst.encoding), src.encoding, VEX_SIMD_F2, VEX_OPCODE_0F, &mut attributes);
        self.emit_int16(0x5C, (0xC0 | encode));
    }

    /// `subsd dst, [src]`
    pub fn subsd_xm(&mut self, dst: XMMRegister, src: Address)
        requires
            dst.wf(),
            src.wf(),
            ({
                let f = old(self).features;
                ({ let a1 = InstructionAttr::spec_new(f, AVX_128BIT, f.supports_evex(), false, true, false); let a2 = a1.with_address(f, EVEX_T1S, EVEX_64BIT); let a3 = a2.reverted(); (simd_adr_ok(f, a3, dst.encoding, Some(dst.encoding), src)) })
            }),
        ensures
            ({
                let f = old(self).features;
                final(self).appends(*old(self), ({ let a1 = InstructionAttr::spec_new(f, AVX_128BIT, f.supports_evex(), false, true, false); let a2 = a1.with_address(f, EVEX_T1S, EVEX_64BIT); let a3 = a2.reverted(); simd_adr_bytes(f, a3, dst.encoding, Some(dst.encoding), src, VEX_SIMD_F2, VEX_OPCODE_0F) + ({ let a4 = simd_adr_attr(f, a3, dst.encoding, Some(dst.encoding)); seq![0x5C] + address_bytes(f, Some(a4), dst.encoding, src, true) }) }))
            }),
    {
        let mut attributes = InstructionAttr::new(&self.features, AVX_128BIT, self.features.supports_evex(), false, true, false);
        attributes.set_address_attributes(&self.features, EVEX_T1S, EVEX_64BIT);
        attributes.set_rex_vex_w_reverted();
        self.simd_prefix(dst.encoding, Some(dst.encoding), &src, VEX_SIMD_F2, VEX_OPCODE_0F, &mut attributes);
        self.emit_int8(0x5C);
        self.emit_operand_attr(dst.encoding, &src, &attributes, true);
    }

    /// `subss dst, src`
    pub fn subss(&mut self, dst: XMMRegister, src: XMMRegister)
        requires
            dst.wf(),
            src.wf(),
            ({
                let f = old(self).features;
                ({ let a1 = InstructionAttr::spec_new(f, AVX_128BIT, false, false, true, false); (simd_rr_ok(f, a1, dst.encoding, Some(dst.encoding), src.encoding)) })
            }),
        ensures
            ({
                let f = old(self).features;
                final(self).appends(*old(self), ({ let a1 = InstructionAttr::spec_new(f, AVX_128BIT, false, false, true, false); simd_rr_bytes(f, a1, dst.encoding, Some(dst.encoding), src.encoding, VEX_SIMD_F3, VEX_OPCODE_0F) + seq![0x5C, (0xC0 | rr_bits(dst.encoding, src.encoding))] }))
            }),
    {
        let mut attributes = InstructionAttr::new(&self.features, AVX_128BIT, false, false, true, false);
        let encode = self.simd_prefix_and_encode(dst.encoding, Some(dst.encoding), src.encoding, VEX_SIMD_F3, VEX_OPCODE_0F, &mut attributes);
        self.emit_int16(0x5C, (0xC0 | encode));
    }

    /// `subss dst, [src]`
    pub fn subss_xm(&mut self, dst: XMMRegister, src: Address)
        requires
            dst.wf(),
            src.wf(),
            ({
                let f = old(self).features;
                ({ let a1 = InstructionAttr::spec_new(f, AVX_128BIT, false, false, true, false); let a2 = a1.with_address(f, EVEX_T1S, EVEX_32BIT); (simd_adr_ok(f, a2, dst.encoding, Some(dst.encoding), src)) })
            }),
        ensures
            ({
                let f = old(self).features;
                final(self).appends(*old(self), ({ let a1 = InstructionAttr::spec_new(f, AVX_128BIT, false, false, true, false); let a2 = a1.with_address(f, EVEX_T1S, EVEX_32BIT); simd_adr_bytes(f, a2, dst.encoding, Some(dst.encoding), src, VEX_SIMD_F3, VEX_OPCODE_0F) + ({ let a3 = simd_adr_attr(f, a2, dst.encoding, Some(dst.encoding)); seq![0x5C] + address_bytes(f, Some(a3), dst.encoding, src, true) }) }))
            }),
    {
        let mut attributes = InstructionAttr::new(&self.features, AVX_128BIT, false, false, true, false);
        attributes.set_address_attributes(&self.features, EVEX_T1S, EVEX_32BIT);
        self.simd_prefix(dst.encoding, Some(dst.encoding), &src, VEX_SIMD_F3, VEX_OPCODE_0F, &mut attributes);
        self.emit_int8(0x5C);
        self.emit_operand_attr(dst.encoding, &src, &attributes, true);
    }

    /// `ucomisd dst, [src]`
    pub fn ucomisd_xm(&mut self, dst: XMMRegister, src: Address)
        requires
            dst.wf(),
            src.wf(),
            ({
                let f = old(self).features;
                ({ let a1 = InstructionAttr::spec_new(f, AVX_128BIT, f.supports_evex(), false, true, false); let a2 = a1.with_address(f, EVEX_T1S, EVEX_64BIT); let a3 = a2.reverted(); (simd_adr_ok(f, a3, dst.encoding, None, src)) })
            }),
        ensures
            ({
                let f = old(self).features;
                final(self).appends(*old(self), ({ let a1 = InstructionAttr::spec_new(f, AVX_128BIT, f.supports_evex(), false, true, false); let a2 = a1.with_address(f, EVEX_T1S, EVEX_64BIT); let a3 = a2.reverted(); simd_adr_bytes(f, a3, dst.encoding, None, src, VEX_SIMD_66, VEX_OPCODE_0F) + ({ let a4 = simd_adr_attr(f, a3, dst.encoding, None); seq![0x2E] + address_bytes(f, Some(a4), dst.encoding, src, true) }) }))
            }),
    {
        let mut attributes = InstructionAttr::new(&self.features, AVX_128BIT, self.features.supports_evex(), false, true, false);
        attributes.set_address_attributes(&self.features, EVEX_T1S, EVEX_64BIT);
        attributes.set_rex_vex_w_reverted();
        self.simd_prefix(dst.encoding, None, &src, VEX_SIMD_66, VEX_OPCODE_0F, &mut attributes);
        self.emit_int8(0x2E);
        self.emit_operand_attr(dst.encoding, &src, &attributes, true);
    }

    /// `ucomisd dst, src`
    pub fn ucomisd(&mut self, dst: XMMRegister, src: XMMRegister)
        requires
            dst.wf(),
            src.wf(),
            ({
                let f = old(self).features;
                ({ let a1 = InstructionAttr::spec_new(f, AVX_128BIT, f.supports_evex(), false, true, false); let a2 = a1.reverted(); (simd_rr_ok(f, a2, dst.encoding, None, src.encoding)) })
            }),
        ensures
            ({
                let f = old(self).features;
                final(self).appends(*old(self), ({ let a1 = InstructionAttr::spec_new(f, AVX_128BIT, f.supports_evex(), false, true, false); let a2 = a1.reverted(); simd_rr_bytes(f, a2, dst.encoding, None, src.encoding, VEX_SIMD_66, VEX_OPCODE_0F) + seq![0x2E, (0xC0 | rr_bits(dst.encoding, src.encoding))] }))
            }),
    {
        let mut attributes = InstructionAttr::new(&self.features, AVX_128BIT, self.features.supports_evex(), false, true, false);
        attributes.set_rex_vex_w_reverted();
        let encode = self.simd_prefix_and_encode(dst.encoding, None, src.encoding, VEX_SIMD_66, VEX_OPCODE_0F, &mut attributes);
        self.emit_int16(0x2E, (0xC0 | encode));
    }

    /// `ucomiss dst, [src]`
    pub fn ucomiss_xm(&mut self, dst: XMMRegister, src: Address)
        requires
            dst.wf(),
            src.wf(),
            ({
                let f = old(self).features;
                ({ let a1 = InstructionAttr::spec_new(f, AVX_128BIT, false, false, true, false); let a2 = a1.with_address(f, EVEX_T1S, EVEX_32BIT); (simd_adr_ok(f, a2, dst.encoding, None, src)) })
            }),
        ensures
            ({
                let f = old(self).features;
                final(self).appends(*old(self), ({ let a1 = InstructionAttr::spec_new(f, AVX_128BIT, false, false, true, false); let a2 = a1.with_address(f, EVEX_T1S, EVEX_32BIT); simd_adr_bytes(f, a2, dst.encoding, None, src, VEX_SIMD_NONE, VEX_OPCODE_0F) + ({ let a3 = simd_adr_attr(f, a2, dst.encoding, None); seq![0x2E] + address_bytes(f, Some(a3), dst.encoding, src, true) }) }))
            }),
    {
        let mut attributes = InstructionAttr::new(&self.features, AVX_128BIT, false, false, true, false);
        attributes.set_address_attributes(&self.features, EVEX_T1S, EVEX_32BIT);
        self.simd_prefix(dst.encoding, None, &src, VEX_SIMD_NONE, VEX_OPCODE_0F, &mut attributes);
        self.emit_int8(0x2E);
        self.emit_operand_attr(dst.encoding, &src, &attributes, true);
    }

    /// `ucomiss dst, src`
    pub fn ucomiss(&mut self, dst: XMMRegister, src: XMMRegister)
        requires
            dst.wf(),
            src.wf(),
            ({
                let f = old(self).features;
                ({ let a1 = InstructionAttr::spec_new(f, AVX_128BIT, false, false, true, false); (simd_rr_ok(f, a1, dst.encoding, None, src.encoding)) })
            }),
        ensures
            ({
                let f = old(self).features;
                final(self).appends(*old(self), ({ let a1 = InstructionAttr::spec_new(f, AVX_128BIT, false, false, true, false); simd_rr_bytes(f, a1, dst.encoding, None, src.encoding, VEX_SIMD_NONE, VEX_OPCODE_0F) + seq![0x2E, (0xC0 | rr_bits(dst.encoding, src.encoding))] }))
            }),
    {
        let mut attributes = InstructionAttr::new(&self.features, AVX_128BIT, false, false, true, false);
        let encode = self.simd_prefix_and_encode(dst.encoding, None, src.encoding, VEX_SIMD_NONE, VEX_OPCODE_0F, &mut attributes);
        self.emit_int16(0x2E, (0xC0 | encode));
    }

    /// `addpd dst, src`
    pub fn addpd(&mut self, dst: XMMRegister, src: XMMRegister)
        requires
            dst.wf(),
            src.wf(),
            ({
                let f = old(self).features;
                ({ let a1 = InstructionAttr::spec_new(f, AVX_128BIT, f.supports_evex(), false, true, true); let a2 = a1.reverted(); (simd_rr_ok(f, a2, dst.encoding, Some(dst.encoding), src.encoding)) })
            }),
        ensures
            ({
                let f = old(self).features;
                final(self).appends(*old(self), ({ let a1 = InstructionAttr::spec_new(f, AVX_128BIT, f.supports_evex(), false, true, true); let a2 = a1.reverted(); simd_rr_bytes(f, a2, dst.encoding, Some(dst.encoding), src.encoding, VEX_SIMD_66, VEX_OPCODE_0F) + seq![0x58, (0xC0 | rr_bits(dst.encoding, src.encoding))] }))
            }),
    {
        let mut attributes = InstructionAttr::new(&self.features, AVX_128BIT, self.features.supports_evex(), false, true, true);
        attributes.set_rex_vex_w_reverted();
        let encode = self.simd_prefix_and_encode(dst.encoding, Some(dst.encoding), src.encoding, VEX_SIMD_66, VEX_OPCODE_0F, &mut attributes);
        self.emit_int16(0x58, (0xC0 | encode));
    }

    /// `addpd dst, [src]`
    pub fn addpd_xm(&mut self, dst: XMMRegister, src: Address)
        requires
            dst.wf(),
            src.wf(),
            ({
                let f = old(self).features;
                ({ let a1 = InstructionAttr::spec_new(f, AVX_128BIT, f.supports_evex(), false, true, true); let a2 = a1.reverted(); let a3 = a2.with_address(f, EVEX_FV, EVEX_64BIT); (simd_adr_ok(f, a3, dst.encoding, Some(dst.encoding), src)) })
            }),
        ensures
            ({
                let f = old(self).features;
                final(self).appends(*old(self), ({ let a1 = InstructionAttr::spec_new(f, AVX_128BIT, f.supports_evex(), false, true, true); let a2 = a1.reverted(); let a3 = a2.with_address(f, EVEX_FV, EVEX_64BIT); simd_adr_bytes(f, a3, dst.encoding, Some(dst.encoding), src, VEX_SIMD_66, VEX_OPCODE_0F) + ({ let a4 = simd_adr_attr(f, a3, dst.encoding, Some(dst.encoding)); seq![0x58] + address_bytes(f, Some(a4), dst.encoding, src, true) }) }))
            }),
    {
        let mut attributes = InstructionAttr::new(&self.features, AVX_128BIT, self.features.supports_evex(), false, true, true);
        attributes.set_rex_vex_w_reverted();
        attributes.set_address_attributes(&self.features, EVEX_FV, EVEX_64BIT);
        self.simd_prefix(dst.encoding, Some(dst.encoding), &src, VEX_SIMD_66, VEX_OPCODE_0F, &mut attributes);
        self.emit_int8(0x58);
        self.emit_operand_attr(dst.encoding, &src, &attributes, true);
    }

    /// `addps dst, src`
    pub fn addps(&mut self, dst: XMMRegister, src: XMMRegister)
        requires
            dst.wf(),
            src.wf(),
            ({
                let f = old(self).features;
                ({ let a1 = InstructionAttr::spec_new(f, AVX_128BIT, false, false, true, true); (simd_rr_ok(f, a1, dst.encoding, Some(dst.encoding), src.encoding)) })
            }),
        ensures
            ({
                let f = old(self).features;
                final(self).appends(*old(self), ({ let a1 = InstructionAttr::spec_new(f, AVX_128BIT, false, false, true, true); simd_rr_bytes(f, a1, dst.encoding, Some(dst.encoding), src.encoding, VEX_SIMD_NONE, VEX_OPCODE_0F) + seq![0x58, (0xC0 | rr_bits(dst.encoding, src.encoding))] }))
            }),
    {
        let mut attributes = InstructionAttr::new(&self.features, AVX_128BIT, false, false, true, true);
        let encode = self.simd_prefix_and_encode(dst.encoding, Some(dst.encoding), src.encoding, VEX_SIMD_NONE, VEX_OPCODE_0F, &mut attributes);
        self.emit_int16(0x58, (0xC0 | encode));
    }

    /// `subpd dst, src`
    pub fn subpd(&mut self, dst: XMMRegister, src: XMMRegister)
        requires
            dst.wf(),
            src.wf(),
            ({
                let f = old(self).features;
                ({ let a1 = InstructionAttr::spec_new(f, AVX_128BIT, f.supports_evex(), false, true, true); let a2 = a1.reverted(); (simd_rr_ok(f, a2, dst.encoding, Some(dst.encoding), src.encoding)) })
            }),
        ensures
            ({
                let f = old(self).features;
                final(self).appends(*old(self), ({ let a1 = InstructionAttr::spec_new(f, AVX_128BIT, f.supports_evex(), false, true, true); let a2 = a1.reverted(); simd_rr_bytes(f, a2, dst.encoding, Some(dst.encoding), src.encoding, VEX_SIMD_66, VEX_OPCODE_0F) + seq![0x5C, (0xC0 | rr_bits(dst.encoding, src.encoding))] }))
            }),
    {
        let mut attributes = InstructionAttr::new(&self.features, AVX_128BIT, self.features.supports_evex(), false, true, true);
        attributes.set_rex_vex_w_reverted();
        let encode = self.simd_prefix_and_encode(dst.encoding, Some(dst.encoding), src.encoding, VEX_SIMD_66, VEX_OPCODE_0F, &mut attributes);
        self.emit_int16(0x5C, (0xC0 | encode));
    }

    /// `subps dst, src`
    pub fn subps(&mut self, dst: XMMRegister, src: XMMRegister)
        requires
            dst.wf(),
            src.wf(),
            ({
                let f = old(self).features;
                ({ let a1 = InstructionAttr::spec_new(f, AVX_128BIT, false, false, true, true); (simd_rr_ok(f, a1, dst.encoding, Some(dst.encoding), src.encoding)) })
            }),
        ensures
            ({
                let f = old(self).features;
                final(self).appends(*old(self), ({ let a1 = InstructionAttr::spec_new(f, AVX_128BIT, false, false, true, true); simd_rr_bytes(f, a1, dst.encoding, Some(dst.encoding), src.encoding, VEX_SIMD_NONE, VEX_OPCODE_0F) + seq![0x5C, (0xC0 | rr_bits(dst.encoding, src.encoding))] }))
            }),
    {
        let mut attributes = InstructionAttr::new(&self.features, AVX_128BIT, false, false, true, true);
        let encode = self.simd_prefix_and_encode(dst.encoding, Some(dst.encoding), src.encoding, VEX_SIMD_NONE, VEX_OPCODE_0F, &mut attributes);
        self.emit_int16(0x5C, (0xC0 | encode));
    }

    /// `mulpd dst, src`
    pub fn mulpd(&mut self, dst: XMMRegister, src: XMMRegister)
        requires
            dst.wf(),
            src.wf(),
            ({
                let f = old(self).features;
                ({ let a1 = InstructionAttr::spec_new(f, AVX_128BIT, f.supports_evex(), false, true, true); let a2 = a1.reverted(); (simd_rr_ok(f, a2, dst.encoding, Some(dst.encoding), src.encoding)) })
            }),
        ensures
            ({
                let f = old(self).features;
                final(self).appends(*old(self), ({ let a1 = InstructionAttr::spec_new(f, AVX_128BIT, f.supports_evex(), false, true, true); let a2 = a1.reverted(); simd_rr_bytes(f, a2, dst.encoding, Some(dst.encoding), src.encoding, VEX_SIMD_66, VEX_OPCODE_0F) + seq![0x59, (0xC0 | rr_bits(dst.encoding, src.encoding))] }))
            }),
    {
        let mut attributes = InstructionAttr::new(&self.features, AVX_128BIT, self.features.supports_evex(), false, true, true);
        attributes.set_rex_vex_w_reverted();
        let encode = self.simd_prefix_and_encode(dst.encoding, Some(dst.encoding), src.encoding, VEX_SIMD_66, VEX_OPCODE_0F, &mut attributes);
        self.emit_int16(0x59, (0xC0 | encode));
    }

    /// `mulpd dst, [src]`
    pub fn mulpd_xm(&mut self, dst: XMMRegister, src: Address)
        requires
            dst.wf(),
            src.wf(),
            ({
                let f = old(self).features;
                ({ let a1 = InstructionAttr::spec_new(f, AVX_128BIT, f.supports_evex(), false, true, true); let a2 = a1.with_address(f, EVEX_FV, EVEX_64BIT); let a3 = a2.reverted(); (simd_adr_ok(f, a3, dst.encoding, Some(dst.encoding), src)) })
            }),
        ensures
            ({
                let f = old(self).features;
                final(self).appends(*old(self), ({ let a1 = InstructionAttr::spec_new(f, AVX_128BIT, f.supports_evex(), false, true, true); let a2 = a1.with_address(f, EVEX_FV, EVEX_64BIT); let a3 = a2.reverted(); simd_adr_bytes(f, a3, dst.encoding, Some(dst.encoding), src, VEX_SIMD_66, VEX_OPCODE_0F) + ({ let a4 = simd_adr_attr(f, a3, dst.encoding, Some(dst.encoding)); seq![0x59] + address_bytes(f, Some(a4), dst.encoding, src, true) }) }))
            }),
    {
        let mut attributes = InstructionAttr::new(&self.features, AVX_128BIT, self.features.supports_evex(), false, true, true);
        attributes.set_address_attributes(&self.features, EVEX_FV, EVEX_64BIT);
        attributes.set_rex_vex_w_reverted();
        self.simd_prefix(dst.encoding, Some(dst.encoding), &src, VEX_SIMD_66, VEX_OPCODE_0F, &mut attributes);
        self.emit_int8(0x59);
        self.emit_operand_attr(dst.encoding, &src, &attributes, true);
    }

    /// `mulps dst, src`
    pub fn mulps(&mut self, dst: XMMRegister, src: XMMRegister)
        requires
            dst.wf(),
            src.wf(),
            ({
                let f = old(self).features;
                ({ let a1 = InstructionAttr::spec_new(f, AVX_128BIT, false, false, true, true); (simd_rr_ok(f, a1, dst.encoding, Some(dst.encoding), src.encoding)) })
            }),
        ensures
            ({
                let f = old(self).features;
                final(self).appends(*old(self), ({ let a1 = InstructionAttr::spec_new(f, AVX_128BIT, false, false, true, true); simd_rr_bytes(f, a1, dst.encoding, Some(dst.encoding), src.encoding, VEX_SIMD_NONE, VEX_OPCODE_0F) + seq![0x59, (0xC0 | rr_bits(dst.encoding, src.encoding))] }))
            }),
    {
        let mut attributes = InstructionAttr::new(&self.features, AVX_128BIT, false, false, true, true);
        let encode = self.simd_prefix_and_encode(dst.encoding, Some(dst.encoding), src.encoding, VEX_SIMD_NONE, VEX_OPCODE_0F, &mut attributes);
        self.emit_int16(0x59, (0xC0 | encode));
    }

    /// `divpd dst, src`
    pub fn divpd(&mut self, dst: XMMRegister, src: XMMRegister)
        requires
            dst.wf(),
            src.wf(),
            ({
                let f = old(self).features;
                ({ let a1 = InstructionAttr::spec_new(f, AVX_128BIT, f.supports_evex(), false, true, true); let a2 = a1.reverted(); (simd_rr_ok(f, a2, dst.encoding, Some(dst.encoding), src.encoding)) })
            }),
        ensures
            ({
                let f = old(self).features;
                final(self).appends(*old(self), ({ let a1 = InstructionAttr::spec_new(f, AVX_128BIT, f.supports_evex(), false, true, true); let a2 = a1.reverted(); simd_rr_bytes(f, a2, dst.encoding, Some(dst.encoding), src.encoding, VEX_SIMD_66, VEX_OPCODE_0F) + seq![0x5E, (0xC0 | rr_bits(dst.encoding, src.encoding))] }))
            }),
    {
        let mut attributes = InstructionAttr::new(&self.features, AVX_128BIT, self.features.supports_evex(), false, true, true);
        attributes.set_rex_vex_w_reverted();
        let encode = self.simd_prefix_and_encode(dst.encoding, Some(dst.encoding), src.encoding, VEX_SIMD_66, VEX_OPCODE_0F, &mut attributes);
        self.emit_int16(0x5E, (0xC0 | encode));
    }

    /// `divps dst, src`
    pub fn divps(&mut self, dst: XMMRegister, src: XMMRegister)
        requires
            dst.wf(),
            src.wf(),
            ({
                let f = old(self).features;
                ({ let a1 = InstructionAttr::spec_new(f, AVX_128BIT, false, false, true, true); (simd_rr_ok(f, a1, dst.encoding, Some(dst.encoding), src.encoding)) })
            }),
        ensures
            ({
                let f = old(self).features;
                final(self).appends(*old(self), ({ let a1 = InstructionAttr::spec_new(f, AVX_128BIT, false, false, true, true); simd_rr_bytes(f, a1, dst.encoding, Some(dst.encoding), src.encoding, VEX_SIMD_NONE, VEX_OPCODE_0F) + seq![0x5E, (0xC0 | rr_bits(dst.encoding, src.encoding))] }))
            }),
    {
        let mut attributes = InstructionAttr::new(&self.features, AVX_128BIT, false, false, true, true);
        let encode = self.simd_prefix_and_encode(dst.encoding, Some(dst.encoding), src.encoding, VEX_SIMD_NONE, VEX_OPCODE_0F, &mut attributes);
        self.emit_int16(0x5E, (0xC0 | encode));
    }

    /// `andpd dst, src`
    pub fn andpd(&mut self, dst: XMMRegister, src: XMMRegister)
        requires
            dst.wf(),
            src.wf(),
            ({
                let f = old(self).features;
                ({ let a1 = InstructionAttr::spec_new(f, AVX_128BIT, (!f.legacy_mode_dq()), f.legacy_mode_dq(), true, true); let a2 = a1.reverted(); (simd_rr_ok(f, a2, dst.encoding, Some(dst.encoding), src.encoding)) })
            }),
        ensures
            ({
                let f = old(self).features;
                final(self).appends(*old(self), ({ let a1 = InstructionAttr::spec_new(f, AVX_128BIT, (!f.legacy_mode_dq()), f.legacy_mode_dq(), true, true); let a2 = a1.reverted(); simd_rr_bytes(f, a2, dst.encoding, Some(dst.encoding), src.encoding, VEX_SIMD_66, VEX_OPCODE_0F) + seq![0x54, (0xC0 | rr_bits(dst.encoding, src.encoding))] }))
            }),
    {
        let mut attributes = InstructionAttr::new(&self.features, AVX_128BIT, (!self.features.legacy_mode_dq()), self.features.legacy_mode_dq(), true, true);
        attributes.set_rex_vex_w_reverted();
        let encode = self.simd_prefix_and_encode(dst.encoding, Some(dst.encoding), src.encoding, VEX_SIMD_66, VEX_OPCODE_0F, &mut attributes);
        self.emit_int16(0x54, (0xC0 | encode));
    }

    /// `andps dst, src`
    pub fn andps(&mut self, dst: XMMRegister, src: XMMRegister)
        requires
            dst.wf(),
            src.wf(),
            ({
                let f = old(self).features;
                ({ let a1 = InstructionAttr::spec_new(f, AVX_128BIT, false, f.legacy_mode_dq(), true, true); (simd_rr_ok(f, a1, dst.encoding, Some(dst.encoding), src.encoding)) })
            }),
        ensures
            ({
                let f = old(self).features;
                final(self).appends(*old(self), ({ let a1 = InstructionAttr::spec_new(f, AVX_128BIT, false, f.legacy_mode_dq(), true, true); simd_rr_bytes(f, a1, dst.encoding, Some(dst.encoding), src.encoding, VEX_SIMD_NONE, VEX_OPCODE_0F) + seq![0x54, (0xC0 | rr_bits(dst.encoding, src.encoding))] }))
            }),
    {
        let mut attributes = InstructionAttr::new(&self.features, AVX_128BIT, false, self.features.legacy_mode_dq(), true, true);
        let encode = self.simd_prefix_and_encode(dst.encoding, Some(dst.encoding), src.encoding, VEX_SIMD_NONE, VEX_OPCODE_0F, &mut attributes);
        self.emit_int16(0x54, (0xC0 | encode));
    }

    /// `andps dst, [src]`
    pub fn andps_xm(&mut self, dst: XMMRegister, src: Address)
        requires
            dst.wf(),
            src.wf(),
            ({
                let f = old(self).features;
                ({ let a1 = InstructionAttr::spec_new(f, AVX_128BIT, false, f.legacy_mode_dq(), true, true); let a2 = a1.with_address(f, EVEX_FV, EVEX_32BIT); (simd_adr_ok(f, a2, dst.encoding, Some(dst.encoding), src)) })
            }),
        ensures
            ({
                let f = old(self).features;
                final(self).appends(*old(self), ({ let a1 = InstructionAttr::spec_new(f, AVX_128BIT, false, f.legacy_mode_dq(), true, true); let a2 = a1.with_address(f, EVEX_FV, EVEX_32BIT); simd_adr_bytes(f, a2, dst.encoding, Some(dst.encoding), src, VEX_SIMD_NONE, VEX_OPCODE_0F) + ({ let a3 = simd_adr_attr(f, a2, dst.encoding, Some(dst.encoding)); seq![0x54] + address_bytes(f, Some(a3), dst.encoding, src, true) }) }))
            }),
    {
        let mut attributes = InstructionAttr::new(&self.features, AVX_128BIT, false, self.features.legacy_mode_dq(), true, true);
        attributes.set_address_attributes(&self.features, EVEX_FV, EVEX_32BIT);
        self.simd_prefix(dst.encoding, Some(dst.encoding), &src, VEX_SIMD_NONE, VEX_OPCODE_0F, &mut attributes);
        self.emit_int8(0x54);
        self.emit_operand_attr(dst.encoding, &src, &attributes, true);
    }

    /// `andpd dst, [src]`
    pub fn andpd_xm(&mut self, dst: XMMRegister, src: Address)
        requires
            dst.wf(),
            src.wf(),
            ({
                let f = old(self).features;
                ({ let a1 = InstructionAttr::spec_new(f, AVX_128BIT, (!f.legacy_mode_dq()), f.legacy_mode_dq(), true, true); let a2 = a1.with_address(f, EVEX_FV, EVEX_64BIT); let a3 = a2.reverted(); (simd_adr_ok(f, a3, dst.encoding, Some(dst.encoding), src)) })
            }),
        ensures
            ({
                let f = old(self).features;
                final(self).appends(*old(self), ({ let a1 = InstructionAttr::spec_new(f, AVX_128BIT, (!f.legacy_mode_dq()), f.legacy_mode_dq(), true, true); let a2 = a1.with_address(f, EVEX_FV, EVEX_64BIT); let a3 = a2.reverted(); simd_adr_bytes(f, a3, dst.encoding, Some(dst.encoding), src, VEX_SIMD_66, VEX_OPCODE_0F) + ({ let a4 = simd_adr_attr(f, a3, dst.encoding, Some(dst.encoding)); seq![0x54] + address_bytes(f, Some(a4), dst.encoding, src, true) }) }))
            }),
    {
        let mut attributes = InstructionAttr::new(&self.features, AVX_128BIT, (!self.features.legacy_mode_dq()), self.features.legacy_mode_dq(), true, true);
        attributes.set_address_attributes(&self.features, EVEX_FV, EVEX_64BIT);
        attributes.set_rex_vex_w_reverted();
        self.simd_prefix(dst.encoding, Some(dst.encoding), &src, VEX_SIMD_66, VEX_OPCODE_0F, &mut attributes);
        self.emit_int8(0x54);
        self.emit_operand_attr(dst.encoding, &src, &attributes, true);
    }

    /// `unpckhpd dst, src`
    pub fn unpckhpd(&mut self, dst: XMMRegister, src: XMMRegister)
        requires
            dst.wf(),
            src.wf(),
            ({
                let f = old(self).features;
                ({ let a1 = InstructionAttr::spec_new(f, AVX_128BIT, f.supports_evex(), false, true, true); let a2 = a1.reverted(); (simd_rr_ok(f, a2, dst.encoding, Some(dst.encoding), src.encoding)) })
            }),
        ensures
            ({
                let f = old(self).features;
                final(self).appends(*old(self), ({ let a1 = InstructionAttr::spec_new(f, AVX_128BIT, f.supports_evex(), false, true, true); let a2 = a1.reverted(); simd_rr_bytes(f, a2, dst.encoding, Some(dst.encoding), src.encoding, VEX_SIMD_66, VEX_OPCODE_0F) + seq![0x15] + seq![(0xC0 | rr_bits(dst.encoding, src.encoding))] }))
            }),
    {
        let mut attributes = InstructionAttr::new(&self.features, AVX_128BIT, self.features.supports_evex(), false, true, true);
        attributes.set_rex_vex_w_reverted();
        let encode = self.simd_prefix_and_encode(dst.encoding, Some(dst.encoding), src.encoding, VEX_SIMD_66, VEX_OPCODE_0F, &mut attributes);
        self.emit_int8(0x15);
        self.emit_int8((0xC0 | encode));
    }

    /// `unpcklpd dst, src`
    pub fn unpcklpd(&mut self, dst: XMMRegister, src: XMMRegister)
        requires
            dst.wf(),
            src.wf(),
            ({
                let f = old(self).features;
                ({ let a1 = InstructionAttr::spec_new(f, AVX_128BIT, f.supports_evex(), false, true, true); let a2 = a1.reverted(); (simd_rr_ok(f, a2, dst.encoding, Some(dst.encoding), src.encoding)) })
            }),
        ensures
            ({
                let f = old(self).features;
                final(self).appends(*old(self), ({ let a1 = InstructionAttr::spec_new(f, AVX_128BIT, f.supports_evex(), false, true, true); let a2 = a1.reverted(); simd_rr_bytes(f, a2, dst.encoding, Some(dst.encoding), src.encoding, VEX_SIMD_66, VEX_OPCODE_0F) + seq![0x14, (0xC0 | rr_bits(dst.encoding, src.encoding))] }))
            }),
    {
        let mut attributes = InstructionAttr::new(&self.features, AVX_128BIT, self.features.supports_evex(), false, true, true);
        attributes.set_rex_vex_w_reverted();
        let encode = self.simd_prefix_and_encode(dst.encoding, Some(dst.encoding), src.encoding, VEX_SIMD_66, VEX_OPCODE_0F, &mut attributes);
        self.emit_int16(0x14, (0xC0 | encode));
    }

    /// `xorpd dst, src`
    pub fn xorpd(&mut self, dst: XMMRegister, src: XMMRegister)
        requires
            dst.wf(),
            src.wf(),
            ({
                let f = old(self).features;
                ({ let a1 = InstructionAttr::spec_new(f, AVX_128BIT, (!f.legacy_mode_dq()), f.legacy_mode_dq(), true, true); let a2 = a1.reverted(); (simd_rr_ok(f, a2, dst.encoding, Some(dst.encoding), src.encoding)) })
            }),
        ensures
            ({
                let f = old(self).features;
                final(self).appends(*old(self), ({ let a1 = InstructionAttr::spec_new(f, AVX_128BIT, (!f.legacy_mode_dq()), f.legacy_mode_dq(), true, true); let a2 = a1.reverted(); simd_rr_bytes(f, a2, dst.encoding, Some(dst.encoding), src.encoding, VEX_SIMD_66, VEX_OPCODE_0F) + seq![0x57, (0xC0 | rr_bits(dst.encoding, src.encoding))] }))
            }),
    {
        let mut attributes = InstructionAttr::new(&self.features, AVX_128BIT, (!self.features.legacy_mode_dq()), self.features.legacy_mode_dq(), true, true);
        attributes.set_rex_vex_w_reverted();
        let encode = self.simd_prefix_and_encode(dst.encoding, Some(dst.encoding), src.encoding, VEX_SIMD_66, VEX_OPCODE_0F, &mut attributes);
        self.emit_int16(0x57, (0xC0 | encode));
    }

    /// `xorps dst, src`
    pub fn xorps(&mut self, dst: XMMRegister, src: XMMRegister)
        requires
            dst.wf(),
            src.wf(),
            ({
                let f = old(self).features;
                ({ let a1 = InstructionAttr::spec_new(f, AVX_128BIT, false, f.legacy_mode_dq(), true, true); (simd_rr_ok(f, a1, dst.encoding, Some(dst.encoding), src.encoding)) })
            }),
        ensures
            ({
                let f = old(self).features;
                final(self).appends(*old(self), ({ let a1 = InstructionAttr::spec_new(f, AVX_128BIT, false, f.legacy_mode_dq(), true, true); simd_rr_bytes(f, a1, dst.encoding, Some(dst.encoding), src.encoding, VEX_SIMD_NONE, VEX_OPCODE_0F) + seq![0x57, (0xC0 | rr_bits(dst.encoding, src.encoding))] }))
            }),
    {
        let mut attributes = InstructionAttr::new(&self.features, AVX_128BIT, false, self.features.legacy_mode_dq(), true, true);
        let encode = self.simd_prefix_and_encode(dst.encoding, Some(dst.encoding), src.encoding, VEX_SIMD_NONE, VEX_OPCODE_0F, &mut attributes);
        self.emit_int16(0x57, (0xC0 | encode));
    }

    /// `xorpd dst, [src]`
    pub fn xorpd_xm(&mut self, dst: XMMRegister, src: Address)
        requires
            dst.wf(),
            src.wf(),
            ({
                let f = old(self).features;
                ({ let a1 = InstructionAttr::spec_new(f, AVX_128BIT, (!f.legacy_mode_dq()), f.legacy_mode_dq(), true, true); let a2 = a1.with_address(f, EVEX_FV, EVEX_64BIT); let a3 = a2.reverted(); (simd_adr_ok(f, a3, dst.encoding, Some(dst.encoding), src)) })
            }),
        ensures
            ({
                let f = old(self).features;
                final(self).appends(*old(self), ({ let a1 = InstructionAttr::spec_new(f, AVX_128BIT, (!f.legacy_mode_dq()), f.legacy_mode_dq(), true, true); let a2 = a1.with_address(f, EVEX_FV, EVEX_64BIT); let a3 = a2.reverted(); simd_adr_bytes(f, a3, dst.encoding, Some(dst.encoding), src, VEX_SIMD_66, VEX_OPCODE_0F) + ({ let a4 = simd_adr_attr(f, a3, dst.encoding, Some(dst.encoding)); seq![0x57] + address_bytes(f, Some(a4), dst.encoding, src, true) }) }))
            }),
    {
        let mut attributes = InstructionAttr::new(&self.features, AVX_128BIT, (!self.features.legacy_mode_dq()), self.features.legacy_mode_dq(), true, true);
        attributes.set_address_attributes(&self.features, EVEX_FV, EVEX_64BIT);
        attributes.set_rex_vex_w_reverted();
        self.simd_prefix(dst.encoding, Some(dst.encoding), &src, VEX_SIMD_66, VEX_OPCODE_0F, &mut attributes);
        self.emit_int8(0x57);
        self.emit_operand_attr(dst.encoding, &src, &attributes, true);
    }

    /// `xorps dst, [src]`
    pub fn xorps_xm(&mut self, dst: XMMRegister, src: Address)
        requires
            dst.wf(),
            src.wf(),
            ({
                let f = old(self).features;
                ({ let a1 = InstructionAttr::spec_new(f, AVX_128BIT, false, f.legacy_mode_dq(), true, true); let a2 = a1.with_address(f, EVEX_FV, EVEX_32BIT); (simd_adr_ok(f, a2, dst.encoding, Some(dst.encoding), src)) })
            }),
        ensures
            ({
                let f = old(self).features;
                final(self).appends(*old(self), ({ let a1 = InstructionAttr::spec_new(f, AVX_128BIT, false, f.legacy_mode_dq(), true, true); let a2 = a1.with_address(f, EVEX_FV, EVEX_32BIT); simd_adr_bytes(f, a2, dst.encoding, Some(dst.encoding), src, VEX_SIMD_NONE, VEX_OPCODE_0F) + ({ let a3 = simd_adr_attr(f, a2, dst.encoding, Some(dst.encoding)); seq![0x57] + address_bytes(f, Some(a3), dst.encoding, src, true) }) }))
            }),
    {
        let mut attributes = InstructionAttr::new(&self.features, AVX_128BIT, false, self.features.legacy_mode_dq(), true, true);
        attributes.set_address_attributes(&self.features, EVEX_FV, EVEX_32BIT);
        self.simd_prefix(dst.encoding, Some(dst.encoding), &src, VEX_SIMD_NONE, VEX_OPCODE_0F, &mut attributes);
        self.emit_int8(0x57);
        self.emit_operand_attr(dst.encoding, &src, &attributes, true);
    }

    /// `paddb dst, src`
    pub fn paddb(&mut self, dst: XMMRegister, src: XMMRegister)
        requires
            dst.wf(),
            src.wf(),
            ({
                let f = old(self).features;
                ({ let a1 = InstructionAttr::spec_new(f, AVX_128BIT, false, f.legacy_mode_bw(), true, true); (simd_rr_ok(f, a1, dst.encoding, Some(dst.encoding), src.encoding)) })
            }),
        ensures
            ({
                let f = old(self).features;
                final(self).appends(*old(self), ({ let a1 = InstructionAttr::spec_new(f, AVX_128BIT, false, f.legacy_mode_bw(), true, true); simd_rr_bytes(f, a1, dst.encoding, Some(dst.encoding), src.encoding, VEX_SIMD_66, VEX_OPCODE_0F) + seq![0xFC, (0xC0 | rr_bits(dst.encoding, src.encoding))] }))
            }),
    {
        let mut attributes = InstructionAttr::new(&self.features, AVX_128BIT, false, self.features.legacy_mode_bw(), true, true);
        let encode = self.simd_prefix_and_encode(dst.encoding, Some(dst.encoding), src.encoding, VEX_SIMD_66, VEX_OPCODE_0F, &mut attributes);
        self.emit_int16(0xFC, (0xC0 | encode));
    }

    /// `paddw dst, src`
    pub fn paddw(&mut self, dst: XMMRegister, src: XMMRegister)
        requires
            dst.wf(),
            src.wf(),
            ({
                let f = old(self).features;
                ({ let a1 = InstructionAttr::spec_new(f, AVX_128BIT, false, f.legacy_mode_bw(), true, true); (simd_rr_ok(f, a1, dst.encoding, Some(dst.encoding), src.encoding)) })
            }),
        ensures
            ({
                let f = old(self).features;
                final(self).appends(*old(self), ({ let a1 = InstructionAttr::spec_new(f, AVX_128BIT, false, f.legacy_mode_bw(), true, true); simd_rr_bytes(f, a1, dst.encoding, Some(dst.encoding), src.encoding, VEX_SIMD_66, VEX_OPCODE_0F) + seq![0xFD, (0xC0 | rr_bits(dst.encoding, src.encoding))] }))
            }),
    {
        let mut attributes = InstructionAttr::new(&self.features, AVX_128BIT, false, self.features.legacy_mode_bw(), true, true);
        let encode = self.simd_prefix_and_encode(dst.encoding, Some(dst.encoding), src.encoding, VEX_SIMD_66, VEX_OPCODE_0F, &mut attributes);
        self.emit_int16(0xFD, (0xC0 | encode));
    }

    /// `paddd dst, src`
    pub fn paddd(&mut self, dst: XMMRegister, src: XMMRegister)
        requires
            dst.wf(),
            src.wf(),
            ({
                let f = old(self).features;
                ({ let a1 = InstructionAttr::spec_new(f, AVX_128BIT, false, false, true, true); (simd_rr_ok(f, a1, dst.encoding, Some(dst.encoding), src.encoding)) })
            }),
        ensures
            ({
                let f = old(self).features;
                final(self).appends(*old(self), ({ let a1 = InstructionAttr::spec_new(f, AVX_128BIT, false, false, true, true); simd_rr_bytes(f, a1, dst.encoding, Some(dst.encoding), src.encoding, VEX_SIMD_66, VEX_OPCODE_0F) + seq![0xFE, (0xC0 | rr_bits(dst.encoding, src.encoding))] }))
            }),
    {
        let mut attributes = InstructionAttr::new(&self.features, AVX_128BIT, false, false, true, true);
        let encode = self.simd_prefix_and_encode(dst.encoding, Some(dst.encoding), src.encoding, VEX_SIMD_66, VEX_OPCODE_0F, &mut attributes);
        self.emit_int16(0xFE, (0xC0 | encode));
    }

    /// `paddd dst, [src]`
    pub fn paddd_xm(&mut self, dst: XMMRegister, src: Address)
        requires
            dst.wf(),
            src.wf(),
            ({
                let f = old(self).features;
                ({ let a1 = InstructionAttr::spec_new(f, AVX_128BIT, false, false, true, true); (simd_adr_ok(f, a1, dst.encoding, Some(dst.encoding), src)) })
            }),
        ensures
            ({
                let f = old(self).features;
                final(self).appends(*old(self), ({ let a1 = InstructionAttr::spec_new(f, AVX_128BIT, false, false, true, true); simd_adr_bytes(f, a1, dst.encoding, Some(dst.encoding), src, VEX_SIMD_66, VEX_OPCODE_0F) + ({ let a2 = simd_adr_attr(f, a1, dst.encoding, Some(dst.encoding)); seq![0xFE] + address_bytes(f, Some(a2), dst.encoding, src, true) }) }))
            }),
    {
        let mut attributes = InstructionAttr::new(&self.features, AVX_128BIT, false, false, true, true);
        self.simd_prefix(dst.encoding, Some(dst.encoding), &src, VEX_SIMD_66, VEX_OPCODE_0F, &mut attributes);
        self.emit_int8(0xFE);
        self.emit_operand_attr(dst.encoding, &src, &attributes, true);
    }

    /// `paddq dst, src`
    pub fn paddq(&mut self, dst: XMMRegister, src: XMMRegister)
        requires
            dst.wf(),
            src.wf(),
            ({
                let f = old(self).features;
                ({ let a1 = InstructionAttr::spec_new(f, AVX_128BIT, f.supports_evex(), false, true, true); let a2 = a1.reverted(); (simd_rr_ok(f, a2, dst.encoding, Some(dst.encoding), src.encoding)) })
            }),
        ensures
            ({
                let f = old(self).features;
                final(self).appends(*old(self), ({ let a1 = InstructionAttr::spec_new(f, AVX_128BIT, f.supports_evex(), false, true, true); let a2 = a1.reverted(); simd_rr_bytes(f, a2, dst.encoding, Some(dst.encoding), src.encoding, VEX_SIMD_66, VEX_OPCODE_0F) + seq![0xD4, (0xC0 | rr_bits(dst.encoding, src.encoding))] }))
            }),
    {
        let mut attributes = InstructionAttr::new(&self.features, AVX_128BIT, self.features.supports_evex(), false, true, true);
        attributes.set_rex_vex_w_reverted();
        let encode = self.simd_prefix_and_encode(dst.encoding, Some(dst.encoding), src.encoding, VEX_SIMD_66, VEX_OPCODE_0F, &mut attributes);
        self.emit_int16(0xD4, (0xC0 | encode));
    }

    /// `phaddw dst, src`
    pub fn phaddw(&mut self, dst: XMMRegister, src: XMMRegister)
        requires
            dst.wf(),
            src.wf(),
            ({
                let f = old(self).features;
                (f.supports_sse3()) && ({ let a1 = InstructionAttr::spec_new(f, AVX_128BIT, false, true, true, true); (simd_rr_ok(f, a1, dst.encoding, Some(dst.encoding), src.encoding)) })
            }),
        ensures
            ({
                let f = old(self).features;
                final(self).appends(*old(self), ({ let a1 = InstructionAttr::spec_new(f, AVX_128BIT, false, true, true, true); simd_rr_bytes(f, a1, dst.encoding, Some(dst.encoding), src.encoding, VEX_SIMD_66, VEX_OPCODE_0F_38) + seq![0x01, (0xC0 | rr_bits(dst.encoding, src.encoding))] }))
            }),
    {
        let mut attributes = InstructionAttr::new(&self.features, AVX_128BIT, false, true, true, true);
        let encode = self.simd_prefix_and_encode(dst.encoding, Some(dst.encoding), src.encoding, VEX_SIMD_66, VEX_OPCODE_0F_38, &mut attributes);
        self.emit_int16(0x01, (0xC0 | encode));
    }

    /// `phaddd dst, src`
    pub fn phaddd(&mut self, dst: XMMRegister, src: XMMRegister)
        requires
            dst.wf(),
            src.wf(),
            ({
                let f = old(self).features;
                (f.supports_sse3()) && ({ let a1 = InstructionAttr::spec_new(f, AVX_128BIT, false, true, true, true); (simd_rr_ok(f, a1, dst.encoding, Some(dst.encoding), src.encoding)) })
            }),
        ensures
            ({
                let f = old(self).features;
                final(self).appends(*old(self), ({ let a1 = InstructionAttr::spec_new(f, AVX_128BIT, false, true, true, true); simd_rr_bytes(f, a1, dst.encoding, Some(dst.encoding), src.encoding, VEX_SIMD_66, VEX_OPCODE_0F_38) + seq![0x02, (0xC0 | rr_bits(dst.encoding, src.encoding))] }))
            }),
    {
        let mut attributes = InstructionAttr::new(&self.features, AVX_128BIT, false, true, true, true);
        let encode = self.simd_prefix_and_encode(dst.encoding, Some(dst.encoding), src.encoding, VEX_SIMD_66, VEX_OPCODE_0F_38, &mut attributes);
        self.emit_int16(0x02, (0xC0 | encode));
    }

    /// `psubb dst, src`
    pub fn psubb(&mut self, dst: XMMRegister, src: XMMRegister)
        requires
            dst.wf(),
            src.wf(),
            ({
                let f = old(self).features;
                ({ let a1 = InstructionAttr::spec_new(f, AVX_128BIT, false, f.legacy_mode_bw(), true, true); (simd_rr_ok(f, a1, dst.encoding, Some(dst.encoding), src.encoding)) })
            }),
        ensures
            ({
                let f = old(self).features;
                final(self).appends(*old(self), ({ let a1 = InstructionAttr::spec_new(f, AVX_128BIT, false, f.legacy_mode_bw(), true, true); simd_rr_bytes(f, a1, dst.encoding, Some(dst.encoding), src.encoding, VEX_SIMD_66, VEX_OPCODE_0F) + seq![0xF8, (0xC0 | rr_bits(dst.encoding, src.encoding))] }))
            }),
    {
        let mut attributes = InstructionAttr::new(&self.features, AVX_128BIT, false, self.features.legacy_mode_bw(), true, true);
        let encode = self.simd_prefix_and_encode(dst.encoding, Some(dst.encoding), src.encoding, VEX_SIMD_66, VEX_OPCODE_0F, &mut attributes);
        self.emit_int16(0xF8, (0xC0 | encode));
    }

    /// `psubw dst, src`
    pub fn psubw(&mut self, dst: XMMRegister, src: XMMRegister)
        requires
            dst.wf(),
            src.wf(),
            ({
                let f = old(self).features;
                ({ let a1 = InstructionAttr::spec_new(f, AVX_128BIT, false, f.legacy_mode_bw(), true, true); (simd_rr_ok(f, a1, dst.encoding, Some(dst.encoding), src.encoding)) })
            }),
        ensures
            ({
                let f = old(self).features;
                final(self).appends(*old(self), ({ let a1 = InstructionAttr::spec_new(f, AVX_128BIT, false, f.legacy_mode_bw(), true, true); simd_rr_bytes(f, a1, dst.encoding, Some(dst.encoding), src.encoding, VEX_SIMD_66, VEX_OPCODE_0F) + seq![0xF9, (0xC0 | rr_bits(dst.encoding, src.encoding))] }))
            }),
    {
        let mut attributes = InstructionAttr::new(&self.features, AVX_128BIT, false, self.features.legacy_mode_bw(), true, true);
        let encode = self.simd_prefix_and_encode(dst.encoding, Some(dst.encoding), src.encoding, VEX_SIMD_66, VEX_OPCODE_0F, &mut attributes);
        self.emit_int16(0xF9, (0xC0 | encode));
    }

    /// `psubd dst, src`
    pub fn psubd(&mut self, dst: XMMRegister, src: XMMRegister)
        requires
            dst.wf(),
            src.wf(),
            ({
                let f = old(self).features;
                ({ let a1 = InstructionAttr::spec_new(f, AVX_128BIT, false, false, true, true); (simd_rr_ok(f, a1, dst.encoding, Some(dst.encoding), src.encoding)) })
            }),
        ensures
            ({
                let f = old(self).features;
                final(self).appends(*old(self), ({ let a1 = InstructionAttr::spec_new(f, AVX_128BIT, false, false, true, true); simd_rr_bytes(f, a1, dst.encoding, Some(dst.encoding), src.encoding, VEX_SIMD_66, VEX_OPCODE_0F) + seq![0xFA, (0xC0 | rr_bits(dst.encoding, src.encoding))] }))
            }),
    {
        let mut attributes = InstructionAttr::new(&self.features, AVX_128BIT, false, false, true, true);
        let encode = self.simd_prefix_and_encode(dst.encoding, Some(dst.encoding), src.encoding, VEX_SIMD_66, VEX_OPCODE_0F, &mut attributes);
        self.emit_int16(0xFA, (0xC0 | encode));
    }

    /// `psubq dst, src`
    pub fn psubq(&mut self, dst: XMMRegister, src: XMMRegister)
        requires
            dst.wf(),
            src.wf(),
            ({
                let f = old(self).features;
                ({ let a1 = InstructionAttr::spec_new(f, AVX_128BIT, f.supports_evex(), false, true, true); let a2 = a1.reverted(); (simd_rr_ok(f, a2, dst.encoding, Some(dst.encoding), src.encoding)) })
            }),
        ensures
            ({
                let f = old(self).features;
                final(self).appends(*old(self), ({ let a1 = InstructionAttr::spec_new(f, AVX_128BIT, f.supports_evex(), false, true, true); let a2 = a1.reverted(); simd_rr_bytes(f, a2, dst.encoding, Some(dst.encoding), src.encoding, VEX_SIMD_66, VEX_OPCODE_0F) + seq![0xFB] + seq![(0xC0 | rr_bits(dst.encoding, src.encoding))] }))
            }),
    {
        let mut attributes = InstructionAttr::new(&self.features, AVX_128BIT, self.features.supports_evex(), false, true, true);
        attributes.set_rex_vex_w_reverted();
        let encode = self.simd_prefix_and_encode(dst.encoding, Some(dst.encoding), src.encoding, VEX_SIMD_66, VEX_OPCODE_0F, &mut attributes);
        self.emit_int8(0xFB);
        self.emit_int8((0xC0 | encode));
    }

    /// `pmullw dst, src`
    pub fn pmullw(&mut self, dst: XMMRegister, src: XMMRegister)
        requires
            dst.wf(),
            src.wf(),
            ({
                let f = old(self).features;
                ({ let a1 = InstructionAttr::spec_new(f, AVX_128BIT, false, f.legacy_mode_bw(), true, true); (simd_rr_ok(f, a1, dst.encoding, Some(dst.encoding), src.encoding)) })
            }),
        ensures
            ({
                let f = old(self).features;
                final(self).appends(*old(self), ({ let a1 = InstructionAttr::spec_new(f, AVX_128BIT, false, f.legacy_mode_bw(), true, true); simd_rr_bytes(f, a1, dst.encoding, Some(dst.encoding), src.encoding, VEX_SIMD_66, VEX_OPCODE_0F) + seq![0xD5, (0xC0 | rr_bits(dst.encoding, src.encoding))] }))
            }),
    {
        let mut attributes = InstructionAttr::new(&self.features, AVX_128BIT, false, self.features.legacy_mode_bw(), true, true);
        let encode = self.simd_prefix_and_encode(dst.encoding, Some(dst.encoding), src.encoding, VEX_SIMD_66, VEX_OPCODE_0F, &mut attributes);
        self.emit_int16(0xD5, (0xC0 | encode));
    }

    /// `pmulld dst, src`
    pub fn pmulld(&mut self, dst: XMMRegister, src: XMMRegister)
        requires
            dst.wf(),
            src.wf(),
            ({
                let f = old(self).features;
                (f.supports_sse4_1()) && ({ let a1 = InstructionAttr::spec_new(f, AVX_128BIT, false, false, true, true); (simd_rr_ok(f, a1, dst.encoding, Some(dst.encoding), src.encoding)) })
            }),
        ensures
            ({
                let f = old(self).features;
                final(self).appends(*old(self), ({ let a1 = InstructionAttr::spec_new(f, AVX_128BIT, false, false, true, true); simd_rr_bytes(f, a1, dst.encoding, Some(dst.encoding), src.encoding, VEX_SIMD_66, VEX_OPCODE_0F_38) + seq![0x40, (0xC0 | rr_bits(dst.encoding, src.encoding))] }))
            }),
    {
        let mut attributes = InstructionAttr::new(&self.features, AVX_128BIT, false, false, true, true);
        let encode = self.simd_prefix_and_encode(dst.encoding, Some(dst.encoding), src.encoding, VEX_SIMD_66, VEX_OPCODE_0F_38, &mut attributes);
        self.emit_int16(0x40, (0xC0 | encode));
    }

    /// `pmuludq dst, src`
    pub fn pmuludq(&mut self, dst: XMMRegister, src: XMMRegister)
        requires
            dst.wf(),
            src.wf(),
            ({
                let f = old(self).features;
                (f.supports_sse2()) && ({ let a1 = InstructionAttr::spec_new(f, AVX_128BIT, false, false, true, true); (simd_rr_ok(f, a1, dst.encoding, Some(dst.encoding), src.encoding)) })
            }),
        ensures
            ({
                let f = old(self).features;
                final(self).appends(*old(self), ({ let a1 = InstructionAttr::spec_new(f, AVX_128BIT, false, false, true, true); simd_rr_bytes(f, a1, dst.encoding, Some(dst.encoding), src.encoding, VEX_SIMD_66, VEX_OPCODE_0F) + seq![0xF4, (0xC0 | rr_bits(dst.encoding, src.encoding))] }))
            }),
    {
        let mut attributes = InstructionAttr::new(&self.features, AVX_128BIT, false, false, true, true);
        let encode = self.simd_prefix_and_encode(dst.encoding, Some(dst.encoding), src.encoding, VEX_SIMD_66, VEX_OPCODE_0F, &mut attributes);
        self.emit_int16(0xF4, (0xC0 | encode));
    }

    /// `pminsb dst, src`
    pub fn pminsb(&mut self, dst: XMMRegister, src: XMMRegister)
        requires
            dst.wf(),
            src.wf(),
            ({
                let f = old(self).features;
                (f.supports_sse4_1()) && ({ let a1 = InstructionAttr::spec_new(f, AVX_128BIT, false, f.legacy_mode_bw(), true, true); (simd_rr_ok(f, a1, dst.encoding, Some(dst.encoding), src.encoding)) })
            }),
        ensures
            ({
                let f = old(self).features;
                final(self).appends(*old(self), ({ let a1 = InstructionAttr::spec_new(f, AVX_128BIT, false, f.legacy_mode_bw(), true, true); simd_rr_bytes(f, a1, dst.encoding, Some(dst.encoding), src.encoding, VEX_SIMD_66, VEX_OPCODE_0F_38) + seq![0x38, (0xC0 | rr_bits(dst.encoding, src.encoding))] }))
            }),
    {
        let mut attributes = InstructionAttr::new(&self.features, AVX_128BIT, false, self.features.legacy_mode_bw(), true, true);
        let encode = self.simd_prefix_and_encode(dst.encoding, Some(dst.encoding), src.encoding, VEX_SIMD_66, VEX_OPCODE_0F_38, &mut attributes);
        self.emit_int16(0x38, (0xC0 | encode));
    }

    /// `pminsw dst, src`
    pub fn pminsw(&mut self, dst: XMMRegister, src: XMMRegister)
        requires
            dst.wf(),
            src.wf(),
            ({
                let f = old(self).features;
                (f.supports_sse2()) && ({ let a1 = InstructionAttr::spec_new(f, AVX_128BIT, false, f.legacy_mode_bw(), true, true); (simd_rr_ok(f, a1, dst.encoding, Some(dst.encoding), src.encoding)) })
            }),
        ensures
            ({
                let f = old(self).features;
                final(self).appends(*old(self), ({ let a1 = InstructionAttr::spec_new(f, AVX_128BIT, false, f.legacy_mode_bw(), true, true); simd_rr_bytes(f, a1, dst.encoding, Some(dst.encoding), src.encoding, VEX_SIMD_66, VEX_OPCODE_0F) + seq![0xEA, (0xC0 | rr_bits(dst.encoding, src.encoding))] }))
            }),
    {
        let mut attributes = InstructionAttr::new(&self.features, AVX_128BIT, false, self.features.legacy_mode_bw(), true, true);
        let encode = self.simd_prefix_and_encode(dst.encoding, Some(dst.encoding), src.encoding, VEX_SIMD_66, VEX_OPCODE_0F, &mut attributes);
        self.emit_int16(0xEA, (0xC0 | encode));
    }

    /// `pminsd dst, src`
    pub fn pminsd(&mut self, dst: XMMRegister, src: XMMRegister)
        requires
            dst.wf(),
            src.wf(),
            ({
                let f = old(self).features;
                (f.supports_sse4_1()) && ({ let a1 = InstructionAttr::spec_new(f, AVX_128BIT, false, false, true, true); (simd_rr_ok(f, a1, dst.encoding, Some(dst.encoding), src.encoding)) })
            }),
        ensures
            ({
                let f = old(self).features;
                final(self).appends(*old(self), ({ let a1 = InstructionAttr::spec_new(f, AVX_128BIT, false, false, true, true); simd_rr_bytes(f, a1, dst.encoding, Some(dst.encoding), src.encoding, VEX_SIMD_66, VEX_OPCODE_0F_38) + seq![0x39, (0xC0 | rr_bits(dst.encoding, src.encoding))] }))
            }),
    {
        let mut attributes = InstructionAttr::new(&self.features, AVX_128BIT, false, false, true, true);
        let encode = self.simd_prefix_and_encode(dst.encoding, Some(dst.encoding), src.encoding, VEX_SIMD_66, VEX_OPCODE_0F_38, &mut attributes);
        self.emit_int16(0x39, (0xC0 | encode));
    }

    /// `minps dst, src`
    pub fn minps(&mut self, dst: XMMRegister, src: XMMRegister)
        requires
            dst.wf(),
            src.wf(),
            ({
                let f = old(self).features;
                ({ let a1 = InstructionAttr::spec_new(f, AVX_128BIT, false, false, true, true); (simd_rr_ok(f, a1, dst.encoding, Some(dst.encoding), src.encoding)) })
            }),
        ensures
            ({
                let f = old(self).features;
                final(self).appends(*old(self), ({ let a1 = InstructionAttr::spec_new(f, AVX_128BIT, false, false, true, true); simd_rr_bytes(f, a1, dst.encoding, Some(dst.encoding), src.encoding, VEX_SIMD_NONE, VEX_OPCODE_0F) + seq![0x5D, (0xC0 | rr_bits(dst.encoding, src.encoding))] }))
            }),
    {
        let mut attributes = InstructionAttr::new(&self.features, AVX_128BIT, false, false, true, true);
        let encode = self.simd_prefix_and_encode(dst.encoding, Some(dst.encoding), src.encoding, VEX_SIMD_NONE, VEX_OPCODE_0F, &mut attributes);
        self.emit_int16(0x5D, (0xC0 | encode));
    }

    /// `minpd dst, src`
    pub fn minpd(&mut self, dst: XMMRegister, src: XMMRegister)
        requires
            dst.wf(),
            src.wf(),
            ({
                let f = old(self).features;
                ({ let a1 = InstructionAttr::spec_new(f, AVX_128BIT, false, false, true, true); (simd_rr_ok(f, a1, dst.encoding, Some(dst.encoding), src.encoding)) })
            }),
        ensures
            ({
                let f = old(self).features;
                final(self).appends(*old(self), ({ let a1 = InstructionAttr::spec_new(f, AVX_128BIT, false, false, true, true); simd_rr_bytes(f, a1, dst.encoding, Some(dst.encoding), src.encoding, VEX_SIMD_66, VEX_OPCODE_0F) + seq![0x5D, (0xC0 | rr_bits(dst.encoding, src.encoding))] }))
            }),
    {
        let mut attributes = InstructionAttr::new(&self.features, AVX_128BIT, false, false, true, true);
        let encode = self.simd_prefix_and_encode(dst.encoding, Some(dst.encoding), src.encoding, VEX_SIMD_66, VEX_OPCODE_0F, &mut attributes);
        self.emit_int16(0x5D, (0xC0 | encode));
    }

    /// `pmaxsb dst, src`
    pub fn pmaxsb(&mut self, dst: XMMRegister, src: XMMRegister)
        requires
            dst.wf(),
            src.wf(),
            ({
                let f = old(self).features;
                (f.supports_sse4_1()) && ({ let a1 = InstructionAttr::spec_new(f, AVX_128BIT, false, f.legacy_mode_bw(), true, true); (simd_rr_ok(f, a1, dst.encoding, Some(dst.encoding), src.encoding)) })
            }),
        ensures
            ({
                let f = old(self).features;
                final(self).appends(*old(self), ({ let a1 = InstructionAttr::spec_new(f, AVX_128BIT, false, f.legacy_mode_bw(), true, true); simd_rr_bytes(f, a1, dst.encoding, Some(dst.encoding), src.encoding, VEX_SIMD_66, VEX_OPCODE_0F_38) + seq![0x3C, (0xC0 | rr_bits(dst.encoding, src.encoding))] }))
            }),
    {
        let mut attributes = InstructionAttr::new(&self.features, AVX_128BIT, false, self.features.legacy_mode_bw(), true, true);
        let encode = self.simd_prefix_and_encode(dst.encoding, Some(dst.encoding), src.encoding, VEX_SIMD_66, VEX_OPCODE_0F_38, &mut attributes);
        self.emit_int16(0x3C, (0xC0 | encode));
    }

    /// `pmaxsw dst, src`
    pub fn pmaxsw(&mut self, dst: XMMRegister, src: XMMRegister)
        requires
            dst.wf(),
            src.wf(),
            ({
                let f = old(self).features;
                (f.supports_sse2()) && ({ let a1 = InstructionAttr::spec_new(f, AVX_128BIT, false, f.legacy_mode_bw(), true, true); (simd_rr_ok(f, a1, dst.encoding, Some(dst.encoding), src.encoding)) })
            }),
        ensures
            ({
                let f = old(self).features;
                final(self).appends(*old(self), ({ let a1 = InstructionAttr::spec_new(f, AVX_128BIT, false, f.legacy_mode_bw(), true, true); simd_rr_bytes(f, a1, dst.encoding, Some(dst.encoding), src.encoding, VEX_SIMD_66, VEX_OPCODE_0F) + seq![0xEE, (0xC0 | rr_bits(dst.encoding, src.encoding))] }))
            }),
    {
        let mut attributes = InstructionAttr::new(&self.features, AVX_128BIT, false, self.features.legacy_mode_bw(), true, true);
        let encode = self.simd_prefix_and_encode(dst.encoding, Some(dst.encoding), src.encoding, VEX_SIMD_66, VEX_OPCODE_0F, &mut attributes);
        self.emit_int16(0xEE, (0xC0 | encode));
    }

    /// `pmaxsd dst, src`
    pub fn pmaxsd(&mut self, dst: XMMRegister, src: XMMRegister)
        requires
            dst.wf(),
            src.wf(),
            ({
                let f = old(self).features;
                (f.supports_sse4_1()) && ({ let a1 = InstructionAttr::spec_new(f, AVX_128BIT, false, false, true, true); (simd_rr_ok(f, a1, dst.encoding, Some(dst.encoding), src.encoding)) })
            }),
        ensures
            ({
                let f = old(self).features;
                final(self).appends(*old(self), ({ let a1 = InstructionAttr::spec_new(f, AVX_128BIT, false, false, true, true); simd_rr_bytes(f, a1, dst.encoding, Some(dst.encoding), src.encoding, VEX_SIMD_66, VEX_OPCODE_0F_38) + seq![0x3D, (0xC0 | rr_bits(dst.encoding, src.encoding))] }))
            }),
    {
        let mut attributes = InstructionAttr::new(&self.features, AVX_128BIT, false, false, true, true);
        let encode = self.simd_prefix_and_encode(dst.encoding, Some(dst.encoding), src.encoding, VEX_SIMD_66, VEX_OPCODE_0F_38, &mut attributes);
        self.emit_int16(0x3D, (0xC0 | encode));
    }

    /// `maxps dst, src`
    pub fn maxps(&mut self, dst: XMMRegister, src: XMMRegister)
        requires
            dst.wf(),
            src.wf(),
            ({
                let f = old(self).features;
                ({ let a1 = InstructionAttr::spec_new(f, AVX_128BIT, false, false, true, true); (simd_rr_ok(f, a1, dst.encoding, Some(dst.encoding), src.encoding)) })
            }),
        ensures
            ({
                let f = old(self).features;
                final(self).appends(*old(self), ({ let a1 = InstructionAttr::spec_new(f, AVX_128BIT, false, false, true, true); simd_rr_bytes(f, a1, dst.encoding, Some(dst.encoding), src.encoding, VEX_SIMD_NONE, VEX_OPCODE_0F) + seq![0x5F, (0xC0 | rr_bits(dst.encoding, src.encoding))] }))
            }),
    {
        let mut attributes = InstructionAttr::new(&self.features, AVX_128BIT, false, false, true, true);
        let encode = self.simd_prefix_and_encode(dst.encoding, Some(dst.encoding), src.encoding, VEX_SIMD_NONE, VEX_OPCODE_0F, &mut attributes);
        self.emit_int16(0x5F, (0xC0 | encode));
    }

    /// `maxpd dst, src`
    pub fn maxpd(&mut self, dst: XMMRegister, src: XMMRegister)
        requires
            dst.wf(),
            src.wf(),
            ({
                let f = old(self).features;
                ({ let a1 = InstructionAttr::spec_new(f, AVX_128BIT, false, false, true, true); (simd_rr_ok(f, a1, dst.encoding, None, src.encoding)) })
            }),
        ensures
            ({
                let f = old(self).features;
                final(self).appends(*old(self), ({ let a1 = InstructionAttr::spec_new(f, AVX_128BIT, false, false, true, true); simd_rr_bytes(f, a1, dst.encoding, None, src.encoding, VEX_SIMD_66, VEX_OPCODE_0F) + seq![0x5F, (0xC0 | rr_bits(dst.encoding, src.encoding))] }))
            }),
    {
        let mut attributes = InstructionAttr::new(&self.features, AVX_128BIT, false, false, true, true);
        let encode = self.simd_prefix_and_encode(dst.encoding, None, src.encoding, VEX_SIMD_66, VEX_OPCODE_0F, &mut attributes);
        self.emit_int16(0x5F, (0xC0 | encode));
    }

    /// `psllw dst, shift`
    pub fn psllw_xi(&mut self, dst: XMMRegister, shift: i32)
        requires
            dst.wf(),
            ({
                let f = old(self).features;
                ({ let a1 = InstructionAttr::spec_new(f, AVX_128BIT, false, f.legacy_mode_bw(), true, true); (simd_rr_ok(f, a1, 6, Some(dst.encoding), dst.encoding)) })
            }),
        ensures
            ({
                let f = old(self).features;
                final(self).appends(*old(self), ({ let a1 = InstructionAttr::spec_new(f, AVX_128BIT, false, f.legacy_mode_bw(), true, true); simd_rr_bytes(f, a1, 6, Some(dst.encoding), dst.encoding, VEX_SIMD_66, VEX_OPCODE_0F) + seq![0x71, (0xC0 | rr_bits(6, dst.encoding)), low8(shift)] }))
            }),
    {
        let mut attributes = InstructionAttr::new(&self.features, AVX_128BIT, false, self.features.legacy_mode_bw(), true, true);
        let encode = self.simd_prefix_and_encode(6, Some(dst.encoding), dst.encoding, VEX_SIMD_66, VEX_OPCODE_0F, &mut attributes);
        self.emit_int24(0x71, (0xC0 | encode), low8_exec(shift));
    }

    /// `pslld dst, shift`
    pub fn pslld_xi(&mut self, dst: XMMRegister, shift: i32)
        requires
            dst.wf(),
            ({
                let f = old(self).features;
                ({ let a1 = InstructionAttr::spec_new(f, AVX_128BIT, false, false, true, true); (simd_rr_ok(f, a1, 6, Some(dst.encoding), dst.encoding)) })
            }),
        ensures
            ({
                let f = old(self).features;
                final(self).appends(*old(self), ({ let a1 = InstructionAttr::spec_new(f, AVX_128BIT, false, false, true, true); simd_rr_bytes(f, a1, 6, Some(dst.encoding), dst.encoding, VEX_SIMD_66, VEX_OPCODE_0F) + seq![0x72, (0xC0 | rr_bits(6, dst.encoding)), low8(shift)] }))
            }),
    {
        let mut attributes = InstructionAttr::new(&self.features, AVX_128BIT, false, false, true, true);
        let encode = self.simd_prefix_and_encode(6, Some(dst.encoding), dst.encoding, VEX_SIMD_66, VEX_OPCODE_0F, &mut attributes);
        self.emit_int24(0x72, (0xC0 | encode), low8_exec(shift));
    }

    /// `psllq dst, shift`
    pub fn psllq_xi(&mut self, dst: XMMRegister, shift: i32)
        requires
            dst.wf(),
            ({
                let f = old(self).features;
                ({ let a1 = InstructionAttr::spec_new(f, AVX_128BIT, true, false, true, true); (simd_rr_ok(f, a1, 6, Some(dst.encoding), dst.encoding)) })
            }),
        ensures
            ({
                let f = old(self).features;
                final(self).appends(*old(self), ({ let a1 = InstructionAttr::spec_new(f, AVX_128BIT, true, false, true, true); simd_rr_bytes(f, a1, 6, Some(dst.encoding), dst.encoding, VEX_SIMD_66, VEX_OPCODE_0F) + seq![0x73, (0xC0 | rr_bits(6, dst.encoding)), low8(shift)] }))
            }),
    {
        let mut attributes = InstructionAttr::new(&self.features, AVX_128BIT, true, false, true, true);
        let encode = self.simd_prefix_and_encode(6, Some(dst.encoding), dst.encoding, VEX_SIMD_66, VEX_OPCODE_0F, &mut attributes);
        self.emit_int24(0x73, (0xC0 | encode), low8_exec(shift));
    }

    /// `psllw dst, shift`
    pub fn psllw(&mut self, dst: XMMRegister, shift: XMMRegister)
        requires
            dst.wf(),
            shift.wf(),
            ({
                let f = old(self).features;
                ({ let a1 = InstructionAttr::spec_new(f, AVX_128BIT, false, f.legacy_mode_bw(), true, true); (simd_rr_ok(f, a1, dst.encoding, Some(dst.encoding), shift.encoding)) })
            }),
        ensures
            ({
                let f = old(self).features;
                final(self).appends(*old(self), ({ let a1 = InstructionAttr::spec_new(f, AVX_128BIT, false, f.legacy_mode_bw(), true, true); simd_rr_bytes(f, a1, dst.encoding, Some(dst.encoding), shift.encoding, VEX_SIMD_66, VEX_OPCODE_0F) + seq![0xF1, (0xC0 | rr_bits(dst.encoding, shift.encoding))] }))
            }),
    {
        let mut attributes = InstructionAttr::new(&self.features, AVX_128BIT, false, self.features.legacy_mode_bw(), true, true);
        let encode = self.simd_prefix_and_encode(dst.encoding, Some(dst.encoding), shift.encoding, VEX_SIMD_66, VEX_OPCODE_0F, &mut attributes);
        self.emit_int16(0xF1, (0xC0 | encode));
    }

    /// `pslld dst, shift`
    pub fn pslld(&mut self, dst: XMMRegister, shift: XMMRegister)
        requires
            dst.wf(),
            shift.wf(),
            ({
                let f = old(self).features;
                ({ let a1 = InstructionAttr::spec_new(f, AVX_128BIT, false, false, true, true); (simd_rr_ok(f, a1, dst.encoding, Some(dst.encoding), shift.encoding)) })
            }),
        ensures
            ({
                let f = old(self).features;
                final(self).appends(*old(self), ({ let a1 = InstructionAttr::spec_new(f, AVX_128BIT, false, false, true, true); simd_rr_bytes(f, a1, dst.encoding, Some(dst.encoding), shift.encoding, VEX_SIMD_66, VEX_OPCODE_0F) + seq![0xF2, (0xC0 | rr_bits(dst.encoding, shift.encoding))] }))
            }),
    {
        let mut attributes = InstructionAttr::new(&self.features, AVX_128BIT, false, false, true, true);
        let encode = self.simd_prefix_and_encode(dst.encoding, Some(dst.encoding), shift.encoding, VEX_SIMD_66, VEX_OPCODE_0F, &mut attributes);
        self.emit_int16(0xF2, (0xC0 | encode));
    }

    /// `psllq dst, shift`
    pub fn psllq(&mut self, dst: XMMRegister, shift: XMMRegister)
        requires
            dst.wf(),
            shift.wf(),
            ({
                let f = old(self).features;
                ({ let a1 = InstructionAttr::spec_new(f, AVX_128BIT, f.supports_evex(), false, true, true); let a2 = a1.reverted(); (simd_rr_ok(f, a2, dst.encoding, Some(dst.encoding), shift.encoding)) })
            }),
        ensures
            ({
                let f = old(self).features;
                final(self).appends(*old(self), ({ let a1 = InstructionAttr::spec_new(f, AVX_128BIT, f.supports_evex(), false, true, true); let a2 = a1.reverted(); simd_rr_bytes(f, a2, dst.encoding, Some(dst.encoding), shift.encoding, VEX_SIMD_66, VEX_OPCODE_0F) + seq![0xF3, (0xC0 | rr_bits(dst.encoding, shift.encoding))] }))
            }),
    {
        let mut attributes = InstructionAttr::new(&self.features, AVX_128BIT, self.features.supports_evex(), false, true, true);
        attributes.set_rex_vex_w_reverted();
        let encode = self.simd_prefix_and_encode(dst.encoding, Some(dst.encoding), shift.encoding, VEX_SIMD_66, VEX_OPCODE_0F, &mut attributes);
        self.emit_int16(0xF3, (0xC0 | encode));
    }

    /// `psrlw dst, shift`
    pub fn psrlw_xi(&mut self, dst: XMMRegister, shift: i32)
        requires
            dst.wf(),
            ({
                let f = old(self).features;
                ({ let a1 = InstructionAttr::spec_new(f, AVX_128BIT, false, f.legacy_mode_bw(), true, true); (simd_rr_ok(f, a1, 2, Some(dst.encoding), dst.encoding)) })
            }),
        ensures
            ({
                let f = old(self).features;
                final(self).appends(*old(self), ({ let a1 = InstructionAttr::spec_new(f, AVX_128BIT, false, f.legacy_mode_bw(), true, true); simd_rr_bytes(f, a1, 2, Some(dst.encoding), dst.encoding, VEX_SIMD_66, VEX_OPCODE_0F) + seq![0x71, (0xC0 | rr_bits(2, dst.encoding)), low8(shift)] }))
            }),
    {
        let mut attributes = InstructionAttr::new(&self.features, AVX_128BIT, false, self.features.legacy_mode_bw(), true, true);
        let encode = self.simd_prefix_and_encode(2, Some(dst.encoding), dst.encoding, VEX_SIMD_66, VEX_OPCODE_0F, &mut attributes);
        self.emit_int24(0x71, (0xC0 | encode), low8_exec(shift));
    }

    /// `psrld dst, shift`
    pub fn psrld_xi(&mut self, dst: XMMRegister, shift: i32)
        requires
            dst.wf(),
            ({
                let f = old(self).features;
                ({ let a1 = InstructionAttr::spec_new(f, AVX_128BIT, false, false, true, true); (simd_rr_ok(f, a1, 2, Some(dst.encoding), dst.encoding)) })
            }),
        ensures
            ({
                let f = old(self).features;
                final(self).appends(*old(self), ({ let a1 = InstructionAttr::spec_new(f, AVX_128BIT, false, false, true, true); simd_rr_bytes(f, a1, 2, Some(dst.encoding), dst.encoding, VEX_SIMD_66, VEX_OPCODE_0F) + seq![0x72, (0xC0 | rr_bits(2, dst.encoding)), low8(shift)] }))
            }),
    {
        let mut attributes = InstructionAttr::new(&self.features, AVX_128BIT, false, false, true, true);
        let encode = self.simd_prefix_and_encode(2, Some(dst.encoding), dst.encoding, VEX_SIMD_66, VEX_OPCODE_0F, &mut attributes);
        self.emit_int24(0x72, (0xC0 | encode), low8_exec(shift));
    }

    /// `psrlq dst, shift`
    pub fn psrlq_xi(&mut self, dst: XMMRegister, shift: i32)
        requires
            dst.wf(),
            ({
                let f = old(self).features;
                ({ let a1 = InstructionAttr::spec_new(f, AVX_128BIT, f.supports_evex(), false, true, true); let a2 = a1.reverted(); (simd_rr_ok(f, a2, 2, Some(dst.encoding), dst.encoding)) })
            }),
        ensures
            ({
                let f = old(self).features;
                final(self).appends(*old(self), ({ let a1 = InstructionAttr::spec_new(f, AVX_128BIT, f.supports_evex(), false, true, true); let a2 = a1.reverted(); simd_rr_bytes(f, a2, 2, Some(dst.encoding), dst.encoding, VEX_SIMD_66, VEX_OPCODE_0F) + seq![0x73, (0xC0 | rr_bits(2, dst.encoding)), low8(shift)] }))
            }),
    {
        let mut attributes = InstructionAttr::new(&self.features, AVX_128BIT, self.features.supports_evex(), false, true, true);
        attributes.set_rex_vex_w_reverted();
        let encode = self.simd_prefix_and_encode(2, Some(dst.encoding), dst.encoding, VEX_SIMD_66, VEX_OPCODE_0F, &mut attributes);
        self.emit_int24(0x73, (0xC0 | encode), low8_exec(shift));
    }

    /// `psrlw dst, shift`
    pub fn psrlw(&mut self, dst: XMMRegister, shift: XMMRegister)
        requires
            dst.wf(),
            shift.wf(),
            ({
                let f = old(self).features;
                ({ let a1 = InstructionAttr::spec_new(f, AVX_128BIT, false, f.legacy_mode_bw(), true, true); (simd_rr_ok(f, a1, dst.encoding, Some(dst.encoding), shift.encoding)) })
            }),
        ensures
            ({
                let f = old(self).features;
                final(self).appends(*old(self), ({ let a1 = InstructionAttr::spec_new(f, AVX_128BIT, false, f.legacy_mode_bw(), true, true); simd_rr_bytes(f, a1, dst.encoding, Some(dst.encoding), shift.encoding, VEX_SIMD_66, VEX_OPCODE_0F) + seq![0xD1, (0xC0 | rr_bits(dst.encoding, shift.encoding))] }))
            }),
    {
        let mut attributes = InstructionAttr::new(&self.features, AVX_128BIT, false, self.features.legacy_mode_bw(), true, true);
        let encode = self.simd_prefix_and_encode(dst.encoding, Some(dst.encoding), shift.encoding, VEX_SIMD_66, VEX_OPCODE_0F, &mut attributes);
        self.emit_int16(0xD1, (0xC0 | encode));
    }

    /// `psrld dst, shift`
    pub fn psrld(&mut self, dst: XMMRegister, shift: XMMRegister)
        requires
            dst.wf(),
            shift.wf(),
            ({
                let f = old(self).features;
                ({ let a1 = InstructionAttr::spec_new(f, AVX_128BIT, false, false, true, true); (simd_rr_ok(f, a1, dst.encoding, Some(dst.encoding), shift.encoding)) })
            }),
        ensures
            ({
                let f = old(self).features;
                final(self).appends(*old(self), ({ let a1 = InstructionAttr::spec_new(f, AVX_128BIT, false, false, true, true); simd_rr_bytes(f, a1, dst.encoding, Some(dst.encoding), shift.encoding, VEX_SIMD_66, VEX_OPCODE_0F) + seq![0xD2, (0xC0 | rr_bits(dst.encoding, shift.encoding))] }))
            }),
    {
        let mut attributes = InstructionAttr::new(&self.features, AVX_128BIT, false, false, true, true);
        let encode = self.simd_prefix_and_encode(dst.encoding, Some(dst.encoding), shift.encoding, VEX_SIMD_66, VEX_OPCODE_0F, &mut attributes);
        self.emit_int16(0xD2, (0xC0 | encode));
    }

    /// `psrlq dst, shift`
    pub fn psrlq(&mut self, dst: XMMRegister, shift: XMMRegister)
        requires
            dst.wf(),
            shift.wf(),
            ({
                let f = old(self).features;
                ({ let a1 = InstructionAttr::spec_new(f, AVX_128BIT, f.supports_evex(), false, true, true); let a2 = a1.reverted(); (simd_rr_ok(f, a2, dst.encoding, Some(dst.encoding), shift.encoding)) })
            }),
        ensures
            ({
                let f = old(self).features;
                final(self).appends(*old(self), ({ let a1 = InstructionAttr::spec_new(f, AVX_128BIT, f.supports_evex(), false, true, true); let a2 = a1.reverted(); simd_rr_bytes(f, a2, dst.encoding, Some(dst.encoding), shift.encoding, VEX_SIMD_66, VEX_OPCODE_0F) + seq![0xD3, (0xC0 | rr_bits(dst.encoding, shift.encoding))] }))
            }),
    {
        let mut attributes = InstructionAttr::new(&self.features, AVX_128BIT, self.features.supports_evex(), false, true, true);
        attributes.set_rex_vex_w_reverted();
        let encode = self.simd_prefix_and_encode(dst.encoding, Some(dst.encoding), shift.encoding, VEX_SIMD_66, VEX_OPCODE_0F, &mut attributes);
        self.emit_int16(0xD3, (0xC0 | encode));
    }

    /// `psraw dst, shift`
    pub fn psraw_xi(&mut self, dst: XMMRegister, shift: i32)
        requires
            dst.wf(),
            ({
                let f = old(self).features;
                ({ let a1 = InstructionAttr::spec_new(f, AVX_128BIT, false, f.legacy_mode_bw(), true, true); (simd_rr_ok(f, a1, 4, Some(dst.encoding), dst.encoding)) })
            }),
        ensures
            ({
                let f = old(self).features;
                final(self).appends(*old(self), ({ let a1 = InstructionAttr::spec_new(f, AVX_128BIT, false, f.legacy_mode_bw(), true, true); simd_rr_bytes(f, a1, 4, Some(dst.encoding), dst.encoding, VEX_SIMD_66, VEX_OPCODE_0F) + seq![0x71, (0xC0 | rr_bits(4, dst.encoding)), low8(shift)] }))
            }),
    {
        let mut attributes = InstructionAttr::new(&self.features, AVX_128BIT, false, self.features.legacy_mode_bw(), true, true);
        let encode = self.simd_prefix_and_encode(4, Some(dst.encoding), dst.encoding, VEX_SIMD_66, VEX_OPCODE_0F, &mut attributes);
        self.emit_int24(0x71, (0xC0 | encode), low8_exec(shift));
    }

    /// `psrad dst, shift`
    pub fn psrad_xi(&mut self, dst: XMMRegister, shift: i32)
        requires
            dst.wf(),
            ({
                let f = old(self).features;
                ({ let a1 = InstructionAttr::spec_new(f, AVX_128BIT, false, false, true, true); (simd_rr_ok(f, a1, 4, Some(dst.encoding), dst.encoding)) })
            }),
        ensures
            ({
                let f = old(self).features;
                final(self).appends(*old(self), ({ let a1 = InstructionAttr::spec_new(f, AVX_128BIT, false, false, true, true); simd_rr_bytes(f, a1, 4, Some(dst.encoding), dst.encoding, VEX_SIMD_66, VEX_OPCODE_0F) + seq![0x72] + seq![(0xC0 | rr_bits(4, dst.encoding))] + seq![low8(shift)] }))
            }),
    {
        let mut attributes = InstructionAttr::new(&self.features, AVX_128BIT, false, false, true, true);
        let encode = self.simd_prefix_and_encode(4, Some(dst.encoding), dst.encoding, VEX_SIMD_66, VEX_OPCODE_0F, &mut attributes);
        self.emit_int8(0x72);
        self.emit_int8((0xC0 | encode));
        self.emit_int8(low8_exec(shift));
    }

    /// `psraw dst, shift`
    pub fn psraw(&mut self, dst: XMMRegister, shift: XMMRegister)
        requires
            dst.wf(),
            shift.wf(),
            ({
                let f = old(self).features;
                ({ let a1 = InstructionAttr::spec_new(f, AVX_128BIT, false, f.legacy_mode_bw(), true, true); (simd_rr_ok(f, a1, dst.encoding, Some(dst.encoding), shift.encoding)) })
            }),
        ensures
            ({
                let f = old(self).features;
                final(self).appends(*old(self), ({ let a1 = InstructionAttr::spec_new(f, AVX_128BIT, false, f.legacy_mode_bw(), true, true); simd_rr_bytes(f, a1, dst.encoding, Some(dst.encoding), shift.encoding, VEX_SIMD_66, VEX_OPCODE_0F) + seq![0xE1, (0xC0 | rr_bits(dst.encoding, shift.encoding))] }))
            }),
    {
        let mut attributes = InstructionAttr::new(&self.features, AVX_128BIT, false, self.features.legacy_mode_bw(), true, true);
        let encode = self.simd_prefix_and_encode(dst.encoding, Some(dst.encoding), shift.encoding, VEX_SIMD_66, VEX_OPCODE_0F, &mut attributes);
        self.emit_int16(0xE1, (0xC0 | encode));
    }

    /// `psrad dst, shift`
    pub fn psrad(&mut self, dst: XMMRegister, shift: XMMRegister)
        requires
            dst.wf(),
            shift.wf(),
            ({
                let f = old(self).features;
                ({ let a1 = InstructionAttr::spec_new(f, AVX_128BIT, false, false, true, true); (simd_rr_ok(f, a1, dst.encoding, Some(dst.encoding), shift.encoding)) })
            }),
        ensures
            ({
                let f = old(self).features;
                final(self).appends(*old(self), ({ let a1 = InstructionAttr::spec_new(f, AVX_128BIT, false, false, true, true); simd_rr_bytes(f, a1, dst.encoding, Some(dst.encoding), shift.encoding, VEX_SIMD_66, VEX_OPCODE_0F) + seq![0xE2, (0xC0 | rr_bits(dst.encoding, shift.encoding))] }))
            }),
    {
        let mut attributes = InstructionAttr::new(&self.features, AVX_128BIT, false, false, true, true);
        let encode = self.simd_prefix_and_encode(dst.encoding, Some(dst.encoding), shift.encoding, VEX_SIMD_66, VEX_OPCODE_0F, &mut attributes);
        self.emit_int16(0xE2, (0xC0 | encode));
    }

    /// `pand dst, src`
    pub fn pand(&mut self, dst: XMMRegister, src: XMMRegister)
        requires
            dst.wf(),
            src.wf(),
            ({
                let f = old(self).features;
                ({ let a1 = InstructionAttr::spec_new(f, AVX_128BIT, false, false, true, true); (simd_rr_ok(f, a1, dst.encoding, Some(dst.encoding), src.encoding)) })
            }),
        ensures
            ({
                let f = old(self).features;
                final(self).appends(*old(self), ({ let a1 = InstructionAttr::spec_new(f, AVX_128BIT, false, false, true, true); simd_rr_bytes(f, a1, dst.encoding, Some(dst.encoding), src.encoding, VEX_SIMD_66, VEX_OPCODE_0F) + seq![0xDB, (0xC0 | rr_bits(dst.encoding, src.encoding))] }))
            }),
    {
        let mut attributes = InstructionAttr::new(&self.features, AVX_128BIT, false, false, true, true);
        let encode = self.simd_prefix_and_encode(dst.encoding, Some(dst.encoding), src.encoding, VEX_SIMD_66, VEX_OPCODE_0F, &mut attributes);
        self.emit_int16(0xDB, (0xC0 | encode));
    }

    /// `pandn dst, src`
    pub fn pandn(&mut self, dst: XMMRegister, src: XMMRegister)
        requires
            dst.wf(),
            src.wf(),
            ({
                let f = old(self).features;
                ({ let a1 = InstructionAttr::spec_new(f, AVX_128BIT, f.supports_evex(), false, true, true); let a2 = a1.reverted(); (simd_rr_ok(f, a2, dst.encoding, Some(dst.encoding), src.encoding)) })
            }),
        ensures
            ({
                let f = old(self).features;
                final(self).appends(*old(self), ({ let a1 = InstructionAttr::spec_new(f, AVX_128BIT, f.supports_evex(), false, true, true); let a2 = a1.reverted(); simd_rr_bytes(f, a2, dst.encoding, Some(dst.encoding), src.encoding, VEX_SIMD_66, VEX_OPCODE_0F) + seq![0xDF, (0xC0 | rr_bits(dst.encoding, src.encoding))] }))
            }),
    {
        let mut attributes = InstructionAttr::new(&self.features, AVX_128BIT, self.features.supports_evex(), false, true, true);
        attributes.set_rex_vex_w_reverted();
        let encode = self.simd_prefix_and_encode(dst.encoding, Some(dst.encoding), src.encoding, VEX_SIMD_66, VEX_OPCODE_0F, &mut attributes);
        self.emit_int16(0xDF, (0xC0 | encode));
    }

    /// `por dst, src`
    pub fn por(&mut self, dst: XMMRegister, src: XMMRegister)
        requires
            dst.wf(),
            src.wf(),
            ({
                let f = old(self).features;
                ({ let a1 = InstructionAttr::spec_new(f, AVX_128BIT, false, false, true, true); (simd_rr_ok(f, a1, dst.encoding, Some(dst.encoding), src.encoding)) })
            }),
        ensures
            ({
                let f = old(self).features;
                final(self).appends(*old(self), ({ let a1 = InstructionAttr::spec_new(f, AVX_128BIT, false, false, true, true); simd_rr_bytes(f, a1, dst.encoding, Some(dst.encoding), src.encoding, VEX_SIMD_66, VEX_OPCODE_0F) + seq![0xEB, (0xC0 | rr_bits(dst.encoding, src.encoding))] }))
            }),
    {
        let mut attributes = InstructionAttr::new(&self.features, AVX_128BIT, false, false, true, true);
        let encode = self.simd_prefix_and_encode(dst.encoding, Some(dst.encoding), src.encoding, VEX_SIMD_66, VEX_OPCODE_0F, &mut attributes);
        self.emit_int16(0xEB, (0xC0 | encode));
    }

    /// `pxor dst, src`
    pub fn pxor(&mut self, dst: XMMRegister, src: XMMRegister)
        requires
            dst.wf(),
            src.wf(),
            ({
                let f = old(self).features;
                ({ let a1 = InstructionAttr::spec_new(f, AVX_128BIT, false, false, true, true); (simd_rr_ok(f, a1, dst.encoding, Some(dst.encoding), src.encoding)) })
            }),
        ensures
            ({
                let f = old(self).features;
                final(self).appends(*old(self), ({ let a1 = InstructionAttr::spec_new(f, AVX_128BIT, false, false, true, true); simd_rr_bytes(f, a1, dst.encoding, Some(dst.encoding), src.encoding, VEX_SIMD_66, VEX_OPCODE_0F) + seq![0xEF, (0xC0 | rr_bits(dst.encoding, src.encoding))] }))
            }),
    {
        let mut attributes = InstructionAttr::new(&self.features, AVX_128BIT, false, false, true, true);
        let encode = self.simd_prefix_and_encode(dst.encoding, Some(dst.encoding), src.encoding, VEX_SIMD_66, VEX_OPCODE_0F, &mut attributes);
        self.emit_int16(0xEF, (0xC0 | encode));
    }

    /// `gf2p8affineqb dst, src, imm8`
    pub fn gf2p8affineqb(&mut self, dst: XMMRegister, src: XMMRegister, imm8: i8)
        requires
            dst.wf(),
            src.wf(),
            ({
                let f = old(self).features;
                (f.supports_gfni()) && ((f.supports_sse()) && ({ let a1 = InstructionAttr::spec_new(f, AVX_128BIT, true, false, true, false); (simd_rr_ok(f, a1, dst.encoding, Some(dst.encoding), src.encoding)) }))
            }),
        ensures
            ({
                let f = old(self).features;
                final(self).appends(*old(self), ({ let a1 = InstructionAttr::spec_new(f, AVX_128BIT, true, false, true, false); simd_rr_bytes(f, a1, dst.encoding, Some(dst.encoding), src.encoding, VEX_SIMD_66, VEX_OPCODE_0F_3A) + seq![0xCE, (0xC0 | rr_bits(dst.encoding, src.encoding)), imm_byte(imm8)] }))
            }),
    {
        let mut attributes = InstructionAttr::new(&self.features, AVX_128BIT, true, false, true, false);
        let encode = self.simd_prefix_and_encode(dst.encoding, Some(dst.encoding), src.encoding, VEX_SIMD_66, VEX_OPCODE_0F_3A, &mut attributes);
        self.emit_int24(0xCE, (0xC0 | encode), imm_byte_exec(imm8));
    }

    /// `pclmulqdq dst, src, mask`
    pub fn pclmulqdq(&mut self, dst: XMMRegister, src: XMMRegister, mask: i32)
        requires
            dst.wf(),
            src.wf(),
            ({
                let f = old(self).features;
                (f.supports_clmul()) && ({ let a1 = InstructionAttr::spec_new(f, AVX_128BIT, false, true, true, true); (simd_rr_ok(f, a1, dst.encoding, Some(dst.encoding), src.encoding)) })
            }),
        ensures
            ({
                let f = old(self).features;
                final(self).appends(*old(self), ({ let a1 = InstructionAttr::spec_new(f, AVX_128BIT, false, true, true, true); simd_rr_bytes(f, a1, dst.encoding, Some(dst.encoding), src.encoding, VEX_SIMD_66, VEX_OPCODE_0F_3A) + seq![0x44, (0xC0 | rr_bits(dst.encoding, src.encoding)), low8(mask)] }))
            }),
    {
        let mut attributes = InstructionAttr::new(&self.features, AVX_128BIT, false, true, true, true);
        let encode = self.simd_prefix_and_encode(dst.encoding, Some(dst.encoding), src.encoding, VEX_SIMD_66, VEX_OPCODE_0F_3A, &mut attributes);
        self.emit_int24(0x44, (0xC0 | encode), low8_exec(mask));
    }

    /// `vcmppd dst, nds, src, cop, vector_len`
    pub fn vcmppd(&mut self, dst: XMMRegister, nds: XMMRegister, src: XMMRegister, cop: i32, vector_len: u8)
        requires
            dst.wf(),
            nds.wf(),
            src.wf(),
            ({
                let f = old(self).features;
                (f.supports_avx()) && ((vector_len <= AVX_256BIT) && ({ let a1 = InstructionAttr::spec_new(f, vector_len, false, true, true, true); (simd_rr_ok(f, a1, dst.encoding, Some(nds.encoding), src.encoding)) }))
            }),
        ensures
            ({
                let f = old(self).features;
                final(self).appends(*old(self), ({ let a1 = InstructionAttr::spec_new(f, vector_len, false, true, true, true); simd_rr_bytes(f, a1, dst.encoding, Some(nds.encoding), src.encoding, VEX_SIMD_66, VEX_OPCODE_0F) + seq![0xC2, (0xC0 | rr_bits(dst.encoding, src.encoding)), (0xF & low8(cop))] }))
            }),
    {
        let mut attributes = InstructionAttr::new(&self.features, vector_len, false, true, true, true);
        let encode = self.simd_prefix_and_encode(dst.encoding, Some(nds.encoding), src.encoding, VEX_SIMD_66, VEX_OPCODE_0F, &mut attributes);
        self.emit_int24(0xC2, (0xC0 | encode), (0xF & low8_exec(cop)));
    }

    /// `blendvps dst, src`
    pub fn blendvps(&mut self, dst: XMMRegister, src: XMMRegister)
        requires
            dst.wf(),
            src.wf(),
            ({
                let f = old(self).features;
                (f.supports_sse4_1()) && ((f.use_avx <= 0) && ({ let a1 = InstructionAttr::spec_new(f, AVX_128BIT, false, true, true, false); (simd_rr_ok(f, a1, dst.encoding, None, src.encoding)) }))
            }),
        ensures
            ({
                let f = old(self).features;
                final(self).appends(*old(self), ({ let a1 = InstructionAttr::spec_new(f, AVX_128BIT, false, true, true, false); simd_rr_bytes(f, a1, dst.encoding, None, src.encoding, VEX_SIMD_66, VEX_OPCODE_0F_38) + seq![0x14, (0xC0 | rr_bits(dst.encoding, src.encoding))] }))
            }),
    {
        let mut attributes = InstructionAttr::new(&self.features, AVX_128BIT, false, true, true, false);
        let encode = self.simd_prefix_and_encode(dst.encoding, None, src.encoding, VEX_SIMD_66, VEX_OPCODE_0F_38, &mut attributes);
        self.emit_int16(0x14, (0xC0 | encode));
    }

    /// `blendvpd dst, src`
    pub fn blendvpd(&mut self, dst: XMMRegister, src: XMMRegister)
        requires
            dst.wf(),
            src.wf(),
            ({
                let f = old(self).features;
                (f.supports_sse4_1()) && ((f.use_avx <= 0) && ({ let a1 = InstructionAttr::spec_new(f, AVX_128BIT, false, true, true, false); (simd_rr_ok(f, a1, dst.encoding, None, src.encoding)) }))
            }),
        ensures
            ({
                let f = old(self).features;
                final(self).appends(*old(self), ({ let a1 = InstructionAttr::spec_new(f, AVX_128BIT, false, true, true, false); simd_rr_bytes(f, a1, dst.encoding, None, src.encoding, VEX_SIMD_66, VEX_OPCODE_0F_38) + seq![0x15, (0xC0 | rr_bits(dst.encoding, src.encoding))] }))
            }),
    {
        let mut attributes = InstructionAttr::new(&self.features, AVX_128BIT, false, true, true, false);
        let encode = self.simd_prefix_and_encode(dst.encoding, None, src.encoding, VEX_SIMD_66, VEX_OPCODE_0F_38, &mut attributes);
        self.emit_int16(0x15, (0xC0 | encode));
    }

    /// `pblendvb dst, src`
    pub fn pblendvb(&mut self, dst: XMMRegister, src: XMMRegister)
        requires
            dst.wf(),
            src.wf(),
            ({
                let f = old(self).features;
                (f.supports_sse4_1()) && ((f.use_avx <= 0) && ({ let a1 = InstructionAttr::spec_new(f, AVX_128BIT, false, true, true, false); (simd_rr_ok(f, a1, dst.encoding, None, src.encoding)) }))
            }),
        ensures
            ({
                let f = old(self).features;
                final(self).appends(*old(self), ({ let a1 = InstructionAttr::spec_new(f, AVX_128BIT, false, true, true, false); simd_rr_bytes(f, a1, dst.encoding, None, src.encoding, VEX_SIMD_66, VEX_OPCODE_0F_38) + seq![0x10, (0xC0 | rr_bits(dst.encoding, src.encoding))] }))
            }),
    {
        let mut attributes = InstructionAttr::new(&self.features, AVX_128BIT, false, true, true, false);
        let encode = self.simd_prefix_and_encode(dst.encoding, None, src.encoding, VEX_SIMD_66, VEX_OPCODE_0F_38, &mut attributes);
        self.emit_int16(0x10, (0xC0 | encode));
    }

    /// `cvtsi2sdq dst, src`
    pub fn cvtsi2sdq(&mut self, dst: XMMRegister, src: Register)
        requires
            dst.wf(),
            src.wf(),
            ({
                let f = old(self).features;
                ({ let a1 = InstructionAttr::spec_new(f, AVX_128BIT, true, false, true, false); (simd_rr_ok(f, a1, dst.encoding, Some(dst.encoding), src.encoding)) })
            }),
        ensures
            ({
                let f = old(self).features;
                final(self).appends(*old(self), ({ let a1 = InstructionAttr::spec_new(f, AVX_128BIT, true, false, true, false); simd_rr_bytes(f, a1, dst.encoding, Some(dst.encoding), src.encoding, VEX_SIMD_F2, VEX_OPCODE_0F) + seq![0x2A, (0xC0 | rr_bits(dst.encoding, src.encoding))] }))
            }),
    {
        let mut attributes = InstructionAttr::new(&self.features, AVX_128BIT, true, false, true, false);
        let encode = self.simd_prefix_and_encode(dst.encoding, Some(dst.encoding), src.encoding, VEX_SIMD_F2, VEX_OPCODE_0F, &mut attributes);
        self.emit_int16(0x2A, (0xC0 | encode));
    }

    /// `cvtsi2sdq dst, [src]`
    pub fn cvtsi2sdq_xm(&mut self, dst: XMMRegister, src: Address)
        requires
            dst.wf(),
            src.wf(),
            ({
                let f = old(self).features;
                ({ let a1 = InstructionAttr::spec_new(f, AVX_128BIT, true, false, true, false); let a2 = a1.with_address(f, EVEX_T1S, EVEX_64BIT); (simd_adr_ok(f, a2, dst.encoding, Some(dst.encoding), src)) })
            }),
        ensures
            ({
                let f = old(self).features;
                final(self).appends(*old(self), ({ let a1 = InstructionAttr::spec_new(f, AVX_128BIT, true, false, true, false); let a2 = a1.with_address(f, EVEX_T1S, EVEX_64BIT); simd_adr_bytes(f, a2, dst.encoding, Some(dst.encoding), src, VEX_SIMD_F2, VEX_OPCODE_0F) + ({ let a3 = simd_adr_attr(f, a2, dst.encoding, Some(dst.encoding)); seq![0x2A] + address_bytes(f, Some(a3), dst.encoding, src, true) }) }))
            }),
    {
        let mut attributes = InstructionAttr::new(&self.features, AVX_128BIT, true, false, true, false);
        attributes.set_address_attributes(&self.features, EVEX_T1S, EVEX_64BIT);
        self.simd_prefix(dst.encoding, Some(dst.encoding), &src, VEX_SIMD_F2, VEX_OPCODE_0F, &mut attributes);
        self.emit_int8(0x2A);
        self.emit_operand_attr(dst.encoding, &src, &attributes, true);
    }

    /// `cvtsi2ssq dst, [src]`
    pub fn cvtsi2ssq_xm(&mut self, dst: XMMRegister, src: Address)
        requires
            dst.wf(),
            src.wf(),
            ({
                let f = old(self).features;
                ({ let a1 = InstructionAttr::spec_new(f, AVX_128BIT, true, false, true, false); let a2 = a1.with_address(f, EVEX_T1S, EVEX_64BIT); (simd_adr_ok(f, a2, dst.encoding, Some(dst.encoding), src)) })
            }),
        ensures
            ({
                let f = old(self).features;
                final(self).appends(*old(self), ({ let a1 = InstructionAttr::spec_new(f, AVX_128BIT, true, false, true, false); let a2 = a1.with_address(f, EVEX_T1S, EVEX_64BIT); simd_adr_bytes(f, a2, dst.encoding, Some(dst.encoding), src, VEX_SIMD_F3, VEX_OPCODE_0F) + ({ let a3 = simd_adr_attr(f, a2, dst.encoding, Some(dst.encoding)); seq![0x2A] + address_bytes(f, Some(a3), dst.encoding, src, true) }) }))
            }),
    {
        let mut attributes = InstructionAttr::new(&self.features, AVX_128BIT, true, false, true, false);
        attributes.set_address_attributes(&self.features, EVEX_T1S, EVEX_64BIT);
        self.simd_prefix(dst.encoding, Some(dst.encoding), &src, VEX_SIMD_F3, VEX_OPCODE_0F, &mut attributes);
        self.emit_int8(0x2A);
        self.emit_operand_attr(dst.encoding, &src, &attributes, true);
    }

    /// `cvttsd2siq dst, src`
    pub fn cvttsd2siq(&mut self, dst: Register, src: XMMRegister)
        requires
            dst.wf(),
            src.wf(),
            ({
                let f = old(self).features;
                ({ let a1 = InstructionAttr::spec_new(f, AVX_128BIT, true, false, true, false); (simd_rr_ok(f, a1, dst.encoding, None, src.encoding)) })
            }),
        ensures
            ({
                let f = old(self).features;
                final(self).appends(*old(self), ({ let a1 = InstructionAttr::spec_new(f, AVX_128BIT, true, false, true, false); simd_rr_bytes(f, a1, dst.encoding, None, src.encoding, VEX_SIMD_F2, VEX_OPCODE_0F) + seq![0x2C, (0xC0 | rr_bits(dst.encoding, src.encoding))] }))
            }),
    {
        let mut attributes = InstructionAttr::new(&self.features, AVX_128BIT, true, false, true, false);
        let encode = self.simd_prefix_and_encode(dst.encoding, None, src.encoding, VEX_SIMD_F2, VEX_OPCODE_0F, &mut attributes);
        self.emit_int16(0x2C, (0xC0 | encode));
    }

    /// `cvtsd2siq dst, src`
    pub fn cvtsd2siq(&mut self, dst: Register, src: XMMRegister)
        requires
            dst.wf(),
            src.wf(),
            ({
                let f = old(self).features;
                ({ let a1 = InstructionAttr::spec_new(f, AVX_128BIT, true, false, true, false); (simd_rr_ok(f, a1, dst.encoding, None, src.encoding)) })
            }),
        ensures
            ({
                let f = old(self).features;
                final(self).appends(*old(self), ({ let a1 = InstructionAttr::spec_new(f, AVX_128BIT, true, false, true, false); simd_rr_bytes(f, a1, dst.encoding, None, src.encoding, VEX_SIMD_F2, VEX_OPCODE_0F) + seq![0x2D, (0xC0 | rr_bits(dst.encoding, src.encoding))] }))
            }),
    {
        let mut attributes = InstructionAttr::new(&self.features, AVX_128BIT, true, false, true, false);
        let encode = self.simd_prefix_and_encode(dst.encoding, None, src.encoding, VEX_SIMD_F2, VEX_OPCODE_0F, &mut attributes);
        self.emit_int16(0x2D, (0xC0 | encode));
    }

    /// `cvttss2siq dst, src`
    pub fn cvttss2siq(&mut self, dst: Register, src: XMMRegister)
        requires
            dst.wf(),
            src.wf(),
            ({
                let f = old(self).features;
                ({ let a1 = InstructionAttr::spec_new(f, AVX_128BIT, true, false, true, false); (simd_rr_ok(f, a1, dst.encoding, None, src.encoding)) })
            }),
        ensures
            ({
                let f = old(self).features;
                final(self).appends(*old(self), ({ let a1 = InstructionAttr::spec_new(f, AVX_128BIT, true, false, true, false); simd_rr_bytes(f, a1, dst.encoding, None, src.encoding, VEX_SIMD_F3, VEX_OPCODE_0F) + seq![0x2C, (0xC0 | rr_bits(dst.encoding, src.encoding))] }))
            }),
    {
        let mut attributes = InstructionAttr::new(&self.features, AVX_128BIT, true, false, true, false);
        let encode = self.simd_prefix_and_encode(dst.encoding, None, src.encoding, VEX_SIMD_F3, VEX_OPCODE_0F, &mut attributes);
        self.emit_int16(0x2C, (0xC0 | encode));
    }

    /// `movdq dst, src`
    pub fn movdq(&mut self, dst: XMMRegister, src: Register)
        requires
            dst.wf(),
            src.wf(),
            ({
                let f = old(self).features;
                ({ let a1 = InstructionAttr::spec_new(f, AVX_128BIT, true, false, true, false); (simd_rr_ok(f, a1, dst.encoding, None, src.encoding)) })
            }),
        ensures
            ({
                let f = old(self).features;
                final(self).appends(*old(self), ({ let a1 = InstructionAttr::spec_new(f, AVX_128BIT, true, false, true, false); simd_rr_bytes(f, a1, dst.encoding, None, src.encoding, VEX_SIMD_66, VEX_OPCODE_0F) + seq![0x6E, (0xC0 | rr_bits(dst.encoding, src.encoding))] }))
            }),
    {
        let mut attributes = InstructionAttr::new(&self.features, AVX_128BIT, true, false, true, false);
        let encode = self.simd_prefix_and_encode(dst.encoding, None, src.encoding, VEX_SIMD_66, VEX_OPCODE_0F, &mut attributes);
        self.emit_int16(0x6E, (0xC0 | encode));
    }

    /// `movdq dst, src`
    pub fn movdq_rx(&mut self, dst: Register, src: XMMRegister)
        requires
            dst.wf(),
            src.wf(),
            ({
                let f = old(self).features;
                ({ let a1 = InstructionAttr::spec_new(f, AVX_128BIT, true, false, true, false); (simd_rr_ok(f, a1, src.encoding, None, dst.encoding)) })
            }),
        ensures
            ({
                let f = old(self).features;
                final(self).appends(*old(self), ({ let a1 = InstructionAttr::spec_new(f, AVX_128BIT, true, false, true, false); simd_rr_bytes(f, a1, src.encoding, None, dst.encoding, VEX_SIMD_66, VEX_OPCODE_0F) + seq![0x7E, (0xC0 | rr_bits(src.encoding, dst.encoding))] }))
            }),
    {
        let mut attributes = InstructionAttr::new(&self.features, AVX_128BIT, true, false, true, false);
        let encode = self.simd_prefix_and_encode(src.encoding, None, dst.encoding, VEX_SIMD_66, VEX_OPCODE_0F, &mut attributes);
        self.emit_int16(0x7E, (0xC0 | encode));
    }
}

} // verus!
