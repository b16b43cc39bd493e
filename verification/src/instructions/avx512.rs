//! Instructions that only exist with AVX-512 (EVEX) encodings.
use vstd::prelude::*;
use crate::address::Address;
use crate::assembler::Assembler;
use crate::attributes::{AVX_128BIT, AVX_256BIT, AVX_512BIT, EVEX_32BIT, EVEX_64BIT, EVEX_FV, EVEX_FVM, EVEX_HVM, EVEX_NOBIT, EVEX_QVM, EVEX_T1S, EVEX_T2, EVEX_T4, InstructionAttr, VEX_OPCODE_0F, VEX_OPCODE_0F_38, VEX_OPCODE_0F_3A, VEX_SIMD_66, VEX_SIMD_F2, VEX_SIMD_F3, VEX_SIMD_NONE};
use crate::encoding::{address_bytes, imm_byte, imm_byte_exec, low8, low8_exec, rr_bits, simd_rr_bytes, simd_rr_ok, vex_adr_attr, vex_adr_bytes, vex_adr_ok, vex_rr_bytes, vex_rr_ok};
use crate::registers::{KRegister, Register, XMMRegister, k0};

verus! {

impl Assembler {
    /// `vaesdec dst, nds, src, vector_len`
    pub fn vaesdec(&mut self, dst: XMMRegister, nds: XMMRegister, src: XMMRegister, vector_len: u8)
        requires
            dst.wf(),
            nds.wf(),
            src.wf(),
            ({
                let f = old(self).features;
                (f.supports_avx512_vaes()) && ({ let a1 = InstructionAttr::spec_new(f, vector_len, false, false, true, true); let a2 = a1.evex_only(); (vex_rr_ok(f, a2, dst.encoding, nds.encoding, src.encoding)) })
            }),
        ensures
            ({
                let f = old(self).features;
                final(self).appends(*old(self), ({ let a1 = InstructionAttr::spec_new(f, vector_len, false, false, true, true); let a2 = a1.evex_only(); vex_rr_bytes(f, a2, dst.encoding, nds.encoding, src.encoding, VEX_SIMD_66, VEX_OPCODE_0F_38) + seq![0xDE, (0xC0 | rr_bits(dst.encoding, src.encoding))] }))
            }),
    {
        let mut attributes = InstructionAttr::new(&self.features, vector_len, false, false, true, true);
        attributes.set_is_evex_instruction();
        let encode = self.vex_prefix_and_encode(dst.encoding, nds.encoding, src.encoding, VEX_SIMD_66, VEX_OPCODE_0F_38, &mut attributes);
        self.emit_int16(0xDE, (0xC0 | encode));
    }

    /// `vaesdeclast dst, nds, src, vector_len`
    pub fn vaesdeclast(&mut self, dst: XMMRegister, nds: XMMRegister, src: XMMRegister, vector_len: u8)
        requires
            dst.wf(),
            nds.wf(),
            src.wf(),
            ({
                let f = old(self).features;
                (f.supports_avx512_vaes()) && ({ let a1 = InstructionAttr::spec_new(f, vector_len, false, false, true, true); let a2 = a1.evex_only(); (vex_rr_ok(f, a2, dst.encoding, nds.encoding, src.encoding)) })
            }),
        ensures
            ({
                let f = old(self).features;
                final(self).appends(*old(self), ({ let a1 = InstructionAttr::spec_new(f, vector_len, false, false, true, true); let a2 = a1.evex_only(); vex_rr_bytes(f, a2, dst.encoding, nds.encoding, src.encoding, VEX_SIMD_66, VEX_OPCODE_0F_38) + seq![0xDF, (0xC0 | rr_bits(dst.encoding, src.encoding))] }))
            }),
    {
        let mut attributes = InstructionAttr::new(&self.features, vector_len, false, false, true, true);
        attributes.set_is_evex_instruction();
        let encode = self.vex_prefix_and_encode(dst.encoding, nds.encoding, src.encoding, VEX_SIMD_66, VEX_OPCODE_0F_38, &mut attributes);
        self.emit_int16(0xDF, (0xC0 | encode));
    }

    /// `vaesenc dst, nds, src, vector_len`
    pub fn vaesenc(&mut self, dst: XMMRegister, nds: XMMRegister, src: XMMRegister, vector_len: u8)
        requires
            dst.wf(),
            nds.wf(),
            src.wf(),
            ({
                let f = old(self).features;
                (f.supports_avx512_vaes()) && ({ let a1 = InstructionAttr::spec_new(f, vector_len, false, false, true, true); let a2 = a1.evex_only(); (vex_rr_ok(f, a2, dst.encoding, nds.encoding, src.encoding)) })
            }),
        ensures
            ({
                let f = old(self).features;
                final(self).appends(*old(self), ({ let a1 = InstructionAttr::spec_new(f, vector_len, false, false, true, true); let a2 = a1.evex_only(); vex_rr_bytes(f, a2, dst.encoding, nds.encoding, src.encoding, VEX_SIMD_66, VEX_OPCODE_0F_38) + seq![0xDC, (0xC0 | rr_bits(dst.encoding, src.encoding))] }))
            }),
    {
        let mut attributes = InstructionAttr::new(&self.features, vector_len, false, false, true, true);
        attributes.set_is_evex_instruction();
        let encode = self.vex_prefix_and_encode(dst.encoding, nds.encoding, src.encoding, VEX_SIMD_66, VEX_OPCODE_0F_38, &mut attributes);
        self.emit_int16(0xDC, (0xC0 | encode));
    }

    /// `vaesenclast dst, nds, src, vector_len`
    pub fn vaesenclast(&mut self, dst: XMMRegister, nds: XMMRegister, src: XMMRegister, vector_len: u8)
        requires
            dst.wf(),
            nds.wf(),
            src.wf(),
            ({
                let f = old(self).features;
                (f.supports_avx512_vaes()) && ({ let a1 = InstructionAttr::spec_new(f, vector_len, false, false, true, true); let a2 = a1.evex_only(); (vex_rr_ok(f, a2, dst.encoding, nds.encoding, src.encoding)) })
            }),
        ensures
            ({
                let f = old(self).features;
                final(self).appends(*old(self), ({ let a1 = InstructionAttr::spec_new(f, vector_len, false, false, true, true); let a2 = a1.evex_only(); vex_rr_bytes(f, a2, dst.encoding, nds.encoding, src.encoding, VEX_SIMD_66, VEX_OPCODE_0F_38) + seq![0xDD, (0xC0 | rr_bits(dst.encoding, src.encoding))] }))
            }),
    {
        let mut attributes = InstructionAttr::new(&self.features, vector_len, false, false, true, true);
        attributes.set_is_evex_instruction();
        let encode = self.vex_prefix_and_encode(dst.encoding, nds.encoding, src.encoding, VEX_SIMD_66, VEX_OPCODE_0F_38, &mut attributes);
        self.emit_int16(0xDD, (0xC0 | encode));
    }

    /// `evcvtps2ph [dst], mask, src, imm8, vector_len`
    pub fn evcvtps2ph(&mut self, dst: Address, mask: KRegister, src: XMMRegister, imm8: i8, vector_len: u8)
        requires
            dst.wf(),
            mask.wf(),
            src.wf(),
            ({
                let f = old(self).features;
                (f.supports_evex()) && ({ let a1 = InstructionAttr::spec_new(f, vector_len, false, false, false, true); let a2 = a1.with_address(f, EVEX_HVM, EVEX_64BIT); let a3 = a2.merging(); let a4 = a3.with_mask(mask); let a5 = a4.evex_only(); (vex_adr_ok(f, a5, 0, src.encoding, dst)) })
            }),
        ensures
            ({
                let f = old(self).features;
                final(self).appends(*old(self), ({ let a1 = InstructionAttr::spec_new(f, vector_len, false, false, false, true); let a2 = a1.with_address(f, EVEX_HVM, EVEX_64BIT); let a3 = a2.merging(); let a4 = a3.with_mask(mask); let a5 = a4.evex_only(); vex_adr_bytes(f, a5, dst, 0, src.encoding, VEX_SIMD_66, VEX_OPCODE_0F_3A) + ({ let a6 = vex_adr_attr(f, a5, 0, src.encoding); seq![0x1D] + address_bytes(f, Some(a6), src.encoding, dst, true) + seq![imm_byte(imm8)] }) }))
            }),
    {
        let mut attributes = InstructionAttr::new(&self.features, vector_len, false, false, false, true);
        attributes.set_address_attributes(&self.features, EVEX_HVM, EVEX_64BIT);
        attributes.reset_is_clear_context();
        attributes.set_embedded_opmask_register_specifier(mask);
        attributes.set_is_evex_instruction();
        self.vex_prefix(&dst, 0, src.encoding, VEX_SIMD_66, VEX_OPCODE_0F_3A, &mut attributes);
        self.emit_int8(0x1D);
        self.emit_operand_attr(src.encoding, &dst, &attributes, true);
        self.emit_int8(imm_byte_exec(imm8));
    }

    /// `evpabsq dst, src, vector_len`
    pub fn evpabsq(&mut self, dst: XMMRegister, src: XMMRegister, vector_len: u8)
        requires
            dst.wf(),
            src.wf(),
            ({
                let f = old(self).features;
                (f.use_avx > 2) && ({ let a1 = InstructionAttr::spec_new(f, vector_len, true, false, true, true); let a2 = a1.evex_only(); (vex_rr_ok(f, a2, dst.encoding, 0, src.encoding)) })
            }),
        ensures
            ({
                let f = old(self).features;
                final(self).appends(*old(self), ({ let a1 = InstructionAttr::spec_new(f, vector_len, true, false, true, true); let a2 = a1.evex_only(); vex_rr_bytes(f, a2, dst.encoding, 0, src.encoding, VEX_SIMD_66, VEX_OPCODE_0F_38) + seq![0x1F, (0xC0 | rr_bits(dst.encoding, src.encoding))] }))
            }),
    {
        let mut attributes = InstructionAttr::new(&self.features, vector_len, true, false, true, true);
        attributes.set_is_evex_instruction();
        let encode = self.vex_prefix_and_encode(dst.encoding, 0, src.encoding, VEX_SIMD_66, VEX_OPCODE_0F_38, &mut attributes);
        self.emit_int16(0x1F, (0xC0 | encode));
    }

    /// `evcvttps2qq dst, src, vector_len`
    pub fn evcvttps2qq(&mut self, dst: XMMRegister, src: XMMRegister, vector_len: u8)
        requires
            dst.wf(),
            src.wf(),
            ({
                let f = old(self).features;
                (f.supports_avx512dq()) && ({ let a1 = InstructionAttr::spec_new(f, vector_len, false, false, true, true); let a2 = a1.evex_only(); (vex_rr_ok(f, a2, dst.encoding, 0, src.encoding)) })
            }),
        ensures
            ({
                let f = old(self).features;
                final(self).appends(*old(self), ({ let a1 = InstructionAttr::spec_new(f, vector_len, false, false, true, true); let a2 = a1.evex_only(); vex_rr_bytes(f, a2, dst.encoding, 0, src.encoding, VEX_SIMD_66, VEX_OPCODE_0F) + seq![0x7A, (0xC0 | rr_bits(dst.encoding, src.encoding))] }))
            }),
    {
        let mut attributes = InstructionAttr::new(&self.features, vector_len, false, false, true, true);
        attributes.set_is_evex_instruction();
        let encode = self.vex_prefix_and_encode(dst.encoding, 0, src.encoding, VEX_SIMD_66, VEX_OPCODE_0F, &mut attributes);
        self.emit_int16(0x7A, (0xC0 | encode));
    }

    /// `evcvtpd2qq dst, src, vector_len`
    pub fn evcvtpd2qq(&mut self, dst: XMMRegister, src: XMMRegister, vector_len: u8)
        requires
            dst.wf(),
            src.wf(),
            ({
                let f = old(self).features;
                (f.supports_avx512dq()) && ({ let a1 = InstructionAttr::spec_new(f, vector_len, true, false, true, true); let a2 = a1.evex_only(); (vex_rr_ok(f, a2, dst.encoding, 0, src.encoding)) })
            }),
        ensures
            ({
                let f = old(self).features;
                final(self).appends(*old(self), ({ let a1 = InstructionAttr::spec_new(f, vector_len, true, false, true, true); let a2 = a1.evex_only(); vex_rr_bytes(f, a2, dst.encoding, 0, src.encoding, VEX_SIMD_66, VEX_OPCODE_0F) + seq![0x7B, (0xC0 | rr_bits(dst.encoding, src.encoding))] }))
            }),
    {
        let mut attributes = InstructionAttr::new(&self.features, vector_len, true, false, true, true);
        attributes.set_is_evex_instruction();
        let encode = self.vex_prefix_and_encode(dst.encoding, 0, src.encoding, VEX_SIMD_66, VEX_OPCODE_0F, &mut attributes);
        self.emit_int16(0x7B, (0xC0 | encode));
    }

    /// `evcvtqq2ps dst, src, vector_len`
    pub fn evcvtqq2ps(&mut self, dst: XMMRegister, src: XMMRegister, vector_len: u8)
        requires
            dst.wf(),
            src.wf(),
            ({
                let f = old(self).features;
                (f.supports_avx512dq()) && ({ let a1 = InstructionAttr::spec_new(f, vector_len, true, false, true, true); let a2 = a1.evex_only(); (vex_rr_ok(f, a2, dst.encoding, 0, src.encoding)) })
            }),
        ensures
            ({
                let f = old(self).features;
                final(self).appends(*old(self), ({ let a1 = InstructionAttr::spec_new(f, vector_len, true, false, true, true); let a2 = a1.evex_only(); vex_rr_bytes(f, a2, dst.encoding, 0, src.encoding, VEX_SIMD_NONE, VEX_OPCODE_0F) + seq![0x5B, (0xC0 | rr_bits(dst.encoding, src.encoding))] }))
            }),
    {
        let mut attributes = InstructionAttr::new(&self.features, vector_len, true, false, true, true);
        attributes.set_is_evex_instruction();
        let encode = self.vex_prefix_and_encode(dst.encoding, 0, src.encoding, VEX_SIMD_NONE, VEX_OPCODE_0F, &mut attributes);
        self.emit_int16(0x5B, (0xC0 | encode));
    }

    /// `evcvttpd2qq dst, src, vector_len`
    pub fn evcvttpd2qq(&mut self, dst: XMMRegister, src: XMMRegister, vector_len: u8)
        requires
            dst.wf(),
            src.wf(),
            ({
                let f = old(self).features;
                (f.supports_avx512dq()) && ({ let a1 = InstructionAttr::spec_new(f, vector_len, true, false, true, true); let a2 = a1.evex_only(); (vex_rr_ok(f, a2, dst.encoding, 0, src.encoding)) })
            }),
        ensures
            ({
                let f = old(self).features;
                final(self).appends(*old(self), ({ let a1 = InstructionAttr::spec_new(f, vector_len, true, false, true, true); let a2 = a1.evex_only(); vex_rr_bytes(f, a2, dst.encoding, 0, src.encoding, VEX_SIMD_66, VEX_OPCODE_0F) + seq![0x7A, (0xC0 | rr_bits(dst.encoding, src.encoding))] }))
            }),
    {
        let mut attributes = InstructionAttr::new(&self.features, vector_len, true, false, true, true);
        attributes.set_is_evex_instruction();
        let encode = self.vex_prefix_and_encode(dst.encoding, 0, src.encoding, VEX_SIMD_66, VEX_OPCODE_0F, &mut attributes);
        self.emit_int16(0x7A, (0xC0 | encode));
    }

    /// `evcvtqq2pd dst, src, vector_len`
    pub fn evcvtqq2pd(&mut self, dst: XMMRegister, src: XMMRegister, vector_len: u8)
        requires
            dst.wf(),
            src.wf(),
            ({
                let f = old(self).features;
                (f.supports_avx512dq()) && ({ let a1 = InstructionAttr::spec_new(f, vector_len, true, false, true, true); let a2 = a1.evex_only(); (vex_rr_ok(f, a2, dst.encoding, 0, src.encoding)) })
            }),
        ensures
            ({
                let f = old(self).features;
                final(self).appends(*old(self), ({ let a1 = InstructionAttr::spec_new(f, vector_len, true, false, true, true); let a2 = a1.evex_only(); vex_rr_bytes(f, a2, dst.encoding, 0, src.encoding, VEX_SIMD_F3, VEX_OPCODE_0F) + seq![0xE6, (0xC0 | rr_bits(dst.encoding, src.encoding))] }))
            }),
    {
        let mut attributes = InstructionAttr::new(&self.features, vector_len, true, false, true, true);
        attributes.set_is_evex_instruction();
        let encode = self.vex_prefix_and_encode(dst.encoding, 0, src.encoding, VEX_SIMD_F3, VEX_OPCODE_0F, &mut attributes);
        self.emit_int16(0xE6, (0xC0 | encode));
    }

    /// `evpmovwb dst, src, vector_len`
    pub fn evpmovwb(&mut self, dst: XMMRegister, src: XMMRegister, vector_len: u8)
        requires
            dst.wf(),
            src.wf(),
            ({
                let f = old(self).features;
                (f.supports_avx512bw()) && ({ let a1 = InstructionAttr::spec_new(f, vector_len, false, false, true, true); let a2 = a1.evex_only(); (vex_rr_ok(f, a2, src.encoding, 0, dst.encoding)) })
            }),
        ensures
            ({
                let f = old(self).features;
                final(self).appends(*old(self), ({ let a1 = InstructionAttr::spec_new(f, vector_len, false, false, true, true); let a2 = a1.evex_only(); vex_rr_bytes(f, a2, src.encoding, 0, dst.encoding, VEX_SIMD_F3, VEX_OPCODE_0F_38) + seq![0x30, (0xC0 | rr_bits(src.encoding, dst.encoding))] }))
            }),
    {
        let mut attributes = InstructionAttr::new(&self.features, vector_len, false, false, true, true);
        attributes.set_is_evex_instruction();
        let encode = self.vex_prefix_and_encode(src.encoding, 0, dst.encoding, VEX_SIMD_F3, VEX_OPCODE_0F_38, &mut attributes);
        self.emit_int16(0x30, (0xC0 | encode));
    }

    /// `evpmovdw dst, src, vector_len`
    pub fn evpmovdw(&mut self, dst: XMMRegister, src: XMMRegister, vector_len: u8)
        requires
            dst.wf(),
            src.wf(),
            ({
                let f = old(self).features;
                (f.use_avx > 2) && ({ let a1 = InstructionAttr::spec_new(f, vector_len, false, false, true, true); let a2 = a1.evex_only(); (vex_rr_ok(f, a2, src.encoding, 0, dst.encoding)) })
            }),
        ensures
            ({
                let f = old(self).features;
                final(self).appends(*old(self), ({ let a1 = InstructionAttr::spec_new(f, vector_len, false, false, true, true); let a2 = a1.evex_only(); vex_rr_bytes(f, a2, src.encoding, 0, dst.encoding, VEX_SIMD_F3, VEX_OPCODE_0F_38) + seq![0x33, (0xC0 | rr_bits(src.encoding, dst.encoding))] }))
            }),
    {
        let mut attributes = InstructionAttr::new(&self.features, vector_len, false, false, true, true);
        attributes.set_is_evex_instruction();
        let encode = self.vex_prefix_and_encode(src.encoding, 0, dst.encoding, VEX_SIMD_F3, VEX_OPCODE_0F_38, &mut attributes);
        self.emit_int16(0x33, (0xC0 | encode));
    }

    /// `evpmovdb dst, src, vector_len`
    pub fn evpmovdb(&mut self, dst: XMMRegister, src: XMMRegister, vector_len: u8)
        requires
            dst.wf(),
            src.wf(),
            ({
                let f = old(self).features;
                (f.use_avx > 2) && ({ let a1 = InstructionAttr::spec_new(f, vector_len, false, false, true, true); let a2 = a1.evex_only(); (vex_rr_ok(f, a2, src.encoding, 0, dst.encoding)) })
            }),
        ensures
            ({
                let f = old(self).features;
                final(self).appends(*old(self), ({ let a1 = InstructionAttr::spec_new(f, vector_len, false, false, true, true); let a2 = a1.evex_only(); vex_rr_bytes(f, a2, src.encoding, 0, dst.encoding, VEX_SIMD_F3, VEX_OPCODE_0F_38) + seq![0x31, (0xC0 | rr_bits(src.encoding, dst.encoding))] }))
            }),
    {
        let mut attributes = InstructionAttr::new(&self.features, vector_len, false, false, true, true);
        attributes.set_is_evex_instruction();
        let encode = self.vex_prefix_and_encode(src.encoding, 0, dst.encoding, VEX_SIMD_F3, VEX_OPCODE_0F_38, &mut attributes);
        self.emit_int16(0x31, (0xC0 | encode));
    }

    /// `evpmovqd dst, src, vector_len`
    pub fn evpmovqd(&mut self, dst: XMMRegister, src: XMMRegister, vector_len: u8)
        requires
            dst.wf(),
            src.wf(),
            ({
                let f = old(self).features;
                (f.use_avx > 2) && ({ let a1 = InstructionAttr::spec_new(f, vector_len, false, false, true, true); let a2 = a1.evex_only(); (vex_rr_ok(f, a2, src.encoding, 0, dst.encoding)) })
            }),
        ensures
            ({
                let f = old(self).features;
                final(self).appends(*old(self), ({ let a1 = InstructionAttr::spec_new(f, vector_len, false, false, true, true); let a2 = a1.evex_only(); vex_rr_bytes(f, a2, src.encoding, 0, dst.encoding, VEX_SIMD_F3, VEX_OPCODE_0F_38) + seq![0x35, (0xC0 | rr_bits(src.encoding, dst.encoding))] }))
            }),
    {
        let mut attributes = InstructionAttr::new(&self.features, vector_len, false, false, true, true);
        attributes.set_is_evex_instruction();
        let encode = self.vex_prefix_and_encode(src.encoding, 0, dst.encoding, VEX_SIMD_F3, VEX_OPCODE_0F_38, &mut attributes);
        self.emit_int16(0x35, (0xC0 | encode));
    }

    /// `evpmovqb dst, src, vector_len`
    pub fn evpmovqb(&mut self, dst: XMMRegister, src: XMMRegister, vector_len: u8)
        requires
            dst.wf(),
            src.wf(),
            ({
                let f = old(self).features;
                (f.use_avx > 2) && ({ let a1 = InstructionAttr::spec_new(f, vector_len, false, false, true, true); let a2 = a1.evex_only(); (vex_rr_ok(f, a2, src.encoding, 0, dst.encoding)) })
            }),
        ensures
            ({
                let f = old(self).features;
                final(self).appends(*old(self), ({ let a1 = InstructionAttr::spec_new(f, vector_len, false, false, true, true); let a2 = a1.evex_only(); vex_rr_bytes(f, a2, src.encoding, 0, dst.encoding, VEX_SIMD_F3, VEX_OPCODE_0F_38) + seq![0x32, (0xC0 | rr_bits(src.encoding, dst.encoding))] }))
            }),
    {
        let mut attributes = InstructionAttr::new(&self.features, vector_len, false, false, true, true);
        attributes.set_is_evex_instruction();
        let encode = self.vex_prefix_and_encode(src.encoding, 0, dst.encoding, VEX_SIMD_F3, VEX_OPCODE_0F_38, &mut attributes);
        self.emit_int16(0x32, (0xC0 | encode));
    }

    /// `evpmovqw dst, src, vector_len`
    pub fn evpmovqw(&mut self, dst: XMMRegister, src: XMMRegister, vector_len: u8)
        requires
            dst.wf(),
            src.wf(),
            ({
                let f = old(self).features;
                (f.use_avx > 2) && ({ let a1 = InstructionAttr::spec_new(f, vector_len, false, false, true, true); let a2 = a1.evex_only(); (vex_rr_ok(f, a2, src.encoding, 0, dst.encoding)) })
            }),
        ensures
            ({
                let f = old(self).features;
                final(self).appends(*old(self), ({ let a1 = InstructionAttr::spec_new(f, vector_len, false, false, true, true); let a2 = a1.evex_only(); vex_rr_bytes(f, a2, src.encoding, 0, dst.encoding, VEX_SIMD_F3, VEX_OPCODE_0F_38) + seq![0x34, (0xC0 | rr_bits(src.encoding, dst.encoding))] }))
            }),
    {
        let mut attributes = InstructionAttr::new(&self.features, vector_len, false, false, true, true);
        attributes.set_is_evex_instruction();
        let encode = self.vex_prefix_and_encode(src.encoding, 0, dst.encoding, VEX_SIMD_F3, VEX_OPCODE_0F_38, &mut attributes);
        self.emit_int16(0x34, (0xC0 | encode));
    }

    /// `evpmovsqd dst, src, vector_len`
    pub fn evpmovsqd(&mut self, dst: XMMRegister, src: XMMRegister, vector_len: u8)
        requires
            dst.wf(),
            src.wf(),
            ({
                let f = old(self).features;
                (f.use_avx > 2) && ({ let a1 = InstructionAttr::spec_new(f, vector_len, false, false, true, true); let a2 = a1.evex_only(); (vex_rr_ok(f, a2, src.encoding, 0, dst.encoding)) })
            }),
        ensures
            ({
                let f = old(self).features;
                final(self).appends(*old(self), ({ let a1 = InstructionAttr::spec_new(f, vector_len, false, false, true, true); let a2 = a1.evex_only(); vex_rr_bytes(f, a2, src.encoding, 0, dst.encoding, VEX_SIMD_F3, VEX_OPCODE_0F_38) + seq![0x25, (0xC0 | rr_bits(src.encoding, dst.encoding))] }))
            }),
    {
        let mut attributes = InstructionAttr::new(&self.features, vector_len, false, false, true, true);
        attributes.set_is_evex_instruction();
        let encode = self.vex_prefix_and_encode(src.encoding, 0, dst.encoding, VEX_SIMD_F3, VEX_OPCODE_0F_38, &mut attributes);
        self.emit_int16(0x25, (0xC0 | encode));
    }

    /// `evmovdqub dst, mask, src, merge, vector_len`
    pub fn evmovdqub_xkx(&mut self, dst: XMMRegister, mask: KRegister, src: XMMRegister, merge: bool, vector_len: u8)
        requires
            dst.wf(),
            mask.wf(),
            src.wf(),
            ({
                let f = old(self).features;
                (f.supports_avx512vlbw()) && ({ let a1 = InstructionAttr::spec_new(f, vector_len, false, f.legacy_mode_bw(), false, true); let a2 = a1.with_mask(mask); let a3 = a2.evex_only(); (if merge { ({ let a4 = a3.merging(); (vex_rr_ok(f, a4, dst.encoding, 0, src.encoding)) }) } else { (vex_rr_ok(f, a3, dst.encoding, 0, src.encoding)) }) })
            }),
        ensures
            ({
                let f = old(self).features;
                final(self).appends(*old(self), ({ let a1 = InstructionAttr::spec_new(f, vector_len, false, f.legacy_mode_bw(), false, true); let a2 = a1.with_mask(mask); let a3 = a2.evex_only(); (if merge { ({ let a4 = a3.merging(); vex_rr_bytes(f, a4, dst.encoding, 0, src.encoding, VEX_SIMD_F2, VEX_OPCODE_0F) + seq![0x6F, (0xC0 | rr_bits(dst.encoding, src.encoding))] }) } else { vex_rr_bytes(f, a3, dst.encoding, 0, src.encoding, VEX_SIMD_F2, VEX_OPCODE_0F) + seq![0x6F, (0xC0 | rr_bits(dst.encoding, src.encoding))] }) }))
            }),
    {
        let mut attributes = InstructionAttr::new(&self.features, vector_len, false, self.features.legacy_mode_bw(), false, true);
        attributes.set_embedded_opmask_register_specifier(mask);
        attributes.set_is_evex_instruction();
        if merge {
            attributes.reset_is_clear_context();
            let encode = self.vex_prefix_and_encode(dst.encoding, 0, src.encoding, VEX_SIMD_F2, VEX_OPCODE_0F, &mut attributes);
            self.emit_int16(0x6F, (0xC0 | encode));
        } else {
            let encode = self.vex_prefix_and_encode(dst.encoding, 0, src.encoding, VEX_SIMD_F2, VEX_OPCODE_0F, &mut attributes);
            self.emit_int16(0x6F, (0xC0 | encode));
        }
    }

    /// `evmovdqub dst, src, vector_len`
    pub fn evmovdqub(&mut self, dst: XMMRegister, src: XMMRegister, vector_len: u8)
        requires
            dst.wf(),
            src.wf(),
            ({
                let f = old(self).features;
                ((f.supports_avx512vlbw()) && ({ let a1 = InstructionAttr::spec_new(f, vector_len, false, f.legacy_mode_bw(), false, true); let a2 = a1.with_mask(KRegister { encoding: 0 }); let a3 = a2.evex_only(); (vex_rr_ok(f, a3, dst.encoding, 0, src.encoding)) }))
            }),
        ensures
            ({
                let f = old(self).features;
                final(self).appends(*old(self), ({ let a1 = InstructionAttr::spec_new(f, vector_len, false, f.legacy_mode_bw(), false, true); let a2 = a1.with_mask(KRegister { encoding: 0 }); let a3 = a2.evex_only(); (vex_rr_bytes(f, a3, dst.encoding, 0, src.encoding, VEX_SIMD_F2, VEX_OPCODE_0F) + seq![0x6F, (0xC0 | rr_bits(dst.encoding, src.encoding))]) }))
            }),
    {
        self.evmovdqub_xkx(dst, k0(), src, false, vector_len);
    }

    /// `evmovdqub dst, mask, [src], merge, vector_len`
    pub fn evmovdqub_xkm(&mut self, dst: XMMRegister, mask: KRegister, src: Address, merge: bool, vector_len: u8)
        requires
            dst.wf(),
            mask.wf(),
            src.wf(),
            ({
                let f = old(self).features;
                (f.supports_avx512vlbw()) && ({ let a1 = InstructionAttr::spec_new(f, vector_len, false, f.legacy_mode_bw(), false, true); let a2 = a1.with_address(f, EVEX_FVM, EVEX_NOBIT); let a3 = a2.with_mask(mask); let a4 = a3.evex_only(); (if merge { ({ let a5 = a4.merging(); (vex_adr_ok(f, a5, 0, dst.encoding, src)) }) } else { (vex_adr_ok(f, a4, 0, dst.encoding, src)) }) })
            }),
        ensures
            ({
                let f = old(self).features;
                final(self).appends(*old(self), ({ let a1 = InstructionAttr::spec_new(f, vector_len, false, f.legacy_mode_bw(), false, true); let a2 = a1.with_address(f, EVEX_FVM, EVEX_NOBIT); let a3 = a2.with_mask(mask); let a4 = a3.evex_only(); (if merge { ({ let a5 = a4.merging(); vex_adr_bytes(f, a5, src, 0, dst.encoding, VEX_SIMD_F2, VEX_OPCODE_0F) + ({ let a6 = vex_adr_attr(f, a5, 0, dst.encoding); seq![0x6F] + address_bytes(f, Some(a6), dst.encoding, src, true) }) }) } else { vex_adr_bytes(f, a4, src, 0, dst.encoding, VEX_SIMD_F2, VEX_OPCODE_0F) + ({ let a7 = vex_adr_attr(f, a4, 0, dst.encoding); seq![0x6F] + address_bytes(f, Some(a7), dst.encoding, src, true) }) }) }))
            }),
    {
        let mut attributes = InstructionAttr::new(&self.features, vector_len, false, self.features.legacy_mode_bw(), false, true);
        attributes.set_address_attributes(&self.features, EVEX_FVM, EVEX_NOBIT);
        attributes.set_embedded_opmask_register_specifier(mask);
        attributes.set_is_evex_instruction();
        if merge {
            attributes.reset_is_clear_context();
            self.vex_prefix(&src, 0, dst.encoding, VEX_SIMD_F2, VEX_OPCODE_0F, &mut attributes);
            self.emit_int8(0x6F);
            self.emit_operand_attr(dst.encoding, &src, &attributes, true);
        } else {
            self.vex_prefix(&src, 0, dst.encoding, VEX_SIMD_F2, VEX_OPCODE_0F, &mut attributes);
            self.emit_int8(0x6F);
            self.emit_operand_attr(dst.encoding, &src, &attributes, true);
        }
    }

    /// `evmovdqub dst, [src], vector_len`
    pub fn evmovdqub_xm(&mut self, dst: XMMRegister, src: Address, vector_len: u8)
        requires
            dst.wf(),
            src.wf(),
            ({
                let f = old(self).features;
                ((f.supports_avx512vlbw()) && ({ let a1 = InstructionAttr::spec_new(f, vector_len, false, f.legacy_mode_bw(), false, true); let a2 = a1.with_address(f, EVEX_FVM, EVEX_NOBIT); let a3 = a2.with_mask(KRegister { encoding: 0 }); let a4 = a3.evex_only(); (vex_adr_ok(f, a4, 0, dst.encoding, src)) }))
            }),
        ensures
            ({
                let f = old(self).features;
                final(self).appends(*old(self), ({ let a1 = InstructionAttr::spec_new(f, vector_len, false, f.legacy_mode_bw(), false, true); let a2 = a1.with_address(f, EVEX_FVM, EVEX_NOBIT); let a3 = a2.with_mask(KRegister { encoding: 0 }); let a4 = a3.evex_only(); (vex_adr_bytes(f, a4, src, 0, dst.encoding, VEX_SIMD_F2, VEX_OPCODE_0F) + ({ let a7 = vex_adr_attr(f, a4, 0, dst.encoding); seq![0x6F] + address_bytes(f, Some(a7), dst.encoding, src, true) })) }))
            }),
    {
        self.evmovdqub_xkm(dst, k0(), src, false, vector_len);
    }

    /// `evmovdqub [dst], mask, src, merge, vector_len`
    pub fn evmovdqub_mkx(&mut self, dst: Address, mask: KRegister, src: XMMRegister, merge: bool, vector_len: u8)
        requires
            dst.wf(),
            mask.wf(),
            src.wf(),
            ({
                let f = old(self).features;
                (f.supports_avx512vlbw()) && ({ let a1 = InstructionAttr::spec_new(f, vector_len, false, f.legacy_mode_bw(), false, true); let a2 = a1.with_address(f, EVEX_FVM, EVEX_NOBIT); let a3 = a2.with_mask(mask); let a4 = a3.evex_only(); (if merge { ({ let a5 = a4.merging(); (vex_adr_ok(f, a5, 0, src.encoding, dst)) }) } else { (vex_adr_ok(f, a4, 0, src.encoding, dst)) }) })
            }),
        ensures
            ({
                let f = old(self).features;
                final(self).appends(*old(self), ({ let a1 = InstructionAttr::spec_new(f, vector_len, false, f.legacy_mode_bw(), false, true); let a2 = a1.with_address(f, EVEX_FVM, EVEX_NOBIT); let a3 = a2.with_mask(mask); let a4 = a3.evex_only(); (if merge { ({ let a5 = a4.merging(); vex_adr_bytes(f, a5, dst, 0, src.encoding, VEX_SIMD_F2, VEX_OPCODE_0F) + ({ let a6 = vex_adr_attr(f, a5, 0, src.encoding); seq![0x7F] + address_bytes(f, Some(a6), src.encoding, dst, true) }) }) } else { vex_adr_bytes(f, a4, dst, 0, src.encoding, VEX_SIMD_F2, VEX_OPCODE_0F) + ({ let a7 = vex_adr_attr(f, a4, 0, src.encoding); seq![0x7F] + address_bytes(f, Some(a7), src.encoding, dst, true) }) }) }))
            }),
    {
        let mut attributes = InstructionAttr::new(&self.features, vector_len, false, self.features.legacy_mode_bw(), false, true);
        attributes.set_address_attributes(&self.features, EVEX_FVM, EVEX_NOBIT);
        attributes.set_embedded_opmask_register_specifier(mask);
        attributes.set_is_evex_instruction();
        if merge {
            attributes.reset_is_clear_context();
            self.vex_prefix(&dst, 0, src.encoding, VEX_SIMD_F2, VEX_OPCODE_0F, &mut attributes);
            self.emit_int8(0x7F);
            self.emit_operand_attr(src.encoding, &dst, &attributes, true);
        } else {
            self.vex_prefix(&dst, 0, src.encoding, VEX_SIMD_F2, VEX_OPCODE_0F, &mut attributes);
            self.emit_int8(0x7F);
            self.emit_operand_attr(src.encoding, &dst, &attributes, true);
        }
    }

    /// `evmovdquw dst, [src], vector_len`
    pub fn evmovdquw(&mut self, dst: XMMRegister, src: Address, vector_len: u8)
        requires
            dst.wf(),
            src.wf(),
            ({
                let f = old(self).features;
                ((f.supports_avx512vlbw()) && ({ let a1 = InstructionAttr::spec_new(f, vector_len, true, f.legacy_mode_bw(), false, true); let a2 = a1.with_address(f, EVEX_FVM, EVEX_NOBIT); let a3 = a2.with_mask(KRegister { encoding: 0 }); let a4 = a3.evex_only(); (vex_adr_ok(f, a4, 0, dst.encoding, src)) }))
            }),
        ensures
            ({
                let f = old(self).features;
                final(self).appends(*old(self), ({ let a1 = InstructionAttr::spec_new(f, vector_len, true, f.legacy_mode_bw(), false, true); let a2 = a1.with_address(f, EVEX_FVM, EVEX_NOBIT); let a3 = a2.with_mask(KRegister { encoding: 0 }); let a4 = a3.evex_only(); (vex_adr_bytes(f, a4, src, 0, dst.encoding, VEX_SIMD_F2, VEX_OPCODE_0F) + ({ let a7 = vex_adr_attr(f, a4, 0, dst.encoding); seq![0x6F] + address_bytes(f, Some(a7), dst.encoding, src, true) })) }))
            }),
    {
        self.evmovdquw_xkm(dst, k0(), src, false, vector_len);
    }

    /// `evmovdquw dst, mask, [src], merge, vector_len`
    pub fn evmovdquw_xkm(&mut self, dst: XMMRegister, mask: KRegister, src: Address, merge: bool, vector_len: u8)
        requires
            dst.wf(),
            mask.wf(),
            src.wf(),
            ({
                let f = old(self).features;
                (f.supports_avx512vlbw()) && ({ let a1 = InstructionAttr::spec_new(f, vector_len, true, f.legacy_mode_bw(), false, true); let a2 = a1.with_address(f, EVEX_FVM, EVEX_NOBIT); let a3 = a2.with_mask(mask); let a4 = a3.evex_only(); (if merge { ({ let a5 = a4.merging(); (vex_adr_ok(f, a5, 0, dst.encoding, src)) }) } else { (vex_adr_ok(f, a4, 0, dst.encoding, src)) }) })
            }),
        ensures
            ({
                let f = old(self).features;
                final(self).appends(*old(self), ({ let a1 = InstructionAttr::spec_new(f, vector_len, true, f.legacy_mode_bw(), false, true); let a2 = a1.with_address(f, EVEX_FVM, EVEX_NOBIT); let a3 = a2.with_mask(mask); let a4 = a3.evex_only(); (if merge { ({ let a5 = a4.merging(); vex_adr_bytes(f, a5, src, 0, dst.encoding, VEX_SIMD_F2, VEX_OPCODE_0F) + ({ let a6 = vex_adr_attr(f, a5, 0, dst.encoding); seq![0x6F] + address_bytes(f, Some(a6), dst.encoding, src, true) }) }) } else { vex_adr_bytes(f, a4, src, 0, dst.encoding, VEX_SIMD_F2, VEX_OPCODE_0F) + ({ let a7 = vex_adr_attr(f, a4, 0, dst.encoding); seq![0x6F] + address_bytes(f, Some(a7), dst.encoding, src, true) }) }) }))
            }),
    {
        let mut attributes = InstructionAttr::new(&self.features, vector_len, true, self.features.legacy_mode_bw(), false, true);
        attributes.set_address_attributes(&self.features, EVEX_FVM, EVEX_NOBIT);
        attributes.set_embedded_opmask_register_specifier(mask);
        attributes.set_is_evex_instruction();
        if merge {
            attributes.reset_is_clear_context();
            self.vex_prefix(&src, 0, dst.encoding, VEX_SIMD_F2, VEX_OPCODE_0F, &mut attributes);
            self.emit_int8(0x6F);
            self.emit_operand_attr(dst.encoding, &src, &attributes, true);
        } else {
            self.vex_prefix(&src, 0, dst.encoding, VEX_SIMD_F2, VEX_OPCODE_0F, &mut attributes);
            self.emit_int8(0x6F);
            self.emit_operand_attr(dst.encoding, &src, &attributes, true);
        }
    }

    /// `evmovdquw [dst], src, vector_len`
    pub fn evmovdquw_mx(&mut self, dst: Address, src: XMMRegister, vector_len: u8)
        requires
            dst.wf(),
            src.wf(),
            ({
                let f = old(self).features;
                ((f.supports_avx512vlbw()) && ({ let a1 = InstructionAttr::spec_new(f, vector_len, true, f.legacy_mode_bw(), false, true); let a2 = a1.with_address(f, EVEX_FVM, EVEX_NOBIT); let a3 = a2.with_mask(KRegister { encoding: 0 }); let a4 = a3.evex_only(); (vex_adr_ok(f, a4, 0, src.encoding, dst)) }))
            }),
        ensures
            ({
                let f = old(self).features;
                final(self).appends(*old(self), ({ let a1 = InstructionAttr::spec_new(f, vector_len, true, f.legacy_mode_bw(), false, true); let a2 = a1.with_address(f, EVEX_FVM, EVEX_NOBIT); let a3 = a2.with_mask(KRegister { encoding: 0 }); let a4 = a3.evex_only(); (vex_adr_bytes(f, a4, dst, 0, src.encoding, VEX_SIMD_F2, VEX_OPCODE_0F) + ({ let a7 = vex_adr_attr(f, a4, 0, src.encoding); seq![0x7F] + address_bytes(f, Some(a7), src.encoding, dst, true) })) }))
            }),
    {
        self.evmovdquw_mkx(dst, k0(), src, false, vector_len);
    }

    /// `evmovdquw [dst], mask, src, merge, vector_len`
    pub fn evmovdquw_mkx(&mut self, dst: Address, mask: KRegister, src: XMMRegister, merge: bool, vector_len: u8)
        requires
            dst.wf(),
            mask.wf(),
            src.wf(),
            ({
                let f = old(self).features;
                (f.supports_avx512vlbw()) && ({ let a1 = InstructionAttr::spec_new(f, vector_len, true, f.legacy_mode_bw(), false, true); let a2 = a1.with_address(f, EVEX_FVM, EVEX_NOBIT); let a3 = a2.with_mask(mask); let a4 = a3.evex_only(); (if merge { ({ let a5 = a4.merging(); (vex_adr_ok(f, a5, 0, src.encoding, dst)) }) } else { (vex_adr_ok(f, a4, 0, src.encoding, dst)) }) })
            }),
        ensures
            ({
                let f = old(self).features;
                final(self).appends(*old(self), ({ let a1 = InstructionAttr::spec_new(f, vector_len, true, f.legacy_mode_bw(), false, true); let a2 = a1.with_address(f, EVEX_FVM, EVEX_NOBIT); let a3 = a2.with_mask(mask); let a4 = a3.evex_only(); (if merge { ({ let a5 = a4.merging(); vex_adr_bytes(f, a5, dst, 0, src.encoding, VEX_SIMD_F2, VEX_OPCODE_0F) + ({ let a6 = vex_adr_attr(f, a5, 0, src.encoding); seq![0x7F] + address_bytes(f, Some(a6), src.encoding, dst, true) }) }) } else { vex_adr_bytes(f, a4, dst, 0, src.encoding, VEX_SIMD_F2, VEX_OPCODE_0F) + ({ let a7 = vex_adr_attr(f, a4, 0, src.encoding); seq![0x7F] + address_bytes(f, Some(a7), src.encoding, dst, true) }) }) }))
            }),
    {
        let mut attributes = InstructionAttr::new(&self.features, vector_len, true, self.features.legacy_mode_bw(), false, true);
        attributes.set_address_attributes(&self.features, EVEX_FVM, EVEX_NOBIT);
        attributes.set_embedded_opmask_register_specifier(mask);
        attributes.set_is_evex_instruction();
        if merge {
            attributes.reset_is_clear_context();
            self.vex_prefix(&dst, 0, src.encoding, VEX_SIMD_F2, VEX_OPCODE_0F, &mut attributes);
            self.emit_int8(0x7F);
            self.emit_operand_attr(src.encoding, &dst, &attributes, true);
        } else {
            self.vex_prefix(&dst, 0, src.encoding, VEX_SIMD_F2, VEX_OPCODE_0F, &mut attributes);
            self.emit_int8(0x7F);
            self.emit_operand_attr(src.encoding, &dst, &attributes, true);
        }
    }

    /// `evmovdqul dst, src, vector_len`
    pub fn evmovdqul(&mut self, dst: XMMRegister, src: XMMRegister, vector_len: u8)
        requires
            dst.wf(),
            src.wf(),
            ({
                let f = old(self).features;
                ((f.supports_evex()) && ({ let a1 = InstructionAttr::spec_new(f, vector_len, false, false, false, true); let a2 = a1.with_mask(KRegister { encoding: 0 }); let a3 = a2.evex_only(); (vex_rr_ok(f, a3, dst.encoding, 0, src.encoding)) }))
            }),
        ensures
            ({
                let f = old(self).features;
                final(self).appends(*old(self), ({ let a1 = InstructionAttr::spec_new(f, vector_len, false, false, false, true); let a2 = a1.with_mask(KRegister { encoding: 0 }); let a3 = a2.evex_only(); (vex_rr_bytes(f, a3, dst.encoding, 0, src.encoding, VEX_SIMD_F3, VEX_OPCODE_0F) + seq![0x6F, (0xC0 | rr_bits(dst.encoding, src.encoding))]) }))
            }),
    {
        self.evmovdqul_xkx(dst, k0(), src, false, vector_len);
    }

    /// `evmovdqul dst, mask, src, merge, vector_len`
    pub fn evmovdqul_xkx(&mut self, dst: XMMRegister, mask: KRegister, src: XMMRegister, merge: bool, vector_len: u8)
        requires
            dst.wf(),
            mask.wf(),
            src.wf(),
            ({
                let f = old(self).features;
                (f.supports_evex()) && ({ let a1 = InstructionAttr::spec_new(f, vector_len, false, false, false, true); let a2 = a1.with_mask(mask); let a3 = a2.evex_only(); (if merge { ({ let a4 = a3.merging(); (vex_rr_ok(f, a4, dst.encoding, 0, src.encoding)) }) } else { (vex_rr_ok(f, a3, dst.encoding, 0, src.encoding)) }) })
            }),
        ensures
            ({
                let f = old(self).features;
                final(self).appends(*old(self), ({ let a1 = InstructionAttr::spec_new(f, vector_len, false, false, false, true); let a2 = a1.with_mask(mask); let a3 = a2.evex_only(); (if merge { ({ let a4 = a3.merging(); vex_rr_bytes(f, a4, dst.encoding, 0, src.encoding, VEX_SIMD_F3, VEX_OPCODE_0F) + seq![0x6F, (0xC0 | rr_bits(dst.encoding, src.encoding))] }) } else { vex_rr_bytes(f, a3, dst.encoding, 0, src.encoding, VEX_SIMD_F3, VEX_OPCODE_0F) + seq![0x6F, (0xC0 | rr_bits(dst.encoding, src.encoding))] }) }))
            }),
    {
        let mut attributes = InstructionAttr::new(&self.features, vector_len, false, false, false, true);
        attributes.set_embedded_opmask_register_specifier(mask);
        attributes.set_is_evex_instruction();
        if merge {
            attributes.reset_is_clear_context();
            let encode = self.vex_prefix_and_encode(dst.encoding, 0, src.encoding, VEX_SIMD_F3, VEX_OPCODE_0F, &mut attributes);
            self.emit_int16(0x6F, (0xC0 | encode));
        } else {
            let encode = self.vex_prefix_and_encode(dst.encoding, 0, src.encoding, VEX_SIMD_F3, VEX_OPCODE_0F, &mut attributes);
            self.emit_int16(0x6F, (0xC0 | encode));
        }
    }

    /// `evmovdqul dst, [src], vector_len`
    pub fn evmovdqul_xm(&mut self, dst: XMMRegister, src: Address, vector_len: u8)
        requires
            dst.wf(),
            src.wf(),
            ({
                let f = old(self).features;
                ((f.supports_evex()) && ({ let a1 = InstructionAttr::spec_new(f, vector_len, false, false, false, true); let a2 = a1.with_address(f, EVEX_FVM, EVEX_NOBIT); let a3 = a2.with_mask(KRegister { encoding: 0 }); let a4 = a3.evex_only(); (vex_adr_ok(f, a4, 0, dst.encoding, src)) }))
            }),
        ensures
            ({
                let f = old(self).features;
                final(self).appends(*old(self), ({ let a1 = InstructionAttr::spec_new(f, vector_len, false, false, false, true); let a2 = a1.with_address(f, EVEX_FVM, EVEX_NOBIT); let a3 = a2.with_mask(KRegister { encoding: 0 }); let a4 = a3.evex_only(); (vex_adr_bytes(f, a4, src, 0, dst.encoding, VEX_SIMD_F3, VEX_OPCODE_0F) + ({ let a7 = vex_adr_attr(f, a4, 0, dst.encoding); seq![0x6F] + address_bytes(f, Some(a7), dst.encoding, src, true) })) }))
            }),
    {
        self.evmovdqul_xkm(dst, k0(), src, false, vector_len);
    }

    /// `evmovdqul dst, mask, [src], merge, vector_len`
    pub fn evmovdqul_xkm(&mut self, dst: XMMRegister, mask: KRegister, src: Address, merge: bool, vector_len: u8)
        requires
            dst.wf(),
            mask.wf(),
            src.wf(),
            ({
                let f = old(self).features;
                (f.supports_evex()) && ({ let a1 = InstructionAttr::spec_new(f, vector_len, false, false, false, true); let a2 = a1.with_address(f, EVEX_FVM, EVEX_NOBIT); let a3 = a2.with_mask(mask); let a4 = a3.evex_only(); (if merge { ({ let a5 = a4.merging(); (vex_adr_ok(f, a5, 0, dst.encoding, src)) }) } else { (vex_adr_ok(f, a4, 0, dst.encoding, src)) }) })
            }),
        ensures
            ({
                let f = old(self).features;
                final(self).appends(*old(self), ({ let a1 = InstructionAttr::spec_new(f, vector_len, false, false, false, true); let a2 = a1.with_address(f, EVEX_FVM, EVEX_NOBIT); let a3 = a2.with_mask(mask); let a4 = a3.evex_only(); (if merge { ({ let a5 = a4.merging(); vex_adr_bytes(f, a5, src, 0, dst.encoding, VEX_SIMD_F3, VEX_OPCODE_0F) + ({ let a6 = vex_adr_attr(f, a5, 0, dst.encoding); seq![0x6F] + address_bytes(f, Some(a6), dst.encoding, src, true) }) }) } else { vex_adr_bytes(f, a4, src, 0, dst.encoding, VEX_SIMD_F3, VEX_OPCODE_0F) + ({ let a7 = vex_adr_attr(f, a4, 0, dst.encoding); seq![0x6F] + address_bytes(f, Some(a7), dst.encoding, src, true) }) }) }))
            }),
    {
        let mut attributes = InstructionAttr::new(&self.features, vector_len, false, false, false, true);
        attributes.set_address_attributes(&self.features, EVEX_FVM, EVEX_NOBIT);
        attributes.set_embedded_opmask_register_specifier(mask);
        attributes.set_is_evex_instruction();
        if merge {
            attributes.reset_is_clear_context();
            self.vex_prefix(&src, 0, dst.encoding, VEX_SIMD_F3, VEX_OPCODE_0F, &mut attributes);
            self.emit_int8(0x6F);
            self.emit_operand_attr(dst.encoding, &src, &attributes, true);
        } else {
            self.vex_prefix(&src, 0, dst.encoding, VEX_SIMD_F3, VEX_OPCODE_0F, &mut attributes);
            self.emit_int8(0x6F);
            self.emit_operand_attr(dst.encoding, &src, &attributes, true);
        }
    }

    /// `evmovdqul [dst], src, vector_len`
    pub fn evmovdqul_mx(&mut self, dst: Address, src: XMMRegister, vector_len: u8)
        requires
            dst.wf(),
            src.wf(),
            ({
                let f = old(self).features;
                ((f.supports_evex()) && ({ let a1 = InstructionAttr::spec_new(f, vector_len, false, false, false, true); let a2 = a1.with_address(f, EVEX_FVM, EVEX_NOBIT); let a3 = a2.with_mask(KRegister { encoding: 0 }); let a4 = a3.evex_only(); (if true { ({ let a5 = a4.merging(); (vex_adr_ok(f, a5, 0, src.encoding, dst)) }) } else { (vex_adr_ok(f, a4, 0, src.encoding, dst)) }) }))
            }),
        ensures
            ({
                let f = old(self).features;
                final(self).appends(*old(self), ({ let a1 = InstructionAttr::spec_new(f, vector_len, false, false, false, true); let a2 = a1.with_address(f, EVEX_FVM, EVEX_NOBIT); let a3 = a2.with_mask(KRegister { encoding: 0 }); let a4 = a3.evex_only(); let a5 = a4.merging(); vex_adr_bytes(f, a5, dst, 0, src.encoding, VEX_SIMD_F3, VEX_OPCODE_0F) + ({ let a6 = vex_adr_attr(f, a5, 0, src.encoding); seq![0x7F] + address_bytes(f, Some(a6), src.encoding, dst, true) }) }))
            }),
    {
        self.evmovdqul_mkx(dst, k0(), src, true, vector_len);
    }

    /// `evmovdqul [dst], mask, src, merge, vector_len`
    pub fn evmovdqul_mkx(&mut self, dst: Address, mask: KRegister, src: XMMRegister, merge: bool, vector_len: u8)
        requires
            dst.wf(),
            mask.wf(),
            src.wf(),
            ({
                let f = old(self).features;
                (f.supports_evex()) && ({ let a1 = InstructionAttr::spec_new(f, vector_len, false, false, false, true); let a2 = a1.with_address(f, EVEX_FVM, EVEX_NOBIT); let a3 = a2.with_mask(mask); let a4 = a3.evex_only(); (if merge { ({ let a5 = a4.merging(); (vex_adr_ok(f, a5, 0, src.encoding, dst)) }) } else { (vex_adr_ok(f, a4, 0, src.encoding, dst)) }) })
            }),
        ensures
            ({
                let f = old(self).features;
                final(self).appends(*old(self), ({ let a1 = InstructionAttr::spec_new(f, vector_len, false, false, false, true); let a2 = a1.with_address(f, EVEX_FVM, EVEX_NOBIT); let a3 = a2.with_mask(mask); let a4 = a3.evex_only(); (if merge { ({ let a5 = a4.merging(); vex_adr_bytes(f, a5, dst, 0, src.encoding, VEX_SIMD_F3, VEX_OPCODE_0F) + ({ let a6 = vex_adr_attr(f, a5, 0, src.encoding); seq![0x7F] + address_bytes(f, Some(a6), src.encoding, dst, true) }) }) } else { vex_adr_bytes(f, a4, dst, 0, src.encoding, VEX_SIMD_F3, VEX_OPCODE_0F) + ({ let a7 = vex_adr_attr(f, a4, 0, src.encoding); seq![0x7F] + address_bytes(f, Some(a7), src.encoding, dst, true) }) }) }))
            }),
    {
        let mut attributes = InstructionAttr::new(&self.features, vector_len, false, false, false, true);
        attributes.set_address_attributes(&self.features, EVEX_FVM, EVEX_NOBIT);
        attributes.set_embedded_opmask_register_specifier(mask);
        attributes.set_is_evex_instruction();
        if merge {
            attributes.reset_is_clear_context();
            self.vex_prefix(&dst, 0, src.encoding, VEX_SIMD_F3, VEX_OPCODE_0F, &mut attributes);
            self.emit_int8(0x7F);
            self.emit_operand_attr(src.encoding, &dst, &attributes, true);
        } else {
            self.vex_prefix(&dst, 0, src.encoding, VEX_SIMD_F3, VEX_OPCODE_0F, &mut attributes);
            self.emit_int8(0x7F);
            self.emit_operand_attr(src.encoding, &dst, &attributes, true);
        }
    }

    /// `evmovdquq dst, src, vector_len`
    pub fn evmovdquq(&mut self, dst: XMMRegister, src: XMMRegister, vector_len: u8)
        requires
            dst.wf(),
            src.wf(),
            ({
                let f = old(self).features;
                ((f.supports_evex()) && ({ let a1 = InstructionAttr::spec_new(f, vector_len, true, false, false, true); let a2 = a1.with_mask(KRegister { encoding: 0 }); let a3 = a2.evex_only(); (vex_rr_ok(f, a3, dst.encoding, 0, src.encoding)) }))
            }),
        ensures
            ({
                let f = old(self).features;
                final(self).appends(*old(self), ({ let a1 = InstructionAttr::spec_new(f, vector_len, true, false, false, true); let a2 = a1.with_mask(KRegister { encoding: 0 }); let a3 = a2.evex_only(); (vex_rr_bytes(f, a3, dst.encoding, 0, src.encoding, VEX_SIMD_F3, VEX_OPCODE_0F) + seq![0x6F, (0xC0 | rr_bits(dst.encoding, src.encoding))]) }))
            }),
    {
        self.evmovdquq_xkx(dst, k0(), src, false, vector_len);
    }

    /// `evmovdquq dst, mask, src, merge, vector_len`
    pub fn evmovdquq_xkx(&mut self, dst: XMMRegister, mask: KRegister, src: XMMRegister, merge: bool, vector_len: u8)
        requires
            dst.wf(),
            mask.wf(),
            src.wf(),
            ({
                let f = old(self).features;
                (f.supports_evex()) && ({ let a1 = InstructionAttr::spec_new(f, vector_len, true, false, false, true); let a2 = a1.with_mask(mask); let a3 = a2.evex_only(); (if merge { ({ let a4 = a3.merging(); (vex_rr_ok(f, a4, dst.encoding, 0, src.encoding)) }) } else { (vex_rr_ok(f, a3, dst.encoding, 0, src.encoding)) }) })
            }),
        ensures
            ({
                let f = old(self).features;
                final(self).appends(*old(self), ({ let a1 = InstructionAttr::spec_new(f, vector_len, true, false, false, true); let a2 = a1.with_mask(mask); let a3 = a2.evex_only(); (if merge { ({ let a4 = a3.merging(); vex_rr_bytes(f, a4, dst.encoding, 0, src.encoding, VEX_SIMD_F3, VEX_OPCODE_0F) + seq![0x6F, (0xC0 | rr_bits(dst.encoding, src.encoding))] }) } else { vex_rr_bytes(f, a3, dst.encoding, 0, src.encoding, VEX_SIMD_F3, VEX_OPCODE_0F) + seq![0x6F, (0xC0 | rr_bits(dst.encoding, src.encoding))] }) }))
            }),
    {
        let mut attributes = InstructionAttr::new(&self.features, vector_len, true, false, false, true);
        attributes.set_embedded_opmask_register_specifier(mask);
        attributes.set_is_evex_instruction();
        if merge {
            attributes.reset_is_clear_context();
            let encode = self.vex_prefix_and_encode(dst.encoding, 0, src.encoding, VEX_SIMD_F3, VEX_OPCODE_0F, &mut attributes);
            self.emit_int16(0x6F, (0xC0 | encode));
        } else {
            let encode = self.vex_prefix_and_encode(dst.encoding, 0, src.encoding, VEX_SIMD_F3, VEX_OPCODE_0F, &mut attributes);
            self.emit_int16(0x6F, (0xC0 | encode));
        }
    }

    /// `evmovdquq dst, [src], vector_len`
    pub fn evmovdquq_xm(&mut self, dst: XMMRegister, src: Address, vector_len: u8)
        requires
            dst.wf(),
            src.wf(),
            ({
                let f = old(self).features;
                ((f.supports_evex()) && ({ let a1 = InstructionAttr::spec_new(f, vector_len, true, false, false, true); let a2 = a1.with_address(f, EVEX_FVM, EVEX_NOBIT); let a3 = a2.with_mask(KRegister { encoding: 0 }); let a4 = a3.evex_only(); (vex_adr_ok(f, a4, 0, dst.encoding, src)) }))
            }),
        ensures
            ({
                let f = old(self).features;
                final(self).appends(*old(self), ({ let a1 = InstructionAttr::spec_new(f, vector_len, true, false, false, true); let a2 = a1.with_address(f, EVEX_FVM, EVEX_NOBIT); let a3 = a2.with_mask(KRegister { encoding: 0 }); let a4 = a3.evex_only(); (vex_adr_bytes(f, a4, src, 0, dst.encoding, VEX_SIMD_F3, VEX_OPCODE_0F) + ({ let a7 = vex_adr_attr(f, a4, 0, dst.encoding); seq![0x6F] + address_bytes(f, Some(a7), dst.encoding, src, true) })) }))
            }),
    {
        self.evmovdquq_xkm(dst, k0(), src, false, vector_len);
    }

    /// `evmovdquq dst, mask, [src], merge, vector_len`
    pub fn evmovdquq_xkm(&mut self, dst: XMMRegister, mask: KRegister, src: Address, merge: bool, vector_len: u8)
        requires
            dst.wf(),
            mask.wf(),
            src.wf(),
            ({
                let f = old(self).features;
                (f.supports_evex()) && ({ let a1 = InstructionAttr::spec_new(f, vector_len, true, false, false, true); let a2 = a1.with_address(f, EVEX_FVM, EVEX_NOBIT); let a3 = a2.with_mask(mask); let a4 = a3.evex_only(); (if merge { ({ let a5 = a4.merging(); (vex_adr_ok(f, a5, 0, dst.encoding, src)) }) } else { (vex_adr_ok(f, a4, 0, dst.encoding, src)) }) })
            }),
        ensures
            ({
                let f = old(self).features;
                final(self).appends(*old(self), ({ let a1 = InstructionAttr::spec_new(f, vector_len, true, false, false, true); let a2 = a1.with_address(f, EVEX_FVM, EVEX_NOBIT); let a3 = a2.with_mask(mask); let a4 = a3.evex_only(); (if merge { ({ let a5 = a4.merging(); vex_adr_bytes(f, a5, src, 0, dst.encoding, VEX_SIMD_F3, VEX_OPCODE_0F) + ({ let a6 = vex_adr_attr(f, a5, 0, dst.encoding); seq![0x6F] + address_bytes(f, Some(a6), dst.encoding, src, true) }) }) } else { vex_adr_bytes(f, a4, src, 0, dst.encoding, VEX_SIMD_F3, VEX_OPCODE_0F) + ({ let a7 = vex_adr_attr(f, a4, 0, dst.encoding); seq![0x6F] + address_bytes(f, Some(a7), dst.encoding, src, true) }) }) }))
            }),
    {
        let mut attributes = InstructionAttr::new(&self.features, vector_len, true, false, false, true);
        attributes.set_address_attributes(&self.features, EVEX_FVM, EVEX_NOBIT);
        attributes.set_embedded_opmask_register_specifier(mask);
        attributes.set_is_evex_instruction();
        if merge {
            attributes.reset_is_clear_context();
            self.vex_prefix(&src, 0, dst.encoding, VEX_SIMD_F3, VEX_OPCODE_0F, &mut attributes);
            self.emit_int8(0x6F);
            self.emit_operand_attr(dst.encoding, &src, &attributes, true);
        } else {
            self.vex_prefix(&src, 0, dst.encoding, VEX_SIMD_F3, VEX_OPCODE_0F, &mut attributes);
            self.emit_int8(0x6F);
            self.emit_operand_attr(dst.encoding, &src, &attributes, true);
        }
    }

    /// `evmovdquq [dst], src, vector_len`
    pub fn evmovdquq_mx(&mut self, dst: Address, src: XMMRegister, vector_len: u8)
        requires
            dst.wf(),
            src.wf(),
            ({
                let f = old(self).features;
                ((f.supports_evex()) && ({ let a1 = InstructionAttr::spec_new(f, vector_len, true, false, false, true); let a2 = a1.with_address(f, EVEX_FVM, EVEX_NOBIT); let a3 = a2.with_mask(KRegister { encoding: 0 }); (if true { ({ let a4 = a3.merging(); let a5 = a4.evex_only(); (vex_adr_ok(f, a5, 0, src.encoding, dst)) }) } else { ({ let a7 = a3.evex_only(); (vex_adr_ok(f, a7, 0, src.encoding, dst)) }) }) }))
            }),
        ensures
            ({
                let f = old(self).features;
                final(self).appends(*old(self), ({ let a1 = InstructionAttr::spec_new(f, vector_len, true, false, false, true); let a2 = a1.with_address(f, EVEX_FVM, EVEX_NOBIT); let a3 = a2.with_mask(KRegister { encoding: 0 }); let a4 = a3.merging(); let a5 = a4.evex_only(); vex_adr_bytes(f, a5, dst, 0, src.encoding, VEX_SIMD_F3, VEX_OPCODE_0F) + ({ let a6 = vex_adr_attr(f, a5, 0, src.encoding); seq![0x7F] + address_bytes(f, Some(a6), src.encoding, dst, true) }) }))
            }),
    {
        self.evmovdquq_mkx(dst, k0(), src, true, vector_len);
    }

    /// `evmovdquq [dst], mask, src, merge, vector_len`
    pub fn evmovdquq_mkx(&mut self, dst: Address, mask: KRegister, src: XMMRegister, merge: bool, vector_len: u8)
        requires
            dst.wf(),
            mask.wf(),
            src.wf(),
            ({
                let f = old(self).features;
                (f.supports_evex()) && ({ let a1 = InstructionAttr::spec_new(f, vector_len, true, false, false, true); let a2 = a1.with_address(f, EVEX_FVM, EVEX_NOBIT); let a3 = a2.with_mask(mask); (if merge { ({ let a4 = a3.merging(); let a5 = a4.evex_only(); (vex_adr_ok(f, a5, 0, src.encoding, dst)) }) } else { ({ let a7 = a3.evex_only(); (vex_adr_ok(f, a7, 0, src.encoding, dst)) }) }) })
            }),
        ensures
            ({
                let f = old(self).features;
                final(self).appends(*old(self), ({ let a1 = InstructionAttr::spec_new(f, vector_len, true, false, false, true); let a2 = a1.with_address(f, EVEX_FVM, EVEX_NOBIT); let a3 = a2.with_mask(mask); (if merge { ({ let a4 = a3.merging(); let a5 = a4.evex_only(); vex_adr_bytes(f, a5, dst, 0, src.encoding, VEX_SIMD_F3, VEX_OPCODE_0F) + ({ let a6 = vex_adr_attr(f, a5, 0, src.encoding); seq![0x7F] + address_bytes(f, Some(a6), src.encoding, dst, true) }) }) } else { ({ let a7 = a3.evex_only(); vex_adr_bytes(f, a7, dst, 0, src.encoding, VEX_SIMD_F3, VEX_OPCODE_0F) + ({ let a8 = vex_adr_attr(f, a7, 0, src.encoding); seq![0x7F] + address_bytes(f, Some(a8), src.encoding, dst, true) }) }) }) }))
            }),
    {
        let mut attributes = InstructionAttr::new(&self.features, vector_len, true, false, false, true);
        attributes.set_address_attributes(&self.features, EVEX_FVM, EVEX_NOBIT);
        attributes.set_embedded_opmask_register_specifier(mask);
        if merge {
            attributes.reset_is_clear_context();
            attributes.set_is_evex_instruction();
            self.vex_prefix(&dst, 0, src.encoding, VEX_SIMD_F3, VEX_OPCODE_0F, &mut attributes);
            self.emit_int8(0x7F);
            self.emit_operand_attr(src.encoding, &dst, &attributes, true);
        } else {
            attributes.set_is_evex_instruction();
            self.vex_prefix(&dst, 0, src.encoding, VEX_SIMD_F3, VEX_OPCODE_0F, &mut attributes);
            self.emit_int8(0x7F);
            self.emit_operand_attr(src.encoding, &dst, &attributes, true);
        }
    }

    /// `vpermq dst, nds, src, vector_len`
    pub fn vpermq(&mut self, dst: XMMRegister, nds: XMMRegister, src: XMMRegister, vector_len: u8)
        requires
            dst.wf(),
            nds.wf(),
            src.wf(),
            ({
                let f = old(self).features;
                (if (vector_len == AVX_256BIT) { f.supports_avx512vl() } else { (if (vector_len == AVX_512BIT) { f.supports_evex() } else { false }) }) && ({ let a1 = InstructionAttr::spec_new(f, vector_len, true, false, true, true); let a2 = a1.evex_only(); (vex_rr_ok(f, a2, dst.encoding, nds.encoding, src.encoding)) })
            }),
        ensures
            ({
                let f = old(self).features;
                final(self).appends(*old(self), ({ let a1 = InstructionAttr::spec_new(f, vector_len, true, false, true, true); let a2 = a1.evex_only(); vex_rr_bytes(f, a2, dst.encoding, nds.encoding, src.encoding, VEX_SIMD_66, VEX_OPCODE_0F_38) + seq![0x36, (0xC0 | rr_bits(dst.encoding, src.encoding))] }))
            }),
    {
        let mut attributes = InstructionAttr::new(&self.features, vector_len, true, false, true, true);
        attributes.set_is_evex_instruction();
        let encode = self.vex_prefix_and_encode(dst.encoding, nds.encoding, src.encoding, VEX_SIMD_66, VEX_OPCODE_0F_38, &mut attributes);
        self.emit_int16(0x36, (0xC0 | encode));
    }

    /// `vpermb dst, nds, src, vector_len`
    pub fn vpermb(&mut self, dst: XMMRegister, nds: XMMRegister, src: XMMRegister, vector_len: u8)
        requires
            dst.wf(),
            nds.wf(),
            src.wf(),
            ({
                let f = old(self).features;
                (f.supports_avx512_vbmi()) && ({ let a1 = InstructionAttr::spec_new(f, vector_len, false, false, true, true); let a2 = a1.evex_only(); (vex_rr_ok(f, a2, dst.encoding, nds.encoding, src.encoding)) })
            }),
        ensures
            ({
                let f = old(self).features;
                final(self).appends(*old(self), ({ let a1 = InstructionAttr::spec_new(f, vector_len, false, false, true, true); let a2 = a1.evex_only(); vex_rr_bytes(f, a2, dst.encoding, nds.encoding, src.encoding, VEX_SIMD_66, VEX_OPCODE_0F_38) + seq![0x8D, (0xC0 | rr_bits(dst.encoding, src.encoding))] }))
            }),
    {
        let mut attributes = InstructionAttr::new(&self.features, vector_len, false, false, true, true);
        attributes.set_is_evex_instruction();
        let encode = self.vex_prefix_and_encode(dst.encoding, nds.encoding, src.encoding, VEX_SIMD_66, VEX_OPCODE_0F_38, &mut attributes);
        self.emit_int16(0x8D, (0xC0 | encode));
    }

    /// `vpermb dst, nds, [src], vector_len`
    pub fn vpermb_xxm(&mut self, dst: XMMRegister, nds: XMMRegister, src: Address, vector_len: u8)
        requires
            dst.wf(),
            nds.wf(),
            src.wf(),
            ({
                let f = old(self).features;
                (f.supports_avx512_vbmi()) && ({ let a1 = InstructionAttr::spec_new(f, vector_len, false, false, true, true); let a2 = a1.evex_only(); (vex_adr_ok(f, a2, nds.encoding, dst.encoding, src)) })
            }),
        ensures
            ({
                let f = old(self).features;
                final(self).appends(*old(self), ({ let a1 = InstructionAttr::spec_new(f, vector_len, false, false, true, true); let a2 = a1.evex_only(); vex_adr_bytes(f, a2, src, nds.encoding, dst.encoding, VEX_SIMD_66, VEX_OPCODE_0F_38) + ({ let a3 = vex_adr_attr(f, a2, nds.encoding, dst.encoding); seq![0x8D] + address_bytes(f, Some(a3), dst.encoding, src, true) }) }))
            }),
    {
        let mut attributes = InstructionAttr::new(&self.features, vector_len, false, false, true, true);
        attributes.set_is_evex_instruction();
        self.vex_prefix(&src, nds.encoding, dst.encoding, VEX_SIMD_66, VEX_OPCODE_0F_38, &mut attributes);
        self.emit_int8(0x8D);
        self.emit_operand_attr(dst.encoding, &src, &attributes, true);
    }

    /// `vpermw dst, nds, src, vector_len`
    pub fn vpermw(&mut self, dst: XMMRegister, nds: XMMRegister, src: XMMRegister, vector_len: u8)
        requires
            dst.wf(),
            nds.wf(),
            src.wf(),
            ({
                let f = old(self).features;
                (if (vector_len == AVX_128BIT) { f.supports_avx512vlbw() } else { (if (vector_len == AVX_256BIT) { f.supports_avx512vlbw() } else { (if (vector_len == AVX_512BIT) { f.supports_avx512bw() } else { false }) }) }) && ({ let a1 = InstructionAttr::spec_new(f, vector_len, true, f.legacy_mode_bw(), true, true); let a2 = a1.evex_only(); (vex_rr_ok(f, a2, dst.encoding, nds.encoding, src.encoding)) })
            }),
        ensures
            ({
                let f = old(self).features;
                final(self).appends(*old(self), ({ let a1 = InstructionAttr::spec_new(f, vector_len, true, f.legacy_mode_bw(), true, true); let a2 = a1.evex_only(); vex_rr_bytes(f, a2, dst.encoding, nds.encoding, src.encoding, VEX_SIMD_66, VEX_OPCODE_0F_38) + seq![0x8D, (0xC0 | rr_bits(dst.encoding, src.encoding))] }))
            }),
    {
        let mut attributes = InstructionAttr::new(&self.features, vector_len, true, self.features.legacy_mode_bw(), true, true);
        attributes.set_is_evex_instruction();
        let encode = self.vex_prefix_and_encode(dst.encoding, nds.encoding, src.encoding, VEX_SIMD_66, VEX_OPCODE_0F_38, &mut attributes);
        self.emit_int16(0x8D, (0xC0 | encode));
    }

    /// `evpermi2q dst, nds, src, vector_len`
    pub fn evpermi2q(&mut self, dst: XMMRegister, nds: XMMRegister, src: XMMRegister, vector_len: u8)
        requires
            dst.wf(),
            nds.wf(),
            src.wf(),
            ({
                let f = old(self).features;
                (f.supports_evex()) && ({ let a1 = InstructionAttr::spec_new(f, vector_len, true, false, true, true); let a2 = a1.evex_only(); (vex_rr_ok(f, a2, dst.encoding, nds.encoding, src.encoding)) })
            }),
        ensures
            ({
                let f = old(self).features;
                final(self).appends(*old(self), ({ let a1 = InstructionAttr::spec_new(f, vector_len, true, false, true, true); let a2 = a1.evex_only(); vex_rr_bytes(f, a2, dst.encoding, nds.encoding, src.encoding, VEX_SIMD_66, VEX_OPCODE_0F_38) + seq![0x76, (0xC0 | rr_bits(dst.encoding, src.encoding))] }))
            }),
    {
        let mut attributes = InstructionAttr::new(&self.features, vector_len, true, false, true, true);
        attributes.set_is_evex_instruction();
        let encode = self.vex_prefix_and_encode(dst.encoding, nds.encoding, src.encoding, VEX_SIMD_66, VEX_OPCODE_0F_38, &mut attributes);
        self.emit_int16(0x76, (0xC0 | encode));
    }

    /// `evpermt2b dst, nds, src, vector_len`
    pub fn evpermt2b(&mut self, dst: XMMRegister, nds: XMMRegister, src: XMMRegister, vector_len: u8)
        requires
            dst.wf(),
            nds.wf(),
            src.wf(),
            ({
                let f = old(self).features;
                (f.supports_avx512_vbmi()) && ({ let a1 = InstructionAttr::spec_new(f, vector_len, false, false, true, true); let a2 = a1.evex_only(); (vex_rr_ok(f, a2, dst.encoding, nds.encoding, src.encoding)) })
            }),
        ensures
            ({
                let f = old(self).features;
                final(self).appends(*old(self), ({ let a1 = InstructionAttr::spec_new(f, vector_len, false, false, true, true); let a2 = a1.evex_only(); vex_rr_bytes(f, a2, dst.encoding, nds.encoding, src.encoding, VEX_SIMD_66, VEX_OPCODE_0F_38) + seq![0x7D, (0xC0 | rr_bits(dst.encoding, src.encoding))] }))
            }),
    {
        let mut attributes = InstructionAttr::new(&self.features, vector_len, false, false, true, true);
        attributes.set_is_evex_instruction();
        let encode = self.vex_prefix_and_encode(dst.encoding, nds.encoding, src.encoding, VEX_SIMD_66, VEX_OPCODE_0F_38, &mut attributes);
        self.emit_int16(0x7D, (0xC0 | encode));
    }

    /// `evpmultishiftqb dst, ctl, src, vector_len`
    pub fn evpmultishiftqb(&mut self, dst: XMMRegister, ctl: XMMRegister, src: XMMRegister, vector_len: u8)
        requires
            dst.wf(),
            ctl.wf(),
            src.wf(),
            ({
                let f = old(self).features;
                (f.supports_avx512_vbmi()) && ({ let a1 = InstructionAttr::spec_new(f, vector_len, true, false, true, true); let a2 = a1.evex_only(); (vex_rr_ok(f, a2, dst.encoding, ctl.encoding, src.encoding)) })
            }),
        ensures
            ({
                let f = old(self).features;
                final(self).appends(*old(self), ({ let a1 = InstructionAttr::spec_new(f, vector_len, true, false, true, true); let a2 = a1.evex_only(); vex_rr_bytes(f, a2, dst.encoding, ctl.encoding, src.encoding, VEX_SIMD_66, VEX_OPCODE_0F_38) + seq![0x83, (0xC0 | rr_bits(dst.encoding, src.encoding))] }))
            }),
    {
        let mut attributes = InstructionAttr::new(&self.features, vector_len, true, false, true, true);
        attributes.set_is_evex_instruction();
        let encode = self.vex_prefix_and_encode(dst.encoding, ctl.encoding, src.encoding, VEX_SIMD_66, VEX_OPCODE_0F_38, &mut attributes);
        self.emit_int16(0x83, (0xC0 | encode));
    }

    /// `evpcmpeqb kdst, nds, src, vector_len`
    pub fn evpcmpeqb(&mut self, kdst: KRegister, nds: XMMRegister, src: XMMRegister, vector_len: u8)
        requires
            kdst.wf(),
            nds.wf(),
            src.wf(),
            ({
                let f = old(self).features;
                (f.supports_avx512bw()) && ({ let a1 = InstructionAttr::spec_new(f, vector_len, false, false, true, true); let a2 = a1.evex_only(); (vex_rr_ok(f, a2, kdst.encoding, nds.encoding, src.encoding)) })
            }),
        ensures
            ({
                let f = old(self).features;
                final(self).appends(*old(self), ({ let a1 = InstructionAttr::spec_new(f, vector_len, false, false, true, true); let a2 = a1.evex_only(); vex_rr_bytes(f, a2, kdst.encoding, nds.encoding, src.encoding, VEX_SIMD_66, VEX_OPCODE_0F) + seq![0x74, (0xC0 | rr_bits(kdst.encoding, src.encoding))] }))
            }),
    {
        let mut attributes = InstructionAttr::new(&self.features, vector_len, false, false, true, true);
        attributes.set_is_evex_instruction();
        let encode = self.vex_prefix_and_encode(kdst.encoding, nds.encoding, src.encoding, VEX_SIMD_66, VEX_OPCODE_0F, &mut attributes);
        self.emit_int16(0x74, (0xC0 | encode));
    }

    /// `evpcmpgtb kdst, nds, [src], vector_len`
    pub fn evpcmpgtb(&mut self, kdst: KRegister, nds: XMMRegister, src: Address, vector_len: u8)
        requires
            kdst.wf(),
            nds.wf(),
            src.wf(),
            ({
                let f = old(self).features;
                (f.supports_avx512vlbw()) && ({ let a1 = InstructionAttr::spec_new(f, vector_len, false, false, true, true); let a2 = a1.with_address(f, EVEX_FVM, EVEX_NOBIT); let a3 = a2.evex_only(); (vex_adr_ok(f, a3, nds.encoding, kdst.encoding, src)) })
            }),
        ensures
            ({
                let f = old(self).features;
                final(self).appends(*old(self), ({ let a1 = InstructionAttr::spec_new(f, vector_len, false, false, true, true); let a2 = a1.with_address(f, EVEX_FVM, EVEX_NOBIT); let a3 = a2.evex_only(); vex_adr_bytes(f, a3, src, nds.encoding, kdst.encoding, VEX_SIMD_66, VEX_OPCODE_0F) + ({ let a4 = vex_adr_attr(f, a3, nds.encoding, kdst.encoding); seq![0x64] + address_bytes(f, Some(a4), kdst.encoding, src, false) }) }))
            }),
    {
        let mut attributes = InstructionAttr::new(&self.features, vector_len, false, false, true, true);
        attributes.set_address_attributes(&self.features, EVEX_FVM, EVEX_NOBIT);
        attributes.set_is_evex_instruction();
        let dst_enc: u8 = kdst.encoding;
        self.vex_prefix(&src, nds.encoding, dst_enc, VEX_SIMD_66, VEX_OPCODE_0F, &mut attributes);
        self.emit_int8(0x64);
        self.emit_operand_attr(dst_enc, &src, &attributes, false);
    }

    /// `evpcmpgtb kdst, mask, nds, [src], vector_len`
    pub fn evpcmpgtb_kkxm(&mut self, kdst: KRegister, mask: KRegister, nds: XMMRegister, src: Address, vector_len: u8)
        requires
            kdst.wf(),
            mask.wf(),
            nds.wf(),
            src.wf(),
            ({
                let f = old(self).features;
                (f.supports_avx512vlbw()) && ({ let a1 = InstructionAttr::spec_new(f, vector_len, false, false, false, true); let a2 = a1.with_address(f, EVEX_FVM, EVEX_NOBIT); let a3 = a2.merging(); let a4 = a3.with_mask(mask); let a5 = a4.evex_only(); (vex_adr_ok(f, a5, nds.encoding, kdst.encoding, src)) })
            }),
        ensures
            ({
                let f = old(self).features;
                final(self).appends(*old(self), ({ let a1 = InstructionAttr::spec_new(f, vector_len, false, false, false, true); let a2 = a1.with_address(f, EVEX_FVM, EVEX_NOBIT); let a3 = a2.merging(); let a4 = a3.with_mask(mask); let a5 = a4.evex_only(); vex_adr_bytes(f, a5, src, nds.encoding, kdst.encoding, VEX_SIMD_66, VEX_OPCODE_0F) + ({ let a6 = vex_adr_attr(f, a5, nds.encoding, kdst.encoding); seq![0x64] + address_bytes(f, Some(a6), kdst.encoding, src, false) }) }))
            }),
    {
        let mut attributes = InstructionAttr::new(&self.features, vector_len, false, false, false, true);
        attributes.set_address_attributes(&self.features, EVEX_FVM, EVEX_NOBIT);
        attributes.reset_is_clear_context();
        attributes.set_embedded_opmask_register_specifier(mask);
        attributes.set_is_evex_instruction();
        let dst_enc: u8 = kdst.encoding;
        self.vex_prefix(&src, nds.encoding, dst_enc, VEX_SIMD_66, VEX_OPCODE_0F, &mut attributes);
        self.emit_int8(0x64);
        self.emit_operand_attr(dst_enc, &src, &attributes, false);
    }

    /// `evpcmpuw kdst, nds, src, vcc, vector_len`
    pub fn evpcmpuw(&mut self, kdst: KRegister, nds: XMMRegister, src: XMMRegister, vcc: i32, vector_len: u8)
        requires
            kdst.wf(),
            nds.wf(),
            src.wf(),
            ({
                let f = old(self).features;
                (f.supports_avx512vlbw()) && ({ let a1 = InstructionAttr::spec_new(f, vector_len, true, false, true, true); let a2 = a1.evex_only(); (vex_rr_ok(f, a2, kdst.encoding, nds.encoding, src.encoding)) })
            }),
        ensures
            ({
                let f = old(self).features;
                final(self).appends(*old(self), ({ let a1 = InstructionAttr::spec_new(f, vector_len, true, false, true, true); let a2 = a1.evex_only(); vex_rr_bytes(f, a2, kdst.encoding, nds.encoding, src.encoding, VEX_SIMD_66, VEX_OPCODE_0F_3A) + seq![0x3E, (0xC0 | rr_bits(kdst.encoding, src.encoding)), low8(vcc)] }))
            }),
    {
        let mut attributes = InstructionAttr::new(&self.features, vector_len, true, false, true, true);
        attributes.set_is_evex_instruction();
        let encode = self.vex_prefix_and_encode(kdst.encoding, nds.encoding, src.encoding, VEX_SIMD_66, VEX_OPCODE_0F_3A, &mut attributes);
        self.emit_int24(0x3E, (0xC0 | encode), low8_exec(vcc));
    }

    /// `evpcmpuw kdst, nds, [src], vcc, vector_len`
    pub fn evpcmpuw_kxmi(&mut self, kdst: KRegister, nds: XMMRegister, src: Address, vcc: i32, vector_len: u8)
        requires
            kdst.wf(),
            nds.wf(),
            src.wf(),
            ({
                let f = old(self).features;
                (f.supports_avx512vlbw()) && ({ let a1 = InstructionAttr::spec_new(f, vector_len, true, false, true, true); let a2 = a1.with_address(f, EVEX_FVM, EVEX_NOBIT); let a3 = a2.evex_only(); (vex_adr_ok(f, a3, nds.encoding, kdst.encoding, src)) })
            }),
        ensures
            ({
                let f = old(self).features;
                final(self).appends(*old(self), ({ let a1 = InstructionAttr::spec_new(f, vector_len, true, false, true, true); let a2 = a1.with_address(f, EVEX_FVM, EVEX_NOBIT); let a3 = a2.evex_only(); vex_adr_bytes(f, a3, src, nds.encoding, kdst.encoding, VEX_SIMD_66, VEX_OPCODE_0F_3A) + ({ let a4 = vex_adr_attr(f, a3, nds.encoding, kdst.encoding); seq![0x3E] + address_bytes(f, Some(a4), kdst.encoding, src, false) + seq![low8(vcc)] }) }))
            }),
    {
        let mut attributes = InstructionAttr::new(&self.features, vector_len, true, false, true, true);
        attributes.set_address_attributes(&self.features, EVEX_FVM, EVEX_NOBIT);
        attributes.set_is_evex_instruction();
        let dst_enc: u8 = kdst.encoding;
        self.vex_prefix(&src, nds.encoding, kdst.encoding, VEX_SIMD_66, VEX_OPCODE_0F_3A, &mut attributes);
        self.emit_int8(0x3E);
        self.emit_operand_attr(dst_enc, &src, &attributes, false);
        self.emit_int8(low8_exec(vcc));
    }

    /// `evpcmpeqb kdst, nds, [src], vector_len`
    pub fn evpcmpeqb_kxm(&mut self, kdst: KRegister, nds: XMMRegister, src: Address, vector_len: u8)
        requires
            kdst.wf(),
            nds.wf(),
            src.wf(),
            ({
                let f = old(self).features;
                (f.supports_avx512bw()) && ({ let a1 = InstructionAttr::spec_new(f, vector_len, false, false, true, true); let a2 = a1.evex_only(); let a3 = a2.with_address(f, EVEX_FVM, EVEX_NOBIT); (vex_adr_ok(f, a3, nds.encoding, kdst.encoding, src)) })
            }),
        ensures
            ({
                let f = old(self).features;
                final(self).appends(*old(self), ({ let a1 = InstructionAttr::spec_new(f, vector_len, false, false, true, true); let a2 = a1.evex_only(); let a3 = a2.with_address(f, EVEX_FVM, EVEX_NOBIT); vex_adr_bytes(f, a3, src, nds.encoding, kdst.encoding, VEX_SIMD_66, VEX_OPCODE_0F) + ({ let a4 = vex_adr_attr(f, a3, nds.encoding, kdst.encoding); seq![0x74] + address_bytes(f, Some(a4), kdst.encoding, src, false) }) }))
            }),
    {
        let mut attributes = InstructionAttr::new(&self.features, vector_len, false, false, true, true);
        attributes.set_is_evex_instruction();
        attributes.set_address_attributes(&self.features, EVEX_FVM, EVEX_NOBIT);
        let dst_enc: u8 = kdst.encoding;
        self.vex_prefix(&src, nds.encoding, dst_enc, VEX_SIMD_66, VEX_OPCODE_0F, &mut attributes);
        self.emit_int8(0x74);
        self.emit_operand_attr(dst_enc, &src, &attributes, false);
    }

    /// `evpcmpeqb kdst, mask, nds, [src], vector_len`
    pub fn evpcmpeqb_kkxm(&mut self, kdst: KRegister, mask: KRegister, nds: XMMRegister, src: Address, vector_len: u8)
        requires
            kdst.wf(),
            mask.wf(),
            nds.wf(),
            src.wf(),
            ({
                let f = old(self).features;
                (f.supports_avx512vlbw()) && ({ let a1 = InstructionAttr::spec_new(f, vector_len, false, false, false, true); let a2 = a1.with_address(f, EVEX_FVM, EVEX_NOBIT); let a3 = a2.merging(); let a4 = a3.with_mask(mask); let a5 = a4.evex_only(); (vex_adr_ok(f, a5, nds.encoding, kdst.encoding, src)) })
            }),
        ensures
            ({
                let f = old(self).features;
                final(self).appends(*old(self), ({ let a1 = InstructionAttr::spec_new(f, vector_len, false, false, false, true); let a2 = a1.with_address(f, EVEX_FVM, EVEX_NOBIT); let a3 = a2.merging(); let a4 = a3.with_mask(mask); let a5 = a4.evex_only(); vex_adr_bytes(f, a5, src, nds.encoding, kdst.encoding, VEX_SIMD_66, VEX_OPCODE_0F) + ({ let a6 = vex_adr_attr(f, a5, nds.encoding, kdst.encoding); seq![0x74] + address_bytes(f, Some(a6), kdst.encoding, src, false) }) }))
            }),
    {
        let mut attributes = InstructionAttr::new(&self.features, vector_len, false, false, false, true);
        attributes.set_address_attributes(&self.features, EVEX_FVM, EVEX_NOBIT);
        attributes.reset_is_clear_context();
        attributes.set_embedded_opmask_register_specifier(mask);
        attributes.set_is_evex_instruction();
        self.vex_prefix(&src, nds.encoding, kdst.encoding, VEX_SIMD_66, VEX_OPCODE_0F, &mut attributes);
        self.emit_int8(0x74);
        self.emit_operand_attr(kdst.encoding, &src, &attributes, false);
    }

    /// `evpcmpeqw kdst, nds, src, vector_len`
    pub fn evpcmpeqw(&mut self, kdst: KRegister, nds: XMMRegister, src: XMMRegister, vector_len: u8)
        requires
            kdst.wf(),
            nds.wf(),
            src.wf(),
            ({
                let f = old(self).features;
                (f.supports_avx512bw()) && ({ let a1 = InstructionAttr::spec_new(f, vector_len, false, false, true, true); let a2 = a1.evex_only(); (vex_rr_ok(f, a2, kdst.encoding, nds.encoding, src.encoding)) })
            }),
        ensures
            ({
                let f = old(self).features;
                final(self).appends(*old(self), ({ let a1 = InstructionAttr::spec_new(f, vector_len, false, false, true, true); let a2 = a1.evex_only(); vex_rr_bytes(f, a2, kdst.encoding, nds.encoding, src.encoding, VEX_SIMD_66, VEX_OPCODE_0F) + seq![0x75, (0xC0 | rr_bits(kdst.encoding, src.encoding))] }))
            }),
    {
        let mut attributes = InstructionAttr::new(&self.features, vector_len, false, false, true, true);
        attributes.set_is_evex_instruction();
        let encode = self.vex_prefix_and_encode(kdst.encoding, nds.encoding, src.encoding, VEX_SIMD_66, VEX_OPCODE_0F, &mut attributes);
        self.emit_int16(0x75, (0xC0 | encode));
    }

    /// `evpcmpeqw kdst, nds, [src], vector_len`
    pub fn evpcmpeqw_kxm(&mut self, kdst: KRegister, nds: XMMRegister, src: Address, vector_len: u8)
        requires
            kdst.wf(),
            nds.wf(),
            src.wf(),
            ({
                let f = old(self).features;
                (f.supports_avx512bw()) && ({ let a1 = InstructionAttr::spec_new(f, vector_len, false, false, true, true); let a2 = a1.with_address(f, EVEX_FVM, EVEX_NOBIT); let a3 = a2.evex_only(); (vex_adr_ok(f, a3, nds.encoding, kdst.encoding, src)) })
            }),
        ensures
            ({
                let f = old(self).features;
                final(self).appends(*old(self), ({ let a1 = InstructionAttr::spec_new(f, vector_len, false, false, true, true); let a2 = a1.with_address(f, EVEX_FVM, EVEX_NOBIT); let a3 = a2.evex_only(); vex_adr_bytes(f, a3, src, nds.encoding, kdst.encoding, VEX_SIMD_66, VEX_OPCODE_0F) + ({ let a4 = vex_adr_attr(f, a3, nds.encoding, kdst.encoding); seq![0x75] + address_bytes(f, Some(a4), kdst.encoding, src, false) }) }))
            }),
    {
        let mut attributes = InstructionAttr::new(&self.features, vector_len, false, false, true, true);
        attributes.set_address_attributes(&self.features, EVEX_FVM, EVEX_NOBIT);
        attributes.set_is_evex_instruction();
        let dst_enc: u8 = kdst.encoding;
        self.vex_prefix(&src, nds.encoding, dst_enc, VEX_SIMD_66, VEX_OPCODE_0F, &mut attributes);
        self.emit_int8(0x75);
        self.emit_operand_attr(dst_enc, &src, &attributes, false);
    }

    /// `evpcmpeqd kdst, mask, nds, src, vector_len`
    pub fn evpcmpeqd(&mut self, kdst: KRegister, mask: KRegister, nds: XMMRegister, src: XMMRegister, vector_len: u8)
        requires
            kdst.wf(),
            mask.wf(),
            nds.wf(),
            src.wf(),
            ({
                let f = old(self).features;
                (f.supports_evex()) && ({ let a1 = InstructionAttr::spec_new(f, vector_len, false, false, false, true); let a2 = a1.evex_only(); let a3 = a2.merging(); let a4 = a3.with_mask(mask); (vex_rr_ok(f, a4, kdst.encoding, nds.encoding, src.encoding)) })
            }),
        ensures
            ({
                let f = old(self).features;
                final(self).appends(*old(self), ({ let a1 = InstructionAttr::spec_new(f, vector_len, false, false, false, true); let a2 = a1.evex_only(); let a3 = a2.merging(); let a4 = a3.with_mask(mask); vex_rr_bytes(f, a4, kdst.encoding, nds.encoding, src.encoding, VEX_SIMD_66, VEX_OPCODE_0F) + seq![0x76, (0xC0 | rr_bits(kdst.encoding, src.encoding))] }))
            }),
    {
        let mut attributes = InstructionAttr::new(&self.features, vector_len, false, false, false, true);
        attributes.set_is_evex_instruction();
        attributes.reset_is_clear_context();
        attributes.set_embedded_opmask_register_specifier(mask);
        let encode = self.vex_prefix_and_encode(kdst.encoding, nds.encoding, src.encoding, VEX_SIMD_66, VEX_OPCODE_0F, &mut attributes);
        self.emit_int16(0x76, (0xC0 | encode));
    }

    /// `evpcmpeqd kdst, mask, nds, [src], vector_len`
    pub fn evpcmpeqd_kkxm(&mut self, kdst: KRegister, mask: KRegister, nds: XMMRegister, src: Address, vector_len: u8)
        requires
            kdst.wf(),
            mask.wf(),
            nds.wf(),
            src.wf(),
            ({
                let f = old(self).features;
                (f.supports_evex()) && ({ let a1 = InstructionAttr::spec_new(f, vector_len, false, false, false, true); let a2 = a1.with_address(f, EVEX_FV, EVEX_32BIT); let a3 = a2.evex_only(); let a4 = a3.merging(); let a5 = a4.with_mask(mask); (vex_adr_ok(f, a5, nds.encoding, kdst.encoding, src)) })
            }),
        ensures
            ({
                let f = old(self).features;
                final(self).appends(*old(self), ({ let a1 = InstructionAttr::spec_new(f, vector_len, false, false, false, true); let a2 = a1.with_address(f, EVEX_FV, EVEX_32BIT); let a3 = a2.evex_only(); let a4 = a3.merging(); let a5 = a4.with_mask(mask); vex_adr_bytes(f, a5, src, nds.encoding, kdst.encoding, VEX_SIMD_66, VEX_OPCODE_0F) + ({ let a6 = vex_adr_attr(f, a5, nds.encoding, kdst.encoding); seq![0x76] + address_bytes(f, Some(a6), kdst.encoding, src, false) }) }))
            }),
    {
        let mut attributes = InstructionAttr::new(&self.features, vector_len, false, false, false, true);
        attributes.set_address_attributes(&self.features, EVEX_FV, EVEX_32BIT);
        attributes.set_is_evex_instruction();
        attributes.reset_is_clear_context();
        attributes.set_embedded_opmask_register_specifier(mask);
        let dst_enc: u8 = kdst.encoding;
        self.vex_prefix(&src, nds.encoding, dst_enc, VEX_SIMD_66, VEX_OPCODE_0F, &mut attributes);
        self.emit_int8(0x76);
        self.emit_operand_attr(dst_enc, &src, &attributes, false);
    }

    /// `evpcmpeqq kdst, mask, nds, src, vector_len`
    pub fn evpcmpeqq_kkxx(&mut self, kdst: KRegister, mask: KRegister, nds: XMMRegister, src: XMMRegister, vector_len: u8)
        requires
            kdst.wf(),
            mask.wf(),
            nds.wf(),
            src.wf(),
            ({
                let f = old(self).features;
                (f.supports_evex()) && ({ let a1 = InstructionAttr::spec_new(f, vector_len, true, false, false, true); let a2 = a1.evex_only(); let a3 = a2.merging(); let a4 = a3.with_mask(mask); (vex_rr_ok(f, a4, kdst.encoding, nds.encoding, src.encoding)) })
            }),
        ensures
            ({
                let f = old(self).features;
                final(self).appends(*old(self), ({ let a1 = InstructionAttr::spec_new(f, vector_len, true, false, false, true); let a2 = a1.evex_only(); let a3 = a2.merging(); let a4 = a3.with_mask(mask); vex_rr_bytes(f, a4, kdst.encoding, nds.encoding, src.encoding, VEX_SIMD_66, VEX_OPCODE_0F_38) + seq![0x29, (0xC0 | rr_bits(kdst.encoding, src.encoding))] }))
            }),
    {
        let mut attributes = InstructionAttr::new(&self.features, vector_len, true, false, false, true);
        attributes.set_is_evex_instruction();
        attributes.reset_is_clear_context();
        attributes.set_embedded_opmask_register_specifier(mask);
        let encode = self.vex_prefix_and_encode(kdst.encoding, nds.encoding, src.encoding, VEX_SIMD_66, VEX_OPCODE_0F_38, &mut attributes);
        self.emit_int16(0x29, (0xC0 | encode));
    }

    /// `evpcmpeqq kdst, nds, src, vector_len`
    pub fn evpcmpeqq(&mut self, kdst: KRegister, nds: XMMRegister, src: XMMRegister, vector_len: u8)
        requires
            kdst.wf(),
            nds.wf(),
            src.wf(),
            ({
                let f = old(self).features;
                (f.supports_evex()) && ({ let a1 = InstructionAttr::spec_new(f, vector_len, true, false, true, true); let a2 = a1.merging(); let a3 = a2.evex_only(); (vex_rr_ok(f, a3, kdst.encoding, nds.encoding, src.encoding)) })
            }),
        ensures
            ({
                let f = old(self).features;
                final(self).appends(*old(self), ({ let a1 = InstructionAttr::spec_new(f, vector_len, true, false, true, true); let a2 = a1.merging(); let a3 = a2.evex_only(); vex_rr_bytes(f, a3, kdst.encoding, nds.encoding, src.encoding, VEX_SIMD_66, VEX_OPCODE_0F_38) + seq![0x29, (0xC0 | rr_bits(kdst.encoding, src.encoding))] }))
            }),
    {
        let mut attributes = InstructionAttr::new(&self.features, vector_len, true, false, true, true);
        attributes.reset_is_clear_context();
        attributes.set_is_evex_instruction();
        let encode = self.vex_prefix_and_encode(kdst.encoding, nds.encoding, src.encoding, VEX_SIMD_66, VEX_OPCODE_0F_38, &mut attributes);
        self.emit_int16(0x29, (0xC0 | encode));
    }

    /// `evpcmpeqq kdst, nds, [src], vector_len`
    pub fn evpcmpeqq_kxm(&mut self, kdst: KRegister, nds: XMMRegister, src: Address, vector_len: u8)
        requires
            kdst.wf(),
            nds.wf(),
            src.wf(),
            ({
                let f = old(self).features;
                (f.supports_evex()) && ({ let a1 = InstructionAttr::spec_new(f, vector_len, true, false, true, true); let a2 = a1.merging(); let a3 = a2.evex_only(); let a4 = a3.with_address(f, EVEX_FV, EVEX_64BIT); (vex_adr_ok(f, a4, nds.encoding, kdst.encoding, src)) })
            }),
        ensures
            ({
                let f = old(self).features;
                final(self).appends(*old(self), ({ let a1 = InstructionAttr::spec_new(f, vector_len, true, false, true, true); let a2 = a1.merging(); let a3 = a2.evex_only(); let a4 = a3.with_address(f, EVEX_FV, EVEX_64BIT); vex_adr_bytes(f, a4, src, nds.encoding, kdst.encoding, VEX_SIMD_66, VEX_OPCODE_0F_38) + ({ let a5 = vex_adr_attr(f, a4, nds.encoding, kdst.encoding); seq![0x29] + address_bytes(f, Some(a5), kdst.encoding, src, false) }) }))
            }),
    {
        let mut attributes = InstructionAttr::new(&self.features, vector_len, true, false, true, true);
        attributes.reset_is_clear_context();
        attributes.set_is_evex_instruction();
        attributes.set_address_attributes(&self.features, EVEX_FV, EVEX_64BIT);
        let dst_enc: u8 = kdst.encoding;
        self.vex_prefix(&src, nds.encoding, dst_enc, VEX_SIMD_66, VEX_OPCODE_0F_38, &mut attributes);
        self.emit_int8(0x29);
        self.emit_operand_attr(dst_enc, &src, &attributes, false);
    }

    /// `evpmovzxbw dst, mask, [src], vector_len`
    pub fn evpmovzxbw(&mut self, dst: XMMRegister, mask: KRegister, src: Address, vector_len: u8)
        requires
            dst.wf(),
            mask.wf(),
            src.wf(),
            ({
                let f = old(self).features;
                (f.supports_avx512vlbw()) && ({ let a1 = InstructionAttr::spec_new(f, vector_len, false, f.legacy_mode_bw(), false, true); let a2 = a1.with_address(f, EVEX_HVM, EVEX_NOBIT); let a3 = a2.with_mask(mask); let a4 = a3.evex_only(); (vex_adr_ok(f, a4, 0, dst.encoding, src)) })
            }),
        ensures
            ({
                let f = old(self).features;
                final(self).appends(*old(self), ({ let a1 = InstructionAttr::spec_new(f, vector_len, false, f.legacy_mode_bw(), false, true); let a2 = a1.with_address(f, EVEX_HVM, EVEX_NOBIT); let a3 = a2.with_mask(mask); let a4 = a3.evex_only(); vex_adr_bytes(f, a4, src, 0, dst.encoding, VEX_SIMD_66, VEX_OPCODE_0F_38) + ({ let a5 = vex_adr_attr(f, a4, 0, dst.encoding); seq![0x30] + address_bytes(f, Some(a5), dst.encoding, src, true) }) }))
            }),
    {
        let mut attributes = InstructionAttr::new(&self.features, vector_len, false, self.features.legacy_mode_bw(), false, true);
        attributes.set_address_attributes(&self.features, EVEX_HVM, EVEX_NOBIT);
        attributes.set_embedded_opmask_register_specifier(mask);
        attributes.set_is_evex_instruction();
        self.vex_prefix(&src, 0, dst.encoding, VEX_SIMD_66, VEX_OPCODE_0F_38, &mut attributes);
        self.emit_int8(0x30);
        self.emit_operand_attr(dst.encoding, &src, &attributes, true);
    }

    /// `evpmovzxbd dst, mask, [src], vector_len`
    pub fn evpmovzxbd_xkm(&mut self, dst: XMMRegister, mask: KRegister, src: Address, vector_len: u8)
        requires
            dst.wf(),
            mask.wf(),
            src.wf(),
            ({
                let f = old(self).features;
                (f.supports_avx512vl()) && ({ let a1 = InstructionAttr::spec_new(f, vector_len, false, f.legacy_mode_bw(), false, true); let a2 = a1.with_address(f, EVEX_HVM, EVEX_NOBIT); let a3 = a2.with_mask(mask); let a4 = a3.evex_only(); (vex_adr_ok(f, a4, 0, dst.encoding, src)) })
            }),
        ensures
            ({
                let f = old(self).features;
                final(self).appends(*old(self), ({ let a1 = InstructionAttr::spec_new(f, vector_len, false, f.legacy_mode_bw(), false, true); let a2 = a1.with_address(f, EVEX_HVM, EVEX_NOBIT); let a3 = a2.with_mask(mask); let a4 = a3.evex_only(); vex_adr_bytes(f, a4, src, 0, dst.encoding, VEX_SIMD_66, VEX_OPCODE_0F_38) + ({ let a5 = vex_adr_attr(f, a4, 0, dst.encoding); seq![0x31] + address_bytes(f, Some(a5), dst.encoding, src, true) }) }))
            }),
    {
        let mut attributes = InstructionAttr::new(&self.features, vector_len, false, self.features.legacy_mode_bw(), false, true);
        attributes.set_address_attributes(&self.features, EVEX_HVM, EVEX_NOBIT);
        attributes.set_embedded_opmask_register_specifier(mask);
        attributes.set_is_evex_instruction();
        self.vex_prefix(&src, 0, dst.encoding, VEX_SIMD_66, VEX_OPCODE_0F_38, &mut attributes);
        self.emit_int8(0x31);
        self.emit_operand_attr(dst.encoding, &src, &attributes, true);
    }

    /// `evpmovzxbd dst, [src], vector_len`
    pub fn evpmovzxbd(&mut self, dst: XMMRegister, src: Address, vector_len: u8)
        requires
            dst.wf(),
            src.wf(),
            ({
                let f = old(self).features;
                ((f.supports_avx512vl()) && ({ let a1 = InstructionAttr::spec_new(f, vector_len, false, f.legacy_mode_bw(), false, true); let a2 = a1.with_address(f, EVEX_HVM, EVEX_NOBIT); let a3 = a2.with_mask(KRegister { encoding: 0 }); let a4 = a3.evex_only(); (vex_adr_ok(f, a4, 0, dst.encoding, src)) }))
            }),
        ensures
            ({
                let f = old(self).features;
                final(self).appends(*old(self), ({ let a1 = InstructionAttr::spec_new(f, vector_len, false, f.legacy_mode_bw(), false, true); let a2 = a1.with_address(f, EVEX_HVM, EVEX_NOBIT); let a3 = a2.with_mask(KRegister { encoding: 0 }); let a4 = a3.evex_only(); vex_adr_bytes(f, a4, src, 0, dst.encoding, VEX_SIMD_66, VEX_OPCODE_0F_38) + ({ let a5 = vex_adr_attr(f, a4, 0, dst.encoding); seq![0x31] + address_bytes(f, Some(a5), dst.encoding, src, true) }) }))
            }),
    {
        self.evpmovzxbd_xkm(dst, k0(), src, vector_len);
    }

    /// `evpandd dst, mask, nds, src, merge, vector_len`
    pub fn evpandd(&mut self, dst: XMMRegister, mask: KRegister, nds: XMMRegister, src: XMMRegister, merge: bool, vector_len: u8)
        requires
            dst.wf(),
            mask.wf(),
            nds.wf(),
            src.wf(),
            ({
                let f = old(self).features;
                (f.supports_evex()) && ({ let a1 = InstructionAttr::spec_new(f, vector_len, false, false, false, true); let a2 = a1.evex_only(); let a3 = a2.with_mask(mask); (if merge { ({ let a4 = a3.merging(); (vex_rr_ok(f, a4, dst.encoding, nds.encoding, src.encoding)) }) } else { (vex_rr_ok(f, a3, dst.encoding, nds.encoding, src.encoding)) }) })
            }),
        ensures
            ({
                let f = old(self).features;
                final(self).appends(*old(self), ({ let a1 = InstructionAttr::spec_new(f, vector_len, false, false, false, true); let a2 = a1.evex_only(); let a3 = a2.with_mask(mask); (if merge { ({ let a4 = a3.merging(); vex_rr_bytes(f, a4, dst.encoding, nds.encoding, src.encoding, VEX_SIMD_66, VEX_OPCODE_0F) + seq![0xDB, (0xC0 | rr_bits(dst.encoding, src.encoding))] }) } else { vex_rr_bytes(f, a3, dst.encoding, nds.encoding, src.encoding, VEX_SIMD_66, VEX_OPCODE_0F) + seq![0xDB, (0xC0 | rr_bits(dst.encoding, src.encoding))] }) }))
            }),
    {
        let mut attributes = InstructionAttr::new(&self.features, vector_len, false, false, false, true);
        attributes.set_is_evex_instruction();
        attributes.set_embedded_opmask_register_specifier(mask);
        if merge {
            attributes.reset_is_clear_context();
            let encode = self.vex_prefix_and_encode(dst.encoding, nds.encoding, src.encoding, VEX_SIMD_66, VEX_OPCODE_0F, &mut attributes);
            self.emit_int16(0xDB, (0xC0 | encode));
        } else {
            let encode = self.vex_prefix_and_encode(dst.encoding, nds.encoding, src.encoding, VEX_SIMD_66, VEX_OPCODE_0F, &mut attributes);
            self.emit_int16(0xDB, (0xC0 | encode));
        }
    }

    /// `evpmovwb [dst], src, vector_len`
    pub fn evpmovwb_mx(&mut self, dst: Address, src: XMMRegister, vector_len: u8)
        requires
            dst.wf(),
            src.wf(),
            ({
                let f = old(self).features;
                (f.supports_avx512vlbw()) && ({ let a1 = InstructionAttr::spec_new(f, vector_len, false, false, true, true); let a2 = a1.with_address(f, EVEX_HVM, EVEX_NOBIT); let a3 = a2.evex_only(); (vex_adr_ok(f, a3, 0, src.encoding, dst)) })
            }),
        ensures
            ({
                let f = old(self).features;
                final(self).appends(*old(self), ({ let a1 = InstructionAttr::spec_new(f, vector_len, false, false, true, true); let a2 = a1.with_address(f, EVEX_HVM, EVEX_NOBIT); let a3 = a2.evex_only(); vex_adr_bytes(f, a3, dst, 0, src.encoding, VEX_SIMD_F3, VEX_OPCODE_0F_38) + ({ let a4 = vex_adr_attr(f, a3, 0, src.encoding); seq![0x30] + address_bytes(f, Some(a4), src.encoding, dst, true) }) }))
            }),
    {
        let mut attributes = InstructionAttr::new(&self.features, vector_len, false, false, true, true);
        attributes.set_address_attributes(&self.features, EVEX_HVM, EVEX_NOBIT);
        attributes.set_is_evex_instruction();
        self.vex_prefix(&dst, 0, src.encoding, VEX_SIMD_F3, VEX_OPCODE_0F_38, &mut attributes);
        self.emit_int8(0x30);
        self.emit_operand_attr(src.encoding, &dst, &attributes, true);
    }

    /// `evpmovwb [dst], mask, src, vector_len`
    pub fn evpmovwb_mkx(&mut self, dst: Address, mask: KRegister, src: XMMRegister, vector_len: u8)
        requires
            dst.wf(),
            mask.wf(),
            src.wf(),
            ({
                let f = old(self).features;
                (f.supports_avx512vlbw()) && ({ let a1 = InstructionAttr::spec_new(f, vector_len, false, false, false, true); let a2 = a1.with_address(f, EVEX_HVM, EVEX_NOBIT); let a3 = a2.merging(); let a4 = a3.with_mask(mask); let a5 = a4.evex_only(); (vex_adr_ok(f, a5, 0, src.encoding, dst)) })
            }),
        ensures
            ({
                let f = old(self).features;
                final(self).appends(*old(self), ({ let a1 = InstructionAttr::spec_new(f, vector_len, false, false, false, true); let a2 = a1.with_address(f, EVEX_HVM, EVEX_NOBIT); let a3 = a2.merging(); let a4 = a3.with_mask(mask); let a5 = a4.evex_only(); vex_adr_bytes(f, a5, dst, 0, src.encoding, VEX_SIMD_F3, VEX_OPCODE_0F_38) + ({ let a6 = vex_adr_attr(f, a5, 0, src.encoding); seq![0x30] + address_bytes(f, Some(a6), src.encoding, dst, true) }) }))
            }),
    {
        let mut attributes = InstructionAttr::new(&self.features, vector_len, false, false, false, true);
        attributes.set_address_attributes(&self.features, EVEX_HVM, EVEX_NOBIT);
        attributes.reset_is_clear_context();
        attributes.set_embedded_opmask_register_specifier(mask);
        attributes.set_is_evex_instruction();
        self.vex_prefix(&dst, 0, src.encoding, VEX_SIMD_F3, VEX_OPCODE_0F_38, &mut attributes);
        self.emit_int8(0x30);
        self.emit_operand_attr(src.encoding, &dst, &attributes, true);
    }

    /// `evpmovdb [dst], src, vector_len`
    pub fn evpmovdb_mx(&mut self, dst: Address, src: XMMRegister, vector_len: u8)
        requires
            dst.wf(),
            src.wf(),
            ({
                let f = old(self).features;
                (f.supports_evex()) && ({ let a1 = InstructionAttr::spec_new(f, vector_len, false, false, true, true); let a2 = a1.with_address(f, EVEX_QVM, EVEX_NOBIT); let a3 = a2.evex_only(); (vex_adr_ok(f, a3, 0, src.encoding, dst)) })
            }),
        ensures
            ({
                let f = old(self).features;
                final(self).appends(*old(self), ({ let a1 = InstructionAttr::spec_new(f, vector_len, false, false, true, true); let a2 = a1.with_address(f, EVEX_QVM, EVEX_NOBIT); let a3 = a2.evex_only(); vex_adr_bytes(f, a3, dst, 0, src.encoding, VEX_SIMD_F3, VEX_OPCODE_0F_38) + ({ let a4 = vex_adr_attr(f, a3, 0, src.encoding); seq![0x31] + address_bytes(f, Some(a4), src.encoding, dst, true) }) }))
            }),
    {
        let mut attributes = InstructionAttr::new(&self.features, vector_len, false, false, true, true);
        attributes.set_address_attributes(&self.features, EVEX_QVM, EVEX_NOBIT);
        attributes.set_is_evex_instruction();
        self.vex_prefix(&dst, 0, src.encoding, VEX_SIMD_F3, VEX_OPCODE_0F_38, &mut attributes);
        self.emit_int8(0x31);
        self.emit_operand_attr(src.encoding, &dst, &attributes, true);
    }

    /// `evpmadd52luq dst, src1, src2, vector_len`
    pub fn evpmadd52luq(&mut self, dst: XMMRegister, src1: XMMRegister, src2: XMMRegister, vector_len: u8)
        requires
            dst.wf(),
            src1.wf(),
            src2.wf(),
            ({
                let f = old(self).features;
                ((f.supports_avx512ifma()) && ({ let a1 = InstructionAttr::spec_new(f, vector_len, true, false, false, true); let a2 = a1.evex_only(); let a3 = a2.with_mask(KRegister { encoding: 0 }); (vex_rr_ok(f, a3, dst.encoding, src1.encoding, src2.encoding)) }))
            }),
        ensures
            ({
                let f = old(self).features;
                final(self).appends(*old(self), ({ let a1 = InstructionAttr::spec_new(f, vector_len, true, false, false, true); let a2 = a1.evex_only(); let a3 = a2.with_mask(KRegister { encoding: 0 }); (vex_rr_bytes(f, a3, dst.encoding, src1.encoding, src2.encoding, VEX_SIMD_66, VEX_OPCODE_0F_38) + seq![0xB4, (0xC0 | rr_bits(dst.encoding, src2.encoding))]) }))
            }),
    {
        self.evpmadd52luq_xkxx(dst, k0(), src1, src2, false, vector_len);
    }

    /// `evpmadd52luq dst, mask, src1, src2, merge, vector_len`
    pub fn evpmadd52luq_xkxx(&mut self, dst: XMMRegister, mask: KRegister, src1: XMMRegister, src2: XMMRegister, merge: bool, vector_len: u8)
        requires
            dst.wf(),
            mask.wf(),
            src1.wf(),
            src2.wf(),
            ({
                let f = old(self).features;
                (f.supports_avx512ifma()) && ({ let a1 = InstructionAttr::spec_new(f, vector_len, true, false, false, true); let a2 = a1.evex_only(); let a3 = a2.with_mask(mask); (if merge { ({ let a4 = a3.merging(); (vex_rr_ok(f, a4, dst.encoding, src1.encoding, src2.encoding)) }) } else { (vex_rr_ok(f, a3, dst.encoding, src1.encoding, src2.encoding)) }) })
            }),
        ensures
            ({
                let f = old(self).features;
                final(self).appends(*old(self), ({ let a1 = InstructionAttr::spec_new(f, vector_len, true, false, false, true); let a2 = a1.evex_only(); let a3 = a2.with_mask(mask); (if merge { ({ let a4 = a3.merging(); vex_rr_bytes(f, a4, dst.encoding, src1.encoding, src2.encoding, VEX_SIMD_66, VEX_OPCODE_0F_38) + seq![0xB4, (0xC0 | rr_bits(dst.encoding, src2.encoding))] }) } else { vex_rr_bytes(f, a3, dst.encoding, src1.encoding, src2.encoding, VEX_SIMD_66, VEX_OPCODE_0F_38) + seq![0xB4, (0xC0 | rr_bits(dst.encoding, src2.encoding))] }) }))
            }),
    {
        let mut attributes = InstructionAttr::new(&self.features, vector_len, true, false, false, true);
        attributes.set_is_evex_instruction();
        attributes.set_embedded_opmask_register_specifier(mask);
        if merge {
            attributes.reset_is_clear_context();
            let encode = self.vex_prefix_and_encode(dst.encoding, src1.encoding, src2.encoding, VEX_SIMD_66, VEX_OPCODE_0F_38, &mut attributes);
            self.emit_int16(0xB4, (0xC0 | encode));
        } else {
            let encode = self.vex_prefix_and_encode(dst.encoding, src1.encoding, src2.encoding, VEX_SIMD_66, VEX_OPCODE_0F_38, &mut attributes);
            self.emit_int16(0xB4, (0xC0 | encode));
        }
    }

    /// `evpmadd52huq dst, src1, src2, vector_len`
    pub fn evpmadd52huq(&mut self, dst: XMMRegister, src1: XMMRegister, src2: XMMRegister, vector_len: u8)
        requires
            dst.wf(),
            src1.wf(),
            src2.wf(),
            ({
                let f = old(self).features;
                ((f.supports_avx512ifma()) && ({ let a1 = InstructionAttr::spec_new(f, vector_len, true, false, false, true); let a2 = a1.evex_only(); let a3 = a2.with_mask(KRegister { encoding: 0 }); (vex_rr_ok(f, a3, dst.encoding, src1.encoding, src2.encoding)) }))
            }),
        ensures
            ({
                let f = old(self).features;
                final(self).appends(*old(self), ({ let a1 = InstructionAttr::spec_new(f, vector_len, true, false, false, true); let a2 = a1.evex_only(); let a3 = a2.with_mask(KRegister { encoding: 0 }); (vex_rr_bytes(f, a3, dst.encoding, src1.encoding, src2.encoding, VEX_SIMD_66, VEX_OPCODE_0F_38) + seq![0xB5, (0xC0 | rr_bits(dst.encoding, src2.encoding))]) }))
            }),
    {
        self.evpmadd52huq_xkxx(dst, k0(), src1, src2, false, vector_len);
    }

    /// `evpmadd52huq dst, mask, src1, src2, merge, vector_len`
    pub fn evpmadd52huq_xkxx(&mut self, dst: XMMRegister, mask: KRegister, src1: XMMRegister, src2: XMMRegister, merge: bool, vector_len: u8)
        requires
            dst.wf(),
            mask.wf(),
            src1.wf(),
            src2.wf(),
            ({
                let f = old(self).features;
                (f.supports_avx512ifma()) && ({ let a1 = InstructionAttr::spec_new(f, vector_len, true, false, false, true); let a2 = a1.evex_only(); let a3 = a2.with_mask(mask); (if merge { ({ let a4 = a3.merging(); (vex_rr_ok(f, a4, dst.encoding, src1.encoding, src2.encoding)) }) } else { (vex_rr_ok(f, a3, dst.encoding, src1.encoding, src2.encoding)) }) })
            }),
        ensures
            ({
                let f = old(self).features;
                final(self).appends(*old(self), ({ let a1 = InstructionAttr::spec_new(f, vector_len, true, false, false, true); let a2 = a1.evex_only(); let a3 = a2.with_mask(mask); (if merge { ({ let a4 = a3.merging(); vex_rr_bytes(f, a4, dst.encoding, src1.encoding, src2.encoding, VEX_SIMD_66, VEX_OPCODE_0F_38) + seq![0xB5, (0xC0 | rr_bits(dst.encoding, src2.encoding))] }) } else { vex_rr_bytes(f, a3, dst.encoding, src1.encoding, src2.encoding, VEX_SIMD_66, VEX_OPCODE_0F_38) + seq![0xB5, (0xC0 | rr_bits(dst.encoding, src2.encoding))] }) }))
            }),
    {
        let mut attributes = InstructionAttr::new(&self.features, vector_len, true, false, false, true);
        attributes.set_is_evex_instruction();
        attributes.set_embedded_opmask_register_specifier(mask);
        if merge {
            attributes.reset_is_clear_context();
            let encode = self.vex_prefix_and_encode(dst.encoding, src1.encoding, src2.encoding, VEX_SIMD_66, VEX_OPCODE_0F_38, &mut attributes);
            self.emit_int16(0xB5, (0xC0 | encode));
        } else {
            let encode = self.vex_prefix_and_encode(dst.encoding, src1.encoding, src2.encoding, VEX_SIMD_66, VEX_OPCODE_0F_38, &mut attributes);
            self.emit_int16(0xB5, (0xC0 | encode));
        }
    }

    /// `evpdpwssd dst, nds, src, vector_len`
    pub fn evpdpwssd(&mut self, dst: XMMRegister, nds: XMMRegister, src: XMMRegister, vector_len: u8)
        requires
            dst.wf(),
            nds.wf(),
            src.wf(),
            ({
                let f = old(self).features;
                (f.supports_evex()) && ((f.supports_avx512_vnni()) && ({ let a1 = InstructionAttr::spec_new(f, vector_len, false, false, true, true); let a2 = a1.evex_only(); (vex_rr_ok(f, a2, dst.encoding, nds.encoding, src.encoding)) }))
            }),
        ensures
            ({
                let f = old(self).features;
                final(self).appends(*old(self), ({ let a1 = InstructionAttr::spec_new(f, vector_len, false, false, true, true); let a2 = a1.evex_only(); vex_rr_bytes(f, a2, dst.encoding, nds.encoding, src.encoding, VEX_SIMD_66, VEX_OPCODE_0F_38) + seq![0x52, (0xC0 | rr_bits(dst.encoding, src.encoding))] }))
            }),
    {
        let mut attributes = InstructionAttr::new(&self.features, vector_len, false, false, true, true);
        attributes.set_is_evex_instruction();
        let encode = self.vex_prefix_and_encode(dst.encoding, nds.encoding, src.encoding, VEX_SIMD_66, VEX_OPCODE_0F_38, &mut attributes);
        self.emit_int16(0x52, (0xC0 | encode));
    }

    /// `evpopcntb dst, mask, src, merge, vector_len`
    pub fn evpopcntb(&mut self, dst: XMMRegister, mask: KRegister, src: XMMRegister, merge: bool, vector_len: u8)
        requires
            dst.wf(),
            mask.wf(),
            src.wf(),
            ({
                let f = old(self).features;
                (f.supports_avx512_bitalg()) && (((vector_len == AVX_512BIT) || f.supports_avx512vl()) && ({ let a1 = InstructionAttr::spec_new(f, vector_len, false, false, false, true); let a2 = a1.with_mask(mask); let a3 = a2.evex_only(); (if merge { ({ let a4 = a3.merging(); (vex_rr_ok(f, a4, dst.encoding, 0, src.encoding)) }) } else { (vex_rr_ok(f, a3, dst.encoding, 0, src.encoding)) }) }))
            }),
        ensures
            ({
                let f = old(self).features;
                final(self).appends(*old(self), ({ let a1 = InstructionAttr::spec_new(f, vector_len, false, false, false, true); let a2 = a1.with_mask(mask); let a3 = a2.evex_only(); (if merge { ({ let a4 = a3.merging(); vex_rr_bytes(f, a4, dst.encoding, 0, src.encoding, VEX_SIMD_66, VEX_OPCODE_0F_38) + seq![0x54, (0xC0 | rr_bits(dst.encoding, src.encoding))] }) } else { vex_rr_bytes(f, a3, dst.encoding, 0, src.encoding, VEX_SIMD_66, VEX_OPCODE_0F_38) + seq![0x54, (0xC0 | rr_bits(dst.encoding, src.encoding))] }) }))
            }),
    {
        let mut attributes = InstructionAttr::new(&self.features, vector_len, false, false, false, true);
        attributes.set_embedded_opmask_register_specifier(mask);
        attributes.set_is_evex_instruction();
        if merge {
            attributes.reset_is_clear_context();
            let encode = self.vex_prefix_and_encode(dst.encoding, 0, src.encoding, VEX_SIMD_66, VEX_OPCODE_0F_38, &mut attributes);
            self.emit_int16(0x54, (0xC0 | encode));
        } else {
            let encode = self.vex_prefix_and_encode(dst.encoding, 0, src.encoding, VEX_SIMD_66, VEX_OPCODE_0F_38, &mut attributes);
            self.emit_int16(0x54, (0xC0 | encode));
        }
    }

    /// `evpopcntw dst, mask, src, merge, vector_len`
    pub fn evpopcntw(&mut self, dst: XMMRegister, mask: KRegister, src: XMMRegister, merge: bool, vector_len: u8)
        requires
            dst.wf(),
            mask.wf(),
            src.wf(),
            ({
                let f = old(self).features;
                (f.supports_avx512_bitalg()) && (((vector_len == AVX_512BIT) || f.supports_avx512vl()) && ({ let a1 = InstructionAttr::spec_new(f, vector_len, true, false, false, true); let a2 = a1.evex_only(); let a3 = a2.with_mask(mask); (if merge { ({ let a4 = a3.merging(); (vex_rr_ok(f, a4, dst.encoding, 0, src.encoding)) }) } else { (vex_rr_ok(f, a3, dst.encoding, 0, src.encoding)) }) }))
            }),
        ensures
            ({
                let f = old(self).features;
                final(self).appends(*old(self), ({ let a1 = InstructionAttr::spec_new(f, vector_len, true, false, false, true); let a2 = a1.evex_only(); let a3 = a2.with_mask(mask); (if merge { ({ let a4 = a3.merging(); vex_rr_bytes(f, a4, dst.encoding, 0, src.encoding, VEX_SIMD_66, VEX_OPCODE_0F_38) + seq![0x54, (0xC0 | rr_bits(dst.encoding, src.encoding))] }) } else { vex_rr_bytes(f, a3, dst.encoding, 0, src.encoding, VEX_SIMD_66, VEX_OPCODE_0F_38) + seq![0x54, (0xC0 | rr_bits(dst.encoding, src.encoding))] }) }))
            }),
    {
        let mut attributes = InstructionAttr::new(&self.features, vector_len, true, false, false, true);
        attributes.set_is_evex_instruction();
        attributes.set_embedded_opmask_register_specifier(mask);
        if merge {
            attributes.reset_is_clear_context();
            let encode = self.vex_prefix_and_encode(dst.encoding, 0, src.encoding, VEX_SIMD_66, VEX_OPCODE_0F_38, &mut attributes);
            self.emit_int16(0x54, (0xC0 | encode));
        } else {
            let encode = self.vex_prefix_and_encode(dst.encoding, 0, src.encoding, VEX_SIMD_66, VEX_OPCODE_0F_38, &mut attributes);
            self.emit_int16(0x54, (0xC0 | encode));
        }
    }

    /// `evpopcntd dst, mask, src, merge, vector_len`
    pub fn evpopcntd(&mut self, dst: XMMRegister, mask: KRegister, src: XMMRegister, merge: bool, vector_len: u8)
        requires
            dst.wf(),
            mask.wf(),
            src.wf(),
            ({
                let f = old(self).features;
                (f.supports_avx512_vpopcntdq()) && (((vector_len == AVX_512BIT) || f.supports_avx512vl()) && ({ let a1 = InstructionAttr::spec_new(f, vector_len, false, false, false, true); let a2 = a1.evex_only(); let a3 = a2.with_mask(mask); (if merge { ({ let a4 = a3.merging(); (vex_rr_ok(f, a4, dst.encoding, 0, src.encoding)) }) } else { (vex_rr_ok(f, a3, dst.encoding, 0, src.encoding)) }) }))
            }),
        ensures
            ({
                let f = old(self).features;
                final(self).appends(*old(self), ({ let a1 = InstructionAttr::spec_new(f, vector_len, false, false, false, true); let a2 = a1.evex_only(); let a3 = a2.with_mask(mask); (if merge { ({ let a4 = a3.merging(); vex_rr_bytes(f, a4, dst.encoding, 0, src.encoding, VEX_SIMD_66, VEX_OPCODE_0F_38) + seq![0x55, (0xC0 | rr_bits(dst.encoding, src.encoding))] }) } else { vex_rr_bytes(f, a3, dst.encoding, 0, src.encoding, VEX_SIMD_66, VEX_OPCODE_0F_38) + seq![0x55, (0xC0 | rr_bits(dst.encoding, src.encoding))] }) }))
            }),
    {
        let mut attributes = InstructionAttr::new(&self.features, vector_len, false, false, false, true);
        attributes.set_is_evex_instruction();
        attributes.set_embedded_opmask_register_specifier(mask);
        if merge {
            attributes.reset_is_clear_context();
            let encode = self.vex_prefix_and_encode(dst.encoding, 0, src.encoding, VEX_SIMD_66, VEX_OPCODE_0F_38, &mut attributes);
            self.emit_int16(0x55, (0xC0 | encode));
        } else {
            let encode = self.vex_prefix_and_encode(dst.encoding, 0, src.encoding, VEX_SIMD_66, VEX_OPCODE_0F_38, &mut attributes);
            self.emit_int16(0x55, (0xC0 | encode));
        }
    }

    /// `evpopcntq dst, mask, src, merge, vector_len`
    pub fn evpopcntq(&mut self, dst: XMMRegister, mask: KRegister, src: XMMRegister, merge: bool, vector_len: u8)
        requires
            dst.wf(),
            mask.wf(),
            src.wf(),
            ({
                let f = old(self).features;
                (f.supports_avx512_vpopcntdq()) && (((vector_len == AVX_512BIT) || f.supports_avx512vl()) && ({ let a1 = InstructionAttr::spec_new(f, vector_len, true, false, false, true); let a2 = a1.evex_only(); let a3 = a2.with_mask(mask); (if merge { ({ let a4 = a3.merging(); (vex_rr_ok(f, a4, dst.encoding, 0, src.encoding)) }) } else { (vex_rr_ok(f, a3, dst.encoding, 0, src.encoding)) }) }))
            }),
        ensures
            ({
                let f = old(self).features;
                final(self).appends(*old(self), ({ let a1 = InstructionAttr::spec_new(f, vector_len, true, false, false, true); let a2 = a1.evex_only(); let a3 = a2.with_mask(mask); (if merge { ({ let a4 = a3.merging(); vex_rr_bytes(f, a4, dst.encoding, 0, src.encoding, VEX_SIMD_66, VEX_OPCODE_0F_38) + seq![0x55, (0xC0 | rr_bits(dst.encoding, src.encoding))] }) } else { vex_rr_bytes(f, a3, dst.encoding, 0, src.encoding, VEX_SIMD_66, VEX_OPCODE_0F_38) + seq![0x55, (0xC0 | rr_bits(dst.encoding, src.encoding))] }) }))
            }),
    {
        let mut attributes = InstructionAttr::new(&self.features, vector_len, true, false, false, true);
        attributes.set_is_evex_instruction();
        attributes.set_embedded_opmask_register_specifier(mask);
        if merge {
            attributes.reset_is_clear_context();
            let encode = self.vex_prefix_and_encode(dst.encoding, 0, src.encoding, VEX_SIMD_66, VEX_OPCODE_0F_38, &mut attributes);
            self.emit_int16(0x55, (0xC0 | encode));
        } else {
            let encode = self.vex_prefix_and_encode(dst.encoding, 0, src.encoding, VEX_SIMD_66, VEX_OPCODE_0F_38, &mut attributes);
            self.emit_int16(0x55, (0xC0 | encode));
        }
    }

    /// `evpshufb dst, mask, nds, src, merge, vector_len`
    pub fn evpshufb(&mut self, dst: XMMRegister, mask: KRegister, nds: XMMRegister, src: XMMRegister, merge: bool, vector_len: u8)
        requires
            dst.wf(),
            mask.wf(),
            nds.wf(),
            src.wf(),
            ({
                let f = old(self).features;
                (f.supports_avx512bw() && ((vector_len == AVX_512BIT) || f.supports_avx512vl())) && ({ let a1 = InstructionAttr::spec_new(f, vector_len, false, false, false, true); let a2 = a1.evex_only(); let a3 = a2.with_mask(mask); (if merge { ({ let a4 = a3.merging(); (simd_rr_ok(f, a4, dst.encoding, Some(nds.encoding), src.encoding)) }) } else { (simd_rr_ok(f, a3, dst.encoding, Some(nds.encoding), src.encoding)) }) })
            }),
        ensures
            ({
                let f = old(self).features;
                final(self).appends(*old(self), ({ let a1 = InstructionAttr::spec_new(f, vector_len, false, false, false, true); let a2 = a1.evex_only(); let a3 = a2.with_mask(mask); (if merge { ({ let a4 = a3.merging(); simd_rr_bytes(f, a4, dst.encoding, Some(nds.encoding), src.encoding, VEX_SIMD_66, VEX_OPCODE_0F_38) + seq![0x00, (0xC0 | rr_bits(dst.encoding, src.encoding))] }) } else { simd_rr_bytes(f, a3, dst.encoding, Some(nds.encoding), src.encoding, VEX_SIMD_66, VEX_OPCODE_0F_38) + seq![0x00, (0xC0 | rr_bits(dst.encoding, src.encoding))] }) }))
            }),
    {
        let mut attributes = InstructionAttr::new(&self.features, vector_len, false, false, false, true);
        attributes.set_is_evex_instruction();
        attributes.set_embedded_opmask_register_specifier(mask);
        if merge {
            attributes.reset_is_clear_context();
            let encode = self.simd_prefix_and_encode(dst.encoding, Some(nds.encoding), src.encoding, VEX_SIMD_66, VEX_OPCODE_0F_38, &mut attributes);
            self.emit_int16(0x00, (0xC0 | encode));
        } else {
            let encode = self.simd_prefix_and_encode(dst.encoding, Some(nds.encoding), src.encoding, VEX_SIMD_66, VEX_OPCODE_0F_38, &mut attributes);
            self.emit_int16(0x00, (0xC0 | encode));
        }
    }

    /// `evshufi64x2 dst, nds, src, imm8, vector_len`
    pub fn evshufi64x2(&mut self, dst: XMMRegister, nds: XMMRegister, src: XMMRegister, imm8: i8, vector_len: u8)
        requires
            dst.wf(),
            nds.wf(),
            src.wf(),
            ({
                let f = old(self).features;
                (f.supports_evex()) && (((vector_len == AVX_256BIT) || (vector_len == AVX_512BIT)) && ({ let a1 = InstructionAttr::spec_new(f, vector_len, f.supports_evex(), false, true, true); let a2 = a1.evex_only(); (vex_rr_ok(f, a2, dst.encoding, nds.encoding, src.encoding)) }))
            }),
        ensures
            ({
                let f = old(self).features;
                final(self).appends(*old(self), ({ let a1 = InstructionAttr::spec_new(f, vector_len, f.supports_evex(), false, true, true); let a2 = a1.evex_only(); vex_rr_bytes(f, a2, dst.encoding, nds.encoding, src.encoding, VEX_SIMD_66, VEX_OPCODE_0F_3A) + seq![0x43, (0xC0 | rr_bits(dst.encoding, src.encoding)), imm_byte(imm8)] }))
            }),
    {
        let mut attributes = InstructionAttr::new(&self.features, vector_len, self.features.supports_evex(), false, true, true);
        attributes.set_is_evex_instruction();
        let encode = self.vex_prefix_and_encode(dst.encoding, nds.encoding, src.encoding, VEX_SIMD_66, VEX_OPCODE_0F_3A, &mut attributes);
        self.emit_int24(0x43, (0xC0 | encode), imm_byte_exec(imm8));
    }

    /// `evptestmb dst, nds, src, vector_len`
    pub fn evptestmb(&mut self, dst: KRegister, nds: XMMRegister, src: XMMRegister, vector_len: u8)
        requires
            dst.wf(),
            nds.wf(),
            src.wf(),
            ({
                let f = old(self).features;
                (if (vector_len == AVX_512BIT) { f.supports_avx512bw() } else { f.supports_avx512vlbw() }) && ({ let a1 = InstructionAttr::spec_new(f, vector_len, false, false, true, true); let a2 = a1.evex_only(); (vex_rr_ok(f, a2, dst.encoding, nds.encoding, src.encoding)) })
            }),
        ensures
            ({
                let f = old(self).features;
                final(self).appends(*old(self), ({ let a1 = InstructionAttr::spec_new(f, vector_len, false, false, true, true); let a2 = a1.evex_only(); vex_rr_bytes(f, a2, dst.encoding, nds.encoding, src.encoding, VEX_SIMD_66, VEX_OPCODE_0F_38) + seq![0x26, (0xC0 | rr_bits(dst.encoding, src.encoding))] }))
            }),
    {
        let mut attributes = InstructionAttr::new(&self.features, vector_len, false, false, true, true);
        attributes.set_is_evex_instruction();
        let encode = self.vex_prefix_and_encode(dst.encoding, nds.encoding, src.encoding, VEX_SIMD_66, VEX_OPCODE_0F_38, &mut attributes);
        self.emit_int16(0x26, (0xC0 | encode));
    }

    /// `evptestmd dst, nds, src, vector_len`
    pub fn evptestmd(&mut self, dst: KRegister, nds: XMMRegister, src: XMMRegister, vector_len: u8)
        requires
            dst.wf(),
            nds.wf(),
            src.wf(),
            ({
                let f = old(self).features;
                (if (vector_len == AVX_512BIT) { f.supports_evex() } else { f.supports_avx512vl() }) && ({ let a1 = InstructionAttr::spec_new(f, vector_len, false, false, true, true); let a2 = a1.evex_only(); (vex_rr_ok(f, a2, dst.encoding, nds.encoding, src.encoding)) })
            }),
        ensures
            ({
                let f = old(self).features;
                final(self).appends(*old(self), ({ let a1 = InstructionAttr::spec_new(f, vector_len, false, false, true, true); let a2 = a1.evex_only(); vex_rr_bytes(f, a2, dst.encoding, nds.encoding, src.encoding, VEX_SIMD_66, VEX_OPCODE_0F_38) + seq![0x27, (0xC0 | rr_bits(dst.encoding, src.encoding))] }))
            }),
    {
        let mut attributes = InstructionAttr::new(&self.features, vector_len, false, false, true, true);
        attributes.set_is_evex_instruction();
        let encode = self.vex_prefix_and_encode(dst.encoding, nds.encoding, src.encoding, VEX_SIMD_66, VEX_OPCODE_0F_38, &mut attributes);
        self.emit_int16(0x27, (0xC0 | encode));
    }

    /// `evptestnmd dst, nds, src, vector_len`
    pub fn evptestnmd(&mut self, dst: KRegister, nds: XMMRegister, src: XMMRegister, vector_len: u8)
        requires
            dst.wf(),
            nds.wf(),
            src.wf(),
            ({
                let f = old(self).features;
                (if (vector_len == AVX_512BIT) { f.supports_evex() } else { f.supports_avx512vl() }) && ({ let a1 = InstructionAttr::spec_new(f, vector_len, false, false, true, true); let a2 = a1.evex_only(); (vex_rr_ok(f, a2, dst.encoding, nds.encoding, src.encoding)) })
            }),
        ensures
            ({
                let f = old(self).features;
                final(self).appends(*old(self), ({ let a1 = InstructionAttr::spec_new(f, vector_len, false, false, true, true); let a2 = a1.evex_only(); vex_rr_bytes(f, a2, dst.encoding, nds.encoding, src.encoding, VEX_SIMD_F3, VEX_OPCODE_0F_38) + seq![0x27, (0xC0 | rr_bits(dst.encoding, src.encoding))] }))
            }),
    {
        let mut attributes = InstructionAttr::new(&self.features, vector_len, false, false, true, true);
        attributes.set_is_evex_instruction();
        let encode = self.vex_prefix_and_encode(dst.encoding, nds.encoding, src.encoding, VEX_SIMD_F3, VEX_OPCODE_0F_38, &mut attributes);
        self.emit_int16(0x27, (0xC0 | encode));
    }

    /// `evpunpcklqdq dst, src1, src2, vector_len`
    pub fn evpunpcklqdq(&mut self, dst: XMMRegister, src1: XMMRegister, src2: XMMRegister, vector_len: u8)
        requires
            dst.wf(),
            src1.wf(),
            src2.wf(),
            ({
                let f = old(self).features;
                ((f.supports_evex()) && (((vector_len == AVX_512BIT) || f.supports_avx512vl()) && ({ let a1 = InstructionAttr::spec_new(f, vector_len, true, false, false, true); let a2 = a1.evex_only(); let a3 = a2.with_mask(KRegister { encoding: 0 }); (vex_rr_ok(f, a3, dst.encoding, src1.encoding, src2.encoding)) })))
            }),
        ensures
            ({
                let f = old(self).features;
                final(self).appends(*old(self), ({ let a1 = InstructionAttr::spec_new(f, vector_len, true, false, false, true); let a2 = a1.evex_only(); let a3 = a2.with_mask(KRegister { encoding: 0 }); (vex_rr_bytes(f, a3, dst.encoding, src1.encoding, src2.encoding, VEX_SIMD_66, VEX_OPCODE_0F) + seq![0x6C, (0xC0 | rr_bits(dst.encoding, src2.encoding))]) }))
            }),
    {
        self.evpunpcklqdq_xkxx(dst, k0(), src1, src2, false, vector_len);
    }

    /// `evpunpcklqdq dst, mask, src1, src2, merge, vector_len`
    pub fn evpunpcklqdq_xkxx(&mut self, dst: XMMRegister, mask: KRegister, src1: XMMRegister, src2: XMMRegister, merge: bool, vector_len: u8)
        requires
            dst.wf(),
            mask.wf(),
            src1.wf(),
            src2.wf(),
            ({
                let f = old(self).features;
                (f.supports_evex()) && (((vector_len == AVX_512BIT) || f.supports_avx512vl()) && ({ let a1 = InstructionAttr::spec_new(f, vector_len, true, false, false, true); let a2 = a1.evex_only(); let a3 = a2.with_mask(mask); (if merge { ({ let a4 = a3.merging(); (vex_rr_ok(f, a4, dst.encoding, src1.encoding, src2.encoding)) }) } else { (vex_rr_ok(f, a3, dst.encoding, src1.encoding, src2.encoding)) }) }))
            }),
        ensures
            ({
                let f = old(self).features;
                final(self).appends(*old(self), ({ let a1 = InstructionAttr::spec_new(f, vector_len, true, false, false, true); let a2 = a1.evex_only(); let a3 = a2.with_mask(mask); (if merge { ({ let a4 = a3.merging(); vex_rr_bytes(f, a4, dst.encoding, src1.encoding, src2.encoding, VEX_SIMD_66, VEX_OPCODE_0F) + seq![0x6C, (0xC0 | rr_bits(dst.encoding, src2.encoding))] }) } else { vex_rr_bytes(f, a3, dst.encoding, src1.encoding, src2.encoding, VEX_SIMD_66, VEX_OPCODE_0F) + seq![0x6C, (0xC0 | rr_bits(dst.encoding, src2.encoding))] }) }))
            }),
    {
        let mut attributes = InstructionAttr::new(&self.features, vector_len, true, false, false, true);
        attributes.set_is_evex_instruction();
        attributes.set_embedded_opmask_register_specifier(mask);
        if merge {
            attributes.reset_is_clear_context();
            let encode = self.vex_prefix_and_encode(dst.encoding, src1.encoding, src2.encoding, VEX_SIMD_66, VEX_OPCODE_0F, &mut attributes);
            self.emit_int16(0x6C, (0xC0 | encode));
        } else {
            let encode = self.vex_prefix_and_encode(dst.encoding, src1.encoding, src2.encoding, VEX_SIMD_66, VEX_OPCODE_0F, &mut attributes);
            self.emit_int16(0x6C, (0xC0 | encode));
        }
    }

    /// `evpunpckhqdq dst, src1, src2, vector_len`
    pub fn evpunpckhqdq(&mut self, dst: XMMRegister, src1: XMMRegister, src2: XMMRegister, vector_len: u8)
        requires
            dst.wf(),
            src1.wf(),
            src2.wf(),
            ({
                let f = old(self).features;
                ((f.supports_evex()) && (((vector_len == AVX_512BIT) || f.supports_avx512vl()) && ({ let a1 = InstructionAttr::spec_new(f, vector_len, true, false, false, true); let a2 = a1.evex_only(); let a3 = a2.with_mask(KRegister { encoding: 0 }); (vex_rr_ok(f, a3, dst.encoding, src1.encoding, src2.encoding)) })))
            }),
        ensures
            ({
                let f = old(self).features;
                final(self).appends(*old(self), ({ let a1 = InstructionAttr::spec_new(f, vector_len, true, false, false, true); let a2 = a1.evex_only(); let a3 = a2.with_mask(KRegister { encoding: 0 }); (vex_rr_bytes(f, a3, dst.encoding, src1.encoding, src2.encoding, VEX_SIMD_66, VEX_OPCODE_0F) + seq![0x6D, (0xC0 | rr_bits(dst.encoding, src2.encoding))]) }))
            }),
    {
        self.evpunpckhqdq_xkxx(dst, k0(), src1, src2, false, vector_len);
    }

    /// `evpunpckhqdq dst, mask, src1, src2, merge, vector_len`
    pub fn evpunpckhqdq_xkxx(&mut self, dst: XMMRegister, mask: KRegister, src1: XMMRegister, src2: XMMRegister, merge: bool, vector_len: u8)
        requires
            dst.wf(),
            mask.wf(),
            src1.wf(),
            src2.wf(),
            ({
                let f = old(self).features;
                (f.supports_evex()) && (((vector_len == AVX_512BIT) || f.supports_avx512vl()) && ({ let a1 = InstructionAttr::spec_new(f, vector_len, true, false, false, true); let a2 = a1.evex_only(); let a3 = a2.with_mask(mask); (if merge { ({ let a4 = a3.merging(); (vex_rr_ok(f, a4, dst.encoding, src1.encoding, src2.encoding)) }) } else { (vex_rr_ok(f, a3, dst.encoding, src1.encoding, src2.encoding)) }) }))
            }),
        ensures
            ({
                let f = old(self).features;
                final(self).appends(*old(self), ({ let a1 = InstructionAttr::spec_new(f, vector_len, true, false, false, true); let a2 = a1.evex_only(); let a3 = a2.with_mask(mask); (if merge { ({ let a4 = a3.merging(); vex_rr_bytes(f, a4, dst.encoding, src1.encoding, src2.encoding, VEX_SIMD_66, VEX_OPCODE_0F) + seq![0x6D, (0xC0 | rr_bits(dst.encoding, src2.encoding))] }) } else { vex_rr_bytes(f, a3, dst.encoding, src1.encoding, src2.encoding, VEX_SIMD_66, VEX_OPCODE_0F) + seq![0x6D, (0xC0 | rr_bits(dst.encoding, src2.encoding))] }) }))
            }),
    {
        let mut attributes = InstructionAttr::new(&self.features, vector_len, true, false, false, true);
        attributes.set_is_evex_instruction();
        attributes.set_embedded_opmask_register_specifier(mask);
        if merge {
            attributes.reset_is_clear_context();
            let encode = self.vex_prefix_and_encode(dst.encoding, src1.encoding, src2.encoding, VEX_SIMD_66, VEX_OPCODE_0F, &mut attributes);
            self.emit_int16(0x6D, (0xC0 | encode));
        } else {
            let encode = self.vex_prefix_and_encode(dst.encoding, src1.encoding, src2.encoding, VEX_SIMD_66, VEX_OPCODE_0F, &mut attributes);
            self.emit_int16(0x6D, (0xC0 | encode));
        }
    }

    /// `evalignq dst, nds, src, imm8`
    pub fn evalignq(&mut self, dst: XMMRegister, nds: XMMRegister, src: XMMRegister, imm8: u8)
        requires
            dst.wf(),
            nds.wf(),
            src.wf(),
            ({
                let f = old(self).features;
                (f.supports_evex()) && ({ let a1 = InstructionAttr::spec_new(f, AVX_512BIT, true, false, true, true); let a2 = a1.evex_only(); (vex_rr_ok(f, a2, dst.encoding, nds.encoding, src.encoding)) })
            }),
        ensures
            ({
                let f = old(self).features;
                final(self).appends(*old(self), ({ let a1 = InstructionAttr::spec_new(f, AVX_512BIT, true, false, true, true); let a2 = a1.evex_only(); vex_rr_bytes(f, a2, dst.encoding, nds.encoding, src.encoding, VEX_SIMD_66, VEX_OPCODE_0F_3A) + seq![0x3, (0xC0 | rr_bits(dst.encoding, src.encoding)), imm8] }))
            }),
    {
        let mut attributes = InstructionAttr::new(&self.features, AVX_512BIT, true, false, true, true);
        attributes.set_is_evex_instruction();
        let encode = self.vex_prefix_and_encode(dst.encoding, nds.encoding, src.encoding, VEX_SIMD_66, VEX_OPCODE_0F_3A, &mut attributes);
        self.emit_int24(0x3, (0xC0 | encode), imm8);
    }

    /// `vrndscalepd dst, src, rmode, vector_len`
    pub fn vrndscalepd(&mut self, dst: XMMRegister, src: XMMRegister, rmode: i32, vector_len: u8)
        requires
            dst.wf(),
            src.wf(),
            ({
                let f = old(self).features;
                (f.supports_evex()) && ({ let a1 = InstructionAttr::spec_new(f, vector_len, true, false, true, true); let a2 = a1.evex_only(); (vex_rr_ok(f, a2, dst.encoding, 0, src.encoding)) })
            }),
        ensures
            ({
                let f = old(self).features;
                final(self).appends(*old(self), ({ let a1 = InstructionAttr::spec_new(f, vector_len, true, false, true, true); let a2 = a1.evex_only(); vex_rr_bytes(f, a2, dst.encoding, 0, src.encoding, VEX_SIMD_66, VEX_OPCODE_0F_3A) + seq![0x09, (0xC0 | rr_bits(dst.encoding, src.encoding)), low8(rmode)] }))
            }),
    {
        let mut attributes = InstructionAttr::new(&self.features, vector_len, true, false, true, true);
        attributes.set_is_evex_instruction();
        let encode = self.vex_prefix_and_encode(dst.encoding, 0, src.encoding, VEX_SIMD_66, VEX_OPCODE_0F_3A, &mut attributes);
        self.emit_int24(0x09, (0xC0 | encode), low8_exec(rmode));
    }

    /// `vrndscalepd dst, [src], rmode, vector_len`
    pub fn vrndscalepd_xmi(&mut self, dst: XMMRegister, src: Address, rmode: i32, vector_len: u8)
        requires
            dst.wf(),
            src.wf(),
            ({
                let f = old(self).features;
                (f.supports_evex()) && ({ let a1 = InstructionAttr::spec_new(f, vector_len, true, false, true, true); let a2 = a1.evex_only(); let a3 = a2.with_address(f, EVEX_FV, EVEX_64BIT); (vex_adr_ok(f, a3, 0, dst.encoding, src)) })
            }),
        ensures
            ({
                let f = old(self).features;
                final(self).appends(*old(self), ({ let a1 = InstructionAttr::spec_new(f, vector_len, true, false, true, true); let a2 = a1.evex_only(); let a3 = a2.with_address(f, EVEX_FV, EVEX_64BIT); vex_adr_bytes(f, a3, src, 0, dst.encoding, VEX_SIMD_66, VEX_OPCODE_0F_3A) + ({ let a4 = vex_adr_attr(f, a3, 0, dst.encoding); seq![0x09] + address_bytes(f, Some(a4), dst.encoding, src, true) + seq![low8(rmode)] }) }))
            }),
    {
        let mut attributes = InstructionAttr::new(&self.features, vector_len, true, false, true, true);
        attributes.set_is_evex_instruction();
        attributes.set_address_attributes(&self.features, EVEX_FV, EVEX_64BIT);
        self.vex_prefix(&src, 0, dst.encoding, VEX_SIMD_66, VEX_OPCODE_0F_3A, &mut attributes);
        self.emit_int8(0x09);
        self.emit_operand_attr(dst.encoding, &src, &attributes, true);
        self.emit_int8(low8_exec(rmode));
    }

    /// `evpmullq dst, nds, src, vector_len`
    pub fn evpmullq(&mut self, dst: XMMRegister, nds: XMMRegister, src: XMMRegister, vector_len: u8)
        requires
            dst.wf(),
            nds.wf(),
            src.wf(),
            ({
                let f = old(self).features;
                (f.use_avx > 2) && ({ let a1 = InstructionAttr::spec_new(f, vector_len, true, f.legacy_mode_dq(), true, true); let a2 = a1.evex_only(); (vex_rr_ok(f, a2, dst.encoding, nds.encoding, src.encoding)) })
            }),
        ensures
            ({
                let f = old(self).features;
                final(self).appends(*old(self), ({ let a1 = InstructionAttr::spec_new(f, vector_len, true, f.legacy_mode_dq(), true, true); let a2 = a1.evex_only(); vex_rr_bytes(f, a2, dst.encoding, nds.encoding, src.encoding, VEX_SIMD_66, VEX_OPCODE_0F_38) + seq![0x40, (0xC0 | rr_bits(dst.encoding, src.encoding))] }))
            }),
    {
        let mut attributes = InstructionAttr::new(&self.features, vector_len, true, self.features.legacy_mode_dq(), true, true);
        attributes.set_is_evex_instruction();
        let encode = self.vex_prefix_and_encode(dst.encoding, nds.encoding, src.encoding, VEX_SIMD_66, VEX_OPCODE_0F_38, &mut attributes);
        self.emit_int16(0x40, (0xC0 | encode));
    }

    /// `evpmullq dst, nds, [src], vector_len`
    pub fn evpmullq_xxm(&mut self, dst: XMMRegister, nds: XMMRegister, src: Address, vector_len: u8)
        requires
            dst.wf(),
            nds.wf(),
            src.wf(),
            ({
                let f = old(self).features;
                (f.use_avx > 2) && ({ let a1 = InstructionAttr::spec_new(f, vector_len, true, f.legacy_mode_dq(), true, true); let a2 = a1.with_address(f, EVEX_FV, EVEX_64BIT); let a3 = a2.evex_only(); (vex_adr_ok(f, a3, nds.encoding, dst.encoding, src)) })
            }),
        ensures
            ({
                let f = old(self).features;
                final(self).appends(*old(self), ({ let a1 = InstructionAttr::spec_new(f, vector_len, true, f.legacy_mode_dq(), true, true); let a2 = a1.with_address(f, EVEX_FV, EVEX_64BIT); let a3 = a2.evex_only(); vex_adr_bytes(f, a3, src, nds.encoding, dst.encoding, VEX_SIMD_66, VEX_OPCODE_0F_38) + ({ let a4 = vex_adr_attr(f, a3, nds.encoding, dst.encoding); seq![0x40] + address_bytes(f, Some(a4), dst.encoding, src, true) }) }))
            }),
    {
        let mut attributes = InstructionAttr::new(&self.features, vector_len, true, self.features.legacy_mode_dq(), true, true);
        attributes.set_address_attributes(&self.features, EVEX_FV, EVEX_64BIT);
        attributes.set_is_evex_instruction();
        self.vex_prefix(&src, nds.encoding, dst.encoding, VEX_SIMD_66, VEX_OPCODE_0F_38, &mut attributes);
        self.emit_int8(0x40);
        self.emit_operand_attr(dst.encoding, &src, &attributes, true);
    }

    /// `vpminsq dst, nds, src, vector_len`
    pub fn vpminsq(&mut self, dst: XMMRegister, nds: XMMRegister, src: XMMRegister, vector_len: u8)
        requires
            dst.wf(),
            nds.wf(),
            src.wf(),
            ({
                let f = old(self).features;
                (f.use_avx > 2) && ({ let a1 = InstructionAttr::spec_new(f, vector_len, true, false, true, true); let a2 = a1.evex_only(); (vex_rr_ok(f, a2, dst.encoding, nds.encoding, src.encoding)) })
            }),
        ensures
            ({
                let f = old(self).features;
                final(self).appends(*old(self), ({ let a1 = InstructionAttr::spec_new(f, vector_len, true, false, true, true); let a2 = a1.evex_only(); vex_rr_bytes(f, a2, dst.encoding, nds.encoding, src.encoding, VEX_SIMD_66, VEX_OPCODE_0F_38) + seq![0x39, (0xC0 | rr_bits(dst.encoding, src.encoding))] }))
            }),
    {
        let mut attributes = InstructionAttr::new(&self.features, vector_len, true, false, true, true);
        attributes.set_is_evex_instruction();
        let encode = self.vex_prefix_and_encode(dst.encoding, nds.encoding, src.encoding, VEX_SIMD_66, VEX_OPCODE_0F_38, &mut attributes);
        self.emit_int16(0x39, (0xC0 | encode));
    }

    /// `vpmaxsq dst, nds, src, vector_len`
    pub fn vpmaxsq(&mut self, dst: XMMRegister, nds: XMMRegister, src: XMMRegister, vector_len: u8)
        requires
            dst.wf(),
            nds.wf(),
            src.wf(),
            ({
                let f = old(self).features;
                (f.use_avx > 2) && ({ let a1 = InstructionAttr::spec_new(f, vector_len, true, false, true, true); let a2 = a1.evex_only(); (vex_rr_ok(f, a2, dst.encoding, nds.encoding, src.encoding)) })
            }),
        ensures
            ({
                let f = old(self).features;
                final(self).appends(*old(self), ({ let a1 = InstructionAttr::spec_new(f, vector_len, true, false, true, true); let a2 = a1.evex_only(); vex_rr_bytes(f, a2, dst.encoding, nds.encoding, src.encoding, VEX_SIMD_66, VEX_OPCODE_0F_38) + seq![0x3D, (0xC0 | rr_bits(dst.encoding, src.encoding))] }))
            }),
    {
        let mut attributes = InstructionAttr::new(&self.features, vector_len, true, false, true, true);
        attributes.set_is_evex_instruction();
        let encode = self.vex_prefix_and_encode(dst.encoding, nds.encoding, src.encoding, VEX_SIMD_66, VEX_OPCODE_0F_38, &mut attributes);
        self.emit_int16(0x3D, (0xC0 | encode));
    }

    /// `evpsrlvw dst, nds, src, vector_len`
    pub fn evpsrlvw(&mut self, dst: XMMRegister, nds: XMMRegister, src: XMMRegister, vector_len: u8)
        requires
            dst.wf(),
            nds.wf(),
            src.wf(),
            ({
                let f = old(self).features;
                (f.supports_avx512bw()) && ({ let a1 = InstructionAttr::spec_new(f, vector_len, true, false, true, true); let a2 = a1.evex_only(); (vex_rr_ok(f, a2, dst.encoding, nds.encoding, src.encoding)) })
            }),
        ensures
            ({
                let f = old(self).features;
                final(self).appends(*old(self), ({ let a1 = InstructionAttr::spec_new(f, vector_len, true, false, true, true); let a2 = a1.evex_only(); vex_rr_bytes(f, a2, dst.encoding, nds.encoding, src.encoding, VEX_SIMD_66, VEX_OPCODE_0F_38) + seq![0x10, (0xC0 | rr_bits(dst.encoding, src.encoding))] }))
            }),
    {
        let mut attributes = InstructionAttr::new(&self.features, vector_len, true, false, true, true);
        attributes.set_is_evex_instruction();
        let encode = self.vex_prefix_and_encode(dst.encoding, nds.encoding, src.encoding, VEX_SIMD_66, VEX_OPCODE_0F_38, &mut attributes);
        self.emit_int16(0x10, (0xC0 | encode));
    }

    /// `evpsllvw dst, nds, src, vector_len`
    pub fn evpsllvw(&mut self, dst: XMMRegister, nds: XMMRegister, src: XMMRegister, vector_len: u8)
        requires
            dst.wf(),
            nds.wf(),
            src.wf(),
            ({
                let f = old(self).features;
                (f.supports_avx512bw()) && ({ let a1 = InstructionAttr::spec_new(f, vector_len, true, false, true, true); let a2 = a1.evex_only(); (vex_rr_ok(f, a2, dst.encoding, nds.encoding, src.encoding)) })
            }),
        ensures
            ({
                let f = old(self).features;
                final(self).appends(*old(self), ({ let a1 = InstructionAttr::spec_new(f, vector_len, true, false, true, true); let a2 = a1.evex_only(); vex_rr_bytes(f, a2, dst.encoding, nds.encoding, src.encoding, VEX_SIMD_66, VEX_OPCODE_0F_38) + seq![0x12, (0xC0 | rr_bits(dst.encoding, src.encoding))] }))
            }),
    {
        let mut attributes = InstructionAttr::new(&self.features, vector_len, true, false, true, true);
        attributes.set_is_evex_instruction();
        let encode = self.vex_prefix_and_encode(dst.encoding, nds.encoding, src.encoding, VEX_SIMD_66, VEX_OPCODE_0F_38, &mut attributes);
        self.emit_int16(0x12, (0xC0 | encode));
    }

    /// `evpsraq dst, src, shift, vector_len`
    pub fn evpsraq_xxi(&mut self, dst: XMMRegister, src: XMMRegister, shift: i32, vector_len: u8)
        requires
            dst.wf(),
            src.wf(),
            ({
                let f = old(self).features;
                (f.use_avx > 2) && ((f.supports_avx512vl() || (vector_len == 2)) && ({ let a1 = InstructionAttr::spec_new(f, vector_len, true, false, true, true); let a2 = a1.evex_only(); (vex_rr_ok(f, a2, 4, dst.encoding, src.encoding)) }))
            }),
        ensures
            ({
                let f = old(self).features;
                final(self).appends(*old(self), ({ let a1 = InstructionAttr::spec_new(f, vector_len, true, false, true, true); let a2 = a1.evex_only(); vex_rr_bytes(f, a2, 4, dst.encoding, src.encoding, VEX_SIMD_66, VEX_OPCODE_0F) + seq![0x72, (0xC0 | rr_bits(4, src.encoding)), low8(shift)] }))
            }),
    {
        let mut attributes = InstructionAttr::new(&self.features, vector_len, true, false, true, true);
        attributes.set_is_evex_instruction();
        let encode = self.vex_prefix_and_encode(4, dst.encoding, src.encoding, VEX_SIMD_66, VEX_OPCODE_0F, &mut attributes);
        self.emit_int24(0x72, (0xC0 | encode), low8_exec(shift));
    }

    /// `evpsraq dst, src, shift, vector_len`
    pub fn evpsraq(&mut self, dst: XMMRegister, src: XMMRegister, shift: XMMRegister, vector_len: u8)
        requires
            dst.wf(),
            src.wf(),
            shift.wf(),
            ({
                let f = old(self).features;
                (f.use_avx > 2) && ((f.supports_avx512vl() || (vector_len == 2)) && ({ let a1 = InstructionAttr::spec_new(f, vector_len, true, false, true, true); let a2 = a1.evex_only(); (vex_rr_ok(f, a2, dst.encoding, src.encoding, shift.encoding)) }))
            }),
        ensures
            ({
                let f = old(self).features;
                final(self).appends(*old(self), ({ let a1 = InstructionAttr::spec_new(f, vector_len, true, false, true, true); let a2 = a1.evex_only(); vex_rr_bytes(f, a2, dst.encoding, src.encoding, shift.encoding, VEX_SIMD_66, VEX_OPCODE_0F) + seq![0xE2, (0xC0 | rr_bits(dst.encoding, shift.encoding))] }))
            }),
    {
        let mut attributes = InstructionAttr::new(&self.features, vector_len, true, false, true, true);
        attributes.set_is_evex_instruction();
        let encode = self.vex_prefix_and_encode(dst.encoding, src.encoding, shift.encoding, VEX_SIMD_66, VEX_OPCODE_0F, &mut attributes);
        self.emit_int16(0xE2, (0xC0 | encode));
    }

    /// `evpandq dst, nds, src, vector_len`
    pub fn evpandq(&mut self, dst: XMMRegister, nds: XMMRegister, src: XMMRegister, vector_len: u8)
        requires
            dst.wf(),
            nds.wf(),
            src.wf(),
            ({
                let f = old(self).features;
                ((f.supports_evex()) && (((vector_len == AVX_512BIT) || f.supports_avx512vl()) && ({ let a1 = InstructionAttr::spec_new(f, vector_len, true, false, false, true); let a2 = a1.evex_only(); let a3 = a2.with_mask(KRegister { encoding: 0 }); (vex_rr_ok(f, a3, dst.encoding, nds.encoding, src.encoding)) })))
            }),
        ensures
            ({
                let f = old(self).features;
                final(self).appends(*old(self), ({ let a1 = InstructionAttr::spec_new(f, vector_len, true, false, false, true); let a2 = a1.evex_only(); let a3 = a2.with_mask(KRegister { encoding: 0 }); (vex_rr_bytes(f, a3, dst.encoding, nds.encoding, src.encoding, VEX_SIMD_66, VEX_OPCODE_0F) + seq![0xDB, (0xC0 | rr_bits(dst.encoding, src.encoding))]) }))
            }),
    {
        self.evpandq_xkxx(dst, k0(), nds, src, false, vector_len);
    }

    /// `evpandq dst, nds, [src], vector_len`
    pub fn evpandq_xxm(&mut self, dst: XMMRegister, nds: XMMRegister, src: Address, vector_len: u8)
        requires
            dst.wf(),
            nds.wf(),
            src.wf(),
            ({
                let f = old(self).features;
                ((f.supports_evex()) && (((vector_len == AVX_512BIT) || f.supports_avx512vl()) && ({ let a1 = InstructionAttr::spec_new(f, vector_len, true, false, false, true); let a2 = a1.with_address(f, EVEX_FV, EVEX_32BIT); let a3 = a2.evex_only(); let a4 = a3.with_mask(KRegister { encoding: 0 }); (vex_adr_ok(f, a4, nds.encoding, dst.encoding, src)) })))
            }),
        ensures
            ({
                let f = old(self).features;
                final(self).appends(*old(self), ({ let a1 = InstructionAttr::spec_new(f, vector_len, true, false, false, true); let a2 = a1.with_address(f, EVEX_FV, EVEX_32BIT); let a3 = a2.evex_only(); let a4 = a3.with_mask(KRegister { encoding: 0 }); (vex_adr_bytes(f, a4, src, nds.encoding, dst.encoding, VEX_SIMD_66, VEX_OPCODE_0F) + ({ let a7 = vex_adr_attr(f, a4, nds.encoding, dst.encoding); seq![0xDB] + address_bytes(f, Some(a7), dst.encoding, src, true) })) }))
            }),
    {
        self.evpandq_xkxm(dst, k0(), nds, src, false, vector_len);
    }

    /// `evpsravw dst, nds, src, vector_len`
    pub fn evpsravw(&mut self, dst: XMMRegister, nds: XMMRegister, src: XMMRegister, vector_len: u8)
        requires
            dst.wf(),
            nds.wf(),
            src.wf(),
            ({
                let f = old(self).features;
                (f.supports_avx512bw()) && ({ let a1 = InstructionAttr::spec_new(f, vector_len, true, false, true, true); let a2 = a1.evex_only(); (vex_rr_ok(f, a2, dst.encoding, nds.encoding, src.encoding)) })
            }),
        ensures
            ({
                let f = old(self).features;
                final(self).appends(*old(self), ({ let a1 = InstructionAttr::spec_new(f, vector_len, true, false, true, true); let a2 = a1.evex_only(); vex_rr_bytes(f, a2, dst.encoding, nds.encoding, src.encoding, VEX_SIMD_66, VEX_OPCODE_0F_38) + seq![0x11, (0xC0 | rr_bits(dst.encoding, src.encoding))] }))
            }),
    {
        let mut attributes = InstructionAttr::new(&self.features, vector_len, true, false, true, true);
        attributes.set_is_evex_instruction();
        let encode = self.vex_prefix_and_encode(dst.encoding, nds.encoding, src.encoding, VEX_SIMD_66, VEX_OPCODE_0F_38, &mut attributes);
        self.emit_int16(0x11, (0xC0 | encode));
    }

    /// `evpsravq dst, src, shift, vector_len`
    pub fn evpsravq(&mut self, dst: XMMRegister, src: XMMRegister, shift: XMMRegister, vector_len: u8)
        requires
            dst.wf(),
            src.wf(),
            shift.wf(),
            ({
                let f = old(self).features;
                (f.use_avx > 2) && (((vector_len == AVX_512BIT) || f.supports_avx512vl()) && ({ let a1 = InstructionAttr::spec_new(f, vector_len, true, false, true, true); let a2 = a1.evex_only(); (vex_rr_ok(f, a2, dst.encoding, src.encoding, shift.encoding)) }))
            }),
        ensures
            ({
                let f = old(self).features;
                final(self).appends(*old(self), ({ let a1 = InstructionAttr::spec_new(f, vector_len, true, false, true, true); let a2 = a1.evex_only(); vex_rr_bytes(f, a2, dst.encoding, src.encoding, shift.encoding, VEX_SIMD_66, VEX_OPCODE_0F_38) + seq![0x46, (0xC0 | rr_bits(dst.encoding, shift.encoding))] }))
            }),
    {
        let mut attributes = InstructionAttr::new(&self.features, vector_len, true, false, true, true);
        attributes.set_is_evex_instruction();
        let encode = self.vex_prefix_and_encode(dst.encoding, src.encoding, shift.encoding, VEX_SIMD_66, VEX_OPCODE_0F_38, &mut attributes);
        self.emit_int16(0x46, (0xC0 | encode));
    }

    /// `vpshldvd dst, src, shift, vector_len`
    pub fn vpshldvd(&mut self, dst: XMMRegister, src: XMMRegister, shift: XMMRegister, vector_len: u8)
        requires
            dst.wf(),
            src.wf(),
            shift.wf(),
            ({
                let f = old(self).features;
                (f.supports_avx512_vbmi2()) && ({ let a1 = InstructionAttr::spec_new(f, vector_len, false, false, true, true); let a2 = a1.evex_only(); (vex_rr_ok(f, a2, dst.encoding, src.encoding, shift.encoding)) })
            }),
        ensures
            ({
                let f = old(self).features;
                final(self).appends(*old(self), ({ let a1 = InstructionAttr::spec_new(f, vector_len, false, false, true, true); let a2 = a1.evex_only(); vex_rr_bytes(f, a2, dst.encoding, src.encoding, shift.encoding, VEX_SIMD_66, VEX_OPCODE_0F_38) + seq![0x71, (0xC0 | rr_bits(dst.encoding, shift.encoding))] }))
            }),
    {
        let mut attributes = InstructionAttr::new(&self.features, vector_len, false, false, true, true);
        attributes.set_is_evex_instruction();
        let encode = self.vex_prefix_and_encode(dst.encoding, src.encoding, shift.encoding, VEX_SIMD_66, VEX_OPCODE_0F_38, &mut attributes);
        self.emit_int16(0x71, (0xC0 | encode));
    }

    /// `vpshrdvd dst, src, shift, vector_len`
    pub fn vpshrdvd(&mut self, dst: XMMRegister, src: XMMRegister, shift: XMMRegister, vector_len: u8)
        requires
            dst.wf(),
            src.wf(),
            shift.wf(),
            ({
                let f = old(self).features;
                (f.supports_avx512_vbmi2()) && ({ let a1 = InstructionAttr::spec_new(f, vector_len, false, false, true, true); let a2 = a1.evex_only(); (vex_rr_ok(f, a2, dst.encoding, src.encoding, shift.encoding)) })
            }),
        ensures
            ({
                let f = old(self).features;
                final(self).appends(*old(self), ({ let a1 = InstructionAttr::spec_new(f, vector_len, false, false, true, true); let a2 = a1.evex_only(); vex_rr_bytes(f, a2, dst.encoding, src.encoding, shift.encoding, VEX_SIMD_66, VEX_OPCODE_0F_38) + seq![0x73, (0xC0 | rr_bits(dst.encoding, shift.encoding))] }))
            }),
    {
        let mut attributes = InstructionAttr::new(&self.features, vector_len, false, false, true, true);
        attributes.set_is_evex_instruction();
        let encode = self.vex_prefix_and_encode(dst.encoding, src.encoding, shift.encoding, VEX_SIMD_66, VEX_OPCODE_0F_38, &mut attributes);
        self.emit_int16(0x73, (0xC0 | encode));
    }

    /// `evporq dst, nds, src, vector_len`
    pub fn evporq(&mut self, dst: XMMRegister, nds: XMMRegister, src: XMMRegister, vector_len: u8)
        requires
            dst.wf(),
            nds.wf(),
            src.wf(),
            ({
                let f = old(self).features;
                ((f.supports_evex()) && (((vector_len == AVX_512BIT) || f.supports_avx512vl()) && ({ let a1 = InstructionAttr::spec_new(f, vector_len, true, false, false, true); let a2 = a1.evex_only(); let a3 = a2.with_mask(KRegister { encoding: 0 }); (vex_rr_ok(f, a3, dst.encoding, nds.encoding, src.encoding)) })))
            }),
        ensures
            ({
                let f = old(self).features;
                final(self).appends(*old(self), ({ let a1 = InstructionAttr::spec_new(f, vector_len, true, false, false, true); let a2 = a1.evex_only(); let a3 = a2.with_mask(KRegister { encoding: 0 }); (vex_rr_bytes(f, a3, dst.encoding, nds.encoding, src.encoding, VEX_SIMD_66, VEX_OPCODE_0F) + seq![0xEB, (0xC0 | rr_bits(dst.encoding, src.encoding))]) }))
            }),
    {
        self.evporq_xkxx(dst, k0(), nds, src, false, vector_len);
    }

    /// `evporq dst, nds, [src], vector_len`
    pub fn evporq_xxm(&mut self, dst: XMMRegister, nds: XMMRegister, src: Address, vector_len: u8)
        requires
            dst.wf(),
            nds.wf(),
            src.wf(),
            ({
                let f = old(self).features;
                ((f.supports_evex()) && (((vector_len == AVX_512BIT) || f.supports_avx512vl()) && ({ let a1 = InstructionAttr::spec_new(f, vector_len, true, false, false, true); let a2 = a1.with_address(f, EVEX_FV, EVEX_32BIT); let a3 = a2.evex_only(); let a4 = a3.with_mask(KRegister { encoding: 0 }); (vex_adr_ok(f, a4, nds.encoding, dst.encoding, src)) })))
            }),
        ensures
            ({
                let f = old(self).features;
                final(self).appends(*old(self), ({ let a1 = InstructionAttr::spec_new(f, vector_len, true, false, false, true); let a2 = a1.with_address(f, EVEX_FV, EVEX_32BIT); let a3 = a2.evex_only(); let a4 = a3.with_mask(KRegister { encoding: 0 }); (vex_adr_bytes(f, a4, src, nds.encoding, dst.encoding, VEX_SIMD_66, VEX_OPCODE_0F) + ({ let a7 = vex_adr_attr(f, a4, nds.encoding, dst.encoding); seq![0xEB] + address_bytes(f, Some(a7), dst.encoding, src, true) })) }))
            }),
    {
        self.evporq_xkxm(dst, k0(), nds, src, false, vector_len);
    }

    /// `evpord dst, mask, nds, src, merge, vector_len`
    pub fn evpord(&mut self, dst: XMMRegister, mask: KRegister, nds: XMMRegister, src: XMMRegister, merge: bool, vector_len: u8)
        requires
            dst.wf(),
            mask.wf(),
            nds.wf(),
            src.wf(),
            ({
                let f = old(self).features;
                (f.supports_evex()) && ({ let a1 = InstructionAttr::spec_new(f, vector_len, false, false, false, true); let a2 = a1.evex_only(); let a3 = a2.with_mask(mask); (if merge { ({ let a4 = a3.merging(); (vex_rr_ok(f, a4, dst.encoding, nds.encoding, src.encoding)) }) } else { (vex_rr_ok(f, a3, dst.encoding, nds.encoding, src.encoding)) }) })
            }),
        ensures
            ({
                let f = old(self).features;
                final(self).appends(*old(self), ({ let a1 = InstructionAttr::spec_new(f, vector_len, false, false, false, true); let a2 = a1.evex_only(); let a3 = a2.with_mask(mask); (if merge { ({ let a4 = a3.merging(); vex_rr_bytes(f, a4, dst.encoding, nds.encoding, src.encoding, VEX_SIMD_66, VEX_OPCODE_0F) + seq![0xEB, (0xC0 | rr_bits(dst.encoding, src.encoding))] }) } else { vex_rr_bytes(f, a3, dst.encoding, nds.encoding, src.encoding, VEX_SIMD_66, VEX_OPCODE_0F) + seq![0xEB, (0xC0 | rr_bits(dst.encoding, src.encoding))] }) }))
            }),
    {
        let mut attributes = InstructionAttr::new(&self.features, vector_len, false, false, false, true);
        attributes.set_is_evex_instruction();
        attributes.set_embedded_opmask_register_specifier(mask);
        if merge {
            attributes.reset_is_clear_context();
            let encode = self.vex_prefix_and_encode(dst.encoding, nds.encoding, src.encoding, VEX_SIMD_66, VEX_OPCODE_0F, &mut attributes);
            self.emit_int16(0xEB, (0xC0 | encode));
        } else {
            let encode = self.vex_prefix_and_encode(dst.encoding, nds.encoding, src.encoding, VEX_SIMD_66, VEX_OPCODE_0F, &mut attributes);
            self.emit_int16(0xEB, (0xC0 | encode));
        }
    }

    /// `evpord dst, mask, nds, [src], merge, vector_len`
    pub fn evpord_xkxm(&mut self, dst: XMMRegister, mask: KRegister, nds: XMMRegister, src: Address, merge: bool, vector_len: u8)
        requires
            dst.wf(),
            mask.wf(),
            nds.wf(),
            src.wf(),
            ({
                let f = old(self).features;
                (f.supports_evex()) && ({ let a1 = InstructionAttr::spec_new(f, vector_len, false, false, false, true); let a2 = a1.with_address(f, EVEX_FV, EVEX_NOBIT); let a3 = a2.evex_only(); let a4 = a3.with_mask(mask); (if merge { ({ let a5 = a4.merging(); (vex_adr_ok(f, a5, nds.encoding, dst.encoding, src)) }) } else { (vex_adr_ok(f, a4, nds.encoding, dst.encoding, src)) }) })
            }),
        ensures
            ({
                let f = old(self).features;
                final(self).appends(*old(self), ({ let a1 = InstructionAttr::spec_new(f, vector_len, false, false, false, true); let a2 = a1.with_address(f, EVEX_FV, EVEX_NOBIT); let a3 = a2.evex_only(); let a4 = a3.with_mask(mask); (if merge { ({ let a5 = a4.merging(); vex_adr_bytes(f, a5, src, nds.encoding, dst.encoding, VEX_SIMD_66, VEX_OPCODE_0F) + ({ let a6 = vex_adr_attr(f, a5, nds.encoding, dst.encoding); seq![0xEB] + address_bytes(f, Some(a6), dst.encoding, src, true) }) }) } else { vex_adr_bytes(f, a4, src, nds.encoding, dst.encoding, VEX_SIMD_66, VEX_OPCODE_0F) + ({ let a7 = vex_adr_attr(f, a4, nds.encoding, dst.encoding); seq![0xEB] + address_bytes(f, Some(a7), dst.encoding, src, true) }) }) }))
            }),
    {
        let mut attributes = InstructionAttr::new(&self.features, vector_len, false, false, false, true);
        attributes.set_address_attributes(&self.features, EVEX_FV, EVEX_NOBIT);
        attributes.set_is_evex_instruction();
        attributes.set_embedded_opmask_register_specifier(mask);
        if merge {
            attributes.reset_is_clear_context();
            self.vex_prefix(&src, nds.encoding, dst.encoding, VEX_SIMD_66, VEX_OPCODE_0F, &mut attributes);
            self.emit_int8(0xEB);
            self.emit_operand_attr(dst.encoding, &src, &attributes, true);
        } else {
            self.vex_prefix(&src, nds.encoding, dst.encoding, VEX_SIMD_66, VEX_OPCODE_0F, &mut attributes);
            self.emit_int8(0xEB);
            self.emit_operand_attr(dst.encoding, &src, &attributes, true);
        }
    }

    /// `evpxord dst, mask, nds, src, merge, vector_len`
    pub fn evpxord(&mut self, dst: XMMRegister, mask: KRegister, nds: XMMRegister, src: XMMRegister, merge: bool, vector_len: u8)
        requires
            dst.wf(),
            mask.wf(),
            nds.wf(),
            src.wf(),
            ({
                let f = old(self).features;
                ((vector_len == AVX_512BIT) || f.supports_avx512vl()) && ({ let a1 = InstructionAttr::spec_new(f, vector_len, false, false, false, true); let a2 = a1.evex_only(); let a3 = a2.with_mask(mask); (if merge { ({ let a4 = a3.merging(); (vex_rr_ok(f, a4, dst.encoding, nds.encoding, src.encoding)) }) } else { (vex_rr_ok(f, a3, dst.encoding, nds.encoding, src.encoding)) }) })
            }),
        ensures
            ({
                let f = old(self).features;
                final(self).appends(*old(self), ({ let a1 = InstructionAttr::spec_new(f, vector_len, false, false, false, true); let a2 = a1.evex_only(); let a3 = a2.with_mask(mask); (if merge { ({ let a4 = a3.merging(); vex_rr_bytes(f, a4, dst.encoding, nds.encoding, src.encoding, VEX_SIMD_66, VEX_OPCODE_0F) + seq![0xEF, (0xC0 | rr_bits(dst.encoding, src.encoding))] }) } else { vex_rr_bytes(f, a3, dst.encoding, nds.encoding, src.encoding, VEX_SIMD_66, VEX_OPCODE_0F) + seq![0xEF, (0xC0 | rr_bits(dst.encoding, src.encoding))] }) }))
            }),
    {
        let mut attributes = InstructionAttr::new(&self.features, vector_len, false, false, false, true);
        attributes.set_is_evex_instruction();
        attributes.set_embedded_opmask_register_specifier(mask);
        if merge {
            attributes.reset_is_clear_context();
            let encode = self.vex_prefix_and_encode(dst.encoding, nds.encoding, src.encoding, VEX_SIMD_66, VEX_OPCODE_0F, &mut attributes);
            self.emit_int16(0xEF, (0xC0 | encode));
        } else {
            let encode = self.vex_prefix_and_encode(dst.encoding, nds.encoding, src.encoding, VEX_SIMD_66, VEX_OPCODE_0F, &mut attributes);
            self.emit_int16(0xEF, (0xC0 | encode));
        }
    }

    /// `evpxord dst, mask, nds, [src], merge, vector_len`
    pub fn evpxord_xkxm(&mut self, dst: XMMRegister, mask: KRegister, nds: XMMRegister, src: Address, merge: bool, vector_len: u8)
        requires
            dst.wf(),
            mask.wf(),
            nds.wf(),
            src.wf(),
            ({
                let f = old(self).features;
                ((vector_len == AVX_512BIT) || f.supports_avx512vl()) && ({ let a1 = InstructionAttr::spec_new(f, vector_len, false, false, false, true); let a2 = a1.with_address(f, EVEX_FV, EVEX_32BIT); let a3 = a2.evex_only(); let a4 = a3.with_mask(mask); (if merge { ({ let a5 = a4.merging(); (vex_adr_ok(f, a5, nds.encoding, dst.encoding, src)) }) } else { (vex_adr_ok(f, a4, nds.encoding, dst.encoding, src)) }) })
            }),
        ensures
            ({
                let f = old(self).features;
                final(self).appends(*old(self), ({ let a1 = InstructionAttr::spec_new(f, vector_len, false, false, false, true); let a2 = a1.with_address(f, EVEX_FV, EVEX_32BIT); let a3 = a2.evex_only(); let a4 = a3.with_mask(mask); (if merge { ({ let a5 = a4.merging(); vex_adr_bytes(f, a5, src, nds.encoding, dst.encoding, VEX_SIMD_66, VEX_OPCODE_0F) + ({ let a6 = vex_adr_attr(f, a5, nds.encoding, dst.encoding); seq![0xEF] + address_bytes(f, Some(a6), dst.encoding, src, true) }) }) } else { vex_adr_bytes(f, a4, src, nds.encoding, dst.encoding, VEX_SIMD_66, VEX_OPCODE_0F) + ({ let a7 = vex_adr_attr(f, a4, nds.encoding, dst.encoding); seq![0xEF] + address_bytes(f, Some(a7), dst.encoding, src, true) }) }) }))
            }),
    {
        let mut attributes = InstructionAttr::new(&self.features, vector_len, false, false, false, true);
        attributes.set_address_attributes(&self.features, EVEX_FV, EVEX_32BIT);
        attributes.set_is_evex_instruction();
        attributes.set_embedded_opmask_register_specifier(mask);
        if merge {
            attributes.reset_is_clear_context();
            self.vex_prefix(&src, nds.encoding, dst.encoding, VEX_SIMD_66, VEX_OPCODE_0F, &mut attributes);
            self.emit_int8(0xEF);
            self.emit_operand_attr(dst.encoding, &src, &attributes, true);
        } else {
            self.vex_prefix(&src, nds.encoding, dst.encoding, VEX_SIMD_66, VEX_OPCODE_0F, &mut attributes);
            self.emit_int8(0xEF);
            self.emit_operand_attr(dst.encoding, &src, &attributes, true);
        }
    }

    /// `evpxorq dst, mask, nds, src, merge, vector_len`
    pub fn evpxorq_xkxx(&mut self, dst: XMMRegister, mask: KRegister, nds: XMMRegister, src: XMMRegister, merge: bool, vector_len: u8)
        requires
            dst.wf(),
            mask.wf(),
            nds.wf(),
            src.wf(),
            ({
                let f = old(self).features;
                ((vector_len == AVX_512BIT) || f.supports_avx512vl()) && ({ let a1 = InstructionAttr::spec_new(f, vector_len, true, false, false, true); let a2 = a1.evex_only(); let a3 = a2.with_mask(mask); (if merge { ({ let a4 = a3.merging(); (vex_rr_ok(f, a4, dst.encoding, nds.encoding, src.encoding)) }) } else { (vex_rr_ok(f, a3, dst.encoding, nds.encoding, src.encoding)) }) })
            }),
        ensures
            ({
                let f = old(self).features;
                final(self).appends(*old(self), ({ let a1 = InstructionAttr::spec_new(f, vector_len, true, false, false, true); let a2 = a1.evex_only(); let a3 = a2.with_mask(mask); (if merge { ({ let a4 = a3.merging(); vex_rr_bytes(f, a4, dst.encoding, nds.encoding, src.encoding, VEX_SIMD_66, VEX_OPCODE_0F) + seq![0xEF, (0xC0 | rr_bits(dst.encoding, src.encoding))] }) } else { vex_rr_bytes(f, a3, dst.encoding, nds.encoding, src.encoding, VEX_SIMD_66, VEX_OPCODE_0F) + seq![0xEF, (0xC0 | rr_bits(dst.encoding, src.encoding))] }) }))
            }),
    {
        let mut attributes = InstructionAttr::new(&self.features, vector_len, true, false, false, true);
        attributes.set_is_evex_instruction();
        attributes.set_embedded_opmask_register_specifier(mask);
        if merge {
            attributes.reset_is_clear_context();
            let encode = self.vex_prefix_and_encode(dst.encoding, nds.encoding, src.encoding, VEX_SIMD_66, VEX_OPCODE_0F, &mut attributes);
            self.emit_int16(0xEF, (0xC0 | encode));
        } else {
            let encode = self.vex_prefix_and_encode(dst.encoding, nds.encoding, src.encoding, VEX_SIMD_66, VEX_OPCODE_0F, &mut attributes);
            self.emit_int16(0xEF, (0xC0 | encode));
        }
    }

    /// `evpxorq dst, mask, nds, [src], merge, vector_len`
    pub fn evpxorq_xkxm(&mut self, dst: XMMRegister, mask: KRegister, nds: XMMRegister, src: Address, merge: bool, vector_len: u8)
        requires
            dst.wf(),
            mask.wf(),
            nds.wf(),
            src.wf(),
            ({
                let f = old(self).features;
                ((vector_len == AVX_512BIT) || f.supports_avx512vl()) && ({ let a1 = InstructionAttr::spec_new(f, vector_len, true, false, false, true); let a2 = a1.with_address(f, EVEX_FV, EVEX_32BIT); let a3 = a2.evex_only(); let a4 = a3.with_mask(mask); (if merge { ({ let a5 = a4.merging(); (vex_adr_ok(f, a5, nds.encoding, dst.encoding, src)) }) } else { (vex_adr_ok(f, a4, nds.encoding, dst.encoding, src)) }) })
            }),
        ensures
            ({
                let f = old(self).features;
                final(self).appends(*old(self), ({ let a1 = InstructionAttr::spec_new(f, vector_len, true, false, false, true); let a2 = a1.with_address(f, EVEX_FV, EVEX_32BIT); let a3 = a2.evex_only(); let a4 = a3.with_mask(mask); (if merge { ({ let a5 = a4.merging(); vex_adr_bytes(f, a5, src, nds.encoding, dst.encoding, VEX_SIMD_66, VEX_OPCODE_0F) + ({ let a6 = vex_adr_attr(f, a5, nds.encoding, dst.encoding); seq![0xEF] + address_bytes(f, Some(a6), dst.encoding, src, true) }) }) } else { vex_adr_bytes(f, a4, src, nds.encoding, dst.encoding, VEX_SIMD_66, VEX_OPCODE_0F) + ({ let a7 = vex_adr_attr(f, a4, nds.encoding, dst.encoding); seq![0xEF] + address_bytes(f, Some(a7), dst.encoding, src, true) }) }) }))
            }),
    {
        let mut attributes = InstructionAttr::new(&self.features, vector_len, true, false, false, true);
        attributes.set_address_attributes(&self.features, EVEX_FV, EVEX_32BIT);
        attributes.set_is_evex_instruction();
        attributes.set_embedded_opmask_register_specifier(mask);
        if merge {
            attributes.reset_is_clear_context();
            self.vex_prefix(&src, nds.encoding, dst.encoding, VEX_SIMD_66, VEX_OPCODE_0F, &mut attributes);
            self.emit_int8(0xEF);
            self.emit_operand_attr(dst.encoding, &src, &attributes, true);
        } else {
            self.vex_prefix(&src, nds.encoding, dst.encoding, VEX_SIMD_66, VEX_OPCODE_0F, &mut attributes);
            self.emit_int8(0xEF);
            self.emit_operand_attr(dst.encoding, &src, &attributes, true);
        }
    }

    /// `evpandd dst, mask, nds, [src], merge, vector_len`
    pub fn evpandd_xkxm(&mut self, dst: XMMRegister, mask: KRegister, nds: XMMRegister, src: Address, merge: bool, vector_len: u8)
        requires
            dst.wf(),
            mask.wf(),
            nds.wf(),
            src.wf(),
            ({
                let f = old(self).features;
                ((vector_len == AVX_512BIT) || f.supports_avx512vl()) && ({ let a1 = InstructionAttr::spec_new(f, vector_len, false, false, false, true); let a2 = a1.with_address(f, EVEX_FV, EVEX_32BIT); let a3 = a2.evex_only(); let a4 = a3.with_mask(mask); (if merge { ({ let a5 = a4.merging(); (vex_adr_ok(f, a5, nds.encoding, dst.encoding, src)) }) } else { (vex_adr_ok(f, a4, nds.encoding, dst.encoding, src)) }) })
            }),
        ensures
            ({
                let f = old(self).features;
                final(self).appends(*old(self), ({ let a1 = InstructionAttr::spec_new(f, vector_len, false, false, false, true); let a2 = a1.with_address(f, EVEX_FV, EVEX_32BIT); let a3 = a2.evex_only(); let a4 = a3.with_mask(mask); (if merge { ({ let a5 = a4.merging(); vex_adr_bytes(f, a5, src, nds.encoding, dst.encoding, VEX_SIMD_66, VEX_OPCODE_0F) + ({ let a6 = vex_adr_attr(f, a5, nds.encoding, dst.encoding); seq![0xDB] + address_bytes(f, Some(a6), dst.encoding, src, true) }) }) } else { vex_adr_bytes(f, a4, src, nds.encoding, dst.encoding, VEX_SIMD_66, VEX_OPCODE_0F) + ({ let a7 = vex_adr_attr(f, a4, nds.encoding, dst.encoding); seq![0xDB] + address_bytes(f, Some(a7), dst.encoding, src, true) }) }) }))
            }),
    {
        let mut attributes = InstructionAttr::new(&self.features, vector_len, false, false, false, true);
        attributes.set_address_attributes(&self.features, EVEX_FV, EVEX_32BIT);
        attributes.set_is_evex_instruction();
        attributes.set_embedded_opmask_register_specifier(mask);
        if merge {
            attributes.reset_is_clear_context();
            self.vex_prefix(&src, nds.encoding, dst.encoding, VEX_SIMD_66, VEX_OPCODE_0F, &mut attributes);
            self.emit_int8(0xDB);
            self.emit_operand_attr(dst.encoding, &src, &attributes, true);
        } else {
            self.vex_prefix(&src, nds.encoding, dst.encoding, VEX_SIMD_66, VEX_OPCODE_0F, &mut attributes);
            self.emit_int8(0xDB);
            self.emit_operand_attr(dst.encoding, &src, &attributes, true);
        }
    }

    /// `evpandq dst, mask, nds, src, merge, vector_len`
    pub fn evpandq_xkxx(&mut self, dst: XMMRegister, mask: KRegister, nds: XMMRegister, src: XMMRegister, merge: bool, vector_len: u8)
        requires
            dst.wf(),
            mask.wf(),
            nds.wf(),
            src.wf(),
            ({
                let f = old(self).features;
                (f.supports_evex()) && (((vector_len == AVX_512BIT) || f.supports_avx512vl()) && ({ let a1 = InstructionAttr::spec_new(f, vector_len, true, false, false, true); let a2 = a1.evex_only(); let a3 = a2.with_mask(mask); (if merge { ({ let a4 = a3.merging(); (vex_rr_ok(f, a4, dst.encoding, nds.encoding, src.encoding)) }) } else { (vex_rr_ok(f, a3, dst.encoding, nds.encoding, src.encoding)) }) }))
            }),
        ensures
            ({
                let f = old(self).features;
                final(self).appends(*old(self), ({ let a1 = InstructionAttr::spec_new(f, vector_len, true, false, false, true); let a2 = a1.evex_only(); let a3 = a2.with_mask(mask); (if merge { ({ let a4 = a3.merging(); vex_rr_bytes(f, a4, dst.encoding, nds.encoding, src.encoding, VEX_SIMD_66, VEX_OPCODE_0F) + seq![0xDB, (0xC0 | rr_bits(dst.encoding, src.encoding))] }) } else { vex_rr_bytes(f, a3, dst.encoding, nds.encoding, src.encoding, VEX_SIMD_66, VEX_OPCODE_0F) + seq![0xDB, (0xC0 | rr_bits(dst.encoding, src.encoding))] }) }))
            }),
    {
        let mut attributes = InstructionAttr::new(&self.features, vector_len, true, false, false, true);
        attributes.set_is_evex_instruction();
        attributes.set_embedded_opmask_register_specifier(mask);
        if merge {
            attributes.reset_is_clear_context();
            let encode = self.vex_prefix_and_encode(dst.encoding, nds.encoding, src.encoding, VEX_SIMD_66, VEX_OPCODE_0F, &mut attributes);
            self.emit_int16(0xDB, (0xC0 | encode));
        } else {
            let encode = self.vex_prefix_and_encode(dst.encoding, nds.encoding, src.encoding, VEX_SIMD_66, VEX_OPCODE_0F, &mut attributes);
            self.emit_int16(0xDB, (0xC0 | encode));
        }
    }

    /// `evpandq dst, mask, nds, [src], merge, vector_len`
    pub fn evpandq_xkxm(&mut self, dst: XMMRegister, mask: KRegister, nds: XMMRegister, src: Address, merge: bool, vector_len: u8)
        requires
            dst.wf(),
            mask.wf(),
            nds.wf(),
            src.wf(),
            ({
                let f = old(self).features;
                (f.supports_evex()) && (((vector_len == AVX_512BIT) || f.supports_avx512vl()) && ({ let a1 = InstructionAttr::spec_new(f, vector_len, true, false, false, true); let a2 = a1.with_address(f, EVEX_FV, EVEX_32BIT); let a3 = a2.evex_only(); let a4 = a3.with_mask(mask); (if merge { ({ let a5 = a4.merging(); (vex_adr_ok(f, a5, nds.encoding, dst.encoding, src)) }) } else { (vex_adr_ok(f, a4, nds.encoding, dst.encoding, src)) }) }))
            }),
        ensures
            ({
                let f = old(self).features;
                final(self).appends(*old(self), ({ let a1 = InstructionAttr::spec_new(f, vector_len, true, false, false, true); let a2 = a1.with_address(f, EVEX_FV, EVEX_32BIT); let a3 = a2.evex_only(); let a4 = a3.with_mask(mask); (if merge { ({ let a5 = a4.merging(); vex_adr_bytes(f, a5, src, nds.encoding, dst.encoding, VEX_SIMD_66, VEX_OPCODE_0F) + ({ let a6 = vex_adr_attr(f, a5, nds.encoding, dst.encoding); seq![0xDB] + address_bytes(f, Some(a6), dst.encoding, src, true) }) }) } else { vex_adr_bytes(f, a4, src, nds.encoding, dst.encoding, VEX_SIMD_66, VEX_OPCODE_0F) + ({ let a7 = vex_adr_attr(f, a4, nds.encoding, dst.encoding); seq![0xDB] + address_bytes(f, Some(a7), dst.encoding, src, true) }) }) }))
            }),
    {
        let mut attributes = InstructionAttr::new(&self.features, vector_len, true, false, false, true);
        attributes.set_address_attributes(&self.features, EVEX_FV, EVEX_32BIT);
        attributes.set_is_evex_instruction();
        attributes.set_embedded_opmask_register_specifier(mask);
        if merge {
            attributes.reset_is_clear_context();
            self.vex_prefix(&src, nds.encoding, dst.encoding, VEX_SIMD_66, VEX_OPCODE_0F, &mut attributes);
            self.emit_int8(0xDB);
            self.emit_operand_attr(dst.encoding, &src, &attributes, true);
        } else {
            self.vex_prefix(&src, nds.encoding, dst.encoding, VEX_SIMD_66, VEX_OPCODE_0F, &mut attributes);
            self.emit_int8(0xDB);
            self.emit_operand_attr(dst.encoding, &src, &attributes, true);
        }
    }

    /// `evporq dst, mask, nds, src, merge, vector_len`
    pub fn evporq_xkxx(&mut self, dst: XMMRegister, mask: KRegister, nds: XMMRegister, src: XMMRegister, merge: bool, vector_len: u8)
        requires
            dst.wf(),
            mask.wf(),
            nds.wf(),
            src.wf(),
            ({
                let f = old(self).features;
                (f.supports_evex()) && (((vector_len == AVX_512BIT) || f.supports_avx512vl()) && ({ let a1 = InstructionAttr::spec_new(f, vector_len, true, false, false, true); let a2 = a1.evex_only(); let a3 = a2.with_mask(mask); (if merge { ({ let a4 = a3.merging(); (vex_rr_ok(f, a4, dst.encoding, nds.encoding, src.encoding)) }) } else { (vex_rr_ok(f, a3, dst.encoding, nds.encoding, src.encoding)) }) }))
            }),
        ensures
            ({
                let f = old(self).features;
                final(self).appends(*old(self), ({ let a1 = InstructionAttr::spec_new(f, vector_len, true, false, false, true); let a2 = a1.evex_only(); let a3 = a2.with_mask(mask); (if merge { ({ let a4 = a3.merging(); vex_rr_bytes(f, a4, dst.encoding, nds.encoding, src.encoding, VEX_SIMD_66, VEX_OPCODE_0F) + seq![0xEB, (0xC0 | rr_bits(dst.encoding, src.encoding))] }) } else { vex_rr_bytes(f, a3, dst.encoding, nds.encoding, src.encoding, VEX_SIMD_66, VEX_OPCODE_0F) + seq![0xEB, (0xC0 | rr_bits(dst.encoding, src.encoding))] }) }))
            }),
    {
        let mut attributes = InstructionAttr::new(&self.features, vector_len, true, false, false, true);
        attributes.set_is_evex_instruction();
        attributes.set_embedded_opmask_register_specifier(mask);
        if merge {
            attributes.reset_is_clear_context();
            let encode = self.vex_prefix_and_encode(dst.encoding, nds.encoding, src.encoding, VEX_SIMD_66, VEX_OPCODE_0F, &mut attributes);
            self.emit_int16(0xEB, (0xC0 | encode));
        } else {
            let encode = self.vex_prefix_and_encode(dst.encoding, nds.encoding, src.encoding, VEX_SIMD_66, VEX_OPCODE_0F, &mut attributes);
            self.emit_int16(0xEB, (0xC0 | encode));
        }
    }

    /// `evporq dst, mask, nds, [src], merge, vector_len`
    pub fn evporq_xkxm(&mut self, dst: XMMRegister, mask: KRegister, nds: XMMRegister, src: Address, merge: bool, vector_len: u8)
        requires
            dst.wf(),
            mask.wf(),
            nds.wf(),
            src.wf(),
            ({
                let f = old(self).features;
                (f.supports_evex()) && (((vector_len == AVX_512BIT) || f.supports_avx512vl()) && ({ let a1 = InstructionAttr::spec_new(f, vector_len, true, false, false, true); let a2 = a1.with_address(f, EVEX_FV, EVEX_32BIT); let a3 = a2.evex_only(); let a4 = a3.with_mask(mask); (if merge { ({ let a5 = a4.merging(); (vex_adr_ok(f, a5, nds.encoding, dst.encoding, src)) }) } else { (vex_adr_ok(f, a4, nds.encoding, dst.encoding, src)) }) }))
            }),
        ensures
            ({
                let f = old(self).features;
                final(self).appends(*old(self), ({ let a1 = InstructionAttr::spec_new(f, vector_len, true, false, false, true); let a2 = a1.with_address(f, EVEX_FV, EVEX_32BIT); let a3 = a2.evex_only(); let a4 = a3.with_mask(mask); (if merge { ({ let a5 = a4.merging(); vex_adr_bytes(f, a5, src, nds.encoding, dst.encoding, VEX_SIMD_66, VEX_OPCODE_0F) + ({ let a6 = vex_adr_attr(f, a5, nds.encoding, dst.encoding); seq![0xEB] + address_bytes(f, Some(a6), dst.encoding, src, true) }) }) } else { vex_adr_bytes(f, a4, src, nds.encoding, dst.encoding, VEX_SIMD_66, VEX_OPCODE_0F) + ({ let a7 = vex_adr_attr(f, a4, nds.encoding, dst.encoding); seq![0xEB] + address_bytes(f, Some(a7), dst.encoding, src, true) }) }) }))
            }),
    {
        let mut attributes = InstructionAttr::new(&self.features, vector_len, true, false, false, true);
        attributes.set_address_attributes(&self.features, EVEX_FV, EVEX_32BIT);
        attributes.set_is_evex_instruction();
        attributes.set_embedded_opmask_register_specifier(mask);
        if merge {
            attributes.reset_is_clear_context();
            self.vex_prefix(&src, nds.encoding, dst.encoding, VEX_SIMD_66, VEX_OPCODE_0F, &mut attributes);
            self.emit_int8(0xEB);
            self.emit_operand_attr(dst.encoding, &src, &attributes, true);
        } else {
            self.vex_prefix(&src, nds.encoding, dst.encoding, VEX_SIMD_66, VEX_OPCODE_0F, &mut attributes);
            self.emit_int8(0xEB);
            self.emit_operand_attr(dst.encoding, &src, &attributes, true);
        }
    }

    /// `evpxorq dst, nds, src, vector_len`
    pub fn evpxorq(&mut self, dst: XMMRegister, nds: XMMRegister, src: XMMRegister, vector_len: u8)
        requires
            dst.wf(),
            nds.wf(),
            src.wf(),
            ({
                let f = old(self).features;
                (f.supports_evex()) && ({ let a1 = InstructionAttr::spec_new(f, vector_len, true, false, true, true); let a2 = a1.evex_only(); (vex_rr_ok(f, a2, dst.encoding, nds.encoding, src.encoding)) })
            }),
        ensures
            ({
                let f = old(self).features;
                final(self).appends(*old(self), ({ let a1 = InstructionAttr::spec_new(f, vector_len, true, false, true, true); let a2 = a1.evex_only(); vex_rr_bytes(f, a2, dst.encoding, nds.encoding, src.encoding, VEX_SIMD_66, VEX_OPCODE_0F) + seq![0xEF, (0xC0 | rr_bits(dst.encoding, src.encoding))] }))
            }),
    {
        let mut attributes = InstructionAttr::new(&self.features, vector_len, true, false, true, true);
        attributes.set_is_evex_instruction();
        let encode = self.vex_prefix_and_encode(dst.encoding, nds.encoding, src.encoding, VEX_SIMD_66, VEX_OPCODE_0F, &mut attributes);
        self.emit_int16(0xEF, (0xC0 | encode));
    }

    /// `evpxorq dst, nds, [src], vector_len`
    pub fn evpxorq_xxm(&mut self, dst: XMMRegister, nds: XMMRegister, src: Address, vector_len: u8)
        requires
            dst.wf(),
            nds.wf(),
            src.wf(),
            ({
                let f = old(self).features;
                (f.supports_evex()) && ({ let a1 = InstructionAttr::spec_new(f, vector_len, true, false, true, true); let a2 = a1.evex_only(); let a3 = a2.with_address(f, EVEX_FV, EVEX_64BIT); (vex_adr_ok(f, a3, nds.encoding, dst.encoding, src)) })
            }),
        ensures
            ({
                let f = old(self).features;
                final(self).appends(*old(self), ({ let a1 = InstructionAttr::spec_new(f, vector_len, true, false, true, true); let a2 = a1.evex_only(); let a3 = a2.with_address(f, EVEX_FV, EVEX_64BIT); vex_adr_bytes(f, a3, src, nds.encoding, dst.encoding, VEX_SIMD_66, VEX_OPCODE_0F) + ({ let a4 = vex_adr_attr(f, a3, nds.encoding, dst.encoding); seq![0xEF] + address_bytes(f, Some(a4), dst.encoding, src, true) }) }))
            }),
    {
        let mut attributes = InstructionAttr::new(&self.features, vector_len, true, false, true, true);
        attributes.set_is_evex_instruction();
        attributes.set_address_attributes(&self.features, EVEX_FV, EVEX_64BIT);
        self.vex_prefix(&src, nds.encoding, dst.encoding, VEX_SIMD_66, VEX_OPCODE_0F, &mut attributes);
        self.emit_int8(0xEF);
        self.emit_operand_attr(dst.encoding, &src, &attributes, true);
    }

    /// `evprold dst, src, shift, vector_len`
    pub fn evprold(&mut self, dst: XMMRegister, src: XMMRegister, shift: i32, vector_len: u8)
        requires
            dst.wf(),
            src.wf(),
            ({
                let f = old(self).features;
                (f.supports_evex()) && (((vector_len == AVX_512BIT) || f.supports_avx512vl()) && ({ let a1 = InstructionAttr::spec_new(f, vector_len, false, false, true, true); let a2 = a1.evex_only(); (vex_rr_ok(f, a2, 1, dst.encoding, src.encoding)) }))
            }),
        ensures
            ({
                let f = old(self).features;
                final(self).appends(*old(self), ({ let a1 = InstructionAttr::spec_new(f, vector_len, false, false, true, true); let a2 = a1.evex_only(); vex_rr_bytes(f, a2, 1, dst.encoding, src.encoding, VEX_SIMD_66, VEX_OPCODE_0F) + seq![0x72, (0xC0 | rr_bits(1, src.encoding)), low8(shift)] }))
            }),
    {
        let mut attributes = InstructionAttr::new(&self.features, vector_len, false, false, true, true);
        attributes.set_is_evex_instruction();
        let encode = self.vex_prefix_and_encode(1, dst.encoding, src.encoding, VEX_SIMD_66, VEX_OPCODE_0F, &mut attributes);
        self.emit_int24(0x72, (0xC0 | encode), low8_exec(shift));
    }

    /// `evprolq dst, src, shift, vector_len`
    pub fn evprolq(&mut self, dst: XMMRegister, src: XMMRegister, shift: i32, vector_len: u8)
        requires
            dst.wf(),
            src.wf(),
            ({
                let f = old(self).features;
                (f.supports_evex()) && (((vector_len == AVX_512BIT) || f.supports_avx512vl()) && ({ let a1 = InstructionAttr::spec_new(f, vector_len, true, false, true, true); let a2 = a1.evex_only(); (vex_rr_ok(f, a2, 1, dst.encoding, src.encoding)) }))
            }),
        ensures
            ({
                let f = old(self).features;
                final(self).appends(*old(self), ({ let a1 = InstructionAttr::spec_new(f, vector_len, true, false, true, true); let a2 = a1.evex_only(); vex_rr_bytes(f, a2, 1, dst.encoding, src.encoding, VEX_SIMD_66, VEX_OPCODE_0F) + seq![0x72, (0xC0 | rr_bits(1, src.encoding)), low8(shift)] }))
            }),
    {
        let mut attributes = InstructionAttr::new(&self.features, vector_len, true, false, true, true);
        attributes.set_is_evex_instruction();
        let encode = self.vex_prefix_and_encode(1, dst.encoding, src.encoding, VEX_SIMD_66, VEX_OPCODE_0F, &mut attributes);
        self.emit_int24(0x72, (0xC0 | encode), low8_exec(shift));
    }

    /// `evprord dst, src, shift, vector_len`
    pub fn evprord(&mut self, dst: XMMRegister, src: XMMRegister, shift: i32, vector_len: u8)
        requires
            dst.wf(),
            src.wf(),
            ({
                let f = old(self).features;
                (f.supports_evex()) && (((vector_len == AVX_512BIT) || f.supports_avx512vl()) && ({ let a1 = InstructionAttr::spec_new(f, vector_len, false, false, true, true); let a2 = a1.evex_only(); (vex_rr_ok(f, a2, 0, dst.encoding, src.encoding)) }))
            }),
        ensures
            ({
                let f = old(self).features;
                final(self).appends(*old(self), ({ let a1 = InstructionAttr::spec_new(f, vector_len, false, false, true, true); let a2 = a1.evex_only(); vex_rr_bytes(f, a2, 0, dst.encoding, src.encoding, VEX_SIMD_66, VEX_OPCODE_0F) + seq![0x72, (0xC0 | rr_bits(0, src.encoding)), low8(shift)] }))
            }),
    {
        let mut attributes = InstructionAttr::new(&self.features, vector_len, false, false, true, true);
        attributes.set_is_evex_instruction();
        let encode = self.vex_prefix_and_encode(0, dst.encoding, src.encoding, VEX_SIMD_66, VEX_OPCODE_0F, &mut attributes);
        self.emit_int24(0x72, (0xC0 | encode), low8_exec(shift));
    }

    /// `evprorq dst, src, shift, vector_len`
    pub fn evprorq(&mut self, dst: XMMRegister, src: XMMRegister, shift: i32, vector_len: u8)
        requires
            dst.wf(),
            src.wf(),
            ({
                let f = old(self).features;
                (f.supports_evex()) && (((vector_len == AVX_512BIT) || f.supports_avx512vl()) && ({ let a1 = InstructionAttr::spec_new(f, vector_len, true, false, true, true); let a2 = a1.evex_only(); (vex_rr_ok(f, a2, 0, dst.encoding, src.encoding)) }))
            }),
        ensures
            ({
                let f = old(self).features;
                final(self).appends(*old(self), ({ let a1 = InstructionAttr::spec_new(f, vector_len, true, false, true, true); let a2 = a1.evex_only(); vex_rr_bytes(f, a2, 0, dst.encoding, src.encoding, VEX_SIMD_66, VEX_OPCODE_0F) + seq![0x72, (0xC0 | rr_bits(0, src.encoding)), low8(shift)] }))
            }),
    {
        let mut attributes = InstructionAttr::new(&self.features, vector_len, true, false, true, true);
        attributes.set_is_evex_instruction();
        let encode = self.vex_prefix_and_encode(0, dst.encoding, src.encoding, VEX_SIMD_66, VEX_OPCODE_0F, &mut attributes);
        self.emit_int24(0x72, (0xC0 | encode), low8_exec(shift));
    }

    /// `evprolvd dst, src, shift, vector_len`
    pub fn evprolvd(&mut self, dst: XMMRegister, src: XMMRegister, shift: XMMRegister, vector_len: u8)
        requires
            dst.wf(),
            src.wf(),
            shift.wf(),
            ({
                let f = old(self).features;
                (f.supports_evex()) && (((vector_len == AVX_512BIT) || f.supports_avx512vl()) && ({ let a1 = InstructionAttr::spec_new(f, vector_len, false, false, true, true); let a2 = a1.evex_only(); (vex_rr_ok(f, a2, dst.encoding, src.encoding, shift.encoding)) }))
            }),
        ensures
            ({
                let f = old(self).features;
                final(self).appends(*old(self), ({ let a1 = InstructionAttr::spec_new(f, vector_len, false, false, true, true); let a2 = a1.evex_only(); vex_rr_bytes(f, a2, dst.encoding, src.encoding, shift.encoding, VEX_SIMD_66, VEX_OPCODE_0F_38) + seq![0x15, (0xC0 | rr_bits(dst.encoding, shift.encoding))] }))
            }),
    {
        let mut attributes = InstructionAttr::new(&self.features, vector_len, false, false, true, true);
        attributes.set_is_evex_instruction();
        let encode = self.vex_prefix_and_encode(dst.encoding, src.encoding, shift.encoding, VEX_SIMD_66, VEX_OPCODE_0F_38, &mut attributes);
        self.emit_int16(0x15, (0xC0 | encode));
    }

    /// `evprolvq dst, src, shift, vector_len`
    pub fn evprolvq(&mut self, dst: XMMRegister, src: XMMRegister, shift: XMMRegister, vector_len: u8)
        requires
            dst.wf(),
            src.wf(),
            shift.wf(),
            ({
                let f = old(self).features;
                (f.supports_evex()) && (((vector_len == AVX_512BIT) || f.supports_avx512vl()) && ({ let a1 = InstructionAttr::spec_new(f, vector_len, true, false, true, true); let a2 = a1.evex_only(); (vex_rr_ok(f, a2, dst.encoding, src.encoding, shift.encoding)) }))
            }),
        ensures
            ({
                let f = old(self).features;
                final(self).appends(*old(self), ({ let a1 = InstructionAttr::spec_new(f, vector_len, true, false, true, true); let a2 = a1.evex_only(); vex_rr_bytes(f, a2, dst.encoding, src.encoding, shift.encoding, VEX_SIMD_66, VEX_OPCODE_0F_38) + seq![0x15, (0xC0 | rr_bits(dst.encoding, shift.encoding))] }))
            }),
    {
        let mut attributes = InstructionAttr::new(&self.features, vector_len, true, false, true, true);
        attributes.set_is_evex_instruction();
        let encode = self.vex_prefix_and_encode(dst.encoding, src.encoding, shift.encoding, VEX_SIMD_66, VEX_OPCODE_0F_38, &mut attributes);
        self.emit_int16(0x15, (0xC0 | encode));
    }

    /// `evprorvd dst, src, shift, vector_len`
    pub fn evprorvd(&mut self, dst: XMMRegister, src: XMMRegister, shift: XMMRegister, vector_len: u8)
        requires
            dst.wf(),
            src.wf(),
            shift.wf(),
            ({
                let f = old(self).features;
                (f.supports_evex()) && (((vector_len == AVX_512BIT) || f.supports_avx512vl()) && ({ let a1 = InstructionAttr::spec_new(f, vector_len, false, false, true, true); let a2 = a1.evex_only(); (vex_rr_ok(f, a2, dst.encoding, src.encoding, shift.encoding)) }))
            }),
        ensures
            ({
                let f = old(self).features;
                final(self).appends(*old(self), ({ let a1 = InstructionAttr::spec_new(f, vector_len, false, false, true, true); let a2 = a1.evex_only(); vex_rr_bytes(f, a2, dst.encoding, src.encoding, shift.encoding, VEX_SIMD_66, VEX_OPCODE_0F_38) + seq![0x14, (0xC0 | rr_bits(dst.encoding, shift.encoding))] }))
            }),
    {
        let mut attributes = InstructionAttr::new(&self.features, vector_len, false, false, true, true);
        attributes.set_is_evex_instruction();
        let encode = self.vex_prefix_and_encode(dst.encoding, src.encoding, shift.encoding, VEX_SIMD_66, VEX_OPCODE_0F_38, &mut attributes);
        self.emit_int16(0x14, (0xC0 | encode));
    }

    /// `evprorvq dst, src, shift, vector_len`
    pub fn evprorvq(&mut self, dst: XMMRegister, src: XMMRegister, shift: XMMRegister, vector_len: u8)
        requires
            dst.wf(),
            src.wf(),
            shift.wf(),
            ({
                let f = old(self).features;
                (f.supports_evex()) && (((vector_len == AVX_512BIT) || f.supports_avx512vl()) && ({ let a1 = InstructionAttr::spec_new(f, vector_len, true, false, true, true); let a2 = a1.evex_only(); (vex_rr_ok(f, a2, dst.encoding, src.encoding, shift.encoding)) }))
            }),
        ensures
            ({
                let f = old(self).features;
                final(self).appends(*old(self), ({ let a1 = InstructionAttr::spec_new(f, vector_len, true, false, true, true); let a2 = a1.evex_only(); vex_rr_bytes(f, a2, dst.encoding, src.encoding, shift.encoding, VEX_SIMD_66, VEX_OPCODE_0F_38) + seq![0x14, (0xC0 | rr_bits(dst.encoding, shift.encoding))] }))
            }),
    {
        let mut attributes = InstructionAttr::new(&self.features, vector_len, true, false, true, true);
        attributes.set_is_evex_instruction();
        let encode = self.vex_prefix_and_encode(dst.encoding, src.encoding, shift.encoding, VEX_SIMD_66, VEX_OPCODE_0F_38, &mut attributes);
        self.emit_int16(0x14, (0xC0 | encode));
    }

    /// `evplzcntd dst, mask, src, merge, vector_len`
    pub fn evplzcntd(&mut self, dst: XMMRegister, mask: KRegister, src: XMMRegister, merge: bool, vector_len: u8)
        requires
            dst.wf(),
            mask.wf(),
            src.wf(),
            ({
                let f = old(self).features;
                (f.supports_avx512cd()) && (((vector_len == AVX_512BIT) || f.supports_avx512vl()) && ({ let a1 = InstructionAttr::spec_new(f, vector_len, false, false, false, true); let a2 = a1.evex_only(); let a3 = a2.with_mask(mask); (if merge { ({ let a4 = a3.merging(); (vex_rr_ok(f, a4, dst.encoding, 0, src.encoding)) }) } else { (vex_rr_ok(f, a3, dst.encoding, 0, src.encoding)) }) }))
            }),
        ensures
            ({
                let f = old(self).features;
                final(self).appends(*old(self), ({ let a1 = InstructionAttr::spec_new(f, vector_len, false, false, false, true); let a2 = a1.evex_only(); let a3 = a2.with_mask(mask); (if merge { ({ let a4 = a3.merging(); vex_rr_bytes(f, a4, dst.encoding, 0, src.encoding, VEX_SIMD_66, VEX_OPCODE_0F_38) + seq![0x44, (0xC0 | rr_bits(dst.encoding, src.encoding))] }) } else { vex_rr_bytes(f, a3, dst.encoding, 0, src.encoding, VEX_SIMD_66, VEX_OPCODE_0F_38) + seq![0x44, (0xC0 | rr_bits(dst.encoding, src.encoding))] }) }))
            }),
    {
        let mut attributes = InstructionAttr::new(&self.features, vector_len, false, false, false, true);
        attributes.set_is_evex_instruction();
        attributes.set_embedded_opmask_register_specifier(mask);
        if merge {
            attributes.reset_is_clear_context();
            let encode = self.vex_prefix_and_encode(dst.encoding, 0, src.encoding, VEX_SIMD_66, VEX_OPCODE_0F_38, &mut attributes);
            self.emit_int16(0x44, (0xC0 | encode));
        } else {
            let encode = self.vex_prefix_and_encode(dst.encoding, 0, src.encoding, VEX_SIMD_66, VEX_OPCODE_0F_38, &mut attributes);
            self.emit_int16(0x44, (0xC0 | encode));
        }
    }

    /// `evplzcntq dst, mask, src, merge, vector_len`
    pub fn evplzcntq(&mut self, dst: XMMRegister, mask: KRegister, src: XMMRegister, merge: bool, vector_len: u8)
        requires
            dst.wf(),
            mask.wf(),
            src.wf(),
            ({
                let f = old(self).features;
                (f.supports_avx512cd()) && (((vector_len == AVX_512BIT) || f.supports_avx512vl()) && ({ let a1 = InstructionAttr::spec_new(f, vector_len, true, false, false, true); let a2 = a1.evex_only(); let a3 = a2.with_mask(mask); (if merge { ({ let a4 = a3.merging(); (vex_rr_ok(f, a4, dst.encoding, 0, src.encoding)) }) } else { (vex_rr_ok(f, a3, dst.encoding, 0, src.encoding)) }) }))
            }),
        ensures
            ({
                let f = old(self).features;
                final(self).appends(*old(self), ({ let a1 = InstructionAttr::spec_new(f, vector_len, true, false, false, true); let a2 = a1.evex_only(); let a3 = a2.with_mask(mask); (if merge { ({ let a4 = a3.merging(); vex_rr_bytes(f, a4, dst.encoding, 0, src.encoding, VEX_SIMD_66, VEX_OPCODE_0F_38) + seq![0x44, (0xC0 | rr_bits(dst.encoding, src.encoding))] }) } else { vex_rr_bytes(f, a3, dst.encoding, 0, src.encoding, VEX_SIMD_66, VEX_OPCODE_0F_38) + seq![0x44, (0xC0 | rr_bits(dst.encoding, src.encoding))] }) }))
            }),
    {
        let mut attributes = InstructionAttr::new(&self.features, vector_len, true, false, false, true);
        attributes.set_is_evex_instruction();
        attributes.set_embedded_opmask_register_specifier(mask);
        if merge {
            attributes.reset_is_clear_context();
            let encode = self.vex_prefix_and_encode(dst.encoding, 0, src.encoding, VEX_SIMD_66, VEX_OPCODE_0F_38, &mut attributes);
            self.emit_int16(0x44, (0xC0 | encode));
        } else {
            let encode = self.vex_prefix_and_encode(dst.encoding, 0, src.encoding, VEX_SIMD_66, VEX_OPCODE_0F_38, &mut attributes);
            self.emit_int16(0x44, (0xC0 | encode));
        }
    }

    /// `vpternlogd dst, imm8, src2, src3, vector_len`
    pub fn vpternlogd(&mut self, dst: XMMRegister, imm8: i8, src2: XMMRegister, src3: XMMRegister, vector_len: u8)
        requires
            dst.wf(),
            src2.wf(),
            src3.wf(),
            ({
                let f = old(self).features;
                (f.supports_evex()) && (((vector_len == AVX_512BIT) || f.supports_avx512vl()) && ({ let a1 = InstructionAttr::spec_new(f, vector_len, false, false, true, true); let a2 = a1.evex_only(); (vex_rr_ok(f, a2, dst.encoding, src2.encoding, src3.encoding)) }))
            }),
        ensures
            ({
                let f = old(self).features;
                final(self).appends(*old(self), ({ let a1 = InstructionAttr::spec_new(f, vector_len, false, false, true, true); let a2 = a1.evex_only(); vex_rr_bytes(f, a2, dst.encoding, src2.encoding, src3.encoding, VEX_SIMD_66, VEX_OPCODE_0F_3A) + seq![0x25] + seq![(0xC0 | rr_bits(dst.encoding, src3.encoding))] + seq![imm_byte(imm8)] }))
            }),
    {
        let mut attributes = InstructionAttr::new(&self.features, vector_len, false, false, true, true);
        attributes.set_is_evex_instruction();
        let encode = self.vex_prefix_and_encode(dst.encoding, src2.encoding, src3.encoding, VEX_SIMD_66, VEX_OPCODE_0F_3A, &mut attributes);
        self.emit_int8(0x25);
        self.emit_int8((0xC0 | encode));
        self.emit_int8(imm_byte_exec(imm8));
    }

    /// `vpternlogd dst, imm8, src2, [src3], vector_len`
    pub fn vpternlogd_xixm(&mut self, dst: XMMRegister, imm8: i8, src2: XMMRegister, src3: Address, vector_len: u8)
        requires
            dst.wf(),
            src2.wf(),
            src3.wf(),
            ({
                let f = old(self).features;
                (f.supports_evex()) && (((vector_len == AVX_512BIT) || f.supports_avx512vl()) && ({ let a1 = InstructionAttr::spec_new(f, vector_len, false, false, true, true); let a2 = a1.evex_only(); let a3 = a2.with_address(f, EVEX_FV, EVEX_64BIT); (vex_adr_ok(f, a3, src2.encoding, dst.encoding, src3)) }))
            }),
        ensures
            ({
                let f = old(self).features;
                final(self).appends(*old(self), ({ let a1 = InstructionAttr::spec_new(f, vector_len, false, false, true, true); let a2 = a1.evex_only(); let a3 = a2.with_address(f, EVEX_FV, EVEX_64BIT); vex_adr_bytes(f, a3, src3, src2.encoding, dst.encoding, VEX_SIMD_66, VEX_OPCODE_0F_3A) + ({ let a4 = vex_adr_attr(f, a3, src2.encoding, dst.encoding); seq![0x25] + address_bytes(f, Some(a4), dst.encoding, src3, true) + seq![imm_byte(imm8)] }) }))
            }),
    {
        let mut attributes = InstructionAttr::new(&self.features, vector_len, false, false, true, true);
        attributes.set_is_evex_instruction();
        attributes.set_address_attributes(&self.features, EVEX_FV, EVEX_64BIT);
        self.vex_prefix(&src3, src2.encoding, dst.encoding, VEX_SIMD_66, VEX_OPCODE_0F_3A, &mut attributes);
        self.emit_int8(0x25);
        self.emit_operand_attr(dst.encoding, &src3, &attributes, true);
        self.emit_int8(imm_byte_exec(imm8));
    }

    /// `vpternlogq dst, imm8, src2, src3, vector_len`
    pub fn vpternlogq(&mut self, dst: XMMRegister, imm8: i8, src2: XMMRegister, src3: XMMRegister, vector_len: u8)
        requires
            dst.wf(),
            src2.wf(),
            src3.wf(),
            ({
                let f = old(self).features;
                (f.supports_evex()) && (((vector_len == AVX_512BIT) || f.supports_avx512vl()) && ({ let a1 = InstructionAttr::spec_new(f, vector_len, true, false, true, true); let a2 = a1.evex_only(); (vex_rr_ok(f, a2, dst.encoding, src2.encoding, src3.encoding)) }))
            }),
        ensures
            ({
                let f = old(self).features;
                final(self).appends(*old(self), ({ let a1 = InstructionAttr::spec_new(f, vector_len, true, false, true, true); let a2 = a1.evex_only(); vex_rr_bytes(f, a2, dst.encoding, src2.encoding, src3.encoding, VEX_SIMD_66, VEX_OPCODE_0F_3A) + seq![0x25] + seq![(0xC0 | rr_bits(dst.encoding, src3.encoding))] + seq![imm_byte(imm8)] }))
            }),
    {
        let mut attributes = InstructionAttr::new(&self.features, vector_len, true, false, true, true);
        attributes.set_is_evex_instruction();
        let encode = self.vex_prefix_and_encode(dst.encoding, src2.encoding, src3.encoding, VEX_SIMD_66, VEX_OPCODE_0F_3A, &mut attributes);
        self.emit_int8(0x25);
        self.emit_int8((0xC0 | encode));
        self.emit_int8(imm_byte_exec(imm8));
    }

    /// `vpternlogq dst, imm8, src2, [src3], vector_len`
    pub fn vpternlogq_xixm(&mut self, dst: XMMRegister, imm8: i8, src2: XMMRegister, src3: Address, vector_len: u8)
        requires
            dst.wf(),
            src2.wf(),
            src3.wf(),
            ({
                let f = old(self).features;
                (f.supports_evex()) && (((vector_len == AVX_512BIT) || f.supports_avx512vl()) && ({ let a1 = InstructionAttr::spec_new(f, vector_len, true, false, true, true); let a2 = a1.evex_only(); let a3 = a2.with_address(f, EVEX_FV, EVEX_64BIT); (vex_adr_ok(f, a3, src2.encoding, dst.encoding, src3)) }))
            }),
        ensures
            ({
                let f = old(self).features;
                final(self).appends(*old(self), ({ let a1 = InstructionAttr::spec_new(f, vector_len, true, false, true, true); let a2 = a1.evex_only(); let a3 = a2.with_address(f, EVEX_FV, EVEX_64BIT); vex_adr_bytes(f, a3, src3, src2.encoding, dst.encoding, VEX_SIMD_66, VEX_OPCODE_0F_3A) + ({ let a4 = vex_adr_attr(f, a3, src2.encoding, dst.encoding); seq![0x25] + address_bytes(f, Some(a4), dst.encoding, src3, true) + seq![imm_byte(imm8)] }) }))
            }),
    {
        let mut attributes = InstructionAttr::new(&self.features, vector_len, true, false, true, true);
        attributes.set_is_evex_instruction();
        attributes.set_address_attributes(&self.features, EVEX_FV, EVEX_64BIT);
        self.vex_prefix(&src3, src2.encoding, dst.encoding, VEX_SIMD_66, VEX_OPCODE_0F_3A, &mut attributes);
        self.emit_int8(0x25);
        self.emit_operand_attr(dst.encoding, &src3, &attributes, true);
        self.emit_int8(imm_byte_exec(imm8));
    }

    /// `evexpandps dst, mask, src, merge, vector_len`
    pub fn evexpandps(&mut self, dst: XMMRegister, mask: KRegister, src: XMMRegister, merge: bool, vector_len: u8)
        requires
            dst.wf(),
            mask.wf(),
            src.wf(),
            ({
                let f = old(self).features;
                (f.supports_evex()) && (((vector_len == AVX_512BIT) || f.supports_avx512vl()) && ({ let a1 = InstructionAttr::spec_new(f, vector_len, false, false, false, true); let a2 = a1.evex_only(); let a3 = a2.with_mask(mask); (if merge { ({ let a4 = a3.merging(); (vex_rr_ok(f, a4, dst.encoding, 0, src.encoding)) }) } else { (vex_rr_ok(f, a3, dst.encoding, 0, src.encoding)) }) }))
            }),
        ensures
            ({
                let f = old(self).features;
                final(self).appends(*old(self), ({ let a1 = InstructionAttr::spec_new(f, vector_len, false, false, false, true); let a2 = a1.evex_only(); let a3 = a2.with_mask(mask); (if merge { ({ let a4 = a3.merging(); vex_rr_bytes(f, a4, dst.encoding, 0, src.encoding, VEX_SIMD_66, VEX_OPCODE_0F_38) + seq![0x88, (0xC0 | rr_bits(dst.encoding, src.encoding))] }) } else { vex_rr_bytes(f, a3, dst.encoding, 0, src.encoding, VEX_SIMD_66, VEX_OPCODE_0F_38) + seq![0x88, (0xC0 | rr_bits(dst.encoding, src.encoding))] }) }))
            }),
    {
        let mut attributes = InstructionAttr::new(&self.features, vector_len, false, false, false, true);
        attributes.set_is_evex_instruction();
        attributes.set_embedded_opmask_register_specifier(mask);
        if merge {
            attributes.reset_is_clear_context();
            let encode = self.vex_prefix_and_encode(dst.encoding, 0, src.encoding, VEX_SIMD_66, VEX_OPCODE_0F_38, &mut attributes);
            self.emit_int16(0x88, (0xC0 | encode));
        } else {
            let encode = self.vex_prefix_and_encode(dst.encoding, 0, src.encoding, VEX_SIMD_66, VEX_OPCODE_0F_38, &mut attributes);
            self.emit_int16(0x88, (0xC0 | encode));
        }
    }

    /// `evexpandpd dst, mask, src, merge, vector_len`
    pub fn evexpandpd(&mut self, dst: XMMRegister, mask: KRegister, src: XMMRegister, merge: bool, vector_len: u8)
        requires
            dst.wf(),
            mask.wf(),
            src.wf(),
            ({
                let f = old(self).features;
                (f.supports_evex()) && (((vector_len == AVX_512BIT) || f.supports_avx512vl()) && ({ let a1 = InstructionAttr::spec_new(f, vector_len, true, false, false, true); let a2 = a1.evex_only(); let a3 = a2.with_mask(mask); (if merge { ({ let a4 = a3.merging(); (vex_rr_ok(f, a4, dst.encoding, 0, src.encoding)) }) } else { (vex_rr_ok(f, a3, dst.encoding, 0, src.encoding)) }) }))
            }),
        ensures
            ({
                let f = old(self).features;
                final(self).appends(*old(self), ({ let a1 = InstructionAttr::spec_new(f, vector_len, true, false, false, true); let a2 = a1.evex_only(); let a3 = a2.with_mask(mask); (if merge { ({ let a4 = a3.merging(); vex_rr_bytes(f, a4, dst.encoding, 0, src.encoding, VEX_SIMD_66, VEX_OPCODE_0F_38) + seq![0x88, (0xC0 | rr_bits(dst.encoding, src.encoding))] }) } else { vex_rr_bytes(f, a3, dst.encoding, 0, src.encoding, VEX_SIMD_66, VEX_OPCODE_0F_38) + seq![0x88, (0xC0 | rr_bits(dst.encoding, src.encoding))] }) }))
            }),
    {
        let mut attributes = InstructionAttr::new(&self.features, vector_len, true, false, false, true);
        attributes.set_is_evex_instruction();
        attributes.set_embedded_opmask_register_specifier(mask);
        if merge {
            attributes.reset_is_clear_context();
            let encode = self.vex_prefix_and_encode(dst.encoding, 0, src.encoding, VEX_SIMD_66, VEX_OPCODE_0F_38, &mut attributes);
            self.emit_int16(0x88, (0xC0 | encode));
        } else {
            let encode = self.vex_prefix_and_encode(dst.encoding, 0, src.encoding, VEX_SIMD_66, VEX_OPCODE_0F_38, &mut attributes);
            self.emit_int16(0x88, (0xC0 | encode));
        }
    }

    /// `evpexpandb dst, mask, src, merge, vector_len`
    pub fn evpexpandb(&mut self, dst: XMMRegister, mask: KRegister, src: XMMRegister, merge: bool, vector_len: u8)
        requires
            dst.wf(),
            mask.wf(),
            src.wf(),
            ({
                let f = old(self).features;
                (f.supports_avx512_vbmi2()) && (((vector_len == AVX_512BIT) || f.supports_avx512vl()) && ({ let a1 = InstructionAttr::spec_new(f, vector_len, false, false, false, true); let a2 = a1.evex_only(); let a3 = a2.with_mask(mask); (if merge { ({ let a4 = a3.merging(); (vex_rr_ok(f, a4, dst.encoding, 0, src.encoding)) }) } else { (vex_rr_ok(f, a3, dst.encoding, 0, src.encoding)) }) }))
            }),
        ensures
            ({
                let f = old(self).features;
                final(self).appends(*old(self), ({ let a1 = InstructionAttr::spec_new(f, vector_len, false, false, false, true); let a2 = a1.evex_only(); let a3 = a2.with_mask(mask); (if merge { ({ let a4 = a3.merging(); vex_rr_bytes(f, a4, dst.encoding, 0, src.encoding, VEX_SIMD_66, VEX_OPCODE_0F_38) + seq![0x62, (0xC0 | rr_bits(dst.encoding, src.encoding))] }) } else { vex_rr_bytes(f, a3, dst.encoding, 0, src.encoding, VEX_SIMD_66, VEX_OPCODE_0F_38) + seq![0x62, (0xC0 | rr_bits(dst.encoding, src.encoding))] }) }))
            }),
    {
        let mut attributes = InstructionAttr::new(&self.features, vector_len, false, false, false, true);
        attributes.set_is_evex_instruction();
        attributes.set_embedded_opmask_register_specifier(mask);
        if merge {
            attributes.reset_is_clear_context();
            let encode = self.vex_prefix_and_encode(dst.encoding, 0, src.encoding, VEX_SIMD_66, VEX_OPCODE_0F_38, &mut attributes);
            self.emit_int16(0x62, (0xC0 | encode));
        } else {
            let encode = self.vex_prefix_and_encode(dst.encoding, 0, src.encoding, VEX_SIMD_66, VEX_OPCODE_0F_38, &mut attributes);
            self.emit_int16(0x62, (0xC0 | encode));
        }
    }

    /// `evpexpandw dst, mask, src, merge, vector_len`
    pub fn evpexpandw(&mut self, dst: XMMRegister, mask: KRegister, src: XMMRegister, merge: bool, vector_len: u8)
        requires
            dst.wf(),
            mask.wf(),
            src.wf(),
            ({
                let f = old(self).features;
                (f.supports_avx512_vbmi2()) && (((vector_len == AVX_512BIT) || f.supports_avx512vl()) && ({ let a1 = InstructionAttr::spec_new(f, vector_len, true, false, false, true); let a2 = a1.evex_only(); let a3 = a2.with_mask(mask); (if merge { ({ let a4 = a3.merging(); (vex_rr_ok(f, a4, dst.encoding, 0, src.encoding)) }) } else { (vex_rr_ok(f, a3, dst.encoding, 0, src.encoding)) }) }))
            }),
        ensures
            ({
                let f = old(self).features;
                final(self).appends(*old(self), ({ let a1 = InstructionAttr::spec_new(f, vector_len, true, false, false, true); let a2 = a1.evex_only(); let a3 = a2.with_mask(mask); (if merge { ({ let a4 = a3.merging(); vex_rr_bytes(f, a4, dst.encoding, 0, src.encoding, VEX_SIMD_66, VEX_OPCODE_0F_38) + seq![0x62, (0xC0 | rr_bits(dst.encoding, src.encoding))] }) } else { vex_rr_bytes(f, a3, dst.encoding, 0, src.encoding, VEX_SIMD_66, VEX_OPCODE_0F_38) + seq![0x62, (0xC0 | rr_bits(dst.encoding, src.encoding))] }) }))
            }),
    {
        let mut attributes = InstructionAttr::new(&self.features, vector_len, true, false, false, true);
        attributes.set_is_evex_instruction();
        attributes.set_embedded_opmask_register_specifier(mask);
        if merge {
            attributes.reset_is_clear_context();
            let encode = self.vex_prefix_and_encode(dst.encoding, 0, src.encoding, VEX_SIMD_66, VEX_OPCODE_0F_38, &mut attributes);
            self.emit_int16(0x62, (0xC0 | encode));
        } else {
            let encode = self.vex_prefix_and_encode(dst.encoding, 0, src.encoding, VEX_SIMD_66, VEX_OPCODE_0F_38, &mut attributes);
            self.emit_int16(0x62, (0xC0 | encode));
        }
    }

    /// `evpexpandd dst, mask, src, merge, vector_len`
    pub fn evpexpandd(&mut self, dst: XMMRegister, mask: KRegister, src: XMMRegister, merge: bool, vector_len: u8)
        requires
            dst.wf(),
            mask.wf(),
            src.wf(),
            ({
                let f = old(self).features;
                (f.supports_evex()) && (((vector_len == AVX_512BIT) || f.supports_avx512vl()) && ({ let a1 = InstructionAttr::spec_new(f, vector_len, false, false, false, true); let a2 = a1.evex_only(); let a3 = a2.with_mask(mask); (if merge { ({ let a4 = a3.merging(); (vex_rr_ok(f, a4, dst.encoding, 0, src.encoding)) }) } else { (vex_rr_ok(f, a3, dst.encoding, 0, src.encoding)) }) }))
            }),
        ensures
            ({
                let f = old(self).features;
                final(self).appends(*old(self), ({ let a1 = InstructionAttr::spec_new(f, vector_len, false, false, false, true); let a2 = a1.evex_only(); let a3 = a2.with_mask(mask); (if merge { ({ let a4 = a3.merging(); vex_rr_bytes(f, a4, dst.encoding, 0, src.encoding, VEX_SIMD_66, VEX_OPCODE_0F_38) + seq![0x89, (0xC0 | rr_bits(dst.encoding, src.encoding))] }) } else { vex_rr_bytes(f, a3, dst.encoding, 0, src.encoding, VEX_SIMD_66, VEX_OPCODE_0F_38) + seq![0x89, (0xC0 | rr_bits(dst.encoding, src.encoding))] }) }))
            }),
    {
        let mut attributes = InstructionAttr::new(&self.features, vector_len, false, false, false, true);
        attributes.set_is_evex_instruction();
        attributes.set_embedded_opmask_register_specifier(mask);
        if merge {
            attributes.reset_is_clear_context();
            let encode = self.vex_prefix_and_encode(dst.encoding, 0, src.encoding, VEX_SIMD_66, VEX_OPCODE_0F_38, &mut attributes);
            self.emit_int16(0x89, (0xC0 | encode));
        } else {
            let encode = self.vex_prefix_and_encode(dst.encoding, 0, src.encoding, VEX_SIMD_66, VEX_OPCODE_0F_38, &mut attributes);
            self.emit_int16(0x89, (0xC0 | encode));
        }
    }

    /// `evpexpandq dst, mask, src, merge, vector_len`
    pub fn evpexpandq(&mut self, dst: XMMRegister, mask: KRegister, src: XMMRegister, merge: bool, vector_len: u8)
        requires
            dst.wf(),
            mask.wf(),
            src.wf(),
            ({
                let f = old(self).features;
                (f.supports_evex()) && (((vector_len == AVX_512BIT) || f.supports_avx512vl()) && ({ let a1 = InstructionAttr::spec_new(f, vector_len, true, false, false, true); let a2 = a1.evex_only(); let a3 = a2.with_mask(mask); (if merge { ({ let a4 = a3.merging(); (vex_rr_ok(f, a4, dst.encoding, 0, src.encoding)) }) } else { (vex_rr_ok(f, a3, dst.encoding, 0, src.encoding)) }) }))
            }),
        ensures
            ({
                let f = old(self).features;
                final(self).appends(*old(self), ({ let a1 = InstructionAttr::spec_new(f, vector_len, true, false, false, true); let a2 = a1.evex_only(); let a3 = a2.with_mask(mask); (if merge { ({ let a4 = a3.merging(); vex_rr_bytes(f, a4, dst.encoding, 0, src.encoding, VEX_SIMD_66, VEX_OPCODE_0F_38) + seq![0x89, (0xC0 | rr_bits(dst.encoding, src.encoding))] }) } else { vex_rr_bytes(f, a3, dst.encoding, 0, src.encoding, VEX_SIMD_66, VEX_OPCODE_0F_38) + seq![0x89, (0xC0 | rr_bits(dst.encoding, src.encoding))] }) }))
            }),
    {
        let mut attributes = InstructionAttr::new(&self.features, vector_len, true, false, false, true);
        attributes.set_is_evex_instruction();
        attributes.set_embedded_opmask_register_specifier(mask);
        if merge {
            attributes.reset_is_clear_context();
            let encode = self.vex_prefix_and_encode(dst.encoding, 0, src.encoding, VEX_SIMD_66, VEX_OPCODE_0F_38, &mut attributes);
            self.emit_int16(0x89, (0xC0 | encode));
        } else {
            let encode = self.vex_prefix_and_encode(dst.encoding, 0, src.encoding, VEX_SIMD_66, VEX_OPCODE_0F_38, &mut attributes);
            self.emit_int16(0x89, (0xC0 | encode));
        }
    }

    /// `vinserti32x4 dst, nds, src, imm8`
    pub fn vinserti32x4(&mut self, dst: XMMRegister, nds: XMMRegister, src: XMMRegister, imm8: u8)
        requires
            dst.wf(),
            nds.wf(),
            src.wf(),
            ({
                let f = old(self).features;
                (f.supports_evex()) && ((imm8 <= 0x03) && ({ let a1 = InstructionAttr::spec_new(f, AVX_512BIT, false, false, true, true); let a2 = a1.evex_only(); (vex_rr_ok(f, a2, dst.encoding, nds.encoding, src.encoding)) }))
            }),
        ensures
            ({
                let f = old(self).features;
                final(self).appends(*old(self), ({ let a1 = InstructionAttr::spec_new(f, AVX_512BIT, false, false, true, true); let a2 = a1.evex_only(); vex_rr_bytes(f, a2, dst.encoding, nds.encoding, src.encoding, VEX_SIMD_66, VEX_OPCODE_0F_3A) + seq![0x38, (0xC0 | rr_bits(dst.encoding, src.encoding)), (imm8 & 0x03)] }))
            }),
    {
        let mut attributes = InstructionAttr::new(&self.features, AVX_512BIT, false, false, true, true);
        attributes.set_is_evex_instruction();
        let encode = self.vex_prefix_and_encode(dst.encoding, nds.encoding, src.encoding, VEX_SIMD_66, VEX_OPCODE_0F_3A, &mut attributes);
        self.emit_int24(0x38, (0xC0 | encode), (imm8 & 0x03));
    }

    /// `vinserti32x4 dst, nds, [src], imm8`
    pub fn vinserti32x4_xxmi(&mut self, dst: XMMRegister, nds: XMMRegister, src: Address, imm8: u8)
        requires
            dst.wf(),
            nds.wf(),
            src.wf(),
            ({
                let f = old(self).features;
                (f.supports_evex()) && ((imm8 <= 0x03) && ({ let a1 = InstructionAttr::spec_new(f, AVX_512BIT, false, false, true, true); let a2 = a1.with_address(f, EVEX_T4, EVEX_32BIT); let a3 = a2.evex_only(); (vex_adr_ok(f, a3, nds.encoding, dst.encoding, src)) }))
            }),
        ensures
            ({
                let f = old(self).features;
                final(self).appends(*old(self), ({ let a1 = InstructionAttr::spec_new(f, AVX_512BIT, false, false, true, true); let a2 = a1.with_address(f, EVEX_T4, EVEX_32BIT); let a3 = a2.evex_only(); vex_adr_bytes(f, a3, src, nds.encoding, dst.encoding, VEX_SIMD_66, VEX_OPCODE_0F_3A) + ({ let a4 = vex_adr_attr(f, a3, nds.encoding, dst.encoding); seq![0x18] + address_bytes(f, Some(a4), dst.encoding, src, true) + seq![(imm8 & 0x03)] }) }))
            }),
    {
        let mut attributes = InstructionAttr::new(&self.features, AVX_512BIT, false, false, true, true);
        attributes.set_address_attributes(&self.features, EVEX_T4, EVEX_32BIT);
        attributes.set_is_evex_instruction();
        self.vex_prefix(&src, nds.encoding, dst.encoding, VEX_SIMD_66, VEX_OPCODE_0F_3A, &mut attributes);
        self.emit_int8(0x18);
        self.emit_operand_attr(dst.encoding, &src, &attributes, true);
        self.emit_int8((imm8 & 0x03));
    }

    /// `vinserti64x4 dst, nds, src, imm8`
    pub fn vinserti64x4(&mut self, dst: XMMRegister, nds: XMMRegister, src: XMMRegister, imm8: u8)
        requires
            dst.wf(),
            nds.wf(),
            src.wf(),
            ({
                let f = old(self).features;
                (f.supports_evex()) && ((imm8 <= 0x01) && ({ let a1 = InstructionAttr::spec_new(f, AVX_512BIT, true, false, true, true); let a2 = a1.evex_only(); (vex_rr_ok(f, a2, dst.encoding, nds.encoding, src.encoding)) }))
            }),
        ensures
            ({
                let f = old(self).features;
                final(self).appends(*old(self), ({ let a1 = InstructionAttr::spec_new(f, AVX_512BIT, true, false, true, true); let a2 = a1.evex_only(); vex_rr_bytes(f, a2, dst.encoding, nds.encoding, src.encoding, VEX_SIMD_66, VEX_OPCODE_0F_3A) + seq![0x3A, (0xC0 | rr_bits(dst.encoding, src.encoding)), (imm8 & 0x01)] }))
            }),
    {
        let mut attributes = InstructionAttr::new(&self.features, AVX_512BIT, true, false, true, true);
        attributes.set_is_evex_instruction();
        let encode = self.vex_prefix_and_encode(dst.encoding, nds.encoding, src.encoding, VEX_SIMD_66, VEX_OPCODE_0F_3A, &mut attributes);
        self.emit_int24(0x3A, (0xC0 | encode), (imm8 & 0x01));
    }

    /// `vinsertf64x4 dst, nds, src, imm8`
    pub fn vinsertf64x4(&mut self, dst: XMMRegister, nds: XMMRegister, src: XMMRegister, imm8: u8)
        requires
            dst.wf(),
            nds.wf(),
            src.wf(),
            ({
                let f = old(self).features;
                (f.supports_evex()) && ((imm8 <= 0x01) && ({ let a1 = InstructionAttr::spec_new(f, AVX_512BIT, true, false, true, true); let a2 = a1.evex_only(); (vex_rr_ok(f, a2, dst.encoding, nds.encoding, src.encoding)) }))
            }),
        ensures
            ({
                let f = old(self).features;
                final(self).appends(*old(self), ({ let a1 = InstructionAttr::spec_new(f, AVX_512BIT, true, false, true, true); let a2 = a1.evex_only(); vex_rr_bytes(f, a2, dst.encoding, nds.encoding, src.encoding, VEX_SIMD_66, VEX_OPCODE_0F_3A) + seq![0x1A, (0xC0 | rr_bits(dst.encoding, src.encoding)), (imm8 & 0x01)] }))
            }),
    {
        let mut attributes = InstructionAttr::new(&self.features, AVX_512BIT, true, false, true, true);
        attributes.set_is_evex_instruction();
        let encode = self.vex_prefix_and_encode(dst.encoding, nds.encoding, src.encoding, VEX_SIMD_66, VEX_OPCODE_0F_3A, &mut attributes);
        self.emit_int24(0x1A, (0xC0 | encode), (imm8 & 0x01));
    }

    /// `vinsertf64x4 dst, nds, [src], imm8`
    pub fn vinsertf64x4_xxmi(&mut self, dst: XMMRegister, nds: XMMRegister, src: Address, imm8: u8)
        requires
            dst.wf(),
            nds.wf(),
            src.wf(),
            ({
                let f = old(self).features;
                (f.supports_evex()) && ((imm8 <= 0x01) && ({ let a1 = InstructionAttr::spec_new(f, AVX_512BIT, true, false, true, true); let a2 = a1.with_address(f, EVEX_T4, EVEX_64BIT); let a3 = a2.evex_only(); (vex_adr_ok(f, a3, nds.encoding, dst.encoding, src)) }))
            }),
        ensures
            ({
                let f = old(self).features;
                final(self).appends(*old(self), ({ let a1 = InstructionAttr::spec_new(f, AVX_512BIT, true, false, true, true); let a2 = a1.with_address(f, EVEX_T4, EVEX_64BIT); let a3 = a2.evex_only(); vex_adr_bytes(f, a3, src, nds.encoding, dst.encoding, VEX_SIMD_66, VEX_OPCODE_0F_3A) + ({ let a4 = vex_adr_attr(f, a3, nds.encoding, dst.encoding); seq![0x1A] + address_bytes(f, Some(a4), dst.encoding, src, true) + seq![(imm8 & 0x01)] }) }))
            }),
    {
        let mut attributes = InstructionAttr::new(&self.features, AVX_512BIT, true, false, true, true);
        attributes.set_address_attributes(&self.features, EVEX_T4, EVEX_64BIT);
        attributes.set_is_evex_instruction();
        self.vex_prefix(&src, nds.encoding, dst.encoding, VEX_SIMD_66, VEX_OPCODE_0F_3A, &mut attributes);
        self.emit_int8(0x1A);
        self.emit_operand_attr(dst.encoding, &src, &attributes, true);
        self.emit_int8((imm8 & 0x01));
    }

    /// `vextracti32x4 dst, src, imm8`
    pub fn vextracti32x4(&mut self, dst: XMMRegister, src: XMMRegister, imm8: u8)
        requires
            dst.wf(),
            src.wf(),
            ({
                let f = old(self).features;
                (f.supports_evex()) && ((imm8 <= 0x03) && ({ let a1 = InstructionAttr::spec_new(f, AVX_512BIT, false, false, true, true); let a2 = a1.evex_only(); (vex_rr_ok(f, a2, src.encoding, 0, dst.encoding)) }))
            }),
        ensures
            ({
                let f = old(self).features;
                final(self).appends(*old(self), ({ let a1 = InstructionAttr::spec_new(f, AVX_512BIT, false, false, true, true); let a2 = a1.evex_only(); vex_rr_bytes(f, a2, src.encoding, 0, dst.encoding, VEX_SIMD_66, VEX_OPCODE_0F_3A) + seq![0x39, (0xC0 | rr_bits(src.encoding, dst.encoding)), (imm8 & 0x03)] }))
            }),
    {
        let mut attributes = InstructionAttr::new(&self.features, AVX_512BIT, false, false, true, true);
        attributes.set_is_evex_instruction();
        let encode = self.vex_prefix_and_encode(src.encoding, 0, dst.encoding, VEX_SIMD_66, VEX_OPCODE_0F_3A, &mut attributes);
        self.emit_int24(0x39, (0xC0 | encode), (imm8 & 0x03));
    }

    /// `vextracti32x4 [dst], src, imm8`
    pub fn vextracti32x4_mxi(&mut self, dst: Address, src: XMMRegister, imm8: u8)
        requires
            dst.wf(),
            src.wf(),
            ({
                let f = old(self).features;
                (f.supports_evex()) && ((imm8 <= 0x03) && ({ let a1 = InstructionAttr::spec_new(f, AVX_512BIT, false, false, true, true); let a2 = a1.with_address(f, EVEX_T4, EVEX_32BIT); let a3 = a2.merging(); let a4 = a3.evex_only(); (vex_adr_ok(f, a4, 0, src.encoding, dst)) }))
            }),
        ensures
            ({
                let f = old(self).features;
                final(self).appends(*old(self), ({ let a1 = InstructionAttr::spec_new(f, AVX_512BIT, false, false, true, true); let a2 = a1.with_address(f, EVEX_T4, EVEX_32BIT); let a3 = a2.merging(); let a4 = a3.evex_only(); vex_adr_bytes(f, a4, dst, 0, src.encoding, VEX_SIMD_66, VEX_OPCODE_0F_3A) + ({ let a5 = vex_adr_attr(f, a4, 0, src.encoding); seq![0x39] + address_bytes(f, Some(a5), src.encoding, dst, true) + seq![(imm8 & 0x03)] }) }))
            }),
    {
        let mut attributes = InstructionAttr::new(&self.features, AVX_512BIT, false, false, true, true);
        attributes.set_address_attributes(&self.features, EVEX_T4, EVEX_32BIT);
        attributes.reset_is_clear_context();
        attributes.set_is_evex_instruction();
        self.vex_prefix(&dst, 0, src.encoding, VEX_SIMD_66, VEX_OPCODE_0F_3A, &mut attributes);
        self.emit_int8(0x39);
        self.emit_operand_attr(src.encoding, &dst, &attributes, true);
        self.emit_int8((imm8 & 0x03));
    }

    /// `vextracti64x2 dst, src, imm8`
    pub fn vextracti64x2(&mut self, dst: XMMRegister, src: XMMRegister, imm8: u8)
        requires
            dst.wf(),
            src.wf(),
            ({
                let f = old(self).features;
                (f.supports_avx512dq()) && ((imm8 <= 0x03) && ({ let a1 = InstructionAttr::spec_new(f, AVX_512BIT, true, false, true, true); let a2 = a1.evex_only(); (vex_rr_ok(f, a2, src.encoding, 0, dst.encoding)) }))
            }),
        ensures
            ({
                let f = old(self).features;
                final(self).appends(*old(self), ({ let a1 = InstructionAttr::spec_new(f, AVX_512BIT, true, false, true, true); let a2 = a1.evex_only(); vex_rr_bytes(f, a2, src.encoding, 0, dst.encoding, VEX_SIMD_66, VEX_OPCODE_0F_3A) + seq![0x39, (0xC0 | rr_bits(src.encoding, dst.encoding)), (imm8 & 0x03)] }))
            }),
    {
        let mut attributes = InstructionAttr::new(&self.features, AVX_512BIT, true, false, true, true);
        attributes.set_is_evex_instruction();
        let encode = self.vex_prefix_and_encode(src.encoding, 0, dst.encoding, VEX_SIMD_66, VEX_OPCODE_0F_3A, &mut attributes);
        self.emit_int24(0x39, (0xC0 | encode), (imm8 & 0x03));
    }

    /// `vextracti64x4 dst, src, imm8`
    pub fn vextracti64x4(&mut self, dst: XMMRegister, src: XMMRegister, imm8: u8)
        requires
            dst.wf(),
            src.wf(),
            ({
                let f = old(self).features;
                (f.supports_evex()) && ((imm8 <= 0x01) && ({ let a1 = InstructionAttr::spec_new(f, AVX_512BIT, true, false, true, true); let a2 = a1.evex_only(); (vex_rr_ok(f, a2, src.encoding, 0, dst.encoding)) }))
            }),
        ensures
            ({
                let f = old(self).features;
                final(self).appends(*old(self), ({ let a1 = InstructionAttr::spec_new(f, AVX_512BIT, true, false, true, true); let a2 = a1.evex_only(); vex_rr_bytes(f, a2, src.encoding, 0, dst.encoding, VEX_SIMD_66, VEX_OPCODE_0F_3A) + seq![0x3B, (0xC0 | rr_bits(src.encoding, dst.encoding)), (imm8 & 0x01)] }))
            }),
    {
        let mut attributes = InstructionAttr::new(&self.features, AVX_512BIT, true, false, true, true);
        attributes.set_is_evex_instruction();
        let encode = self.vex_prefix_and_encode(src.encoding, 0, dst.encoding, VEX_SIMD_66, VEX_OPCODE_0F_3A, &mut attributes);
        self.emit_int24(0x3B, (0xC0 | encode), (imm8 & 0x01));
    }

    /// `vextracti64x4 [dst], src, imm8`
    pub fn vextracti64x4_mxi(&mut self, dst: Address, src: XMMRegister, imm8: u8)
        requires
            dst.wf(),
            src.wf(),
            ({
                let f = old(self).features;
                (f.supports_evex()) && ((imm8 <= 0x01) && ({ let a1 = InstructionAttr::spec_new(f, AVX_512BIT, true, false, true, true); let a2 = a1.with_address(f, EVEX_T4, EVEX_64BIT); let a3 = a2.merging(); let a4 = a3.evex_only(); (vex_adr_ok(f, a4, 0, src.encoding, dst)) }))
            }),
        ensures
            ({
                let f = old(self).features;
                final(self).appends(*old(self), ({ let a1 = InstructionAttr::spec_new(f, AVX_512BIT, true, false, true, true); let a2 = a1.with_address(f, EVEX_T4, EVEX_64BIT); let a3 = a2.merging(); let a4 = a3.evex_only(); vex_adr_bytes(f, a4, dst, 0, src.encoding, VEX_SIMD_66, VEX_OPCODE_0F_3A) + ({ let a5 = vex_adr_attr(f, a4, 0, src.encoding); seq![0x38] + address_bytes(f, Some(a5), src.encoding, dst, true) + seq![(imm8 & 0x01)] }) }))
            }),
    {
        let mut attributes = InstructionAttr::new(&self.features, AVX_512BIT, true, false, true, true);
        attributes.set_address_attributes(&self.features, EVEX_T4, EVEX_64BIT);
        attributes.reset_is_clear_context();
        attributes.set_is_evex_instruction();
        self.vex_prefix(&dst, 0, src.encoding, VEX_SIMD_66, VEX_OPCODE_0F_3A, &mut attributes);
        self.emit_int8(0x38);
        self.emit_operand_attr(src.encoding, &dst, &attributes, true);
        self.emit_int8((imm8 & 0x01));
    }

    /// `vextractf32x4 dst, src, imm8`
    pub fn vextractf32x4(&mut self, dst: XMMRegister, src: XMMRegister, imm8: u8)
        requires
            dst.wf(),
            src.wf(),
            ({
                let f = old(self).features;
                (f.supports_evex()) && ((imm8 <= 0x03) && ({ let a1 = InstructionAttr::spec_new(f, AVX_512BIT, false, false, true, true); let a2 = a1.evex_only(); (vex_rr_ok(f, a2, src.encoding, 0, dst.encoding)) }))
            }),
        ensures
            ({
                let f = old(self).features;
                final(self).appends(*old(self), ({ let a1 = InstructionAttr::spec_new(f, AVX_512BIT, false, false, true, true); let a2 = a1.evex_only(); vex_rr_bytes(f, a2, src.encoding, 0, dst.encoding, VEX_SIMD_66, VEX_OPCODE_0F_3A) + seq![0x19, (0xC0 | rr_bits(src.encoding, dst.encoding)), (imm8 & 0x03)] }))
            }),
    {
        let mut attributes = InstructionAttr::new(&self.features, AVX_512BIT, false, false, true, true);
        attributes.set_is_evex_instruction();
        let encode = self.vex_prefix_and_encode(src.encoding, 0, dst.encoding, VEX_SIMD_66, VEX_OPCODE_0F_3A, &mut attributes);
        self.emit_int24(0x19, (0xC0 | encode), (imm8 & 0x03));
    }

    /// `vextractf32x4 [dst], src, imm8`
    pub fn vextractf32x4_mxi(&mut self, dst: Address, src: XMMRegister, imm8: u8)
        requires
            dst.wf(),
            src.wf(),
            ({
                let f = old(self).features;
                (f.supports_evex()) && ((imm8 <= 0x03) && ({ let a1 = InstructionAttr::spec_new(f, AVX_512BIT, false, false, true, true); let a2 = a1.with_address(f, EVEX_T4, EVEX_32BIT); let a3 = a2.merging(); let a4 = a3.evex_only(); (vex_adr_ok(f, a4, 0, src.encoding, dst)) }))
            }),
        ensures
            ({
                let f = old(self).features;
                final(self).appends(*old(self), ({ let a1 = InstructionAttr::spec_new(f, AVX_512BIT, false, false, true, true); let a2 = a1.with_address(f, EVEX_T4, EVEX_32BIT); let a3 = a2.merging(); let a4 = a3.evex_only(); vex_adr_bytes(f, a4, dst, 0, src.encoding, VEX_SIMD_66, VEX_OPCODE_0F_3A) + ({ let a5 = vex_adr_attr(f, a4, 0, src.encoding); seq![0x19] + address_bytes(f, Some(a5), src.encoding, dst, true) + seq![(imm8 & 0x03)] }) }))
            }),
    {
        let mut attributes = InstructionAttr::new(&self.features, AVX_512BIT, false, false, true, true);
        attributes.set_address_attributes(&self.features, EVEX_T4, EVEX_32BIT);
        attributes.reset_is_clear_context();
        attributes.set_is_evex_instruction();
        self.vex_prefix(&dst, 0, src.encoding, VEX_SIMD_66, VEX_OPCODE_0F_3A, &mut attributes);
        self.emit_int8(0x19);
        self.emit_operand_attr(src.encoding, &dst, &attributes, true);
        self.emit_int8((imm8 & 0x03));
    }

    /// `vextractf64x2 dst, src, imm8`
    pub fn vextractf64x2(&mut self, dst: XMMRegister, src: XMMRegister, imm8: u8)
        requires
            dst.wf(),
            src.wf(),
            ({
                let f = old(self).features;
                (f.supports_avx512dq()) && ((imm8 <= 0x03) && ({ let a1 = InstructionAttr::spec_new(f, AVX_512BIT, true, false, true, true); let a2 = a1.evex_only(); (vex_rr_ok(f, a2, src.encoding, 0, dst.encoding)) }))
            }),
        ensures
            ({
                let f = old(self).features;
                final(self).appends(*old(self), ({ let a1 = InstructionAttr::spec_new(f, AVX_512BIT, true, false, true, true); let a2 = a1.evex_only(); vex_rr_bytes(f, a2, src.encoding, 0, dst.encoding, VEX_SIMD_66, VEX_OPCODE_0F_3A) + seq![0x19, (0xC0 | rr_bits(src.encoding, dst.encoding)), (imm8 & 0x03)] }))
            }),
    {
        let mut attributes = InstructionAttr::new(&self.features, AVX_512BIT, true, false, true, true);
        attributes.set_is_evex_instruction();
        let encode = self.vex_prefix_and_encode(src.encoding, 0, dst.encoding, VEX_SIMD_66, VEX_OPCODE_0F_3A, &mut attributes);
        self.emit_int24(0x19, (0xC0 | encode), (imm8 & 0x03));
    }

    /// `vextractf64x4 dst, src, imm8`
    pub fn vextractf64x4(&mut self, dst: XMMRegister, src: XMMRegister, imm8: u8)
        requires
            dst.wf(),
            src.wf(),
            ({
                let f = old(self).features;
                (f.supports_evex()) && ((imm8 <= 0x01) && ({ let a1 = InstructionAttr::spec_new(f, AVX_512BIT, true, false, true, true); let a2 = a1.evex_only(); (vex_rr_ok(f, a2, src.encoding, 0, dst.encoding)) }))
            }),
        ensures
            ({
                let f = old(self).features;
                final(self).appends(*old(self), ({ let a1 = InstructionAttr::spec_new(f, AVX_512BIT, true, false, true, true); let a2 = a1.evex_only(); vex_rr_bytes(f, a2, src.encoding, 0, dst.encoding, VEX_SIMD_66, VEX_OPCODE_0F_3A) + seq![0x1B, (0xC0 | rr_bits(src.encoding, dst.encoding)), (imm8 & 0x01)] }))
            }),
    {
        let mut attributes = InstructionAttr::new(&self.features, AVX_512BIT, true, false, true, true);
        attributes.set_is_evex_instruction();
        let encode = self.vex_prefix_and_encode(src.encoding, 0, dst.encoding, VEX_SIMD_66, VEX_OPCODE_0F_3A, &mut attributes);
        self.emit_int24(0x1B, (0xC0 | encode), (imm8 & 0x01));
    }

    /// `vextractf64x4 [dst], src, imm8`
    pub fn vextractf64x4_mxi(&mut self, dst: Address, src: XMMRegister, imm8: u8)
        requires
            dst.wf(),
            src.wf(),
            ({
                let f = old(self).features;
                (f.supports_evex()) && ((imm8 <= 0x01) && ({ let a1 = InstructionAttr::spec_new(f, AVX_512BIT, true, false, true, true); let a2 = a1.with_address(f, EVEX_T4, EVEX_64BIT); let a3 = a2.merging(); let a4 = a3.evex_only(); (vex_adr_ok(f, a4, 0, src.encoding, dst)) }))
            }),
        ensures
            ({
                let f = old(self).features;
                final(self).appends(*old(self), ({ let a1 = InstructionAttr::spec_new(f, AVX_512BIT, true, false, true, true); let a2 = a1.with_address(f, EVEX_T4, EVEX_64BIT); let a3 = a2.merging(); let a4 = a3.evex_only(); vex_adr_bytes(f, a4, dst, 0, src.encoding, VEX_SIMD_66, VEX_OPCODE_0F_3A) + ({ let a5 = vex_adr_attr(f, a4, 0, src.encoding); seq![0x1B] + address_bytes(f, Some(a5), src.encoding, dst, true) + seq![(imm8 & 0x01)] }) }))
            }),
    {
        let mut attributes = InstructionAttr::new(&self.features, AVX_512BIT, true, false, true, true);
        attributes.set_address_attributes(&self.features, EVEX_T4, EVEX_64BIT);
        attributes.reset_is_clear_context();
        attributes.set_is_evex_instruction();
        self.vex_prefix(&dst, 0, src.encoding, VEX_SIMD_66, VEX_OPCODE_0F_3A, &mut attributes);
        self.emit_int8(0x1B);
        self.emit_operand_attr(src.encoding, &dst, &attributes, true);
        self.emit_int8((imm8 & 0x01));
    }

    /// `evpaddb dst, mask, nds, src, merge, vector_len`
    pub fn evpaddb(&mut self, dst: XMMRegister, mask: KRegister, nds: XMMRegister, src: XMMRegister, merge: bool, vector_len: u8)
        requires
            dst.wf(),
            mask.wf(),
            nds.wf(),
            src.wf(),
            ({
                let f = old(self).features;
                (f.supports_avx512bw() && ((vector_len == AVX_512BIT) || f.supports_avx512vl())) && ({ let a1 = InstructionAttr::spec_new(f, vector_len, false, false, false, true); let a2 = a1.evex_only(); let a3 = a2.with_mask(mask); (if merge { ({ let a4 = a3.merging(); (vex_rr_ok(f, a4, dst.encoding, nds.encoding, src.encoding)) }) } else { (vex_rr_ok(f, a3, dst.encoding, nds.encoding, src.encoding)) }) })
            }),
        ensures
            ({
                let f = old(self).features;
                final(self).appends(*old(self), ({ let a1 = InstructionAttr::spec_new(f, vector_len, false, false, false, true); let a2 = a1.evex_only(); let a3 = a2.with_mask(mask); (if merge { ({ let a4 = a3.merging(); vex_rr_bytes(f, a4, dst.encoding, nds.encoding, src.encoding, VEX_SIMD_66, VEX_OPCODE_0F) + seq![0xFC, (0xC0 | rr_bits(dst.encoding, src.encoding))] }) } else { vex_rr_bytes(f, a3, dst.encoding, nds.encoding, src.encoding, VEX_SIMD_66, VEX_OPCODE_0F) + seq![0xFC, (0xC0 | rr_bits(dst.encoding, src.encoding))] }) }))
            }),
    {
        let mut attributes = InstructionAttr::new(&self.features, vector_len, false, false, false, true);
        attributes.set_is_evex_instruction();
        attributes.set_embedded_opmask_register_specifier(mask);
        if merge {
            attributes.reset_is_clear_context();
            let encode = self.vex_prefix_and_encode(dst.encoding, nds.encoding, src.encoding, VEX_SIMD_66, VEX_OPCODE_0F, &mut attributes);
            self.emit_int16(0xFC, (0xC0 | encode));
        } else {
            let encode = self.vex_prefix_and_encode(dst.encoding, nds.encoding, src.encoding, VEX_SIMD_66, VEX_OPCODE_0F, &mut attributes);
            self.emit_int16(0xFC, (0xC0 | encode));
        }
    }

    /// `evpaddb dst, mask, nds, [src], merge, vector_len`
    pub fn evpaddb_xkxm(&mut self, dst: XMMRegister, mask: KRegister, nds: XMMRegister, src: Address, merge: bool, vector_len: u8)
        requires
            dst.wf(),
            mask.wf(),
            nds.wf(),
            src.wf(),
            ({
                let f = old(self).features;
                (f.supports_avx512bw() && ((vector_len == AVX_512BIT) || f.supports_avx512vl())) && ({ let a1 = InstructionAttr::spec_new(f, vector_len, false, false, false, true); let a2 = a1.with_address(f, EVEX_FV, EVEX_32BIT); let a3 = a2.evex_only(); let a4 = a3.with_mask(mask); (if merge { ({ let a5 = a4.merging(); (vex_adr_ok(f, a5, nds.encoding, dst.encoding, src)) }) } else { (vex_adr_ok(f, a4, nds.encoding, dst.encoding, src)) }) })
            }),
        ensures
            ({
                let f = old(self).features;
                final(self).appends(*old(self), ({ let a1 = InstructionAttr::spec_new(f, vector_len, false, false, false, true); let a2 = a1.with_address(f, EVEX_FV, EVEX_32BIT); let a3 = a2.evex_only(); let a4 = a3.with_mask(mask); (if merge { ({ let a5 = a4.merging(); vex_adr_bytes(f, a5, src, nds.encoding, dst.encoding, VEX_SIMD_66, VEX_OPCODE_0F) + ({ let a6 = vex_adr_attr(f, a5, nds.encoding, dst.encoding); seq![0xFC] + address_bytes(f, Some(a6), dst.encoding, src, true) }) }) } else { vex_adr_bytes(f, a4, src, nds.encoding, dst.encoding, VEX_SIMD_66, VEX_OPCODE_0F) + ({ let a7 = vex_adr_attr(f, a4, nds.encoding, dst.encoding); seq![0xFC] + address_bytes(f, Some(a7), dst.encoding, src, true) }) }) }))
            }),
    {
        let mut attributes = InstructionAttr::new(&self.features, vector_len, false, false, false, true);
        attributes.set_address_attributes(&self.features, EVEX_FV, EVEX_32BIT);
        attributes.set_is_evex_instruction();
        attributes.set_embedded_opmask_register_specifier(mask);
        if merge {
            attributes.reset_is_clear_context();
            self.vex_prefix(&src, nds.encoding, dst.encoding, VEX_SIMD_66, VEX_OPCODE_0F, &mut attributes);
            self.emit_int8(0xFC);
            self.emit_operand_attr(dst.encoding, &src, &attributes, true);
        } else {
            self.vex_prefix(&src, nds.encoding, dst.encoding, VEX_SIMD_66, VEX_OPCODE_0F, &mut attributes);
            self.emit_int8(0xFC);
            self.emit_operand_attr(dst.encoding, &src, &attributes, true);
        }
    }

    /// `evpaddw dst, mask, nds, src, merge, vector_len`
    pub fn evpaddw(&mut self, dst: XMMRegister, mask: KRegister, nds: XMMRegister, src: XMMRegister, merge: bool, vector_len: u8)
        requires
            dst.wf(),
            mask.wf(),
            nds.wf(),
            src.wf(),
            ({
                let f = old(self).features;
                (f.supports_avx512bw() && ((vector_len == AVX_512BIT) || f.supports_avx512vl())) && ({ let a1 = InstructionAttr::spec_new(f, vector_len, false, false, false, true); let a2 = a1.evex_only(); let a3 = a2.with_mask(mask); (if merge { ({ let a4 = a3.merging(); (vex_rr_ok(f, a4, dst.encoding, nds.encoding, src.encoding)) }) } else { (vex_rr_ok(f, a3, dst.encoding, nds.encoding, src.encoding)) }) })
            }),
        ensures
            ({
                let f = old(self).features;
                final(self).appends(*old(self), ({ let a1 = InstructionAttr::spec_new(f, vector_len, false, false, false, true); let a2 = a1.evex_only(); let a3 = a2.with_mask(mask); (if merge { ({ let a4 = a3.merging(); vex_rr_bytes(f, a4, dst.encoding, nds.encoding, src.encoding, VEX_SIMD_66, VEX_OPCODE_0F) + seq![0xFD, (0xC0 | rr_bits(dst.encoding, src.encoding))] }) } else { vex_rr_bytes(f, a3, dst.encoding, nds.encoding, src.encoding, VEX_SIMD_66, VEX_OPCODE_0F) + seq![0xFD, (0xC0 | rr_bits(dst.encoding, src.encoding))] }) }))
            }),
    {
        let mut attributes = InstructionAttr::new(&self.features, vector_len, false, false, false, true);
        attributes.set_is_evex_instruction();
        attributes.set_embedded_opmask_register_specifier(mask);
        if merge {
            attributes.reset_is_clear_context();
            let encode = self.vex_prefix_and_encode(dst.encoding, nds.encoding, src.encoding, VEX_SIMD_66, VEX_OPCODE_0F, &mut attributes);
            self.emit_int16(0xFD, (0xC0 | encode));
        } else {
            let encode = self.vex_prefix_and_encode(dst.encoding, nds.encoding, src.encoding, VEX_SIMD_66, VEX_OPCODE_0F, &mut attributes);
            self.emit_int16(0xFD, (0xC0 | encode));
        }
    }

    /// `evpaddw dst, mask, nds, [src], merge, vector_len`
    pub fn evpaddw_xkxm(&mut self, dst: XMMRegister, mask: KRegister, nds: XMMRegister, src: Address, merge: bool, vector_len: u8)
        requires
            dst.wf(),
            mask.wf(),
            nds.wf(),
            src.wf(),
            ({
                let f = old(self).features;
                (f.supports_avx512bw() && ((vector_len == AVX_512BIT) || f.supports_avx512vl())) && ({ let a1 = InstructionAttr::spec_new(f, vector_len, false, false, false, true); let a2 = a1.with_address(f, EVEX_FV, EVEX_32BIT); let a3 = a2.evex_only(); let a4 = a3.with_mask(mask); (if merge { ({ let a5 = a4.merging(); (vex_adr_ok(f, a5, nds.encoding, dst.encoding, src)) }) } else { (vex_adr_ok(f, a4, nds.encoding, dst.encoding, src)) }) })
            }),
        ensures
            ({
                let f = old(self).features;
                final(self).appends(*old(self), ({ let a1 = InstructionAttr::spec_new(f, vector_len, false, false, false, true); let a2 = a1.with_address(f, EVEX_FV, EVEX_32BIT); let a3 = a2.evex_only(); let a4 = a3.with_mask(mask); (if merge { ({ let a5 = a4.merging(); vex_adr_bytes(f, a5, src, nds.encoding, dst.encoding, VEX_SIMD_66, VEX_OPCODE_0F) + ({ let a6 = vex_adr_attr(f, a5, nds.encoding, dst.encoding); seq![0xFD] + address_bytes(f, Some(a6), dst.encoding, src, true) }) }) } else { vex_adr_bytes(f, a4, src, nds.encoding, dst.encoding, VEX_SIMD_66, VEX_OPCODE_0F) + ({ let a7 = vex_adr_attr(f, a4, nds.encoding, dst.encoding); seq![0xFD] + address_bytes(f, Some(a7), dst.encoding, src, true) }) }) }))
            }),
    {
        let mut attributes = InstructionAttr::new(&self.features, vector_len, false, false, false, true);
        attributes.set_address_attributes(&self.features, EVEX_FV, EVEX_32BIT);
        attributes.set_is_evex_instruction();
        attributes.set_embedded_opmask_register_specifier(mask);
        if merge {
            attributes.reset_is_clear_context();
            self.vex_prefix(&src, nds.encoding, dst.encoding, VEX_SIMD_66, VEX_OPCODE_0F, &mut attributes);
            self.emit_int8(0xFD);
            self.emit_operand_attr(dst.encoding, &src, &attributes, true);
        } else {
            self.vex_prefix(&src, nds.encoding, dst.encoding, VEX_SIMD_66, VEX_OPCODE_0F, &mut attributes);
            self.emit_int8(0xFD);
            self.emit_operand_attr(dst.encoding, &src, &attributes, true);
        }
    }

    /// `evpaddd dst, mask, nds, src, merge, vector_len`
    pub fn evpaddd(&mut self, dst: XMMRegister, mask: KRegister, nds: XMMRegister, src: XMMRegister, merge: bool, vector_len: u8)
        requires
            dst.wf(),
            mask.wf(),
            nds.wf(),
            src.wf(),
            ({
                let f = old(self).features;
                (f.supports_evex()) && (((vector_len == AVX_512BIT) || f.supports_avx512vl()) && ({ let a1 = InstructionAttr::spec_new(f, vector_len, false, false, false, true); let a2 = a1.evex_only(); let a3 = a2.with_mask(mask); (if merge { ({ let a4 = a3.merging(); (vex_rr_ok(f, a4, dst.encoding, nds.encoding, src.encoding)) }) } else { (vex_rr_ok(f, a3, dst.encoding, nds.encoding, src.encoding)) }) }))
            }),
        ensures
            ({
                let f = old(self).features;
                final(self).appends(*old(self), ({ let a1 = InstructionAttr::spec_new(f, vector_len, false, false, false, true); let a2 = a1.evex_only(); let a3 = a2.with_mask(mask); (if merge { ({ let a4 = a3.merging(); vex_rr_bytes(f, a4, dst.encoding, nds.encoding, src.encoding, VEX_SIMD_66, VEX_OPCODE_0F) + seq![0xFE, (0xC0 | rr_bits(dst.encoding, src.encoding))] }) } else { vex_rr_bytes(f, a3, dst.encoding, nds.encoding, src.encoding, VEX_SIMD_66, VEX_OPCODE_0F) + seq![0xFE, (0xC0 | rr_bits(dst.encoding, src.encoding))] }) }))
            }),
    {
        let mut attributes = InstructionAttr::new(&self.features, vector_len, false, false, false, true);
        attributes.set_is_evex_instruction();
        attributes.set_embedded_opmask_register_specifier(mask);
        if merge {
            attributes.reset_is_clear_context();
            let encode = self.vex_prefix_and_encode(dst.encoding, nds.encoding, src.encoding, VEX_SIMD_66, VEX_OPCODE_0F, &mut attributes);
            self.emit_int16(0xFE, (0xC0 | encode));
        } else {
            let encode = self.vex_prefix_and_encode(dst.encoding, nds.encoding, src.encoding, VEX_SIMD_66, VEX_OPCODE_0F, &mut attributes);
            self.emit_int16(0xFE, (0xC0 | encode));
        }
    }

    /// `evpaddd dst, mask, nds, [src], merge, vector_len`
    pub fn evpaddd_xkxm(&mut self, dst: XMMRegister, mask: KRegister, nds: XMMRegister, src: Address, merge: bool, vector_len: u8)
        requires
            dst.wf(),
            mask.wf(),
            nds.wf(),
            src.wf(),
            ({
                let f = old(self).features;
                (f.supports_evex()) && (((vector_len == AVX_512BIT) || f.supports_avx512vl()) && ({ let a1 = InstructionAttr::spec_new(f, vector_len, false, false, false, true); let a2 = a1.with_address(f, EVEX_FV, EVEX_32BIT); let a3 = a2.evex_only(); let a4 = a3.with_mask(mask); (if merge { ({ let a5 = a4.merging(); (vex_adr_ok(f, a5, nds.encoding, dst.encoding, src)) }) } else { (vex_adr_ok(f, a4, nds.encoding, dst.encoding, src)) }) }))
            }),
        ensures
            ({
                let f = old(self).features;
                final(self).appends(*old(self), ({ let a1 = InstructionAttr::spec_new(f, vector_len, false, false, false, true); let a2 = a1.with_address(f, EVEX_FV, EVEX_32BIT); let a3 = a2.evex_only(); let a4 = a3.with_mask(mask); (if merge { ({ let a5 = a4.merging(); vex_adr_bytes(f, a5, src, nds.encoding, dst.encoding, VEX_SIMD_66, VEX_OPCODE_0F) + ({ let a6 = vex_adr_attr(f, a5, nds.encoding, dst.encoding); seq![0xFE] + address_bytes(f, Some(a6), dst.encoding, src, true) }) }) } else { vex_adr_bytes(f, a4, src, nds.encoding, dst.encoding, VEX_SIMD_66, VEX_OPCODE_0F) + ({ let a7 = vex_adr_attr(f, a4, nds.encoding, dst.encoding); seq![0xFE] + address_bytes(f, Some(a7), dst.encoding, src, true) }) }) }))
            }),
    {
        let mut attributes = InstructionAttr::new(&self.features, vector_len, false, false, false, true);
        attributes.set_address_attributes(&self.features, EVEX_FV, EVEX_32BIT);
        attributes.set_is_evex_instruction();
        attributes.set_embedded_opmask_register_specifier(mask);
        if merge {
            attributes.reset_is_clear_context();
            self.vex_prefix(&src, nds.encoding, dst.encoding, VEX_SIMD_66, VEX_OPCODE_0F, &mut attributes);
            self.emit_int8(0xFE);
            self.emit_operand_attr(dst.encoding, &src, &attributes, true);
        } else {
            self.vex_prefix(&src, nds.encoding, dst.encoding, VEX_SIMD_66, VEX_OPCODE_0F, &mut attributes);
            self.emit_int8(0xFE);
            self.emit_operand_attr(dst.encoding, &src, &attributes, true);
        }
    }

    /// `evpaddq dst, mask, nds, src, merge, vector_len`
    pub fn evpaddq(&mut self, dst: XMMRegister, mask: KRegister, nds: XMMRegister, src: XMMRegister, merge: bool, vector_len: u8)
        requires
            dst.wf(),
            mask.wf(),
            nds.wf(),
            src.wf(),
            ({
                let f = old(self).features;
                (f.supports_evex()) && (((vector_len == AVX_512BIT) || f.supports_avx512vl()) && ({ let a1 = InstructionAttr::spec_new(f, vector_len, true, false, false, true); let a2 = a1.evex_only(); let a3 = a2.with_mask(mask); (if merge { ({ let a4 = a3.merging(); (vex_rr_ok(f, a4, dst.encoding, nds.encoding, src.encoding)) }) } else { (vex_rr_ok(f, a3, dst.encoding, nds.encoding, src.encoding)) }) }))
            }),
        ensures
            ({
                let f = old(self).features;
                final(self).appends(*old(self), ({ let a1 = InstructionAttr::spec_new(f, vector_len, true, false, false, true); let a2 = a1.evex_only(); let a3 = a2.with_mask(mask); (if merge { ({ let a4 = a3.merging(); vex_rr_bytes(f, a4, dst.encoding, nds.encoding, src.encoding, VEX_SIMD_66, VEX_OPCODE_0F) + seq![0xD4, (0xC0 | rr_bits(dst.encoding, src.encoding))] }) } else { vex_rr_bytes(f, a3, dst.encoding, nds.encoding, src.encoding, VEX_SIMD_66, VEX_OPCODE_0F) + seq![0xD4, (0xC0 | rr_bits(dst.encoding, src.encoding))] }) }))
            }),
    {
        let mut attributes = InstructionAttr::new(&self.features, vector_len, true, false, false, true);
        attributes.set_is_evex_instruction();
        attributes.set_embedded_opmask_register_specifier(mask);
        if merge {
            attributes.reset_is_clear_context();
            let encode = self.vex_prefix_and_encode(dst.encoding, nds.encoding, src.encoding, VEX_SIMD_66, VEX_OPCODE_0F, &mut attributes);
            self.emit_int16(0xD4, (0xC0 | encode));
        } else {
            let encode = self.vex_prefix_and_encode(dst.encoding, nds.encoding, src.encoding, VEX_SIMD_66, VEX_OPCODE_0F, &mut attributes);
            self.emit_int16(0xD4, (0xC0 | encode));
        }
    }

    /// `evpaddq dst, mask, nds, [src], merge, vector_len`
    pub fn evpaddq_xkxm(&mut self, dst: XMMRegister, mask: KRegister, nds: XMMRegister, src: Address, merge: bool, vector_len: u8)
        requires
            dst.wf(),
            mask.wf(),
            nds.wf(),
            src.wf(),
            ({
                let f = old(self).features;
                (f.supports_evex()) && (((vector_len == AVX_512BIT) || f.supports_avx512vl()) && ({ let a1 = InstructionAttr::spec_new(f, vector_len, true, false, false, true); let a2 = a1.with_address(f, EVEX_FV, EVEX_32BIT); let a3 = a2.evex_only(); let a4 = a3.with_mask(mask); (if merge { ({ let a5 = a4.merging(); (vex_adr_ok(f, a5, nds.encoding, dst.encoding, src)) }) } else { (vex_adr_ok(f, a4, nds.encoding, dst.encoding, src)) }) }))
            }),
        ensures
            ({
                let f = old(self).features;
                final(self).appends(*old(self), ({ let a1 = InstructionAttr::spec_new(f, vector_len, true, false, false, true); let a2 = a1.with_address(f, EVEX_FV, EVEX_32BIT); let a3 = a2.evex_only(); let a4 = a3.with_mask(mask); (if merge { ({ let a5 = a4.merging(); vex_adr_bytes(f, a5, src, nds.encoding, dst.encoding, VEX_SIMD_66, VEX_OPCODE_0F) + ({ let a6 = vex_adr_attr(f, a5, nds.encoding, dst.encoding); seq![0xD4] + address_bytes(f, Some(a6), dst.encoding, src, true) }) }) } else { vex_adr_bytes(f, a4, src, nds.encoding, dst.encoding, VEX_SIMD_66, VEX_OPCODE_0F) + ({ let a7 = vex_adr_attr(f, a4, nds.encoding, dst.encoding); seq![0xD4] + address_bytes(f, Some(a7), dst.encoding, src, true) }) }) }))
            }),
    {
        let mut attributes = InstructionAttr::new(&self.features, vector_len, true, false, false, true);
        attributes.set_address_attributes(&self.features, EVEX_FV, EVEX_32BIT);
        attributes.set_is_evex_instruction();
        attributes.set_embedded_opmask_register_specifier(mask);
        if merge {
            attributes.reset_is_clear_context();
            self.vex_prefix(&src, nds.encoding, dst.encoding, VEX_SIMD_66, VEX_OPCODE_0F, &mut attributes);
            self.emit_int8(0xD4);
            self.emit_operand_attr(dst.encoding, &src, &attributes, true);
        } else {
            self.vex_prefix(&src, nds.encoding, dst.encoding, VEX_SIMD_66, VEX_OPCODE_0F, &mut attributes);
            self.emit_int8(0xD4);
            self.emit_operand_attr(dst.encoding, &src, &attributes, true);
        }
    }

    /// `evaddps dst, mask, nds, src, merge, vector_len`
    pub fn evaddps(&mut self, dst: XMMRegister, mask: KRegister, nds: XMMRegister, src: XMMRegister, merge: bool, vector_len: u8)
        requires
            dst.wf(),
            mask.wf(),
            nds.wf(),
            src.wf(),
            ({
                let f = old(self).features;
                (f.supports_evex()) && (((vector_len == AVX_512BIT) || f.supports_avx512vl()) && ({ let a1 = InstructionAttr::spec_new(f, vector_len, false, false, false, true); let a2 = a1.evex_only(); let a3 = a2.with_mask(mask); (if merge { ({ let a4 = a3.merging(); (vex_rr_ok(f, a4, dst.encoding, nds.encoding, src.encoding)) }) } else { (vex_rr_ok(f, a3, dst.encoding, nds.encoding, src.encoding)) }) }))
            }),
        ensures
            ({
                let f = old(self).features;
                final(self).appends(*old(self), ({ let a1 = InstructionAttr::spec_new(f, vector_len, false, false, false, true); let a2 = a1.evex_only(); let a3 = a2.with_mask(mask); (if merge { ({ let a4 = a3.merging(); vex_rr_bytes(f, a4, dst.encoding, nds.encoding, src.encoding, VEX_SIMD_NONE, VEX_OPCODE_0F) + seq![0x58, (0xC0 | rr_bits(dst.encoding, src.encoding))] }) } else { vex_rr_bytes(f, a3, dst.encoding, nds.encoding, src.encoding, VEX_SIMD_NONE, VEX_OPCODE_0F) + seq![0x58, (0xC0 | rr_bits(dst.encoding, src.encoding))] }) }))
            }),
    {
        let mut attributes = InstructionAttr::new(&self.features, vector_len, false, false, false, true);
        attributes.set_is_evex_instruction();
        attributes.set_embedded_opmask_register_specifier(mask);
        if merge {
            attributes.reset_is_clear_context();
            let encode = self.vex_prefix_and_encode(dst.encoding, nds.encoding, src.encoding, VEX_SIMD_NONE, VEX_OPCODE_0F, &mut attributes);
            self.emit_int16(0x58, (0xC0 | encode));
        } else {
            let encode = self.vex_prefix_and_encode(dst.encoding, nds.encoding, src.encoding, VEX_SIMD_NONE, VEX_OPCODE_0F, &mut attributes);
            self.emit_int16(0x58, (0xC0 | encode));
        }
    }

    /// `evaddps dst, mask, nds, [src], merge, vector_len`
    pub fn evaddps_xkxm(&mut self, dst: XMMRegister, mask: KRegister, nds: XMMRegister, src: Address, merge: bool, vector_len: u8)
        requires
            dst.wf(),
            mask.wf(),
            nds.wf(),
            src.wf(),
            ({
                let f = old(self).features;
                (f.supports_evex()) && (((vector_len == AVX_512BIT) || f.supports_avx512vl()) && ({ let a1 = InstructionAttr::spec_new(f, vector_len, false, false, false, true); let a2 = a1.with_address(f, EVEX_FV, EVEX_32BIT); let a3 = a2.evex_only(); let a4 = a3.with_mask(mask); (if merge { ({ let a5 = a4.merging(); (vex_adr_ok(f, a5, nds.encoding, dst.encoding, src)) }) } else { (vex_adr_ok(f, a4, nds.encoding, dst.encoding, src)) }) }))
            }),
        ensures
            ({
                let f = old(self).features;
                final(self).appends(*old(self), ({ let a1 = InstructionAttr::spec_new(f, vector_len, false, false, false, true); let a2 = a1.with_address(f, EVEX_FV, EVEX_32BIT); let a3 = a2.evex_only(); let a4 = a3.with_mask(mask); (if merge { ({ let a5 = a4.merging(); vex_adr_bytes(f, a5, src, nds.encoding, dst.encoding, VEX_SIMD_NONE, VEX_OPCODE_0F) + ({ let a6 = vex_adr_attr(f, a5, nds.encoding, dst.encoding); seq![0x58] + address_bytes(f, Some(a6), dst.encoding, src, true) }) }) } else { vex_adr_bytes(f, a4, src, nds.encoding, dst.encoding, VEX_SIMD_NONE, VEX_OPCODE_0F) + ({ let a7 = vex_adr_attr(f, a4, nds.encoding, dst.encoding); seq![0x58] + address_bytes(f, Some(a7), dst.encoding, src, true) }) }) }))
            }),
    {
        let mut attributes = InstructionAttr::new(&self.features, vector_len, false, false, false, true);
        attributes.set_address_attributes(&self.features, EVEX_FV, EVEX_32BIT);
        attributes.set_is_evex_instruction();
        attributes.set_embedded_opmask_register_specifier(mask);
        if merge {
            attributes.reset_is_clear_context();
            self.vex_prefix(&src, nds.encoding, dst.encoding, VEX_SIMD_NONE, VEX_OPCODE_0F, &mut attributes);
            self.emit_int8(0x58);
            self.emit_operand_attr(dst.encoding, &src, &attributes, true);
        } else {
            self.vex_prefix(&src, nds.encoding, dst.encoding, VEX_SIMD_NONE, VEX_OPCODE_0F, &mut attributes);
            self.emit_int8(0x58);
            self.emit_operand_attr(dst.encoding, &src, &attributes, true);
        }
    }

    /// `evaddpd dst, mask, nds, src, merge, vector_len`
    pub fn evaddpd(&mut self, dst: XMMRegister, mask: KRegister, nds: XMMRegister, src: XMMRegister, merge: bool, vector_len: u8)
        requires
            dst.wf(),
            mask.wf(),
            nds.wf(),
            src.wf(),
            ({
                let f = old(self).features;
                (f.supports_evex()) && (((vector_len == AVX_512BIT) || f.supports_avx512vl()) && ({ let a1 = InstructionAttr::spec_new(f, vector_len, true, false, false, true); let a2 = a1.evex_only(); let a3 = a2.with_mask(mask); (if merge { ({ let a4 = a3.merging(); (vex_rr_ok(f, a4, dst.encoding, nds.encoding, src.encoding)) }) } else { (vex_rr_ok(f, a3, dst.encoding, nds.encoding, src.encoding)) }) }))
            }),
        ensures
            ({
                let f = old(self).features;
                final(self).appends(*old(self), ({ let a1 = InstructionAttr::spec_new(f, vector_len, true, false, false, true); let a2 = a1.evex_only(); let a3 = a2.with_mask(mask); (if merge { ({ let a4 = a3.merging(); vex_rr_bytes(f, a4, dst.encoding, nds.encoding, src.encoding, VEX_SIMD_66, VEX_OPCODE_0F) + seq![0x58, (0xC0 | rr_bits(dst.encoding, src.encoding))] }) } else { vex_rr_bytes(f, a3, dst.encoding, nds.encoding, src.encoding, VEX_SIMD_66, VEX_OPCODE_0F) + seq![0x58, (0xC0 | rr_bits(dst.encoding, src.encoding))] }) }))
            }),
    {
        let mut attributes = InstructionAttr::new(&self.features, vector_len, true, false, false, true);
        attributes.set_is_evex_instruction();
        attributes.set_embedded_opmask_register_specifier(mask);
        if merge {
            attributes.reset_is_clear_context();
            let encode = self.vex_prefix_and_encode(dst.encoding, nds.encoding, src.encoding, VEX_SIMD_66, VEX_OPCODE_0F, &mut attributes);
            self.emit_int16(0x58, (0xC0 | encode));
        } else {
            let encode = self.vex_prefix_and_encode(dst.encoding, nds.encoding, src.encoding, VEX_SIMD_66, VEX_OPCODE_0F, &mut attributes);
            self.emit_int16(0x58, (0xC0 | encode));
        }
    }

    /// `evaddpd dst, mask, nds, [src], merge, vector_len`
    pub fn evaddpd_xkxm(&mut self, dst: XMMRegister, mask: KRegister, nds: XMMRegister, src: Address, merge: bool, vector_len: u8)
        requires
            dst.wf(),
            mask.wf(),
            nds.wf(),
            src.wf(),
            ({
                let f = old(self).features;
                (f.supports_evex()) && (((vector_len == AVX_512BIT) || f.supports_avx512vl()) && ({ let a1 = InstructionAttr::spec_new(f, vector_len, true, false, false, true); let a2 = a1.with_address(f, EVEX_FV, EVEX_32BIT); let a3 = a2.evex_only(); let a4 = a3.with_mask(mask); (if merge { ({ let a5 = a4.merging(); (vex_adr_ok(f, a5, nds.encoding, dst.encoding, src)) }) } else { (vex_adr_ok(f, a4, nds.encoding, dst.encoding, src)) }) }))
            }),
        ensures
            ({
                let f = old(self).features;
                final(self).appends(*old(self), ({ let a1 = InstructionAttr::spec_new(f, vector_len, true, false, false, true); let a2 = a1.with_address(f, EVEX_FV, EVEX_32BIT); let a3 = a2.evex_only(); let a4 = a3.with_mask(mask); (if merge { ({ let a5 = a4.merging(); vex_adr_bytes(f, a5, src, nds.encoding, dst.encoding, VEX_SIMD_66, VEX_OPCODE_0F) + ({ let a6 = vex_adr_attr(f, a5, nds.encoding, dst.encoding); seq![0x58] + address_bytes(f, Some(a6), dst.encoding, src, true) }) }) } else { vex_adr_bytes(f, a4, src, nds.encoding, dst.encoding, VEX_SIMD_66, VEX_OPCODE_0F) + ({ let a7 = vex_adr_attr(f, a4, nds.encoding, dst.encoding); seq![0x58] + address_bytes(f, Some(a7), dst.encoding, src, true) }) }) }))
            }),
    {
        let mut attributes = InstructionAttr::new(&self.features, vector_len, true, false, false, true);
        attributes.set_address_attributes(&self.features, EVEX_FV, EVEX_32BIT);
        attributes.set_is_evex_instruction();
        attributes.set_embedded_opmask_register_specifier(mask);
        if merge {
            attributes.reset_is_clear_context();
            self.vex_prefix(&src, nds.encoding, dst.encoding, VEX_SIMD_66, VEX_OPCODE_0F, &mut attributes);
            self.emit_int8(0x58);
            self.emit_operand_attr(dst.encoding, &src, &attributes, true);
        } else {
            self.vex_prefix(&src, nds.encoding, dst.encoding, VEX_SIMD_66, VEX_OPCODE_0F, &mut attributes);
            self.emit_int8(0x58);
            self.emit_operand_attr(dst.encoding, &src, &attributes, true);
        }
    }

    /// `evpsubb dst, mask, nds, src, merge, vector_len`
    pub fn evpsubb(&mut self, dst: XMMRegister, mask: KRegister, nds: XMMRegister, src: XMMRegister, merge: bool, vector_len: u8)
        requires
            dst.wf(),
            mask.wf(),
            nds.wf(),
            src.wf(),
            ({
                let f = old(self).features;
                (f.supports_avx512bw() && ((vector_len == AVX_512BIT) || f.supports_avx512vl())) && ({ let a1 = InstructionAttr::spec_new(f, vector_len, false, false, false, true); let a2 = a1.evex_only(); let a3 = a2.with_mask(mask); (if merge { ({ let a4 = a3.merging(); (vex_rr_ok(f, a4, dst.encoding, nds.encoding, src.encoding)) }) } else { (vex_rr_ok(f, a3, dst.encoding, nds.encoding, src.encoding)) }) })
            }),
        ensures
            ({
                let f = old(self).features;
                final(self).appends(*old(self), ({ let a1 = InstructionAttr::spec_new(f, vector_len, false, false, false, true); let a2 = a1.evex_only(); let a3 = a2.with_mask(mask); (if merge { ({ let a4 = a3.merging(); vex_rr_bytes(f, a4, dst.encoding, nds.encoding, src.encoding, VEX_SIMD_66, VEX_OPCODE_0F) + seq![0xF8, (0xC0 | rr_bits(dst.encoding, src.encoding))] }) } else { vex_rr_bytes(f, a3, dst.encoding, nds.encoding, src.encoding, VEX_SIMD_66, VEX_OPCODE_0F) + seq![0xF8, (0xC0 | rr_bits(dst.encoding, src.encoding))] }) }))
            }),
    {
        let mut attributes = InstructionAttr::new(&self.features, vector_len, false, false, false, true);
        attributes.set_is_evex_instruction();
        attributes.set_embedded_opmask_register_specifier(mask);
        if merge {
            attributes.reset_is_clear_context();
            let encode = self.vex_prefix_and_encode(dst.encoding, nds.encoding, src.encoding, VEX_SIMD_66, VEX_OPCODE_0F, &mut attributes);
            self.emit_int16(0xF8, (0xC0 | encode));
        } else {
            let encode = self.vex_prefix_and_encode(dst.encoding, nds.encoding, src.encoding, VEX_SIMD_66, VEX_OPCODE_0F, &mut attributes);
            self.emit_int16(0xF8, (0xC0 | encode));
        }
    }

    /// `evpsubb dst, mask, nds, [src], merge, vector_len`
    pub fn evpsubb_xkxm(&mut self, dst: XMMRegister, mask: KRegister, nds: XMMRegister, src: Address, merge: bool, vector_len: u8)
        requires
            dst.wf(),
            mask.wf(),
            nds.wf(),
            src.wf(),
            ({
                let f = old(self).features;
                (f.supports_avx512bw() && ((vector_len == AVX_512BIT) || f.supports_avx512vl())) && ({ let a1 = InstructionAttr::spec_new(f, vector_len, false, false, false, true); let a2 = a1.with_address(f, EVEX_FV, EVEX_32BIT); let a3 = a2.evex_only(); let a4 = a3.with_mask(mask); (if merge { ({ let a5 = a4.merging(); (vex_adr_ok(f, a5, nds.encoding, dst.encoding, src)) }) } else { (vex_adr_ok(f, a4, nds.encoding, dst.encoding, src)) }) })
            }),
        ensures
            ({
                let f = old(self).features;
                final(self).appends(*old(self), ({ let a1 = InstructionAttr::spec_new(f, vector_len, false, false, false, true); let a2 = a1.with_address(f, EVEX_FV, EVEX_32BIT); let a3 = a2.evex_only(); let a4 = a3.with_mask(mask); (if merge { ({ let a5 = a4.merging(); vex_adr_bytes(f, a5, src, nds.encoding, dst.encoding, VEX_SIMD_66, VEX_OPCODE_0F) + ({ let a6 = vex_adr_attr(f, a5, nds.encoding, dst.encoding); seq![0xF8] + address_bytes(f, Some(a6), dst.encoding, src, true) }) }) } else { vex_adr_bytes(f, a4, src, nds.encoding, dst.encoding, VEX_SIMD_66, VEX_OPCODE_0F) + ({ let a7 = vex_adr_attr(f, a4, nds.encoding, dst.encoding); seq![0xF8] + address_bytes(f, Some(a7), dst.encoding, src, true) }) }) }))
            }),
    {
        let mut attributes = InstructionAttr::new(&self.features, vector_len, false, false, false, true);
        attributes.set_address_attributes(&self.features, EVEX_FV, EVEX_32BIT);
        attributes.set_is_evex_instruction();
        attributes.set_embedded_opmask_register_specifier(mask);
        if merge {
            attributes.reset_is_clear_context();
            self.vex_prefix(&src, nds.encoding, dst.encoding, VEX_SIMD_66, VEX_OPCODE_0F, &mut attributes);
            self.emit_int8(0xF8);
            self.emit_operand_attr(dst.encoding, &src, &attributes, true);
        } else {
            self.vex_prefix(&src, nds.encoding, dst.encoding, VEX_SIMD_66, VEX_OPCODE_0F, &mut attributes);
            self.emit_int8(0xF8);
            self.emit_operand_attr(dst.encoding, &src, &attributes, true);
        }
    }

    /// `evpsubw dst, mask, nds, src, merge, vector_len`
    pub fn evpsubw(&mut self, dst: XMMRegister, mask: KRegister, nds: XMMRegister, src: XMMRegister, merge: bool, vector_len: u8)
        requires
            dst.wf(),
            mask.wf(),
            nds.wf(),
            src.wf(),
            ({
                let f = old(self).features;
                (f.supports_avx512bw() && ((vector_len == AVX_512BIT) || f.supports_avx512vl())) && ({ let a1 = InstructionAttr::spec_new(f, vector_len, false, false, false, true); let a2 = a1.evex_only(); let a3 = a2.with_mask(mask); (if merge { ({ let a4 = a3.merging(); (vex_rr_ok(f, a4, dst.encoding, nds.encoding, src.encoding)) }) } else { (vex_rr_ok(f, a3, dst.encoding, nds.encoding, src.encoding)) }) })
            }),
        ensures
            ({
                let f = old(self).features;
                final(self).appends(*old(self), ({ let a1 = InstructionAttr::spec_new(f, vector_len, false, false, false, true); let a2 = a1.evex_only(); let a3 = a2.with_mask(mask); (if merge { ({ let a4 = a3.merging(); vex_rr_bytes(f, a4, dst.encoding, nds.encoding, src.encoding, VEX_SIMD_66, VEX_OPCODE_0F) + seq![0xF9, (0xC0 | rr_bits(dst.encoding, src.encoding))] }) } else { vex_rr_bytes(f, a3, dst.encoding, nds.encoding, src.encoding, VEX_SIMD_66, VEX_OPCODE_0F) + seq![0xF9, (0xC0 | rr_bits(dst.encoding, src.encoding))] }) }))
            }),
    {
        let mut attributes = InstructionAttr::new(&self.features, vector_len, false, false, false, true);
        attributes.set_is_evex_instruction();
        attributes.set_embedded_opmask_register_specifier(mask);
        if merge {
            attributes.reset_is_clear_context();
            let encode = self.vex_prefix_and_encode(dst.encoding, nds.encoding, src.encoding, VEX_SIMD_66, VEX_OPCODE_0F, &mut attributes);
            self.emit_int16(0xF9, (0xC0 | encode));
        } else {
            let encode = self.vex_prefix_and_encode(dst.encoding, nds.encoding, src.encoding, VEX_SIMD_66, VEX_OPCODE_0F, &mut attributes);
            self.emit_int16(0xF9, (0xC0 | encode));
        }
    }

    /// `evpsubw dst, mask, nds, [src], merge, vector_len`
    pub fn evpsubw_xkxm(&mut self, dst: XMMRegister, mask: KRegister, nds: XMMRegister, src: Address, merge: bool, vector_len: u8)
        requires
            dst.wf(),
            mask.wf(),
            nds.wf(),
            src.wf(),
            ({
                let f = old(self).features;
                (f.supports_avx512bw() && ((vector_len == AVX_512BIT) || f.supports_avx512vl())) && ({ let a1 = InstructionAttr::spec_new(f, vector_len, false, false, false, true); let a2 = a1.with_address(f, EVEX_FV, EVEX_32BIT); let a3 = a2.evex_only(); let a4 = a3.with_mask(mask); (if merge { ({ let a5 = a4.merging(); (vex_adr_ok(f, a5, nds.encoding, dst.encoding, src)) }) } else { (vex_adr_ok(f, a4, nds.encoding, dst.encoding, src)) }) })
            }),
        ensures
            ({
                let f = old(self).features;
                final(self).appends(*old(self), ({ let a1 = InstructionAttr::spec_new(f, vector_len, false, false, false, true); let a2 = a1.with_address(f, EVEX_FV, EVEX_32BIT); let a3 = a2.evex_only(); let a4 = a3.with_mask(mask); (if merge { ({ let a5 = a4.merging(); vex_adr_bytes(f, a5, src, nds.encoding, dst.encoding, VEX_SIMD_66, VEX_OPCODE_0F) + ({ let a6 = vex_adr_attr(f, a5, nds.encoding, dst.encoding); seq![0xF9] + address_bytes(f, Some(a6), dst.encoding, src, true) }) }) } else { vex_adr_bytes(f, a4, src, nds.encoding, dst.encoding, VEX_SIMD_66, VEX_OPCODE_0F) + ({ let a7 = vex_adr_attr(f, a4, nds.encoding, dst.encoding); seq![0xF9] + address_bytes(f, Some(a7), dst.encoding, src, true) }) }) }))
            }),
    {
        let mut attributes = InstructionAttr::new(&self.features, vector_len, false, false, false, true);
        attributes.set_address_attributes(&self.features, EVEX_FV, EVEX_32BIT);
        attributes.set_is_evex_instruction();
        attributes.set_embedded_opmask_register_specifier(mask);
        if merge {
            attributes.reset_is_clear_context();
            self.vex_prefix(&src, nds.encoding, dst.encoding, VEX_SIMD_66, VEX_OPCODE_0F, &mut attributes);
            self.emit_int8(0xF9);
            self.emit_operand_attr(dst.encoding, &src, &attributes, true);
        } else {
            self.vex_prefix(&src, nds.encoding, dst.encoding, VEX_SIMD_66, VEX_OPCODE_0F, &mut attributes);
            self.emit_int8(0xF9);
            self.emit_operand_attr(dst.encoding, &src, &attributes, true);
        }
    }

    /// `evpsubd dst, mask, nds, src, merge, vector_len`
    pub fn evpsubd(&mut self, dst: XMMRegister, mask: KRegister, nds: XMMRegister, src: XMMRegister, merge: bool, vector_len: u8)
        requires
            dst.wf(),
            mask.wf(),
            nds.wf(),
            src.wf(),
            ({
                let f = old(self).features;
                (f.supports_evex()) && (((vector_len == AVX_512BIT) || f.supports_avx512vl()) && ({ let a1 = InstructionAttr::spec_new(f, vector_len, false, false, false, true); let a2 = a1.evex_only(); let a3 = a2.with_mask(mask); (if merge { ({ let a4 = a3.merging(); (vex_rr_ok(f, a4, dst.encoding, nds.encoding, src.encoding)) }) } else { (vex_rr_ok(f, a3, dst.encoding, nds.encoding, src.encoding)) }) }))
            }),
        ensures
            ({
                let f = old(self).features;
                final(self).appends(*old(self), ({ let a1 = InstructionAttr::spec_new(f, vector_len, false, false, false, true); let a2 = a1.evex_only(); let a3 = a2.with_mask(mask); (if merge { ({ let a4 = a3.merging(); vex_rr_bytes(f, a4, dst.encoding, nds.encoding, src.encoding, VEX_SIMD_66, VEX_OPCODE_0F) + seq![0xFA, (0xC0 | rr_bits(dst.encoding, src.encoding))] }) } else { vex_rr_bytes(f, a3, dst.encoding, nds.encoding, src.encoding, VEX_SIMD_66, VEX_OPCODE_0F) + seq![0xFA, (0xC0 | rr_bits(dst.encoding, src.encoding))] }) }))
            }),
    {
        let mut attributes = InstructionAttr::new(&self.features, vector_len, false, false, false, true);
        attributes.set_is_evex_instruction();
        attributes.set_embedded_opmask_register_specifier(mask);
        if merge {
            attributes.reset_is_clear_context();
            let encode = self.vex_prefix_and_encode(dst.encoding, nds.encoding, src.encoding, VEX_SIMD_66, VEX_OPCODE_0F, &mut attributes);
            self.emit_int16(0xFA, (0xC0 | encode));
        } else {
            let encode = self.vex_prefix_and_encode(dst.encoding, nds.encoding, src.encoding, VEX_SIMD_66, VEX_OPCODE_0F, &mut attributes);
            self.emit_int16(0xFA, (0xC0 | encode));
        }
    }

    /// `evpsubd dst, mask, nds, [src], merge, vector_len`
    pub fn evpsubd_xkxm(&mut self, dst: XMMRegister, mask: KRegister, nds: XMMRegister, src: Address, merge: bool, vector_len: u8)
        requires
            dst.wf(),
            mask.wf(),
            nds.wf(),
            src.wf(),
            ({
                let f = old(self).features;
                (f.supports_evex()) && (((vector_len == AVX_512BIT) || f.supports_avx512vl()) && ({ let a1 = InstructionAttr::spec_new(f, vector_len, false, false, false, true); let a2 = a1.with_address(f, EVEX_FV, EVEX_32BIT); let a3 = a2.evex_only(); let a4 = a3.with_mask(mask); (if merge { ({ let a5 = a4.merging(); (vex_adr_ok(f, a5, nds.encoding, dst.encoding, src)) }) } else { (vex_adr_ok(f, a4, nds.encoding, dst.encoding, src)) }) }))
            }),
        ensures
            ({
                let f = old(self).features;
                final(self).appends(*old(self), ({ let a1 = InstructionAttr::spec_new(f, vector_len, false, false, false, true); let a2 = a1.with_address(f, EVEX_FV, EVEX_32BIT); let a3 = a2.evex_only(); let a4 = a3.with_mask(mask); (if merge { ({ let a5 = a4.merging(); vex_adr_bytes(f, a5, src, nds.encoding, dst.encoding, VEX_SIMD_66, VEX_OPCODE_0F) + ({ let a6 = vex_adr_attr(f, a5, nds.encoding, dst.encoding); seq![0xFA] + address_bytes(f, Some(a6), dst.encoding, src, true) }) }) } else { vex_adr_bytes(f, a4, src, nds.encoding, dst.encoding, VEX_SIMD_66, VEX_OPCODE_0F) + ({ let a7 = vex_adr_attr(f, a4, nds.encoding, dst.encoding); seq![0xFA] + address_bytes(f, Some(a7), dst.encoding, src, true) }) }) }))
            }),
    {
        let mut attributes = InstructionAttr::new(&self.features, vector_len, false, false, false, true);
        attributes.set_address_attributes(&self.features, EVEX_FV, EVEX_32BIT);
        attributes.set_is_evex_instruction();
        attributes.set_embedded_opmask_register_specifier(mask);
        if merge {
            attributes.reset_is_clear_context();
            self.vex_prefix(&src, nds.encoding, dst.encoding, VEX_SIMD_66, VEX_OPCODE_0F, &mut attributes);
            self.emit_int8(0xFA);
            self.emit_operand_attr(dst.encoding, &src, &attributes, true);
        } else {
            self.vex_prefix(&src, nds.encoding, dst.encoding, VEX_SIMD_66, VEX_OPCODE_0F, &mut attributes);
            self.emit_int8(0xFA);
            self.emit_operand_attr(dst.encoding, &src, &attributes, true);
        }
    }

    /// `evpsubq dst, mask, nds, src, merge, vector_len`
    pub fn evpsubq(&mut self, dst: XMMRegister, mask: KRegister, nds: XMMRegister, src: XMMRegister, merge: bool, vector_len: u8)
        requires
            dst.wf(),
            mask.wf(),
            nds.wf(),
            src.wf(),
            ({
                let f = old(self).features;
                (f.supports_evex()) && (((vector_len == AVX_512BIT) || f.supports_avx512vl()) && ({ let a1 = InstructionAttr::spec_new(f, vector_len, true, false, false, true); let a2 = a1.evex_only(); let a3 = a2.with_mask(mask); (if merge { ({ let a4 = a3.merging(); (vex_rr_ok(f, a4, dst.encoding, nds.encoding, src.encoding)) }) } else { (vex_rr_ok(f, a3, dst.encoding, nds.encoding, src.encoding)) }) }))
            }),
        ensures
            ({
                let f = old(self).features;
                final(self).appends(*old(self), ({ let a1 = InstructionAttr::spec_new(f, vector_len, true, false, false, true); let a2 = a1.evex_only(); let a3 = a2.with_mask(mask); (if merge { ({ let a4 = a3.merging(); vex_rr_bytes(f, a4, dst.encoding, nds.encoding, src.encoding, VEX_SIMD_66, VEX_OPCODE_0F) + seq![0xFB, (0xC0 | rr_bits(dst.encoding, src.encoding))] }) } else { vex_rr_bytes(f, a3, dst.encoding, nds.encoding, src.encoding, VEX_SIMD_66, VEX_OPCODE_0F) + seq![0xFB, (0xC0 | rr_bits(dst.encoding, src.encoding))] }) }))
            }),
    {
        let mut attributes = InstructionAttr::new(&self.features, vector_len, true, false, false, true);
        attributes.set_is_evex_instruction();
        attributes.set_embedded_opmask_register_specifier(mask);
        if merge {
            attributes.reset_is_clear_context();
            let encode = self.vex_prefix_and_encode(dst.encoding, nds.encoding, src.encoding, VEX_SIMD_66, VEX_OPCODE_0F, &mut attributes);
            self.emit_int16(0xFB, (0xC0 | encode));
        } else {
            let encode = self.vex_prefix_and_encode(dst.encoding, nds.encoding, src.encoding, VEX_SIMD_66, VEX_OPCODE_0F, &mut attributes);
            self.emit_int16(0xFB, (0xC0 | encode));
        }
    }

    /// `evpsubq dst, mask, nds, [src], merge, vector_len`
    pub fn evpsubq_xkxm(&mut self, dst: XMMRegister, mask: KRegister, nds: XMMRegister, src: Address, merge: bool, vector_len: u8)
        requires
            dst.wf(),
            mask.wf(),
            nds.wf(),
            src.wf(),
            ({
                let f = old(self).features;
                (f.supports_evex()) && (((vector_len == AVX_512BIT) || f.supports_avx512vl()) && ({ let a1 = InstructionAttr::spec_new(f, vector_len, true, false, false, true); let a2 = a1.with_address(f, EVEX_FV, EVEX_32BIT); let a3 = a2.evex_only(); let a4 = a3.with_mask(mask); (if merge { ({ let a5 = a4.merging(); (vex_adr_ok(f, a5, nds.encoding, dst.encoding, src)) }) } else { (vex_adr_ok(f, a4, nds.encoding, dst.encoding, src)) }) }))
            }),
        ensures
            ({
                let f = old(self).features;
                final(self).appends(*old(self), ({ let a1 = InstructionAttr::spec_new(f, vector_len, true, false, false, true); let a2 = a1.with_address(f, EVEX_FV, EVEX_32BIT); let a3 = a2.evex_only(); let a4 = a3.with_mask(mask); (if merge { ({ let a5 = a4.merging(); vex_adr_bytes(f, a5, src, nds.encoding, dst.encoding, VEX_SIMD_66, VEX_OPCODE_0F) + ({ let a6 = vex_adr_attr(f, a5, nds.encoding, dst.encoding); seq![0xFB] + address_bytes(f, Some(a6), dst.encoding, src, true) }) }) } else { vex_adr_bytes(f, a4, src, nds.encoding, dst.encoding, VEX_SIMD_66, VEX_OPCODE_0F) + ({ let a7 = vex_adr_attr(f, a4, nds.encoding, dst.encoding); seq![0xFB] + address_bytes(f, Some(a7), dst.encoding, src, true) }) }) }))
            }),
    {
        let mut attributes = InstructionAttr::new(&self.features, vector_len, true, false, false, true);
        attributes.set_address_attributes(&self.features, EVEX_FV, EVEX_32BIT);
        attributes.set_is_evex_instruction();
        attributes.set_embedded_opmask_register_specifier(mask);
        if merge {
            attributes.reset_is_clear_context();
            self.vex_prefix(&src, nds.encoding, dst.encoding, VEX_SIMD_66, VEX_OPCODE_0F, &mut attributes);
            self.emit_int8(0xFB);
            self.emit_operand_attr(dst.encoding, &src, &attributes, true);
        } else {
            self.vex_prefix(&src, nds.encoding, dst.encoding, VEX_SIMD_66, VEX_OPCODE_0F, &mut attributes);
            self.emit_int8(0xFB);
            self.emit_operand_attr(dst.encoding, &src, &attributes, true);
        }
    }

    /// `evsubps dst, mask, nds, src, merge, vector_len`
    pub fn evsubps(&mut self, dst: XMMRegister, mask: KRegister, nds: XMMRegister, src: XMMRegister, merge: bool, vector_len: u8)
        requires
            dst.wf(),
            mask.wf(),
            nds.wf(),
            src.wf(),
            ({
                let f = old(self).features;
                (f.supports_evex()) && (((vector_len == AVX_512BIT) || f.supports_avx512vl()) && ({ let a1 = InstructionAttr::spec_new(f, vector_len, false, false, false, true); let a2 = a1.evex_only(); let a3 = a2.with_mask(mask); (if merge { ({ let a4 = a3.merging(); (vex_rr_ok(f, a4, dst.encoding, nds.encoding, src.encoding)) }) } else { (vex_rr_ok(f, a3, dst.encoding, nds.encoding, src.encoding)) }) }))
            }),
        ensures
            ({
                let f = old(self).features;
                final(self).appends(*old(self), ({ let a1 = InstructionAttr::spec_new(f, vector_len, false, false, false, true); let a2 = a1.evex_only(); let a3 = a2.with_mask(mask); (if merge { ({ let a4 = a3.merging(); vex_rr_bytes(f, a4, dst.encoding, nds.encoding, src.encoding, VEX_SIMD_NONE, VEX_OPCODE_0F) + seq![0x5C, (0xC0 | rr_bits(dst.encoding, src.encoding))] }) } else { vex_rr_bytes(f, a3, dst.encoding, nds.encoding, src.encoding, VEX_SIMD_NONE, VEX_OPCODE_0F) + seq![0x5C, (0xC0 | rr_bits(dst.encoding, src.encoding))] }) }))
            }),
    {
        let mut attributes = InstructionAttr::new(&self.features, vector_len, false, false, false, true);
        attributes.set_is_evex_instruction();
        attributes.set_embedded_opmask_register_specifier(mask);
        if merge {
            attributes.reset_is_clear_context();
            let encode = self.vex_prefix_and_encode(dst.encoding, nds.encoding, src.encoding, VEX_SIMD_NONE, VEX_OPCODE_0F, &mut attributes);
            self.emit_int16(0x5C, (0xC0 | encode));
        } else {
            let encode = self.vex_prefix_and_encode(dst.encoding, nds.encoding, src.encoding, VEX_SIMD_NONE, VEX_OPCODE_0F, &mut attributes);
            self.emit_int16(0x5C, (0xC0 | encode));
        }
    }

    /// `evsubps dst, mask, nds, [src], merge, vector_len`
    pub fn evsubps_xkxm(&mut self, dst: XMMRegister, mask: KRegister, nds: XMMRegister, src: Address, merge: bool, vector_len: u8)
        requires
            dst.wf(),
            mask.wf(),
            nds.wf(),
            src.wf(),
            ({
                let f = old(self).features;
                (f.supports_evex()) && (((vector_len == AVX_512BIT) || f.supports_avx512vl()) && ({ let a1 = InstructionAttr::spec_new(f, vector_len, false, false, false, true); let a2 = a1.with_address(f, EVEX_FV, EVEX_32BIT); let a3 = a2.evex_only(); let a4 = a3.with_mask(mask); (if merge { ({ let a5 = a4.merging(); (vex_adr_ok(f, a5, nds.encoding, dst.encoding, src)) }) } else { (vex_adr_ok(f, a4, nds.encoding, dst.encoding, src)) }) }))
            }),
        ensures
            ({
                let f = old(self).features;
                final(self).appends(*old(self), ({ let a1 = InstructionAttr::spec_new(f, vector_len, false, false, false, true); let a2 = a1.with_address(f, EVEX_FV, EVEX_32BIT); let a3 = a2.evex_only(); let a4 = a3.with_mask(mask); (if merge { ({ let a5 = a4.merging(); vex_adr_bytes(f, a5, src, nds.encoding, dst.encoding, VEX_SIMD_NONE, VEX_OPCODE_0F) + ({ let a6 = vex_adr_attr(f, a5, nds.encoding, dst.encoding); seq![0x5C] + address_bytes(f, Some(a6), dst.encoding, src, true) }) }) } else { vex_adr_bytes(f, a4, src, nds.encoding, dst.encoding, VEX_SIMD_NONE, VEX_OPCODE_0F) + ({ let a7 = vex_adr_attr(f, a4, nds.encoding, dst.encoding); seq![0x5C] + address_bytes(f, Some(a7), dst.encoding, src, true) }) }) }))
            }),
    {
        let mut attributes = InstructionAttr::new(&self.features, vector_len, false, false, false, true);
        attributes.set_address_attributes(&self.features, EVEX_FV, EVEX_32BIT);
        attributes.set_is_evex_instruction();
        attributes.set_embedded_opmask_register_specifier(mask);
        if merge {
            attributes.reset_is_clear_context();
            self.vex_prefix(&src, nds.encoding, dst.encoding, VEX_SIMD_NONE, VEX_OPCODE_0F, &mut attributes);
            self.emit_int8(0x5C);
            self.emit_operand_attr(dst.encoding, &src, &attributes, true);
        } else {
            self.vex_prefix(&src, nds.encoding, dst.encoding, VEX_SIMD_NONE, VEX_OPCODE_0F, &mut attributes);
            self.emit_int8(0x5C);
            self.emit_operand_attr(dst.encoding, &src, &attributes, true);
        }
    }

    /// `evsubpd dst, mask, nds, src, merge, vector_len`
    pub fn evsubpd(&mut self, dst: XMMRegister, mask: KRegister, nds: XMMRegister, src: XMMRegister, merge: bool, vector_len: u8)
        requires
            dst.wf(),
            mask.wf(),
            nds.wf(),
            src.wf(),
            ({
                let f = old(self).features;
                (f.supports_evex()) && (((vector_len == AVX_512BIT) || f.supports_avx512vl()) && ({ let a1 = InstructionAttr::spec_new(f, vector_len, true, false, false, true); let a2 = a1.evex_only(); let a3 = a2.with_mask(mask); (if merge { ({ let a4 = a3.merging(); (vex_rr_ok(f, a4, dst.encoding, nds.encoding, src.encoding)) }) } else { (vex_rr_ok(f, a3, dst.encoding, nds.encoding, src.encoding)) }) }))
            }),
        ensures
            ({
                let f = old(self).features;
                final(self).appends(*old(self), ({ let a1 = InstructionAttr::spec_new(f, vector_len, true, false, false, true); let a2 = a1.evex_only(); let a3 = a2.with_mask(mask); (if merge { ({ let a4 = a3.merging(); vex_rr_bytes(f, a4, dst.encoding, nds.encoding, src.encoding, VEX_SIMD_66, VEX_OPCODE_0F) + seq![0x5C, (0xC0 | rr_bits(dst.encoding, src.encoding))] }) } else { vex_rr_bytes(f, a3, dst.encoding, nds.encoding, src.encoding, VEX_SIMD_66, VEX_OPCODE_0F) + seq![0x5C, (0xC0 | rr_bits(dst.encoding, src.encoding))] }) }))
            }),
    {
        let mut attributes = InstructionAttr::new(&self.features, vector_len, true, false, false, true);
        attributes.set_is_evex_instruction();
        attributes.set_embedded_opmask_register_specifier(mask);
        if merge {
            attributes.reset_is_clear_context();
            let encode = self.vex_prefix_and_encode(dst.encoding, nds.encoding, src.encoding, VEX_SIMD_66, VEX_OPCODE_0F, &mut attributes);
            self.emit_int16(0x5C, (0xC0 | encode));
        } else {
            let encode = self.vex_prefix_and_encode(dst.encoding, nds.encoding, src.encoding, VEX_SIMD_66, VEX_OPCODE_0F, &mut attributes);
            self.emit_int16(0x5C, (0xC0 | encode));
        }
    }

    /// `evsubpd dst, mask, nds, [src], merge, vector_len`
    pub fn evsubpd_xkxm(&mut self, dst: XMMRegister, mask: KRegister, nds: XMMRegister, src: Address, merge: bool, vector_len: u8)
        requires
            dst.wf(),
            mask.wf(),
            nds.wf(),
            src.wf(),
            ({
                let f = old(self).features;
                (f.supports_evex()) && (((vector_len == AVX_512BIT) || f.supports_avx512vl()) && ({ let a1 = InstructionAttr::spec_new(f, vector_len, true, false, false, true); let a2 = a1.with_address(f, EVEX_FV, EVEX_32BIT); let a3 = a2.evex_only(); let a4 = a3.with_mask(mask); (if merge { ({ let a5 = a4.merging(); (vex_adr_ok(f, a5, nds.encoding, dst.encoding, src)) }) } else { (vex_adr_ok(f, a4, nds.encoding, dst.encoding, src)) }) }))
            }),
        ensures
            ({
                let f = old(self).features;
                final(self).appends(*old(self), ({ let a1 = InstructionAttr::spec_new(f, vector_len, true, false, false, true); let a2 = a1.with_address(f, EVEX_FV, EVEX_32BIT); let a3 = a2.evex_only(); let a4 = a3.with_mask(mask); (if merge { ({ let a5 = a4.merging(); vex_adr_bytes(f, a5, src, nds.encoding, dst.encoding, VEX_SIMD_66, VEX_OPCODE_0F) + ({ let a6 = vex_adr_attr(f, a5, nds.encoding, dst.encoding); seq![0x5C] + address_bytes(f, Some(a6), dst.encoding, src, true) }) }) } else { vex_adr_bytes(f, a4, src, nds.encoding, dst.encoding, VEX_SIMD_66, VEX_OPCODE_0F) + ({ let a7 = vex_adr_attr(f, a4, nds.encoding, dst.encoding); seq![0x5C] + address_bytes(f, Some(a7), dst.encoding, src, true) }) }) }))
            }),
    {
        let mut attributes = InstructionAttr::new(&self.features, vector_len, true, false, false, true);
        attributes.set_address_attributes(&self.features, EVEX_FV, EVEX_32BIT);
        attributes.set_is_evex_instruction();
        attributes.set_embedded_opmask_register_specifier(mask);
        if merge {
            attributes.reset_is_clear_context();
            self.vex_prefix(&src, nds.encoding, dst.encoding, VEX_SIMD_66, VEX_OPCODE_0F, &mut attributes);
            self.emit_int8(0x5C);
            self.emit_operand_attr(dst.encoding, &src, &attributes, true);
        } else {
            self.vex_prefix(&src, nds.encoding, dst.encoding, VEX_SIMD_66, VEX_OPCODE_0F, &mut attributes);
            self.emit_int8(0x5C);
            self.emit_operand_attr(dst.encoding, &src, &attributes, true);
        }
    }

    /// `evpmullw dst, mask, nds, src, merge, vector_len`
    pub fn evpmullw(&mut self, dst: XMMRegister, mask: KRegister, nds: XMMRegister, src: XMMRegister, merge: bool, vector_len: u8)
        requires
            dst.wf(),
            mask.wf(),
            nds.wf(),
            src.wf(),
            ({
                let f = old(self).features;
                (f.supports_avx512bw() && ((vector_len == AVX_512BIT) || f.supports_avx512vl())) && ({ let a1 = InstructionAttr::spec_new(f, vector_len, false, false, false, true); let a2 = a1.evex_only(); let a3 = a2.with_mask(mask); (if merge { ({ let a4 = a3.merging(); (vex_rr_ok(f, a4, dst.encoding, nds.encoding, src.encoding)) }) } else { (vex_rr_ok(f, a3, dst.encoding, nds.encoding, src.encoding)) }) })
            }),
        ensures
            ({
                let f = old(self).features;
                final(self).appends(*old(self), ({ let a1 = InstructionAttr::spec_new(f, vector_len, false, false, false, true); let a2 = a1.evex_only(); let a3 = a2.with_mask(mask); (if merge { ({ let a4 = a3.merging(); vex_rr_bytes(f, a4, dst.encoding, nds.encoding, src.encoding, VEX_SIMD_66, VEX_OPCODE_0F) + seq![0xD5, (0xC0 | rr_bits(dst.encoding, src.encoding))] }) } else { vex_rr_bytes(f, a3, dst.encoding, nds.encoding, src.encoding, VEX_SIMD_66, VEX_OPCODE_0F) + seq![0xD5, (0xC0 | rr_bits(dst.encoding, src.encoding))] }) }))
            }),
    {
        let mut attributes = InstructionAttr::new(&self.features, vector_len, false, false, false, true);
        attributes.set_is_evex_instruction();
        attributes.set_embedded_opmask_register_specifier(mask);
        if merge {
            attributes.reset_is_clear_context();
            let encode = self.vex_prefix_and_encode(dst.encoding, nds.encoding, src.encoding, VEX_SIMD_66, VEX_OPCODE_0F, &mut attributes);
            self.emit_int16(0xD5, (0xC0 | encode));
        } else {
            let encode = self.vex_prefix_and_encode(dst.encoding, nds.encoding, src.encoding, VEX_SIMD_66, VEX_OPCODE_0F, &mut attributes);
            self.emit_int16(0xD5, (0xC0 | encode));
        }
    }

    /// `evpmullw dst, mask, nds, [src], merge, vector_len`
    pub fn evpmullw_xkxm(&mut self, dst: XMMRegister, mask: KRegister, nds: XMMRegister, src: Address, merge: bool, vector_len: u8)
        requires
            dst.wf(),
            mask.wf(),
            nds.wf(),
            src.wf(),
            ({
                let f = old(self).features;
                (f.supports_avx512bw() && ((vector_len == AVX_512BIT) || f.supports_avx512vl())) && ({ let a1 = InstructionAttr::spec_new(f, vector_len, false, false, false, true); let a2 = a1.with_address(f, EVEX_FV, EVEX_32BIT); let a3 = a2.evex_only(); let a4 = a3.with_mask(mask); (if merge { ({ let a5 = a4.merging(); (vex_adr_ok(f, a5, nds.encoding, dst.encoding, src)) }) } else { (vex_adr_ok(f, a4, nds.encoding, dst.encoding, src)) }) })
            }),
        ensures
            ({
                let f = old(self).features;
                final(self).appends(*old(self), ({ let a1 = InstructionAttr::spec_new(f, vector_len, false, false, false, true); let a2 = a1.with_address(f, EVEX_FV, EVEX_32BIT); let a3 = a2.evex_only(); let a4 = a3.with_mask(mask); (if merge { ({ let a5 = a4.merging(); vex_adr_bytes(f, a5, src, nds.encoding, dst.encoding, VEX_SIMD_66, VEX_OPCODE_0F) + ({ let a6 = vex_adr_attr(f, a5, nds.encoding, dst.encoding); seq![0xD5] + address_bytes(f, Some(a6), dst.encoding, src, true) }) }) } else { vex_adr_bytes(f, a4, src, nds.encoding, dst.encoding, VEX_SIMD_66, VEX_OPCODE_0F) + ({ let a7 = vex_adr_attr(f, a4, nds.encoding, dst.encoding); seq![0xD5] + address_bytes(f, Some(a7), dst.encoding, src, true) }) }) }))
            }),
    {
        let mut attributes = InstructionAttr::new(&self.features, vector_len, false, false, false, true);
        attributes.set_address_attributes(&self.features, EVEX_FV, EVEX_32BIT);
        attributes.set_is_evex_instruction();
        attributes.set_embedded_opmask_register_specifier(mask);
        if merge {
            attributes.reset_is_clear_context();
            self.vex_prefix(&src, nds.encoding, dst.encoding, VEX_SIMD_66, VEX_OPCODE_0F, &mut attributes);
            self.emit_int8(0xD5);
            self.emit_operand_attr(dst.encoding, &src, &attributes, true);
        } else {
            self.vex_prefix(&src, nds.encoding, dst.encoding, VEX_SIMD_66, VEX_OPCODE_0F, &mut attributes);
            self.emit_int8(0xD5);
            self.emit_operand_attr(dst.encoding, &src, &attributes, true);
        }
    }

    /// `evpmulld dst, mask, nds, src, merge, vector_len`
    pub fn evpmulld(&mut self, dst: XMMRegister, mask: KRegister, nds: XMMRegister, src: XMMRegister, merge: bool, vector_len: u8)
        requires
            dst.wf(),
            mask.wf(),
            nds.wf(),
            src.wf(),
            ({
                let f = old(self).features;
                (f.supports_evex()) && (((vector_len == AVX_512BIT) || f.supports_avx512vl()) && ({ let a1 = InstructionAttr::spec_new(f, vector_len, false, false, false, true); let a2 = a1.evex_only(); let a3 = a2.with_mask(mask); (if merge { ({ let a4 = a3.merging(); (vex_rr_ok(f, a4, dst.encoding, nds.encoding, src.encoding)) }) } else { (vex_rr_ok(f, a3, dst.encoding, nds.encoding, src.encoding)) }) }))
            }),
        ensures
            ({
                let f = old(self).features;
                final(self).appends(*old(self), ({ let a1 = InstructionAttr::spec_new(f, vector_len, false, false, false, true); let a2 = a1.evex_only(); let a3 = a2.with_mask(mask); (if merge { ({ let a4 = a3.merging(); vex_rr_bytes(f, a4, dst.encoding, nds.encoding, src.encoding, VEX_SIMD_66, VEX_OPCODE_0F_38) + seq![0x40, (0xC0 | rr_bits(dst.encoding, src.encoding))] }) } else { vex_rr_bytes(f, a3, dst.encoding, nds.encoding, src.encoding, VEX_SIMD_66, VEX_OPCODE_0F_38) + seq![0x40, (0xC0 | rr_bits(dst.encoding, src.encoding))] }) }))
            }),
    {
        let mut attributes = InstructionAttr::new(&self.features, vector_len, false, false, false, true);
        attributes.set_is_evex_instruction();
        attributes.set_embedded_opmask_register_specifier(mask);
        if merge {
            attributes.reset_is_clear_context();
            let encode = self.vex_prefix_and_encode(dst.encoding, nds.encoding, src.encoding, VEX_SIMD_66, VEX_OPCODE_0F_38, &mut attributes);
            self.emit_int16(0x40, (0xC0 | encode));
        } else {
            let encode = self.vex_prefix_and_encode(dst.encoding, nds.encoding, src.encoding, VEX_SIMD_66, VEX_OPCODE_0F_38, &mut attributes);
            self.emit_int16(0x40, (0xC0 | encode));
        }
    }

    /// `evpmulld dst, mask, nds, [src], merge, vector_len`
    pub fn evpmulld_xkxm(&mut self, dst: XMMRegister, mask: KRegister, nds: XMMRegister, src: Address, merge: bool, vector_len: u8)
        requires
            dst.wf(),
            mask.wf(),
            nds.wf(),
            src.wf(),
            ({
                let f = old(self).features;
                (f.supports_evex()) && (((vector_len == AVX_512BIT) || f.supports_avx512vl()) && ({ let a1 = InstructionAttr::spec_new(f, vector_len, false, false, false, true); let a2 = a1.with_address(f, EVEX_FV, EVEX_32BIT); let a3 = a2.evex_only(); let a4 = a3.with_mask(mask); (if merge { ({ let a5 = a4.merging(); (vex_adr_ok(f, a5, nds.encoding, dst.encoding, src)) }) } else { (vex_adr_ok(f, a4, nds.encoding, dst.encoding, src)) }) }))
            }),
        ensures
            ({
                let f = old(self).features;
                final(self).appends(*old(self), ({ let a1 = InstructionAttr::spec_new(f, vector_len, false, false, false, true); let a2 = a1.with_address(f, EVEX_FV, EVEX_32BIT); let a3 = a2.evex_only(); let a4 = a3.with_mask(mask); (if merge { ({ let a5 = a4.merging(); vex_adr_bytes(f, a5, src, nds.encoding, dst.encoding, VEX_SIMD_66, VEX_OPCODE_0F_38) + ({ let a6 = vex_adr_attr(f, a5, nds.encoding, dst.encoding); seq![0x40] + address_bytes(f, Some(a6), dst.encoding, src, true) }) }) } else { vex_adr_bytes(f, a4, src, nds.encoding, dst.encoding, VEX_SIMD_66, VEX_OPCODE_0F_38) + ({ let a7 = vex_adr_attr(f, a4, nds.encoding, dst.encoding); seq![0x40] + address_bytes(f, Some(a7), dst.encoding, src, true) }) }) }))
            }),
    {
        let mut attributes = InstructionAttr::new(&self.features, vector_len, false, false, false, true);
        attributes.set_address_attributes(&self.features, EVEX_FV, EVEX_32BIT);
        attributes.set_is_evex_instruction();
        attributes.set_embedded_opmask_register_specifier(mask);
        if merge {
            attributes.reset_is_clear_context();
            self.vex_prefix(&src, nds.encoding, dst.encoding, VEX_SIMD_66, VEX_OPCODE_0F_38, &mut attributes);
            self.emit_int8(0x40);
            self.emit_operand_attr(dst.encoding, &src, &attributes, true);
        } else {
            self.vex_prefix(&src, nds.encoding, dst.encoding, VEX_SIMD_66, VEX_OPCODE_0F_38, &mut attributes);
            self.emit_int8(0x40);
            self.emit_operand_attr(dst.encoding, &src, &attributes, true);
        }
    }

    /// `evpmullq dst, mask, nds, src, merge, vector_len`
    pub fn evpmullq_xkxx(&mut self, dst: XMMRegister, mask: KRegister, nds: XMMRegister, src: XMMRegister, merge: bool, vector_len: u8)
        requires
            dst.wf(),
            mask.wf(),
            nds.wf(),
            src.wf(),
            ({
                let f = old(self).features;
                (f.supports_avx512dq() && ((vector_len == AVX_512BIT) || f.supports_avx512vl())) && ({ let a1 = InstructionAttr::spec_new(f, vector_len, true, false, false, true); let a2 = a1.evex_only(); let a3 = a2.with_mask(mask); (if merge { ({ let a4 = a3.merging(); (vex_rr_ok(f, a4, dst.encoding, nds.encoding, src.encoding)) }) } else { (vex_rr_ok(f, a3, dst.encoding, nds.encoding, src.encoding)) }) })
            }),
        ensures
            ({
                let f = old(self).features;
                final(self).appends(*old(self), ({ let a1 = InstructionAttr::spec_new(f, vector_len, true, false, false, true); let a2 = a1.evex_only(); let a3 = a2.with_mask(mask); (if merge { ({ let a4 = a3.merging(); vex_rr_bytes(f, a4, dst.encoding, nds.encoding, src.encoding, VEX_SIMD_66, VEX_OPCODE_0F_38) + seq![0x40, (0xC0 | rr_bits(dst.encoding, src.encoding))] }) } else { vex_rr_bytes(f, a3, dst.encoding, nds.encoding, src.encoding, VEX_SIMD_66, VEX_OPCODE_0F_38) + seq![0x40, (0xC0 | rr_bits(dst.encoding, src.encoding))] }) }))
            }),
    {
        let mut attributes = InstructionAttr::new(&self.features, vector_len, true, false, false, true);
        attributes.set_is_evex_instruction();
        attributes.set_embedded_opmask_register_specifier(mask);
        if merge {
            attributes.reset_is_clear_context();
            let encode = self.vex_prefix_and_encode(dst.encoding, nds.encoding, src.encoding, VEX_SIMD_66, VEX_OPCODE_0F_38, &mut attributes);
            self.emit_int16(0x40, (0xC0 | encode));
        } else {
            let encode = self.vex_prefix_and_encode(dst.encoding, nds.encoding, src.encoding, VEX_SIMD_66, VEX_OPCODE_0F_38, &mut attributes);
            self.emit_int16(0x40, (0xC0 | encode));
        }
    }

    /// `evpmullq dst, mask, nds, [src], merge, vector_len`
    pub fn evpmullq_xkxm(&mut self, dst: XMMRegister, mask: KRegister, nds: XMMRegister, src: Address, merge: bool, vector_len: u8)
        requires
            dst.wf(),
            mask.wf(),
            nds.wf(),
            src.wf(),
            ({
                let f = old(self).features;
                (f.supports_avx512dq() && ((vector_len == AVX_512BIT) || f.supports_avx512vl())) && ({ let a1 = InstructionAttr::spec_new(f, vector_len, true, false, false, true); let a2 = a1.with_address(f, EVEX_FV, EVEX_32BIT); let a3 = a2.evex_only(); let a4 = a3.with_mask(mask); (if merge { ({ let a5 = a4.merging(); (vex_adr_ok(f, a5, nds.encoding, dst.encoding, src)) }) } else { (vex_adr_ok(f, a4, nds.encoding, dst.encoding, src)) }) })
            }),
        ensures
            ({
                let f = old(self).features;
                final(self).appends(*old(self), ({ let a1 = InstructionAttr::spec_new(f, vector_len, true, false, false, true); let a2 = a1.with_address(f, EVEX_FV, EVEX_32BIT); let a3 = a2.evex_only(); let a4 = a3.with_mask(mask); (if merge { ({ let a5 = a4.merging(); vex_adr_bytes(f, a5, src, nds.encoding, dst.encoding, VEX_SIMD_66, VEX_OPCODE_0F_38) + ({ let a6 = vex_adr_attr(f, a5, nds.encoding, dst.encoding); seq![0x40] + address_bytes(f, Some(a6), dst.encoding, src, true) }) }) } else { vex_adr_bytes(f, a4, src, nds.encoding, dst.encoding, VEX_SIMD_66, VEX_OPCODE_0F_38) + ({ let a7 = vex_adr_attr(f, a4, nds.encoding, dst.encoding); seq![0x40] + address_bytes(f, Some(a7), dst.encoding, src, true) }) }) }))
            }),
    {
        let mut attributes = InstructionAttr::new(&self.features, vector_len, true, false, false, true);
        attributes.set_address_attributes(&self.features, EVEX_FV, EVEX_32BIT);
        attributes.set_is_evex_instruction();
        attributes.set_embedded_opmask_register_specifier(mask);
        if merge {
            attributes.reset_is_clear_context();
            self.vex_prefix(&src, nds.encoding, dst.encoding, VEX_SIMD_66, VEX_OPCODE_0F_38, &mut attributes);
            self.emit_int8(0x40);
            self.emit_operand_attr(dst.encoding, &src, &attributes, true);
        } else {
            self.vex_prefix(&src, nds.encoding, dst.encoding, VEX_SIMD_66, VEX_OPCODE_0F_38, &mut attributes);
            self.emit_int8(0x40);
            self.emit_operand_attr(dst.encoding, &src, &attributes, true);
        }
    }

    /// `evmulps dst, mask, nds, src, merge, vector_len`
    pub fn evmulps(&mut self, dst: XMMRegister, mask: KRegister, nds: XMMRegister, src: XMMRegister, merge: bool, vector_len: u8)
        requires
            dst.wf(),
            mask.wf(),
            nds.wf(),
            src.wf(),
            ({
                let f = old(self).features;
                (f.supports_evex()) && (((vector_len == AVX_512BIT) || f.supports_avx512vl()) && ({ let a1 = InstructionAttr::spec_new(f, vector_len, false, false, false, true); let a2 = a1.evex_only(); let a3 = a2.with_mask(mask); (if merge { ({ let a4 = a3.merging(); (vex_rr_ok(f, a4, dst.encoding, nds.encoding, src.encoding)) }) } else { (vex_rr_ok(f, a3, dst.encoding, nds.encoding, src.encoding)) }) }))
            }),
        ensures
            ({
                let f = old(self).features;
                final(self).appends(*old(self), ({ let a1 = InstructionAttr::spec_new(f, vector_len, false, false, false, true); let a2 = a1.evex_only(); let a3 = a2.with_mask(mask); (if merge { ({ let a4 = a3.merging(); vex_rr_bytes(f, a4, dst.encoding, nds.encoding, src.encoding, VEX_SIMD_NONE, VEX_OPCODE_0F) + seq![0x59, (0xC0 | rr_bits(dst.encoding, src.encoding))] }) } else { vex_rr_bytes(f, a3, dst.encoding, nds.encoding, src.encoding, VEX_SIMD_NONE, VEX_OPCODE_0F) + seq![0x59, (0xC0 | rr_bits(dst.encoding, src.encoding))] }) }))
            }),
    {
        let mut attributes = InstructionAttr::new(&self.features, vector_len, false, false, false, true);
        attributes.set_is_evex_instruction();
        attributes.set_embedded_opmask_register_specifier(mask);
        if merge {
            attributes.reset_is_clear_context();
            let encode = self.vex_prefix_and_encode(dst.encoding, nds.encoding, src.encoding, VEX_SIMD_NONE, VEX_OPCODE_0F, &mut attributes);
            self.emit_int16(0x59, (0xC0 | encode));
        } else {
            let encode = self.vex_prefix_and_encode(dst.encoding, nds.encoding, src.encoding, VEX_SIMD_NONE, VEX_OPCODE_0F, &mut attributes);
            self.emit_int16(0x59, (0xC0 | encode));
        }
    }

    /// `evmulps dst, mask, nds, [src], merge, vector_len`
    pub fn evmulps_xkxm(&mut self, dst: XMMRegister, mask: KRegister, nds: XMMRegister, src: Address, merge: bool, vector_len: u8)
        requires
            dst.wf(),
            mask.wf(),
            nds.wf(),
            src.wf(),
            ({
                let f = old(self).features;
                (f.supports_evex()) && (((vector_len == AVX_512BIT) || f.supports_avx512vl()) && ({ let a1 = InstructionAttr::spec_new(f, vector_len, false, false, false, true); let a2 = a1.with_address(f, EVEX_FV, EVEX_32BIT); let a3 = a2.evex_only(); let a4 = a3.with_mask(mask); (if merge { ({ let a5 = a4.merging(); (vex_adr_ok(f, a5, nds.encoding, dst.encoding, src)) }) } else { (vex_adr_ok(f, a4, nds.encoding, dst.encoding, src)) }) }))
            }),
        ensures
            ({
                let f = old(self).features;
                final(self).appends(*old(self), ({ let a1 = InstructionAttr::spec_new(f, vector_len, false, false, false, true); let a2 = a1.with_address(f, EVEX_FV, EVEX_32BIT); let a3 = a2.evex_only(); let a4 = a3.with_mask(mask); (if merge { ({ let a5 = a4.merging(); vex_adr_bytes(f, a5, src, nds.encoding, dst.encoding, VEX_SIMD_NONE, VEX_OPCODE_0F) + ({ let a6 = vex_adr_attr(f, a5, nds.encoding, dst.encoding); seq![0x59] + address_bytes(f, Some(a6), dst.encoding, src, true) }) }) } else { vex_adr_bytes(f, a4, src, nds.encoding, dst.encoding, VEX_SIMD_NONE, VEX_OPCODE_0F) + ({ let a7 = vex_adr_attr(f, a4, nds.encoding, dst.encoding); seq![0x59] + address_bytes(f, Some(a7), dst.encoding, src, true) }) }) }))
            }),
    {
        let mut attributes = InstructionAttr::new(&self.features, vector_len, false, false, false, true);
        attributes.set_address_attributes(&self.features, EVEX_FV, EVEX_32BIT);
        attributes.set_is_evex_instruction();
        attributes.set_embedded_opmask_register_specifier(mask);
        if merge {
            attributes.reset_is_clear_context();
            self.vex_prefix(&src, nds.encoding, dst.encoding, VEX_SIMD_NONE, VEX_OPCODE_0F, &mut attributes);
            self.emit_int8(0x59);
            self.emit_operand_attr(dst.encoding, &src, &attributes, true);
        } else {
            self.vex_prefix(&src, nds.encoding, dst.encoding, VEX_SIMD_NONE, VEX_OPCODE_0F, &mut attributes);
            self.emit_int8(0x59);
            self.emit_operand_attr(dst.encoding, &src, &attributes, true);
        }
    }

    /// `evmulpd dst, mask, nds, src, merge, vector_len`
    pub fn evmulpd(&mut self, dst: XMMRegister, mask: KRegister, nds: XMMRegister, src: XMMRegister, merge: bool, vector_len: u8)
        requires
            dst.wf(),
            mask.wf(),
            nds.wf(),
            src.wf(),
            ({
                let f = old(self).features;
                (f.supports_evex()) && (((vector_len == AVX_512BIT) || f.supports_avx512vl()) && ({ let a1 = InstructionAttr::spec_new(f, vector_len, true, false, false, true); let a2 = a1.evex_only(); let a3 = a2.with_mask(mask); (if merge { ({ let a4 = a3.merging(); (vex_rr_ok(f, a4, dst.encoding, nds.encoding, src.encoding)) }) } else { (vex_rr_ok(f, a3, dst.encoding, nds.encoding, src.encoding)) }) }))
            }),
        ensures
            ({
                let f = old(self).features;
                final(self).appends(*old(self), ({ let a1 = InstructionAttr::spec_new(f, vector_len, true, false, false, true); let a2 = a1.evex_only(); let a3 = a2.with_mask(mask); (if merge { ({ let a4 = a3.merging(); vex_rr_bytes(f, a4, dst.encoding, nds.encoding, src.encoding, VEX_SIMD_66, VEX_OPCODE_0F) + seq![0x59, (0xC0 | rr_bits(dst.encoding, src.encoding))] }) } else { vex_rr_bytes(f, a3, dst.encoding, nds.encoding, src.encoding, VEX_SIMD_66, VEX_OPCODE_0F) + seq![0x59, (0xC0 | rr_bits(dst.encoding, src.encoding))] }) }))
            }),
    {
        let mut attributes = InstructionAttr::new(&self.features, vector_len, true, false, false, true);
        attributes.set_is_evex_instruction();
        attributes.set_embedded_opmask_register_specifier(mask);
        if merge {
            attributes.reset_is_clear_context();
            let encode = self.vex_prefix_and_encode(dst.encoding, nds.encoding, src.encoding, VEX_SIMD_66, VEX_OPCODE_0F, &mut attributes);
            self.emit_int16(0x59, (0xC0 | encode));
        } else {
            let encode = self.vex_prefix_and_encode(dst.encoding, nds.encoding, src.encoding, VEX_SIMD_66, VEX_OPCODE_0F, &mut attributes);
            self.emit_int16(0x59, (0xC0 | encode));
        }
    }

    /// `evmulpd dst, mask, nds, [src], merge, vector_len`
    pub fn evmulpd_xkxm(&mut self, dst: XMMRegister, mask: KRegister, nds: XMMRegister, src: Address, merge: bool, vector_len: u8)
        requires
            dst.wf(),
            mask.wf(),
            nds.wf(),
            src.wf(),
            ({
                let f = old(self).features;
                (f.supports_evex()) && (((vector_len == AVX_512BIT) || f.supports_avx512vl()) && ({ let a1 = InstructionAttr::spec_new(f, vector_len, true, false, false, true); let a2 = a1.with_address(f, EVEX_FV, EVEX_32BIT); let a3 = a2.evex_only(); let a4 = a3.with_mask(mask); (if merge { ({ let a5 = a4.merging(); (vex_adr_ok(f, a5, nds.encoding, dst.encoding, src)) }) } else { (vex_adr_ok(f, a4, nds.encoding, dst.encoding, src)) }) }))
            }),
        ensures
            ({
                let f = old(self).features;
                final(self).appends(*old(self), ({ let a1 = InstructionAttr::spec_new(f, vector_len, true, false, false, true); let a2 = a1.with_address(f, EVEX_FV, EVEX_32BIT); let a3 = a2.evex_only(); let a4 = a3.with_mask(mask); (if merge { ({ let a5 = a4.merging(); vex_adr_bytes(f, a5, src, nds.encoding, dst.encoding, VEX_SIMD_66, VEX_OPCODE_0F) + ({ let a6 = vex_adr_attr(f, a5, nds.encoding, dst.encoding); seq![0x59] + address_bytes(f, Some(a6), dst.encoding, src, true) }) }) } else { vex_adr_bytes(f, a4, src, nds.encoding, dst.encoding, VEX_SIMD_66, VEX_OPCODE_0F) + ({ let a7 = vex_adr_attr(f, a4, nds.encoding, dst.encoding); seq![0x59] + address_bytes(f, Some(a7), dst.encoding, src, true) }) }) }))
            }),
    {
        let mut attributes = InstructionAttr::new(&self.features, vector_len, true, false, false, true);
        attributes.set_address_attributes(&self.features, EVEX_FV, EVEX_32BIT);
        attributes.set_is_evex_instruction();
        attributes.set_embedded_opmask_register_specifier(mask);
        if merge {
            attributes.reset_is_clear_context();
            self.vex_prefix(&src, nds.encoding, dst.encoding, VEX_SIMD_66, VEX_OPCODE_0F, &mut attributes);
            self.emit_int8(0x59);
            self.emit_operand_attr(dst.encoding, &src, &attributes, true);
        } else {
            self.vex_prefix(&src, nds.encoding, dst.encoding, VEX_SIMD_66, VEX_OPCODE_0F, &mut attributes);
            self.emit_int8(0x59);
            self.emit_operand_attr(dst.encoding, &src, &attributes, true);
        }
    }

    /// `evsqrtps dst, mask, nds, src, merge, vector_len`
    pub fn evsqrtps(&mut self, dst: XMMRegister, mask: KRegister, nds: XMMRegister, src: XMMRegister, merge: bool, vector_len: u8)
        requires
            dst.wf(),
            mask.wf(),
            nds.wf(),
            src.wf(),
            ({
                let f = old(self).features;
                (f.supports_evex()) && (((vector_len == AVX_512BIT) || f.supports_avx512vl()) && ({ let a1 = InstructionAttr::spec_new(f, vector_len, false, false, false, true); let a2 = a1.evex_only(); let a3 = a2.with_mask(mask); (if merge { ({ let a4 = a3.merging(); (vex_rr_ok(f, a4, dst.encoding, 0, src.encoding)) }) } else { (vex_rr_ok(f, a3, dst.encoding, 0, src.encoding)) }) }))
            }),
        ensures
            ({
                let f = old(self).features;
                final(self).appends(*old(self), ({ let a1 = InstructionAttr::spec_new(f, vector_len, false, false, false, true); let a2 = a1.evex_only(); let a3 = a2.with_mask(mask); (if merge { ({ let a4 = a3.merging(); vex_rr_bytes(f, a4, dst.encoding, 0, src.encoding, VEX_SIMD_NONE, VEX_OPCODE_0F) + seq![0x51, (0xC0 | rr_bits(dst.encoding, src.encoding))] }) } else { vex_rr_bytes(f, a3, dst.encoding, 0, src.encoding, VEX_SIMD_NONE, VEX_OPCODE_0F) + seq![0x51, (0xC0 | rr_bits(dst.encoding, src.encoding))] }) }))
            }),
    {
        let mut attributes = InstructionAttr::new(&self.features, vector_len, false, false, false, true);
        attributes.set_is_evex_instruction();
        attributes.set_embedded_opmask_register_specifier(mask);
        if merge {
            attributes.reset_is_clear_context();
            let encode = self.vex_prefix_and_encode(dst.encoding, 0, src.encoding, VEX_SIMD_NONE, VEX_OPCODE_0F, &mut attributes);
            self.emit_int16(0x51, (0xC0 | encode));
        } else {
            let encode = self.vex_prefix_and_encode(dst.encoding, 0, src.encoding, VEX_SIMD_NONE, VEX_OPCODE_0F, &mut attributes);
            self.emit_int16(0x51, (0xC0 | encode));
        }
    }

    /// `evsqrtps dst, mask, nds, [src], merge, vector_len`
    pub fn evsqrtps_xkxm(&mut self, dst: XMMRegister, mask: KRegister, nds: XMMRegister, src: Address, merge: bool, vector_len: u8)
        requires
            dst.wf(),
            mask.wf(),
            nds.wf(),
            src.wf(),
            ({
                let f = old(self).features;
                (f.supports_evex()) && (((vector_len == AVX_512BIT) || f.supports_avx512vl()) && ({ let a1 = InstructionAttr::spec_new(f, vector_len, false, false, false, true); let a2 = a1.with_address(f, EVEX_FV, EVEX_32BIT); let a3 = a2.evex_only(); let a4 = a3.with_mask(mask); (if merge { ({ let a5 = a4.merging(); (vex_adr_ok(f, a5, 0, dst.encoding, src)) }) } else { (vex_adr_ok(f, a4, 0, dst.encoding, src)) }) }))
            }),
        ensures
            ({
                let f = old(self).features;
                final(self).appends(*old(self), ({ let a1 = InstructionAttr::spec_new(f, vector_len, false, false, false, true); let a2 = a1.with_address(f, EVEX_FV, EVEX_32BIT); let a3 = a2.evex_only(); let a4 = a3.with_mask(mask); (if merge { ({ let a5 = a4.merging(); vex_adr_bytes(f, a5, src, 0, dst.encoding, VEX_SIMD_NONE, VEX_OPCODE_0F) + ({ let a6 = vex_adr_attr(f, a5, 0, dst.encoding); seq![0x51] + address_bytes(f, Some(a6), dst.encoding, src, true) }) }) } else { vex_adr_bytes(f, a4, src, 0, dst.encoding, VEX_SIMD_NONE, VEX_OPCODE_0F) + ({ let a7 = vex_adr_attr(f, a4, 0, dst.encoding); seq![0x51] + address_bytes(f, Some(a7), dst.encoding, src, true) }) }) }))
            }),
    {
        let mut attributes = InstructionAttr::new(&self.features, vector_len, false, false, false, true);
        attributes.set_address_attributes(&self.features, EVEX_FV, EVEX_32BIT);
        attributes.set_is_evex_instruction();
        attributes.set_embedded_opmask_register_specifier(mask);
        if merge {
            attributes.reset_is_clear_context();
            self.vex_prefix(&src, 0, dst.encoding, VEX_SIMD_NONE, VEX_OPCODE_0F, &mut attributes);
            self.emit_int8(0x51);
            self.emit_operand_attr(dst.encoding, &src, &attributes, true);
        } else {
            self.vex_prefix(&src, 0, dst.encoding, VEX_SIMD_NONE, VEX_OPCODE_0F, &mut attributes);
            self.emit_int8(0x51);
            self.emit_operand_attr(dst.encoding, &src, &attributes, true);
        }
    }

    /// `evsqrtpd dst, mask, nds, src, merge, vector_len`
    pub fn evsqrtpd(&mut self, dst: XMMRegister, mask: KRegister, nds: XMMRegister, src: XMMRegister, merge: bool, vector_len: u8)
        requires
            dst.wf(),
            mask.wf(),
            nds.wf(),
            src.wf(),
            ({
                let f = old(self).features;
                (f.supports_evex()) && (((vector_len == AVX_512BIT) || f.supports_avx512vl()) && ({ let a1 = InstructionAttr::spec_new(f, vector_len, true, false, false, true); let a2 = a1.evex_only(); let a3 = a2.with_mask(mask); (if merge { ({ let a4 = a3.merging(); (vex_rr_ok(f, a4, dst.encoding, 0, src.encoding)) }) } else { (vex_rr_ok(f, a3, dst.encoding, 0, src.encoding)) }) }))
            }),
        ensures
            ({
                let f = old(self).features;
                final(self).appends(*old(self), ({ let a1 = InstructionAttr::spec_new(f, vector_len, true, false, false, true); let a2 = a1.evex_only(); let a3 = a2.with_mask(mask); (if merge { ({ let a4 = a3.merging(); vex_rr_bytes(f, a4, dst.encoding, 0, src.encoding, VEX_SIMD_66, VEX_OPCODE_0F) + seq![0x51, (0xC0 | rr_bits(dst.encoding, src.encoding))] }) } else { vex_rr_bytes(f, a3, dst.encoding, 0, src.encoding, VEX_SIMD_66, VEX_OPCODE_0F) + seq![0x51, (0xC0 | rr_bits(dst.encoding, src.encoding))] }) }))
            }),
    {
        let mut attributes = InstructionAttr::new(&self.features, vector_len, true, false, false, true);
        attributes.set_is_evex_instruction();
        attributes.set_embedded_opmask_register_specifier(mask);
        if merge {
            attributes.reset_is_clear_context();
            let encode = self.vex_prefix_and_encode(dst.encoding, 0, src.encoding, VEX_SIMD_66, VEX_OPCODE_0F, &mut attributes);
            self.emit_int16(0x51, (0xC0 | encode));
        } else {
            let encode = self.vex_prefix_and_encode(dst.encoding, 0, src.encoding, VEX_SIMD_66, VEX_OPCODE_0F, &mut attributes);
            self.emit_int16(0x51, (0xC0 | encode));
        }
    }

    /// `evsqrtpd dst, mask, nds, [src], merge, vector_len`
    pub fn evsqrtpd_xkxm(&mut self, dst: XMMRegister, mask: KRegister, nds: XMMRegister, src: Address, merge: bool, vector_len: u8)
        requires
            dst.wf(),
            mask.wf(),
            nds.wf(),
            src.wf(),
            ({
                let f = old(self).features;
                (f.supports_evex()) && (((vector_len == AVX_512BIT) || f.supports_avx512vl()) && ({ let a1 = InstructionAttr::spec_new(f, vector_len, true, false, false, true); let a2 = a1.with_address(f, EVEX_FV, EVEX_32BIT); let a3 = a2.evex_only(); let a4 = a3.with_mask(mask); (if merge { ({ let a5 = a4.merging(); (vex_adr_ok(f, a5, 0, dst.encoding, src)) }) } else { (vex_adr_ok(f, a4, 0, dst.encoding, src)) }) }))
            }),
        ensures
            ({
                let f = old(self).features;
                final(self).appends(*old(self), ({ let a1 = InstructionAttr::spec_new(f, vector_len, true, false, false, true); let a2 = a1.with_address(f, EVEX_FV, EVEX_32BIT); let a3 = a2.evex_only(); let a4 = a3.with_mask(mask); (if merge { ({ let a5 = a4.merging(); vex_adr_bytes(f, a5, src, 0, dst.encoding, VEX_SIMD_66, VEX_OPCODE_0F) + ({ let a6 = vex_adr_attr(f, a5, 0, dst.encoding); seq![0x51] + address_bytes(f, Some(a6), dst.encoding, src, true) }) }) } else { vex_adr_bytes(f, a4, src, 0, dst.encoding, VEX_SIMD_66, VEX_OPCODE_0F) + ({ let a7 = vex_adr_attr(f, a4, 0, dst.encoding); seq![0x51] + address_bytes(f, Some(a7), dst.encoding, src, true) }) }) }))
            }),
    {
        let mut attributes = InstructionAttr::new(&self.features, vector_len, true, false, false, true);
        attributes.set_address_attributes(&self.features, EVEX_FV, EVEX_32BIT);
        attributes.set_is_evex_instruction();
        attributes.set_embedded_opmask_register_specifier(mask);
        if merge {
            attributes.reset_is_clear_context();
            self.vex_prefix(&src, 0, dst.encoding, VEX_SIMD_66, VEX_OPCODE_0F, &mut attributes);
            self.emit_int8(0x51);
            self.emit_operand_attr(dst.encoding, &src, &attributes, true);
        } else {
            self.vex_prefix(&src, 0, dst.encoding, VEX_SIMD_66, VEX_OPCODE_0F, &mut attributes);
            self.emit_int8(0x51);
            self.emit_operand_attr(dst.encoding, &src, &attributes, true);
        }
    }

    /// `evdivps dst, mask, nds, src, merge, vector_len`
    pub fn evdivps(&mut self, dst: XMMRegister, mask: KRegister, nds: XMMRegister, src: XMMRegister, merge: bool, vector_len: u8)
        requires
            dst.wf(),
            mask.wf(),
            nds.wf(),
            src.wf(),
            ({
                let f = old(self).features;
                (f.supports_evex()) && (((vector_len == AVX_512BIT) || f.supports_avx512vl()) && ({ let a1 = InstructionAttr::spec_new(f, vector_len, false, false, false, true); let a2 = a1.evex_only(); let a3 = a2.with_mask(mask); (if merge { ({ let a4 = a3.merging(); (vex_rr_ok(f, a4, dst.encoding, nds.encoding, src.encoding)) }) } else { (vex_rr_ok(f, a3, dst.encoding, nds.encoding, src.encoding)) }) }))
            }),
        ensures
            ({
                let f = old(self).features;
                final(self).appends(*old(self), ({ let a1 = InstructionAttr::spec_new(f, vector_len, false, false, false, true); let a2 = a1.evex_only(); let a3 = a2.with_mask(mask); (if merge { ({ let a4 = a3.merging(); vex_rr_bytes(f, a4, dst.encoding, nds.encoding, src.encoding, VEX_SIMD_NONE, VEX_OPCODE_0F) + seq![0x5E, (0xC0 | rr_bits(dst.encoding, src.encoding))] }) } else { vex_rr_bytes(f, a3, dst.encoding, nds.encoding, src.encoding, VEX_SIMD_NONE, VEX_OPCODE_0F) + seq![0x5E, (0xC0 | rr_bits(dst.encoding, src.encoding))] }) }))
            }),
    {
        let mut attributes = InstructionAttr::new(&self.features, vector_len, false, false, false, true);
        attributes.set_is_evex_instruction();
        attributes.set_embedded_opmask_register_specifier(mask);
        if merge {
            attributes.reset_is_clear_context();
            let encode = self.vex_prefix_and_encode(dst.encoding, nds.encoding, src.encoding, VEX_SIMD_NONE, VEX_OPCODE_0F, &mut attributes);
            self.emit_int16(0x5E, (0xC0 | encode));
        } else {
            let encode = self.vex_prefix_and_encode(dst.encoding, nds.encoding, src.encoding, VEX_SIMD_NONE, VEX_OPCODE_0F, &mut attributes);
            self.emit_int16(0x5E, (0xC0 | encode));
        }
    }

    /// `evdivps dst, mask, nds, [src], merge, vector_len`
    pub fn evdivps_xkxm(&mut self, dst: XMMRegister, mask: KRegister, nds: XMMRegister, src: Address, merge: bool, vector_len: u8)
        requires
            dst.wf(),
            mask.wf(),
            nds.wf(),
            src.wf(),
            ({
                let f = old(self).features;
                (f.supports_evex()) && (((vector_len == AVX_512BIT) || f.supports_avx512vl()) && ({ let a1 = InstructionAttr::spec_new(f, vector_len, false, false, false, true); let a2 = a1.with_address(f, EVEX_FV, EVEX_32BIT); let a3 = a2.evex_only(); let a4 = a3.with_mask(mask); (if merge { ({ let a5 = a4.merging(); (vex_adr_ok(f, a5, nds.encoding, dst.encoding, src)) }) } else { (vex_adr_ok(f, a4, nds.encoding, dst.encoding, src)) }) }))
            }),
        ensures
            ({
                let f = old(self).features;
                final(self).appends(*old(self), ({ let a1 = InstructionAttr::spec_new(f, vector_len, false, false, false, true); let a2 = a1.with_address(f, EVEX_FV, EVEX_32BIT); let a3 = a2.evex_only(); let a4 = a3.with_mask(mask); (if merge { ({ let a5 = a4.merging(); vex_adr_bytes(f, a5, src, nds.encoding, dst.encoding, VEX_SIMD_NONE, VEX_OPCODE_0F) + ({ let a6 = vex_adr_attr(f, a5, nds.encoding, dst.encoding); seq![0x5E] + address_bytes(f, Some(a6), dst.encoding, src, true) }) }) } else { vex_adr_bytes(f, a4, src, nds.encoding, dst.encoding, VEX_SIMD_NONE, VEX_OPCODE_0F) + ({ let a7 = vex_adr_attr(f, a4, nds.encoding, dst.encoding); seq![0x5E] + address_bytes(f, Some(a7), dst.encoding, src, true) }) }) }))
            }),
    {
        let mut attributes = InstructionAttr::new(&self.features, vector_len, false, false, false, true);
        attributes.set_address_attributes(&self.features, EVEX_FV, EVEX_32BIT);
        attributes.set_is_evex_instruction();
        attributes.set_embedded_opmask_register_specifier(mask);
        if merge {
            attributes.reset_is_clear_context();
            self.vex_prefix(&src, nds.encoding, dst.encoding, VEX_SIMD_NONE, VEX_OPCODE_0F, &mut attributes);
            self.emit_int8(0x5E);
            self.emit_operand_attr(dst.encoding, &src, &attributes, true);
        } else {
            self.vex_prefix(&src, nds.encoding, dst.encoding, VEX_SIMD_NONE, VEX_OPCODE_0F, &mut attributes);
            self.emit_int8(0x5E);
            self.emit_operand_attr(dst.encoding, &src, &attributes, true);
        }
    }

    /// `evdivpd dst, mask, nds, src, merge, vector_len`
    pub fn evdivpd(&mut self, dst: XMMRegister, mask: KRegister, nds: XMMRegister, src: XMMRegister, merge: bool, vector_len: u8)
        requires
            dst.wf(),
            mask.wf(),
            nds.wf(),
            src.wf(),
            ({
                let f = old(self).features;
                (f.supports_evex()) && (((vector_len == AVX_512BIT) || f.supports_avx512vl()) && ({ let a1 = InstructionAttr::spec_new(f, vector_len, true, false, false, true); let a2 = a1.evex_only(); let a3 = a2.with_mask(mask); (if merge { ({ let a4 = a3.merging(); (vex_rr_ok(f, a4, dst.encoding, nds.encoding, src.encoding)) }) } else { (vex_rr_ok(f, a3, dst.encoding, nds.encoding, src.encoding)) }) }))
            }),
        ensures
            ({
                let f = old(self).features;
                final(self).appends(*old(self), ({ let a1 = InstructionAttr::spec_new(f, vector_len, true, false, false, true); let a2 = a1.evex_only(); let a3 = a2.with_mask(mask); (if merge { ({ let a4 = a3.merging(); vex_rr_bytes(f, a4, dst.encoding, nds.encoding, src.encoding, VEX_SIMD_66, VEX_OPCODE_0F) + seq![0x5E, (0xC0 | rr_bits(dst.encoding, src.encoding))] }) } else { vex_rr_bytes(f, a3, dst.encoding, nds.encoding, src.encoding, VEX_SIMD_66, VEX_OPCODE_0F) + seq![0x5E, (0xC0 | rr_bits(dst.encoding, src.encoding))] }) }))
            }),
    {
        let mut attributes = InstructionAttr::new(&self.features, vector_len, true, false, false, true);
        attributes.set_is_evex_instruction();
        attributes.set_embedded_opmask_register_specifier(mask);
        if merge {
            attributes.reset_is_clear_context();
            let encode = self.vex_prefix_and_encode(dst.encoding, nds.encoding, src.encoding, VEX_SIMD_66, VEX_OPCODE_0F, &mut attributes);
            self.emit_int16(0x5E, (0xC0 | encode));
        } else {
            let encode = self.vex_prefix_and_encode(dst.encoding, nds.encoding, src.encoding, VEX_SIMD_66, VEX_OPCODE_0F, &mut attributes);
            self.emit_int16(0x5E, (0xC0 | encode));
        }
    }

    /// `evdivpd dst, mask, nds, [src], merge, vector_len`
    pub fn evdivpd_xkxm(&mut self, dst: XMMRegister, mask: KRegister, nds: XMMRegister, src: Address, merge: bool, vector_len: u8)
        requires
            dst.wf(),
            mask.wf(),
            nds.wf(),
            src.wf(),
            ({
                let f = old(self).features;
                (f.supports_evex()) && (((vector_len == AVX_512BIT) || f.supports_avx512vl()) && ({ let a1 = InstructionAttr::spec_new(f, vector_len, true, false, false, true); let a2 = a1.with_address(f, EVEX_FV, EVEX_32BIT); let a3 = a2.evex_only(); let a4 = a3.with_mask(mask); (if merge { ({ let a5 = a4.merging(); (vex_adr_ok(f, a5, nds.encoding, dst.encoding, src)) }) } else { (vex_adr_ok(f, a4, nds.encoding, dst.encoding, src)) }) }))
            }),
        ensures
            ({
                let f = old(self).features;
                final(self).appends(*old(self), ({ let a1 = InstructionAttr::spec_new(f, vector_len, true, false, false, true); let a2 = a1.with_address(f, EVEX_FV, EVEX_32BIT); let a3 = a2.evex_only(); let a4 = a3.with_mask(mask); (if merge { ({ let a5 = a4.merging(); vex_adr_bytes(f, a5, src, nds.encoding, dst.encoding, VEX_SIMD_66, VEX_OPCODE_0F) + ({ let a6 = vex_adr_attr(f, a5, nds.encoding, dst.encoding); seq![0x5E] + address_bytes(f, Some(a6), dst.encoding, src, true) }) }) } else { vex_adr_bytes(f, a4, src, nds.encoding, dst.encoding, VEX_SIMD_66, VEX_OPCODE_0F) + ({ let a7 = vex_adr_attr(f, a4, nds.encoding, dst.encoding); seq![0x5E] + address_bytes(f, Some(a7), dst.encoding, src, true) }) }) }))
            }),
    {
        let mut attributes = InstructionAttr::new(&self.features, vector_len, true, false, false, true);
        attributes.set_address_attributes(&self.features, EVEX_FV, EVEX_32BIT);
        attributes.set_is_evex_instruction();
        attributes.set_embedded_opmask_register_specifier(mask);
        if merge {
            attributes.reset_is_clear_context();
            self.vex_prefix(&src, nds.encoding, dst.encoding, VEX_SIMD_66, VEX_OPCODE_0F, &mut attributes);
            self.emit_int8(0x5E);
            self.emit_operand_attr(dst.encoding, &src, &attributes, true);
        } else {
            self.vex_prefix(&src, nds.encoding, dst.encoding, VEX_SIMD_66, VEX_OPCODE_0F, &mut attributes);
            self.emit_int8(0x5E);
            self.emit_operand_attr(dst.encoding, &src, &attributes, true);
        }
    }

    /// `evpabsb dst, mask, src, merge, vector_len`
    pub fn evpabsb(&mut self, dst: XMMRegister, mask: KRegister, src: XMMRegister, merge: bool, vector_len: u8)
        requires
            dst.wf(),
            mask.wf(),
            src.wf(),
            ({
                let f = old(self).features;
                (f.supports_avx512bw() && ((vector_len == AVX_512BIT) || f.supports_avx512vl())) && ({ let a1 = InstructionAttr::spec_new(f, vector_len, false, false, false, true); let a2 = a1.with_address(f, EVEX_FV, EVEX_32BIT); let a3 = a2.evex_only(); let a4 = a3.with_mask(mask); (if merge { ({ let a5 = a4.merging(); (vex_rr_ok(f, a5, dst.encoding, 0, src.encoding)) }) } else { (vex_rr_ok(f, a4, dst.encoding, 0, src.encoding)) }) })
            }),
        ensures
            ({
                let f = old(self).features;
                final(self).appends(*old(self), ({ let a1 = InstructionAttr::spec_new(f, vector_len, false, false, false, true); let a2 = a1.with_address(f, EVEX_FV, EVEX_32BIT); let a3 = a2.evex_only(); let a4 = a3.with_mask(mask); (if merge { ({ let a5 = a4.merging(); vex_rr_bytes(f, a5, dst.encoding, 0, src.encoding, VEX_SIMD_66, VEX_OPCODE_0F_38) + seq![0x1C, (0xC0 | rr_bits(dst.encoding, src.encoding))] }) } else { vex_rr_bytes(f, a4, dst.encoding, 0, src.encoding, VEX_SIMD_66, VEX_OPCODE_0F_38) + seq![0x1C, (0xC0 | rr_bits(dst.encoding, src.encoding))] }) }))
            }),
    {
        let mut attributes = InstructionAttr::new(&self.features, vector_len, false, false, false, true);
        attributes.set_address_attributes(&self.features, EVEX_FV, EVEX_32BIT);
        attributes.set_is_evex_instruction();
        attributes.set_embedded_opmask_register_specifier(mask);
        if merge {
            attributes.reset_is_clear_context();
            let encode = self.vex_prefix_and_encode(dst.encoding, 0, src.encoding, VEX_SIMD_66, VEX_OPCODE_0F_38, &mut attributes);
            self.emit_int16(0x1C, (0xC0 | encode));
        } else {
            let encode = self.vex_prefix_and_encode(dst.encoding, 0, src.encoding, VEX_SIMD_66, VEX_OPCODE_0F_38, &mut attributes);
            self.emit_int16(0x1C, (0xC0 | encode));
        }
    }

    /// `evpabsb dst, mask, [src], merge, vector_len`
    pub fn evpabsb_xkm(&mut self, dst: XMMRegister, mask: KRegister, src: Address, merge: bool, vector_len: u8)
        requires
            dst.wf(),
            mask.wf(),
            src.wf(),
            ({
                let f = old(self).features;
                (f.supports_avx512bw() && ((vector_len == AVX_512BIT) || f.supports_avx512vl())) && ({ let a1 = InstructionAttr::spec_new(f, vector_len, false, false, false, true); let a2 = a1.with_address(f, EVEX_FV, EVEX_32BIT); let a3 = a2.evex_only(); let a4 = a3.with_mask(mask); (if merge { ({ let a5 = a4.merging(); (vex_adr_ok(f, a5, 0, dst.encoding, src)) }) } else { (vex_adr_ok(f, a4, 0, dst.encoding, src)) }) })
            }),
        ensures
            ({
                let f = old(self).features;
                final(self).appends(*old(self), ({ let a1 = InstructionAttr::spec_new(f, vector_len, false, false, false, true); let a2 = a1.with_address(f, EVEX_FV, EVEX_32BIT); let a3 = a2.evex_only(); let a4 = a3.with_mask(mask); (if merge { ({ let a5 = a4.merging(); vex_adr_bytes(f, a5, src, 0, dst.encoding, VEX_SIMD_66, VEX_OPCODE_0F_38) + ({ let a6 = vex_adr_attr(f, a5, 0, dst.encoding); seq![0x1C] + address_bytes(f, Some(a6), dst.encoding, src, true) }) }) } else { vex_adr_bytes(f, a4, src, 0, dst.encoding, VEX_SIMD_66, VEX_OPCODE_0F_38) + ({ let a7 = vex_adr_attr(f, a4, 0, dst.encoding); seq![0x1C] + address_bytes(f, Some(a7), dst.encoding, src, true) }) }) }))
            }),
    {
        let mut attributes = InstructionAttr::new(&self.features, vector_len, false, false, false, true);
        attributes.set_address_attributes(&self.features, EVEX_FV, EVEX_32BIT);
        attributes.set_is_evex_instruction();
        attributes.set_embedded_opmask_register_specifier(mask);
        if merge {
            attributes.reset_is_clear_context();
            self.vex_prefix(&src, 0, dst.encoding, VEX_SIMD_66, VEX_OPCODE_0F_38, &mut attributes);
            self.emit_int8(0x1C);
            self.emit_operand_attr(dst.encoding, &src, &attributes, true);
        } else {
            self.vex_prefix(&src, 0, dst.encoding, VEX_SIMD_66, VEX_OPCODE_0F_38, &mut attributes);
            self.emit_int8(0x1C);
            self.emit_operand_attr(dst.encoding, &src, &attributes, true);
        }
    }

    /// `evpabsw dst, mask, src, merge, vector_len`
    pub fn evpabsw(&mut self, dst: XMMRegister, mask: KRegister, src: XMMRegister, merge: bool, vector_len: u8)
        requires
            dst.wf(),
            mask.wf(),
            src.wf(),
            ({
                let f = old(self).features;
                (f.supports_avx512bw() && ((vector_len == AVX_512BIT) || f.supports_avx512vl())) && ({ let a1 = InstructionAttr::spec_new(f, vector_len, false, false, false, true); let a2 = a1.with_address(f, EVEX_FV, EVEX_32BIT); let a3 = a2.evex_only(); let a4 = a3.with_mask(mask); (if merge { ({ let a5 = a4.merging(); (vex_rr_ok(f, a5, dst.encoding, 0, src.encoding)) }) } else { (vex_rr_ok(f, a4, dst.encoding, 0, src.encoding)) }) })
            }),
        ensures
            ({
                let f = old(self).features;
                final(self).appends(*old(self), ({ let a1 = InstructionAttr::spec_new(f, vector_len, false, false, false, true); let a2 = a1.with_address(f, EVEX_FV, EVEX_32BIT); let a3 = a2.evex_only(); let a4 = a3.with_mask(mask); (if merge { ({ let a5 = a4.merging(); vex_rr_bytes(f, a5, dst.encoding, 0, src.encoding, VEX_SIMD_66, VEX_OPCODE_0F_38) + seq![0x1D, (0xC0 | rr_bits(dst.encoding, src.encoding))] }) } else { vex_rr_bytes(f, a4, dst.encoding, 0, src.encoding, VEX_SIMD_66, VEX_OPCODE_0F_38) + seq![0x1D, (0xC0 | rr_bits(dst.encoding, src.encoding))] }) }))
            }),
    {
        let mut attributes = InstructionAttr::new(&self.features, vector_len, false, false, false, true);
        attributes.set_address_attributes(&self.features, EVEX_FV, EVEX_32BIT);
        attributes.set_is_evex_instruction();
        attributes.set_embedded_opmask_register_specifier(mask);
        if merge {
            attributes.reset_is_clear_context();
            let encode = self.vex_prefix_and_encode(dst.encoding, 0, src.encoding, VEX_SIMD_66, VEX_OPCODE_0F_38, &mut attributes);
            self.emit_int16(0x1D, (0xC0 | encode));
        } else {
            let encode = self.vex_prefix_and_encode(dst.encoding, 0, src.encoding, VEX_SIMD_66, VEX_OPCODE_0F_38, &mut attributes);
            self.emit_int16(0x1D, (0xC0 | encode));
        }
    }

    /// `evpabsw dst, mask, [src], merge, vector_len`
    pub fn evpabsw_xkm(&mut self, dst: XMMRegister, mask: KRegister, src: Address, merge: bool, vector_len: u8)
        requires
            dst.wf(),
            mask.wf(),
            src.wf(),
            ({
                let f = old(self).features;
                (f.supports_avx512bw() && ((vector_len == AVX_512BIT) || f.supports_avx512vl())) && ({ let a1 = InstructionAttr::spec_new(f, vector_len, false, false, false, true); let a2 = a1.with_address(f, EVEX_FV, EVEX_32BIT); let a3 = a2.evex_only(); let a4 = a3.with_mask(mask); (if merge { ({ let a5 = a4.merging(); (vex_adr_ok(f, a5, 0, dst.encoding, src)) }) } else { (vex_adr_ok(f, a4, 0, dst.encoding, src)) }) })
            }),
        ensures
            ({
                let f = old(self).features;
                final(self).appends(*old(self), ({ let a1 = InstructionAttr::spec_new(f, vector_len, false, false, false, true); let a2 = a1.with_address(f, EVEX_FV, EVEX_32BIT); let a3 = a2.evex_only(); let a4 = a3.with_mask(mask); (if merge { ({ let a5 = a4.merging(); vex_adr_bytes(f, a5, src, 0, dst.encoding, VEX_SIMD_66, VEX_OPCODE_0F_38) + ({ let a6 = vex_adr_attr(f, a5, 0, dst.encoding); seq![0x1D] + address_bytes(f, Some(a6), dst.encoding, src, true) }) }) } else { vex_adr_bytes(f, a4, src, 0, dst.encoding, VEX_SIMD_66, VEX_OPCODE_0F_38) + ({ let a7 = vex_adr_attr(f, a4, 0, dst.encoding); seq![0x1D] + address_bytes(f, Some(a7), dst.encoding, src, true) }) }) }))
            }),
    {
        let mut attributes = InstructionAttr::new(&self.features, vector_len, false, false, false, true);
        attributes.set_address_attributes(&self.features, EVEX_FV, EVEX_32BIT);
        attributes.set_is_evex_instruction();
        attributes.set_embedded_opmask_register_specifier(mask);
        if merge {
            attributes.reset_is_clear_context();
            self.vex_prefix(&src, 0, dst.encoding, VEX_SIMD_66, VEX_OPCODE_0F_38, &mut attributes);
            self.emit_int8(0x1D);
            self.emit_operand_attr(dst.encoding, &src, &attributes, true);
        } else {
            self.vex_prefix(&src, 0, dst.encoding, VEX_SIMD_66, VEX_OPCODE_0F_38, &mut attributes);
            self.emit_int8(0x1D);
            self.emit_operand_attr(dst.encoding, &src, &attributes, true);
        }
    }

    /// `evpabsd dst, mask, src, merge, vector_len`
    pub fn evpabsd(&mut self, dst: XMMRegister, mask: KRegister, src: XMMRegister, merge: bool, vector_len: u8)
        requires
            dst.wf(),
            mask.wf(),
            src.wf(),
            ({
                let f = old(self).features;
                (f.supports_evex()) && (((vector_len == AVX_512BIT) || f.supports_avx512vl()) && ({ let a1 = InstructionAttr::spec_new(f, vector_len, false, false, false, true); let a2 = a1.with_address(f, EVEX_FV, EVEX_32BIT); let a3 = a2.evex_only(); let a4 = a3.with_mask(mask); (if merge { ({ let a5 = a4.merging(); (vex_rr_ok(f, a5, dst.encoding, 0, src.encoding)) }) } else { (vex_rr_ok(f, a4, dst.encoding, 0, src.encoding)) }) }))
            }),
        ensures
            ({
                let f = old(self).features;
                final(self).appends(*old(self), ({ let a1 = InstructionAttr::spec_new(f, vector_len, false, false, false, true); let a2 = a1.with_address(f, EVEX_FV, EVEX_32BIT); let a3 = a2.evex_only(); let a4 = a3.with_mask(mask); (if merge { ({ let a5 = a4.merging(); vex_rr_bytes(f, a5, dst.encoding, 0, src.encoding, VEX_SIMD_66, VEX_OPCODE_0F_38) + seq![0x1E, (0xC0 | rr_bits(dst.encoding, src.encoding))] }) } else { vex_rr_bytes(f, a4, dst.encoding, 0, src.encoding, VEX_SIMD_66, VEX_OPCODE_0F_38) + seq![0x1E, (0xC0 | rr_bits(dst.encoding, src.encoding))] }) }))
            }),
    {
        let mut attributes = InstructionAttr::new(&self.features, vector_len, false, false, false, true);
        attributes.set_address_attributes(&self.features, EVEX_FV, EVEX_32BIT);
        attributes.set_is_evex_instruction();
        attributes.set_embedded_opmask_register_specifier(mask);
        if merge {
            attributes.reset_is_clear_context();
            let encode = self.vex_prefix_and_encode(dst.encoding, 0, src.encoding, VEX_SIMD_66, VEX_OPCODE_0F_38, &mut attributes);
            self.emit_int16(0x1E, (0xC0 | encode));
        } else {
            let encode = self.vex_prefix_and_encode(dst.encoding, 0, src.encoding, VEX_SIMD_66, VEX_OPCODE_0F_38, &mut attributes);
            self.emit_int16(0x1E, (0xC0 | encode));
        }
    }

    /// `evpabsd dst, mask, [src], merge, vector_len`
    pub fn evpabsd_xkm(&mut self, dst: XMMRegister, mask: KRegister, src: Address, merge: bool, vector_len: u8)
        requires
            dst.wf(),
            mask.wf(),
            src.wf(),
            ({
                let f = old(self).features;
                (f.supports_evex()) && (((vector_len == AVX_512BIT) || f.supports_avx512vl()) && ({ let a1 = InstructionAttr::spec_new(f, vector_len, false, false, false, true); let a2 = a1.with_address(f, EVEX_FV, EVEX_32BIT); let a3 = a2.evex_only(); let a4 = a3.with_mask(mask); (if merge { ({ let a5 = a4.merging(); (vex_adr_ok(f, a5, 0, dst.encoding, src)) }) } else { (vex_adr_ok(f, a4, 0, dst.encoding, src)) }) }))
            }),
        ensures
            ({
                let f = old(self).features;
                final(self).appends(*old(self), ({ let a1 = InstructionAttr::spec_new(f, vector_len, false, false, false, true); let a2 = a1.with_address(f, EVEX_FV, EVEX_32BIT); let a3 = a2.evex_only(); let a4 = a3.with_mask(mask); (if merge { ({ let a5 = a4.merging(); vex_adr_bytes(f, a5, src, 0, dst.encoding, VEX_SIMD_66, VEX_OPCODE_0F_38) + ({ let a6 = vex_adr_attr(f, a5, 0, dst.encoding); seq![0x1E] + address_bytes(f, Some(a6), dst.encoding, src, true) }) }) } else { vex_adr_bytes(f, a4, src, 0, dst.encoding, VEX_SIMD_66, VEX_OPCODE_0F_38) + ({ let a7 = vex_adr_attr(f, a4, 0, dst.encoding); seq![0x1E] + address_bytes(f, Some(a7), dst.encoding, src, true) }) }) }))
            }),
    {
        let mut attributes = InstructionAttr::new(&self.features, vector_len, false, false, false, true);
        attributes.set_address_attributes(&self.features, EVEX_FV, EVEX_32BIT);
        attributes.set_is_evex_instruction();
        attributes.set_embedded_opmask_register_specifier(mask);
        if merge {
            attributes.reset_is_clear_context();
            self.vex_prefix(&src, 0, dst.encoding, VEX_SIMD_66, VEX_OPCODE_0F_38, &mut attributes);
            self.emit_int8(0x1E);
            self.emit_operand_attr(dst.encoding, &src, &attributes, true);
        } else {
            self.vex_prefix(&src, 0, dst.encoding, VEX_SIMD_66, VEX_OPCODE_0F_38, &mut attributes);
            self.emit_int8(0x1E);
            self.emit_operand_attr(dst.encoding, &src, &attributes, true);
        }
    }

    /// `evpabsq dst, mask, src, merge, vector_len`
    pub fn evpabsq_xkx(&mut self, dst: XMMRegister, mask: KRegister, src: XMMRegister, merge: bool, vector_len: u8)
        requires
            dst.wf(),
            mask.wf(),
            src.wf(),
            ({
                let f = old(self).features;
                (f.supports_evex()) && (((vector_len == AVX_512BIT) || f.supports_avx512vl()) && ({ let a1 = InstructionAttr::spec_new(f, vector_len, true, false, false, true); let a2 = a1.with_address(f, EVEX_FV, EVEX_32BIT); let a3 = a2.evex_only(); let a4 = a3.with_mask(mask); (if merge { ({ let a5 = a4.merging(); (vex_rr_ok(f, a5, dst.encoding, 0, src.encoding)) }) } else { (vex_rr_ok(f, a4, dst.encoding, 0, src.encoding)) }) }))
            }),
        ensures
            ({
                let f = old(self).features;
                final(self).appends(*old(self), ({ let a1 = InstructionAttr::spec_new(f, vector_len, true, false, false, true); let a2 = a1.with_address(f, EVEX_FV, EVEX_32BIT); let a3 = a2.evex_only(); let a4 = a3.with_mask(mask); (if merge { ({ let a5 = a4.merging(); vex_rr_bytes(f, a5, dst.encoding, 0, src.encoding, VEX_SIMD_66, VEX_OPCODE_0F_38) + seq![0x1F, (0xC0 | rr_bits(dst.encoding, src.encoding))] }) } else { vex_rr_bytes(f, a4, dst.encoding, 0, src.encoding, VEX_SIMD_66, VEX_OPCODE_0F_38) + seq![0x1F, (0xC0 | rr_bits(dst.encoding, src.encoding))] }) }))
            }),
    {
        let mut attributes = InstructionAttr::new(&self.features, vector_len, true, false, false, true);
        attributes.set_address_attributes(&self.features, EVEX_FV, EVEX_32BIT);
        attributes.set_is_evex_instruction();
        attributes.set_embedded_opmask_register_specifier(mask);
        if merge {
            attributes.reset_is_clear_context();
            let encode = self.vex_prefix_and_encode(dst.encoding, 0, src.encoding, VEX_SIMD_66, VEX_OPCODE_0F_38, &mut attributes);
            self.emit_int16(0x1F, (0xC0 | encode));
        } else {
            let encode = self.vex_prefix_and_encode(dst.encoding, 0, src.encoding, VEX_SIMD_66, VEX_OPCODE_0F_38, &mut attributes);
            self.emit_int16(0x1F, (0xC0 | encode));
        }
    }

    /// `evpabsq dst, mask, [src], merge, vector_len`
    pub fn evpabsq_xkm(&mut self, dst: XMMRegister, mask: KRegister, src: Address, merge: bool, vector_len: u8)
        requires
            dst.wf(),
            mask.wf(),
            src.wf(),
            ({
                let f = old(self).features;
                (f.supports_evex()) && (((vector_len == AVX_512BIT) || f.supports_avx512vl()) && ({ let a1 = InstructionAttr::spec_new(f, vector_len, true, false, false, true); let a2 = a1.with_address(f, EVEX_FV, EVEX_32BIT); let a3 = a2.evex_only(); let a4 = a3.with_mask(mask); (if merge { ({ let a5 = a4.merging(); (vex_adr_ok(f, a5, 0, dst.encoding, src)) }) } else { (vex_adr_ok(f, a4, 0, dst.encoding, src)) }) }))
            }),
        ensures
            ({
                let f = old(self).features;
                final(self).appends(*old(self), ({ let a1 = InstructionAttr::spec_new(f, vector_len, true, false, false, true); let a2 = a1.with_address(f, EVEX_FV, EVEX_32BIT); let a3 = a2.evex_only(); let a4 = a3.with_mask(mask); (if merge { ({ let a5 = a4.merging(); vex_adr_bytes(f, a5, src, 0, dst.encoding, VEX_SIMD_66, VEX_OPCODE_0F_38) + ({ let a6 = vex_adr_attr(f, a5, 0, dst.encoding); seq![0x1F] + address_bytes(f, Some(a6), dst.encoding, src, true) }) }) } else { vex_adr_bytes(f, a4, src, 0, dst.encoding, VEX_SIMD_66, VEX_OPCODE_0F_38) + ({ let a7 = vex_adr_attr(f, a4, 0, dst.encoding); seq![0x1F] + address_bytes(f, Some(a7), dst.encoding, src, true) }) }) }))
            }),
    {
        let mut attributes = InstructionAttr::new(&self.features, vector_len, true, false, false, true);
        attributes.set_address_attributes(&self.features, EVEX_FV, EVEX_32BIT);
        attributes.set_is_evex_instruction();
        attributes.set_embedded_opmask_register_specifier(mask);
        if merge {
            attributes.reset_is_clear_context();
            self.vex_prefix(&src, 0, dst.encoding, VEX_SIMD_66, VEX_OPCODE_0F_38, &mut attributes);
            self.emit_int8(0x1F);
            self.emit_operand_attr(dst.encoding, &src, &attributes, true);
        } else {
            self.vex_prefix(&src, 0, dst.encoding, VEX_SIMD_66, VEX_OPCODE_0F_38, &mut attributes);
            self.emit_int8(0x1F);
            self.emit_operand_attr(dst.encoding, &src, &attributes, true);
        }
    }

    /// `evpfma213ps dst, mask, nds, src, merge, vector_len`
    pub fn evpfma213ps(&mut self, dst: XMMRegister, mask: KRegister, nds: XMMRegister, src: XMMRegister, merge: bool, vector_len: u8)
        requires
            dst.wf(),
            mask.wf(),
            nds.wf(),
            src.wf(),
            ({
                let f = old(self).features;
                (f.supports_evex()) && (((vector_len == AVX_512BIT) || f.supports_avx512vl()) && ({ let a1 = InstructionAttr::spec_new(f, vector_len, false, false, false, true); let a2 = a1.evex_only(); let a3 = a2.with_mask(mask); (if merge { ({ let a4 = a3.merging(); (vex_rr_ok(f, a4, dst.encoding, nds.encoding, src.encoding)) }) } else { (vex_rr_ok(f, a3, dst.encoding, nds.encoding, src.encoding)) }) }))
            }),
        ensures
            ({
                let f = old(self).features;
                final(self).appends(*old(self), ({ let a1 = InstructionAttr::spec_new(f, vector_len, false, false, false, true); let a2 = a1.evex_only(); let a3 = a2.with_mask(mask); (if merge { ({ let a4 = a3.merging(); vex_rr_bytes(f, a4, dst.encoding, nds.encoding, src.encoding, VEX_SIMD_66, VEX_OPCODE_0F_38) + seq![0xA8, (0xC0 | rr_bits(dst.encoding, src.encoding))] }) } else { vex_rr_bytes(f, a3, dst.encoding, nds.encoding, src.encoding, VEX_SIMD_66, VEX_OPCODE_0F_38) + seq![0xA8, (0xC0 | rr_bits(dst.encoding, src.encoding))] }) }))
            }),
    {
        let mut attributes = InstructionAttr::new(&self.features, vector_len, false, false, false, true);
        attributes.set_is_evex_instruction();
        attributes.set_embedded_opmask_register_specifier(mask);
        if merge {
            attributes.reset_is_clear_context();
            let encode = self.vex_prefix_and_encode(dst.encoding, nds.encoding, src.encoding, VEX_SIMD_66, VEX_OPCODE_0F_38, &mut attributes);
            self.emit_int16(0xA8, (0xC0 | encode));
        } else {
            let encode = self.vex_prefix_and_encode(dst.encoding, nds.encoding, src.encoding, VEX_SIMD_66, VEX_OPCODE_0F_38, &mut attributes);
            self.emit_int16(0xA8, (0xC0 | encode));
        }
    }

    /// `evpfma213ps dst, mask, nds, [src], merge, vector_len`
    pub fn evpfma213ps_xkxm(&mut self, dst: XMMRegister, mask: KRegister, nds: XMMRegister, src: Address, merge: bool, vector_len: u8)
        requires
            dst.wf(),
            mask.wf(),
            nds.wf(),
            src.wf(),
            ({
                let f = old(self).features;
                (f.supports_evex()) && (((vector_len == AVX_512BIT) || f.supports_avx512vl()) && ({ let a1 = InstructionAttr::spec_new(f, vector_len, false, false, false, true); let a2 = a1.with_address(f, EVEX_FV, EVEX_32BIT); let a3 = a2.evex_only(); let a4 = a3.with_mask(mask); (if merge { ({ let a5 = a4.merging(); (vex_adr_ok(f, a5, nds.encoding, dst.encoding, src)) }) } else { (vex_adr_ok(f, a4, nds.encoding, dst.encoding, src)) }) }))
            }),
        ensures
            ({
                let f = old(self).features;
                final(self).appends(*old(self), ({ let a1 = InstructionAttr::spec_new(f, vector_len, false, false, false, true); let a2 = a1.with_address(f, EVEX_FV, EVEX_32BIT); let a3 = a2.evex_only(); let a4 = a3.with_mask(mask); (if merge { ({ let a5 = a4.merging(); vex_adr_bytes(f, a5, src, nds.encoding, dst.encoding, VEX_SIMD_66, VEX_OPCODE_0F_38) + ({ let a6 = vex_adr_attr(f, a5, nds.encoding, dst.encoding); seq![0xA8] + address_bytes(f, Some(a6), dst.encoding, src, true) }) }) } else { vex_adr_bytes(f, a4, src, nds.encoding, dst.encoding, VEX_SIMD_66, VEX_OPCODE_0F_38) + ({ let a7 = vex_adr_attr(f, a4, nds.encoding, dst.encoding); seq![0xA8] + address_bytes(f, Some(a7), dst.encoding, src, true) }) }) }))
            }),
    {
        let mut attributes = InstructionAttr::new(&self.features, vector_len, false, false, false, true);
        attributes.set_address_attributes(&self.features, EVEX_FV, EVEX_32BIT);
        attributes.set_is_evex_instruction();
        attributes.set_embedded_opmask_register_specifier(mask);
        if merge {
            attributes.reset_is_clear_context();
            self.vex_prefix(&src, nds.encoding, dst.encoding, VEX_SIMD_66, VEX_OPCODE_0F_38, &mut attributes);
            self.emit_int8(0xA8);
            self.emit_operand_attr(dst.encoding, &src, &attributes, true);
        } else {
            self.vex_prefix(&src, nds.encoding, dst.encoding, VEX_SIMD_66, VEX_OPCODE_0F_38, &mut attributes);
            self.emit_int8(0xA8);
            self.emit_operand_attr(dst.encoding, &src, &attributes, true);
        }
    }

    /// `evpfma213pd dst, mask, nds, src, merge, vector_len`
    pub fn evpfma213pd(&mut self, dst: XMMRegister, mask: KRegister, nds: XMMRegister, src: XMMRegister, merge: bool, vector_len: u8)
        requires
            dst.wf(),
            mask.wf(),
            nds.wf(),
            src.wf(),
            ({
                let f = old(self).features;
                (f.supports_evex()) && (((vector_len == AVX_512BIT) || f.supports_avx512vl()) && ({ let a1 = InstructionAttr::spec_new(f, vector_len, true, false, false, true); let a2 = a1.evex_only(); let a3 = a2.with_mask(mask); (if merge { ({ let a4 = a3.merging(); (vex_rr_ok(f, a4, dst.encoding, nds.encoding, src.encoding)) }) } else { (vex_rr_ok(f, a3, dst.encoding, nds.encoding, src.encoding)) }) }))
            }),
        ensures
            ({
                let f = old(self).features;
                final(self).appends(*old(self), ({ let a1 = InstructionAttr::spec_new(f, vector_len, true, false, false, true); let a2 = a1.evex_only(); let a3 = a2.with_mask(mask); (if merge { ({ let a4 = a3.merging(); vex_rr_bytes(f, a4, dst.encoding, nds.encoding, src.encoding, VEX_SIMD_66, VEX_OPCODE_0F_38) + seq![0xA8, (0xC0 | rr_bits(dst.encoding, src.encoding))] }) } else { vex_rr_bytes(f, a3, dst.encoding, nds.encoding, src.encoding, VEX_SIMD_66, VEX_OPCODE_0F_38) + seq![0xA8, (0xC0 | rr_bits(dst.encoding, src.encoding))] }) }))
            }),
    {
        let mut attributes = InstructionAttr::new(&self.features, vector_len, true, false, false, true);
        attributes.set_is_evex_instruction();
        attributes.set_embedded_opmask_register_specifier(mask);
        if merge {
            attributes.reset_is_clear_context();
            let encode = self.vex_prefix_and_encode(dst.encoding, nds.encoding, src.encoding, VEX_SIMD_66, VEX_OPCODE_0F_38, &mut attributes);
            self.emit_int16(0xA8, (0xC0 | encode));
        } else {
            let encode = self.vex_prefix_and_encode(dst.encoding, nds.encoding, src.encoding, VEX_SIMD_66, VEX_OPCODE_0F_38, &mut attributes);
            self.emit_int16(0xA8, (0xC0 | encode));
        }
    }

    /// `evpfma213pd dst, mask, nds, [src], merge, vector_len`
    pub fn evpfma213pd_xkxm(&mut self, dst: XMMRegister, mask: KRegister, nds: XMMRegister, src: Address, merge: bool, vector_len: u8)
        requires
            dst.wf(),
            mask.wf(),
            nds.wf(),
            src.wf(),
            ({
                let f = old(self).features;
                (f.supports_evex()) && (((vector_len == AVX_512BIT) || f.supports_avx512vl()) && ({ let a1 = InstructionAttr::spec_new(f, vector_len, true, false, false, true); let a2 = a1.with_address(f, EVEX_FV, EVEX_32BIT); let a3 = a2.evex_only(); let a4 = a3.with_mask(mask); (if merge { ({ let a5 = a4.merging(); (vex_adr_ok(f, a5, nds.encoding, dst.encoding, src)) }) } else { (vex_adr_ok(f, a4, nds.encoding, dst.encoding, src)) }) }))
            }),
        ensures
            ({
                let f = old(self).features;
                final(self).appends(*old(self), ({ let a1 = InstructionAttr::spec_new(f, vector_len, true, false, false, true); let a2 = a1.with_address(f, EVEX_FV, EVEX_32BIT); let a3 = a2.evex_only(); let a4 = a3.with_mask(mask); (if merge { ({ let a5 = a4.merging(); vex_adr_bytes(f, a5, src, nds.encoding, dst.encoding, VEX_SIMD_66, VEX_OPCODE_0F_38) + ({ let a6 = vex_adr_attr(f, a5, nds.encoding, dst.encoding); seq![0xA8] + address_bytes(f, Some(a6), dst.encoding, src, true) }) }) } else { vex_adr_bytes(f, a4, src, nds.encoding, dst.encoding, VEX_SIMD_66, VEX_OPCODE_0F_38) + ({ let a7 = vex_adr_attr(f, a4, nds.encoding, dst.encoding); seq![0xA8] + address_bytes(f, Some(a7), dst.encoding, src, true) }) }) }))
            }),
    {
        let mut attributes = InstructionAttr::new(&self.features, vector_len, true, false, false, true);
        attributes.set_address_attributes(&self.features, EVEX_FV, EVEX_32BIT);
        attributes.set_is_evex_instruction();
        attributes.set_embedded_opmask_register_specifier(mask);
        if merge {
            attributes.reset_is_clear_context();
            self.vex_prefix(&src, nds.encoding, dst.encoding, VEX_SIMD_66, VEX_OPCODE_0F_38, &mut attributes);
            self.emit_int8(0xA8);
            self.emit_operand_attr(dst.encoding, &src, &attributes, true);
        } else {
            self.vex_prefix(&src, nds.encoding, dst.encoding, VEX_SIMD_66, VEX_OPCODE_0F_38, &mut attributes);
            self.emit_int8(0xA8);
            self.emit_operand_attr(dst.encoding, &src, &attributes, true);
        }
    }

    /// `evpermb dst, mask, nds, src, merge, vector_len`
    pub fn evpermb(&mut self, dst: XMMRegister, mask: KRegister, nds: XMMRegister, src: XMMRegister, merge: bool, vector_len: u8)
        requires
            dst.wf(),
            mask.wf(),
            nds.wf(),
            src.wf(),
            ({
                let f = old(self).features;
                (f.supports_avx512_vbmi() && ((vector_len == AVX_512BIT) || f.supports_avx512vl())) && ({ let a1 = InstructionAttr::spec_new(f, vector_len, false, false, false, true); let a2 = a1.evex_only(); let a3 = a2.with_mask(mask); (if merge { ({ let a4 = a3.merging(); (vex_rr_ok(f, a4, dst.encoding, nds.encoding, src.encoding)) }) } else { (vex_rr_ok(f, a3, dst.encoding, nds.encoding, src.encoding)) }) })
            }),
        ensures
            ({
                let f = old(self).features;
                final(self).appends(*old(self), ({ let a1 = InstructionAttr::spec_new(f, vector_len, false, false, false, true); let a2 = a1.evex_only(); let a3 = a2.with_mask(mask); (if merge { ({ let a4 = a3.merging(); vex_rr_bytes(f, a4, dst.encoding, nds.encoding, src.encoding, VEX_SIMD_66, VEX_OPCODE_0F_38) + seq![0x8D, (0xC0 | rr_bits(dst.encoding, src.encoding))] }) } else { vex_rr_bytes(f, a3, dst.encoding, nds.encoding, src.encoding, VEX_SIMD_66, VEX_OPCODE_0F_38) + seq![0x8D, (0xC0 | rr_bits(dst.encoding, src.encoding))] }) }))
            }),
    {
        let mut attributes = InstructionAttr::new(&self.features, vector_len, false, false, false, true);
        attributes.set_is_evex_instruction();
        attributes.set_embedded_opmask_register_specifier(mask);
        if merge {
            attributes.reset_is_clear_context();
            let encode = self.vex_prefix_and_encode(dst.encoding, nds.encoding, src.encoding, VEX_SIMD_66, VEX_OPCODE_0F_38, &mut attributes);
            self.emit_int16(0x8D, (0xC0 | encode));
        } else {
            let encode = self.vex_prefix_and_encode(dst.encoding, nds.encoding, src.encoding, VEX_SIMD_66, VEX_OPCODE_0F_38, &mut attributes);
            self.emit_int16(0x8D, (0xC0 | encode));
        }
    }

    /// `evpermb dst, mask, nds, [src], merge, vector_len`
    pub fn evpermb_xkxm(&mut self, dst: XMMRegister, mask: KRegister, nds: XMMRegister, src: Address, merge: bool, vector_len: u8)
        requires
            dst.wf(),
            mask.wf(),
            nds.wf(),
            src.wf(),
            ({
                let f = old(self).features;
                (f.supports_avx512_vbmi() && ((vector_len == AVX_512BIT) || f.supports_avx512vl())) && ({ let a1 = InstructionAttr::spec_new(f, vector_len, false, false, false, true); let a2 = a1.evex_only(); let a3 = a2.with_mask(mask); (if merge { ({ let a4 = a3.merging(); (vex_adr_ok(f, a4, nds.encoding, dst.encoding, src)) }) } else { (vex_adr_ok(f, a3, nds.encoding, dst.encoding, src)) }) })
            }),
        ensures
            ({
                let f = old(self).features;
                final(self).appends(*old(self), ({ let a1 = InstructionAttr::spec_new(f, vector_len, false, false, false, true); let a2 = a1.evex_only(); let a3 = a2.with_mask(mask); (if merge { ({ let a4 = a3.merging(); vex_adr_bytes(f, a4, src, nds.encoding, dst.encoding, VEX_SIMD_66, VEX_OPCODE_0F_38) + ({ let a5 = vex_adr_attr(f, a4, nds.encoding, dst.encoding); seq![0x8D] + address_bytes(f, Some(a5), dst.encoding, src, true) }) }) } else { vex_adr_bytes(f, a3, src, nds.encoding, dst.encoding, VEX_SIMD_66, VEX_OPCODE_0F_38) + ({ let a6 = vex_adr_attr(f, a3, nds.encoding, dst.encoding); seq![0x8D] + address_bytes(f, Some(a6), dst.encoding, src, true) }) }) }))
            }),
    {
        let mut attributes = InstructionAttr::new(&self.features, vector_len, false, false, false, true);
        attributes.set_is_evex_instruction();
        attributes.set_embedded_opmask_register_specifier(mask);
        if merge {
            attributes.reset_is_clear_context();
            self.vex_prefix(&src, nds.encoding, dst.encoding, VEX_SIMD_66, VEX_OPCODE_0F_38, &mut attributes);
            self.emit_int8(0x8D);
            self.emit_operand_attr(dst.encoding, &src, &attributes, true);
        } else {
            self.vex_prefix(&src, nds.encoding, dst.encoding, VEX_SIMD_66, VEX_OPCODE_0F_38, &mut attributes);
            self.emit_int8(0x8D);
            self.emit_operand_attr(dst.encoding, &src, &attributes, true);
        }
    }

    /// `evpermw dst, mask, nds, src, merge, vector_len`
    pub fn evpermw(&mut self, dst: XMMRegister, mask: KRegister, nds: XMMRegister, src: XMMRegister, merge: bool, vector_len: u8)
        requires
            dst.wf(),
            mask.wf(),
            nds.wf(),
            src.wf(),
            ({
                let f = old(self).features;
                (f.supports_avx512bw() && ((vector_len == AVX_512BIT) || f.supports_avx512vl())) && ({ let a1 = InstructionAttr::spec_new(f, vector_len, true, false, false, true); let a2 = a1.evex_only(); let a3 = a2.with_mask(mask); (if merge { ({ let a4 = a3.merging(); (vex_rr_ok(f, a4, dst.encoding, nds.encoding, src.encoding)) }) } else { (vex_rr_ok(f, a3, dst.encoding, nds.encoding, src.encoding)) }) })
            }),
        ensures
            ({
                let f = old(self).features;
                final(self).appends(*old(self), ({ let a1 = InstructionAttr::spec_new(f, vector_len, true, false, false, true); let a2 = a1.evex_only(); let a3 = a2.with_mask(mask); (if merge { ({ let a4 = a3.merging(); vex_rr_bytes(f, a4, dst.encoding, nds.encoding, src.encoding, VEX_SIMD_66, VEX_OPCODE_0F_38) + seq![0x8D, (0xC0 | rr_bits(dst.encoding, src.encoding))] }) } else { vex_rr_bytes(f, a3, dst.encoding, nds.encoding, src.encoding, VEX_SIMD_66, VEX_OPCODE_0F_38) + seq![0x8D, (0xC0 | rr_bits(dst.encoding, src.encoding))] }) }))
            }),
    {
        let mut attributes = InstructionAttr::new(&self.features, vector_len, true, false, false, true);
        attributes.set_is_evex_instruction();
        attributes.set_embedded_opmask_register_specifier(mask);
        if merge {
            attributes.reset_is_clear_context();
            let encode = self.vex_prefix_and_encode(dst.encoding, nds.encoding, src.encoding, VEX_SIMD_66, VEX_OPCODE_0F_38, &mut attributes);
            self.emit_int16(0x8D, (0xC0 | encode));
        } else {
            let encode = self.vex_prefix_and_encode(dst.encoding, nds.encoding, src.encoding, VEX_SIMD_66, VEX_OPCODE_0F_38, &mut attributes);
            self.emit_int16(0x8D, (0xC0 | encode));
        }
    }

    /// `evpermw dst, mask, nds, [src], merge, vector_len`
    pub fn evpermw_xkxm(&mut self, dst: XMMRegister, mask: KRegister, nds: XMMRegister, src: Address, merge: bool, vector_len: u8)
        requires
            dst.wf(),
            mask.wf(),
            nds.wf(),
            src.wf(),
            ({
                let f = old(self).features;
                (f.supports_avx512bw() && ((vector_len == AVX_512BIT) || f.supports_avx512vl())) && ({ let a1 = InstructionAttr::spec_new(f, vector_len, true, false, false, true); let a2 = a1.evex_only(); let a3 = a2.with_mask(mask); (if merge { ({ let a4 = a3.merging(); (vex_adr_ok(f, a4, nds.encoding, dst.encoding, src)) }) } else { (vex_adr_ok(f, a3, nds.encoding, dst.encoding, src)) }) })
            }),
        ensures
            ({
                let f = old(self).features;
                final(self).appends(*old(self), ({ let a1 = InstructionAttr::spec_new(f, vector_len, true, false, false, true); let a2 = a1.evex_only(); let a3 = a2.with_mask(mask); (if merge { ({ let a4 = a3.merging(); vex_adr_bytes(f, a4, src, nds.encoding, dst.encoding, VEX_SIMD_66, VEX_OPCODE_0F_38) + ({ let a5 = vex_adr_attr(f, a4, nds.encoding, dst.encoding); seq![0x8D] + address_bytes(f, Some(a5), dst.encoding, src, true) }) }) } else { vex_adr_bytes(f, a3, src, nds.encoding, dst.encoding, VEX_SIMD_66, VEX_OPCODE_0F_38) + ({ let a6 = vex_adr_attr(f, a3, nds.encoding, dst.encoding); seq![0x8D] + address_bytes(f, Some(a6), dst.encoding, src, true) }) }) }))
            }),
    {
        let mut attributes = InstructionAttr::new(&self.features, vector_len, true, false, false, true);
        attributes.set_is_evex_instruction();
        attributes.set_embedded_opmask_register_specifier(mask);
        if merge {
            attributes.reset_is_clear_context();
            self.vex_prefix(&src, nds.encoding, dst.encoding, VEX_SIMD_66, VEX_OPCODE_0F_38, &mut attributes);
            self.emit_int8(0x8D);
            self.emit_operand_attr(dst.encoding, &src, &attributes, true);
        } else {
            self.vex_prefix(&src, nds.encoding, dst.encoding, VEX_SIMD_66, VEX_OPCODE_0F_38, &mut attributes);
            self.emit_int8(0x8D);
            self.emit_operand_attr(dst.encoding, &src, &attributes, true);
        }
    }

    /// `evpermd dst, mask, nds, src, merge, vector_len`
    pub fn evpermd(&mut self, dst: XMMRegister, mask: KRegister, nds: XMMRegister, src: XMMRegister, merge: bool, vector_len: u8)
        requires
            dst.wf(),
            mask.wf(),
            nds.wf(),
            src.wf(),
            ({
                let f = old(self).features;
                (f.supports_evex() && (vector_len > AVX_128BIT)) && ({ let a1 = InstructionAttr::spec_new(f, vector_len, false, false, false, true); let a2 = a1.evex_only(); let a3 = a2.with_mask(mask); (if merge { ({ let a4 = a3.merging(); (vex_rr_ok(f, a4, dst.encoding, nds.encoding, src.encoding)) }) } else { (vex_rr_ok(f, a3, dst.encoding, nds.encoding, src.encoding)) }) })
            }),
        ensures
            ({
                let f = old(self).features;
                final(self).appends(*old(self), ({ let a1 = InstructionAttr::spec_new(f, vector_len, false, false, false, true); let a2 = a1.evex_only(); let a3 = a2.with_mask(mask); (if merge { ({ let a4 = a3.merging(); vex_rr_bytes(f, a4, dst.encoding, nds.encoding, src.encoding, VEX_SIMD_66, VEX_OPCODE_0F_38) + seq![0x36, (0xC0 | rr_bits(dst.encoding, src.encoding))] }) } else { vex_rr_bytes(f, a3, dst.encoding, nds.encoding, src.encoding, VEX_SIMD_66, VEX_OPCODE_0F_38) + seq![0x36, (0xC0 | rr_bits(dst.encoding, src.encoding))] }) }))
            }),
    {
        let mut attributes = InstructionAttr::new(&self.features, vector_len, false, false, false, true);
        attributes.set_is_evex_instruction();
        attributes.set_embedded_opmask_register_specifier(mask);
        if merge {
            attributes.reset_is_clear_context();
            let encode = self.vex_prefix_and_encode(dst.encoding, nds.encoding, src.encoding, VEX_SIMD_66, VEX_OPCODE_0F_38, &mut attributes);
            self.emit_int16(0x36, (0xC0 | encode));
        } else {
            let encode = self.vex_prefix_and_encode(dst.encoding, nds.encoding, src.encoding, VEX_SIMD_66, VEX_OPCODE_0F_38, &mut attributes);
            self.emit_int16(0x36, (0xC0 | encode));
        }
    }

    /// `evpermd dst, mask, nds, [src], merge, vector_len`
    pub fn evpermd_xkxm(&mut self, dst: XMMRegister, mask: KRegister, nds: XMMRegister, src: Address, merge: bool, vector_len: u8)
        requires
            dst.wf(),
            mask.wf(),
            nds.wf(),
            src.wf(),
            ({
                let f = old(self).features;
                (f.supports_evex() && (vector_len > AVX_128BIT)) && ({ let a1 = InstructionAttr::spec_new(f, vector_len, false, false, false, true); let a2 = a1.evex_only(); let a3 = a2.with_mask(mask); (if merge { ({ let a4 = a3.merging(); (vex_adr_ok(f, a4, nds.encoding, dst.encoding, src)) }) } else { (vex_adr_ok(f, a3, nds.encoding, dst.encoding, src)) }) })
            }),
        ensures
            ({
                let f = old(self).features;
                final(self).appends(*old(self), ({ let a1 = InstructionAttr::spec_new(f, vector_len, false, false, false, true); let a2 = a1.evex_only(); let a3 = a2.with_mask(mask); (if merge { ({ let a4 = a3.merging(); vex_adr_bytes(f, a4, src, nds.encoding, dst.encoding, VEX_SIMD_66, VEX_OPCODE_0F_38) + ({ let a5 = vex_adr_attr(f, a4, nds.encoding, dst.encoding); seq![0x36] + address_bytes(f, Some(a5), dst.encoding, src, true) }) }) } else { vex_adr_bytes(f, a3, src, nds.encoding, dst.encoding, VEX_SIMD_66, VEX_OPCODE_0F_38) + ({ let a6 = vex_adr_attr(f, a3, nds.encoding, dst.encoding); seq![0x36] + address_bytes(f, Some(a6), dst.encoding, src, true) }) }) }))
            }),
    {
        let mut attributes = InstructionAttr::new(&self.features, vector_len, false, false, false, true);
        attributes.set_is_evex_instruction();
        attributes.set_embedded_opmask_register_specifier(mask);
        if merge {
            attributes.reset_is_clear_context();
            self.vex_prefix(&src, nds.encoding, dst.encoding, VEX_SIMD_66, VEX_OPCODE_0F_38, &mut attributes);
            self.emit_int8(0x36);
            self.emit_operand_attr(dst.encoding, &src, &attributes, true);
        } else {
            self.vex_prefix(&src, nds.encoding, dst.encoding, VEX_SIMD_66, VEX_OPCODE_0F_38, &mut attributes);
            self.emit_int8(0x36);
            self.emit_operand_attr(dst.encoding, &src, &attributes, true);
        }
    }

    /// `evpermq dst, mask, nds, src, merge, vector_len`
    pub fn evpermq(&mut self, dst: XMMRegister, mask: KRegister, nds: XMMRegister, src: XMMRegister, merge: bool, vector_len: u8)
        requires
            dst.wf(),
            mask.wf(),
            nds.wf(),
            src.wf(),
            ({
                let f = old(self).features;
                (f.supports_evex() && (vector_len > AVX_128BIT)) && ({ let a1 = InstructionAttr::spec_new(f, vector_len, true, false, false, true); let a2 = a1.evex_only(); let a3 = a2.with_mask(mask); (if merge { ({ let a4 = a3.merging(); (vex_rr_ok(f, a4, dst.encoding, nds.encoding, src.encoding)) }) } else { (vex_rr_ok(f, a3, dst.encoding, nds.encoding, src.encoding)) }) })
            }),
        ensures
            ({
                let f = old(self).features;
                final(self).appends(*old(self), ({ let a1 = InstructionAttr::spec_new(f, vector_len, true, false, false, true); let a2 = a1.evex_only(); let a3 = a2.with_mask(mask); (if merge { ({ let a4 = a3.merging(); vex_rr_bytes(f, a4, dst.encoding, nds.encoding, src.encoding, VEX_SIMD_66, VEX_OPCODE_0F_38) + seq![0x36, (0xC0 | rr_bits(dst.encoding, src.encoding))] }) } else { vex_rr_bytes(f, a3, dst.encoding, nds.encoding, src.encoding, VEX_SIMD_66, VEX_OPCODE_0F_38) + seq![0x36, (0xC0 | rr_bits(dst.encoding, src.encoding))] }) }))
            }),
    {
        let mut attributes = InstructionAttr::new(&self.features, vector_len, true, false, false, true);
        attributes.set_is_evex_instruction();
        attributes.set_embedded_opmask_register_specifier(mask);
        if merge {
            attributes.reset_is_clear_context();
            let encode = self.vex_prefix_and_encode(dst.encoding, nds.encoding, src.encoding, VEX_SIMD_66, VEX_OPCODE_0F_38, &mut attributes);
            self.emit_int16(0x36, (0xC0 | encode));
        } else {
            let encode = self.vex_prefix_and_encode(dst.encoding, nds.encoding, src.encoding, VEX_SIMD_66, VEX_OPCODE_0F_38, &mut attributes);
            self.emit_int16(0x36, (0xC0 | encode));
        }
    }

    /// `evpermq dst, mask, nds, [src], merge, vector_len`
    pub fn evpermq_xkxm(&mut self, dst: XMMRegister, mask: KRegister, nds: XMMRegister, src: Address, merge: bool, vector_len: u8)
        requires
            dst.wf(),
            mask.wf(),
            nds.wf(),
            src.wf(),
            ({
                let f = old(self).features;
                (f.supports_evex() && (vector_len > AVX_128BIT)) && ({ let a1 = InstructionAttr::spec_new(f, vector_len, true, false, false, true); let a2 = a1.evex_only(); let a3 = a2.with_mask(mask); (if merge { ({ let a4 = a3.merging(); (vex_adr_ok(f, a4, nds.encoding, dst.encoding, src)) }) } else { (vex_adr_ok(f, a3, nds.encoding, dst.encoding, src)) }) })
            }),
        ensures
            ({
                let f = old(self).features;
                final(self).appends(*old(self), ({ let a1 = InstructionAttr::spec_new(f, vector_len, true, false, false, true); let a2 = a1.evex_only(); let a3 = a2.with_mask(mask); (if merge { ({ let a4 = a3.merging(); vex_adr_bytes(f, a4, src, nds.encoding, dst.encoding, VEX_SIMD_66, VEX_OPCODE_0F_38) + ({ let a5 = vex_adr_attr(f, a4, nds.encoding, dst.encoding); seq![0x36] + address_bytes(f, Some(a5), dst.encoding, src, true) }) }) } else { vex_adr_bytes(f, a3, src, nds.encoding, dst.encoding, VEX_SIMD_66, VEX_OPCODE_0F_38) + ({ let a6 = vex_adr_attr(f, a3, nds.encoding, dst.encoding); seq![0x36] + address_bytes(f, Some(a6), dst.encoding, src, true) }) }) }))
            }),
    {
        let mut attributes = InstructionAttr::new(&self.features, vector_len, true, false, false, true);
        attributes.set_is_evex_instruction();
        attributes.set_embedded_opmask_register_specifier(mask);
        if merge {
            attributes.reset_is_clear_context();
            self.vex_prefix(&src, nds.encoding, dst.encoding, VEX_SIMD_66, VEX_OPCODE_0F_38, &mut attributes);
            self.emit_int8(0x36);
            self.emit_operand_attr(dst.encoding, &src, &attributes, true);
        } else {
            self.vex_prefix(&src, nds.encoding, dst.encoding, VEX_SIMD_66, VEX_OPCODE_0F_38, &mut attributes);
            self.emit_int8(0x36);
            self.emit_operand_attr(dst.encoding, &src, &attributes, true);
        }
    }

    /// `evpsllw dst, mask, src, shift, merge, vector_len`
    pub fn evpsllw_xkxi(&mut self, dst: XMMRegister, mask: KRegister, src: XMMRegister, shift: i32, merge: bool, vector_len: u8)
        requires
            dst.wf(),
            mask.wf(),
            src.wf(),
            ({
                let f = old(self).features;
                (f.supports_avx512bw() && ((vector_len == AVX_512BIT) || f.supports_avx512vl())) && ({ let a1 = InstructionAttr::spec_new(f, vector_len, false, false, false, true); let a2 = a1.evex_only(); let a3 = a2.with_mask(mask); (if merge { ({ let a4 = a3.merging(); (vex_rr_ok(f, a4, 6, dst.encoding, src.encoding)) }) } else { (vex_rr_ok(f, a3, 6, dst.encoding, src.encoding)) }) })
            }),
        ensures
            ({
                let f = old(self).features;
                final(self).appends(*old(self), ({ let a1 = InstructionAttr::spec_new(f, vector_len, false, false, false, true); let a2 = a1.evex_only(); let a3 = a2.with_mask(mask); (if merge { ({ let a4 = a3.merging(); vex_rr_bytes(f, a4, 6, dst.encoding, src.encoding, VEX_SIMD_66, VEX_OPCODE_0F) + seq![0x71, (0xC0 | rr_bits(6, src.encoding)), low8(shift)] }) } else { vex_rr_bytes(f, a3, 6, dst.encoding, src.encoding, VEX_SIMD_66, VEX_OPCODE_0F) + seq![0x71, (0xC0 | rr_bits(6, src.encoding)), low8(shift)] }) }))
            }),
    {
        let mut attributes = InstructionAttr::new(&self.features, vector_len, false, false, false, true);
        attributes.set_is_evex_instruction();
        attributes.set_embedded_opmask_register_specifier(mask);
        if merge {
            attributes.reset_is_clear_context();
            let encode = self.vex_prefix_and_encode(6, dst.encoding, src.encoding, VEX_SIMD_66, VEX_OPCODE_0F, &mut attributes);
            self.emit_int24(0x71, (0xC0 | encode), low8_exec(shift));
        } else {
            let encode = self.vex_prefix_and_encode(6, dst.encoding, src.encoding, VEX_SIMD_66, VEX_OPCODE_0F, &mut attributes);
            self.emit_int24(0x71, (0xC0 | encode), low8_exec(shift));
        }
    }

    /// `evpslld dst, mask, src, shift, merge, vector_len`
    pub fn evpslld_xkxi(&mut self, dst: XMMRegister, mask: KRegister, src: XMMRegister, shift: i32, merge: bool, vector_len: u8)
        requires
            dst.wf(),
            mask.wf(),
            src.wf(),
            ({
                let f = old(self).features;
                (f.supports_evex()) && (((vector_len == AVX_512BIT) || f.supports_avx512vl()) && ({ let a1 = InstructionAttr::spec_new(f, vector_len, false, false, false, true); let a2 = a1.evex_only(); let a3 = a2.with_mask(mask); (if merge { ({ let a4 = a3.merging(); (vex_rr_ok(f, a4, 6, dst.encoding, src.encoding)) }) } else { (vex_rr_ok(f, a3, 6, dst.encoding, src.encoding)) }) }))
            }),
        ensures
            ({
                let f = old(self).features;
                final(self).appends(*old(self), ({ let a1 = InstructionAttr::spec_new(f, vector_len, false, false, false, true); let a2 = a1.evex_only(); let a3 = a2.with_mask(mask); (if merge { ({ let a4 = a3.merging(); vex_rr_bytes(f, a4, 6, dst.encoding, src.encoding, VEX_SIMD_66, VEX_OPCODE_0F) + seq![0x72, (0xC0 | rr_bits(6, src.encoding)), low8(shift)] }) } else { vex_rr_bytes(f, a3, 6, dst.encoding, src.encoding, VEX_SIMD_66, VEX_OPCODE_0F) + seq![0x72, (0xC0 | rr_bits(6, src.encoding)), low8(shift)] }) }))
            }),
    {
        let mut attributes = InstructionAttr::new(&self.features, vector_len, false, false, false, true);
        attributes.set_is_evex_instruction();
        attributes.set_embedded_opmask_register_specifier(mask);
        if merge {
            attributes.reset_is_clear_context();
            let encode = self.vex_prefix_and_encode(6, dst.encoding, src.encoding, VEX_SIMD_66, VEX_OPCODE_0F, &mut attributes);
            self.emit_int24(0x72, (0xC0 | encode), low8_exec(shift));
        } else {
            let encode = self.vex_prefix_and_encode(6, dst.encoding, src.encoding, VEX_SIMD_66, VEX_OPCODE_0F, &mut attributes);
            self.emit_int24(0x72, (0xC0 | encode), low8_exec(shift));
        }
    }

    /// `evpsllq dst, mask, src, shift, merge, vector_len`
    pub fn evpsllq_xkxi(&mut self, dst: XMMRegister, mask: KRegister, src: XMMRegister, shift: i32, merge: bool, vector_len: u8)
        requires
            dst.wf(),
            mask.wf(),
            src.wf(),
            ({
                let f = old(self).features;
                (f.supports_evex()) && (((vector_len == AVX_512BIT) || f.supports_avx512vl()) && ({ let a1 = InstructionAttr::spec_new(f, vector_len, true, false, false, true); let a2 = a1.evex_only(); let a3 = a2.with_mask(mask); (if merge { ({ let a4 = a3.merging(); (vex_rr_ok(f, a4, 6, dst.encoding, src.encoding)) }) } else { (vex_rr_ok(f, a3, 6, dst.encoding, src.encoding)) }) }))
            }),
        ensures
            ({
                let f = old(self).features;
                final(self).appends(*old(self), ({ let a1 = InstructionAttr::spec_new(f, vector_len, true, false, false, true); let a2 = a1.evex_only(); let a3 = a2.with_mask(mask); (if merge { ({ let a4 = a3.merging(); vex_rr_bytes(f, a4, 6, dst.encoding, src.encoding, VEX_SIMD_66, VEX_OPCODE_0F) + seq![0x73, (0xC0 | rr_bits(6, src.encoding)), low8(shift)] }) } else { vex_rr_bytes(f, a3, 6, dst.encoding, src.encoding, VEX_SIMD_66, VEX_OPCODE_0F) + seq![0x73, (0xC0 | rr_bits(6, src.encoding)), low8(shift)] }) }))
            }),
    {
        let mut attributes = InstructionAttr::new(&self.features, vector_len, true, false, false, true);
        attributes.set_is_evex_instruction();
        attributes.set_embedded_opmask_register_specifier(mask);
        if merge {
            attributes.reset_is_clear_context();
            let encode = self.vex_prefix_and_encode(6, dst.encoding, src.encoding, VEX_SIMD_66, VEX_OPCODE_0F, &mut attributes);
            self.emit_int24(0x73, (0xC0 | encode), low8_exec(shift));
        } else {
            let encode = self.vex_prefix_and_encode(6, dst.encoding, src.encoding, VEX_SIMD_66, VEX_OPCODE_0F, &mut attributes);
            self.emit_int24(0x73, (0xC0 | encode), low8_exec(shift));
        }
    }

    /// `evpsrlw dst, mask, src, shift, merge, vector_len`
    pub fn evpsrlw_xkxi(&mut self, dst: XMMRegister, mask: KRegister, src: XMMRegister, shift: i32, merge: bool, vector_len: u8)
        requires
            dst.wf(),
            mask.wf(),
            src.wf(),
            ({
                let f = old(self).features;
                (f.supports_avx512bw() && ((vector_len == AVX_512BIT) || f.supports_avx512vl())) && ({ let a1 = InstructionAttr::spec_new(f, vector_len, false, false, false, true); let a2 = a1.evex_only(); let a3 = a2.with_mask(mask); (if merge { ({ let a4 = a3.merging(); (vex_rr_ok(f, a4, 2, dst.encoding, src.encoding)) }) } else { (vex_rr_ok(f, a3, 2, dst.encoding, src.encoding)) }) })
            }),
        ensures
            ({
                let f = old(self).features;
                final(self).appends(*old(self), ({ let a1 = InstructionAttr::spec_new(f, vector_len, false, false, false, true); let a2 = a1.evex_only(); let a3 = a2.with_mask(mask); (if merge { ({ let a4 = a3.merging(); vex_rr_bytes(f, a4, 2, dst.encoding, src.encoding, VEX_SIMD_66, VEX_OPCODE_0F) + seq![0x71, (0xC0 | rr_bits(2, src.encoding)), low8(shift)] }) } else { vex_rr_bytes(f, a3, 2, dst.encoding, src.encoding, VEX_SIMD_66, VEX_OPCODE_0F) + seq![0x71, (0xC0 | rr_bits(2, src.encoding)), low8(shift)] }) }))
            }),
    {
        let mut attributes = InstructionAttr::new(&self.features, vector_len, false, false, false, true);
        attributes.set_is_evex_instruction();
        attributes.set_embedded_opmask_register_specifier(mask);
        if merge {
            attributes.reset_is_clear_context();
            let encode = self.vex_prefix_and_encode(2, dst.encoding, src.encoding, VEX_SIMD_66, VEX_OPCODE_0F, &mut attributes);
            self.emit_int24(0x71, (0xC0 | encode), low8_exec(shift));
        } else {
            let encode = self.vex_prefix_and_encode(2, dst.encoding, src.encoding, VEX_SIMD_66, VEX_OPCODE_0F, &mut attributes);
            self.emit_int24(0x71, (0xC0 | encode), low8_exec(shift));
        }
    }

    /// `evpsrld dst, mask, src, shift, merge, vector_len`
    pub fn evpsrld_xkxi(&mut self, dst: XMMRegister, mask: KRegister, src: XMMRegister, shift: i32, merge: bool, vector_len: u8)
        requires
            dst.wf(),
            mask.wf(),
            src.wf(),
            ({
                let f = old(self).features;
                (f.supports_evex()) && (((vector_len == AVX_512BIT) || f.supports_avx512vl()) && ({ let a1 = InstructionAttr::spec_new(f, vector_len, false, false, false, true); let a2 = a1.evex_only(); let a3 = a2.with_mask(mask); (if merge { ({ let a4 = a3.merging(); (vex_rr_ok(f, a4, 2, dst.encoding, src.encoding)) }) } else { (vex_rr_ok(f, a3, 2, dst.encoding, src.encoding)) }) }))
            }),
        ensures
            ({
                let f = old(self).features;
                final(self).appends(*old(self), ({ let a1 = InstructionAttr::spec_new(f, vector_len, false, false, false, true); let a2 = a1.evex_only(); let a3 = a2.with_mask(mask); (if merge { ({ let a4 = a3.merging(); vex_rr_bytes(f, a4, 2, dst.encoding, src.encoding, VEX_SIMD_66, VEX_OPCODE_0F) + seq![0x72, (0xC0 | rr_bits(2, src.encoding)), low8(shift)] }) } else { vex_rr_bytes(f, a3, 2, dst.encoding, src.encoding, VEX_SIMD_66, VEX_OPCODE_0F) + seq![0x72, (0xC0 | rr_bits(2, src.encoding)), low8(shift)] }) }))
            }),
    {
        let mut attributes = InstructionAttr::new(&self.features, vector_len, false, false, false, true);
        attributes.set_is_evex_instruction();
        attributes.set_embedded_opmask_register_specifier(mask);
        if merge {
            attributes.reset_is_clear_context();
            let encode = self.vex_prefix_and_encode(2, dst.encoding, src.encoding, VEX_SIMD_66, VEX_OPCODE_0F, &mut attributes);
            self.emit_int24(0x72, (0xC0 | encode), low8_exec(shift));
        } else {
            let encode = self.vex_prefix_and_encode(2, dst.encoding, src.encoding, VEX_SIMD_66, VEX_OPCODE_0F, &mut attributes);
            self.emit_int24(0x72, (0xC0 | encode), low8_exec(shift));
        }
    }

    /// `evpsrlq dst, mask, src, shift, merge, vector_len`
    pub fn evpsrlq_xkxi(&mut self, dst: XMMRegister, mask: KRegister, src: XMMRegister, shift: i32, merge: bool, vector_len: u8)
        requires
            dst.wf(),
            mask.wf(),
            src.wf(),
            ({
                let f = old(self).features;
                (f.supports_evex()) && (((vector_len == AVX_512BIT) || f.supports_avx512vl()) && ({ let a1 = InstructionAttr::spec_new(f, vector_len, true, false, false, true); let a2 = a1.evex_only(); let a3 = a2.with_mask(mask); (if merge { ({ let a4 = a3.merging(); (vex_rr_ok(f, a4, 2, dst.encoding, src.encoding)) }) } else { (vex_rr_ok(f, a3, 2, dst.encoding, src.encoding)) }) }))
            }),
        ensures
            ({
                let f = old(self).features;
                final(self).appends(*old(self), ({ let a1 = InstructionAttr::spec_new(f, vector_len, true, false, false, true); let a2 = a1.evex_only(); let a3 = a2.with_mask(mask); (if merge { ({ let a4 = a3.merging(); vex_rr_bytes(f, a4, 2, dst.encoding, src.encoding, VEX_SIMD_66, VEX_OPCODE_0F) + seq![0x73, (0xC0 | rr_bits(2, src.encoding)), low8(shift)] }) } else { vex_rr_bytes(f, a3, 2, dst.encoding, src.encoding, VEX_SIMD_66, VEX_OPCODE_0F) + seq![0x73, (0xC0 | rr_bits(2, src.encoding)), low8(shift)] }) }))
            }),
    {
        let mut attributes = InstructionAttr::new(&self.features, vector_len, true, false, false, true);
        attributes.set_is_evex_instruction();
        attributes.set_embedded_opmask_register_specifier(mask);
        if merge {
            attributes.reset_is_clear_context();
            let encode = self.vex_prefix_and_encode(2, dst.encoding, src.encoding, VEX_SIMD_66, VEX_OPCODE_0F, &mut attributes);
            self.emit_int24(0x73, (0xC0 | encode), low8_exec(shift));
        } else {
            let encode = self.vex_prefix_and_encode(2, dst.encoding, src.encoding, VEX_SIMD_66, VEX_OPCODE_0F, &mut attributes);
            self.emit_int24(0x73, (0xC0 | encode), low8_exec(shift));
        }
    }

    /// `evpsraw dst, mask, src, shift, merge, vector_len`
    pub fn evpsraw_xkxi(&mut self, dst: XMMRegister, mask: KRegister, src: XMMRegister, shift: i32, merge: bool, vector_len: u8)
        requires
            dst.wf(),
            mask.wf(),
            src.wf(),
            ({
                let f = old(self).features;
                (f.supports_avx512bw() && ((vector_len == AVX_512BIT) || f.supports_avx512vl())) && ({ let a1 = InstructionAttr::spec_new(f, vector_len, false, false, false, true); let a2 = a1.evex_only(); let a3 = a2.with_mask(mask); (if merge { ({ let a4 = a3.merging(); (vex_rr_ok(f, a4, 4, dst.encoding, src.encoding)) }) } else { (vex_rr_ok(f, a3, 4, dst.encoding, src.encoding)) }) })
            }),
        ensures
            ({
                let f = old(self).features;
                final(self).appends(*old(self), ({ let a1 = InstructionAttr::spec_new(f, vector_len, false, false, false, true); let a2 = a1.evex_only(); let a3 = a2.with_mask(mask); (if merge { ({ let a4 = a3.merging(); vex_rr_bytes(f, a4, 4, dst.encoding, src.encoding, VEX_SIMD_66, VEX_OPCODE_0F) + seq![0x71, (0xC0 | rr_bits(4, src.encoding)), low8(shift)] }) } else { vex_rr_bytes(f, a3, 4, dst.encoding, src.encoding, VEX_SIMD_66, VEX_OPCODE_0F) + seq![0x71, (0xC0 | rr_bits(4, src.encoding)), low8(shift)] }) }))
            }),
    {
        let mut attributes = InstructionAttr::new(&self.features, vector_len, false, false, false, true);
        attributes.set_is_evex_instruction();
        attributes.set_embedded_opmask_register_specifier(mask);
        if merge {
            attributes.reset_is_clear_context();
            let encode = self.vex_prefix_and_encode(4, dst.encoding, src.encoding, VEX_SIMD_66, VEX_OPCODE_0F, &mut attributes);
            self.emit_int24(0x71, (0xC0 | encode), low8_exec(shift));
        } else {
            let encode = self.vex_prefix_and_encode(4, dst.encoding, src.encoding, VEX_SIMD_66, VEX_OPCODE_0F, &mut attributes);
            self.emit_int24(0x71, (0xC0 | encode), low8_exec(shift));
        }
    }

    /// `evpsrad dst, mask, src, shift, merge, vector_len`
    pub fn evpsrad_xkxi(&mut self, dst: XMMRegister, mask: KRegister, src: XMMRegister, shift: i32, merge: bool, vector_len: u8)
        requires
            dst.wf(),
            mask.wf(),
            src.wf(),
            ({
                let f = old(self).features;
                (f.supports_evex()) && (((vector_len == AVX_512BIT) || f.supports_avx512vl()) && ({ let a1 = InstructionAttr::spec_new(f, vector_len, false, false, false, true); let a2 = a1.evex_only(); let a3 = a2.with_mask(mask); (if merge { ({ let a4 = a3.merging(); (vex_rr_ok(f, a4, 4, dst.encoding, src.encoding)) }) } else { (vex_rr_ok(f, a3, 4, dst.encoding, src.encoding)) }) }))
            }),
        ensures
            ({
                let f = old(self).features;
                final(self).appends(*old(self), ({ let a1 = InstructionAttr::spec_new(f, vector_len, false, false, false, true); let a2 = a1.evex_only(); let a3 = a2.with_mask(mask); (if merge { ({ let a4 = a3.merging(); vex_rr_bytes(f, a4, 4, dst.encoding, src.encoding, VEX_SIMD_66, VEX_OPCODE_0F) + seq![0x72, (0xC0 | rr_bits(4, src.encoding)), low8(shift)] }) } else { vex_rr_bytes(f, a3, 4, dst.encoding, src.encoding, VEX_SIMD_66, VEX_OPCODE_0F) + seq![0x72, (0xC0 | rr_bits(4, src.encoding)), low8(shift)] }) }))
            }),
    {
        let mut attributes = InstructionAttr::new(&self.features, vector_len, false, false, false, true);
        attributes.set_is_evex_instruction();
        attributes.set_embedded_opmask_register_specifier(mask);
        if merge {
            attributes.reset_is_clear_context();
            let encode = self.vex_prefix_and_encode(4, dst.encoding, src.encoding, VEX_SIMD_66, VEX_OPCODE_0F, &mut attributes);
            self.emit_int24(0x72, (0xC0 | encode), low8_exec(shift));
        } else {
            let encode = self.vex_prefix_and_encode(4, dst.encoding, src.encoding, VEX_SIMD_66, VEX_OPCODE_0F, &mut attributes);
            self.emit_int24(0x72, (0xC0 | encode), low8_exec(shift));
        }
    }

    /// `evpsraq dst, mask, src, shift, merge, vector_len`
    pub fn evpsraq_xkxi(&mut self, dst: XMMRegister, mask: KRegister, src: XMMRegister, shift: i32, merge: bool, vector_len: u8)
        requires
            dst.wf(),
            mask.wf(),
            src.wf(),
            ({
                let f = old(self).features;
                (f.supports_evex()) && (((vector_len == AVX_512BIT) || f.supports_avx512vl()) && ({ let a1 = InstructionAttr::spec_new(f, vector_len, true, false, false, true); let a2 = a1.evex_only(); let a3 = a2.with_mask(mask); (if merge { ({ let a4 = a3.merging(); (vex_rr_ok(f, a4, 4, dst.encoding, src.encoding)) }) } else { (vex_rr_ok(f, a3, 4, dst.encoding, src.encoding)) }) }))
            }),
        ensures
            ({
                let f = old(self).features;
                final(self).appends(*old(self), ({ let a1 = InstructionAttr::spec_new(f, vector_len, true, false, false, true); let a2 = a1.evex_only(); let a3 = a2.with_mask(mask); (if merge { ({ let a4 = a3.merging(); vex_rr_bytes(f, a4, 4, dst.encoding, src.encoding, VEX_SIMD_66, VEX_OPCODE_0F) + seq![0x72, (0xC0 | rr_bits(4, src.encoding)), low8(shift)] }) } else { vex_rr_bytes(f, a3, 4, dst.encoding, src.encoding, VEX_SIMD_66, VEX_OPCODE_0F) + seq![0x72, (0xC0 | rr_bits(4, src.encoding)), low8(shift)] }) }))
            }),
    {
        let mut attributes = InstructionAttr::new(&self.features, vector_len, true, false, false, true);
        attributes.set_is_evex_instruction();
        attributes.set_embedded_opmask_register_specifier(mask);
        if merge {
            attributes.reset_is_clear_context();
            let encode = self.vex_prefix_and_encode(4, dst.encoding, src.encoding, VEX_SIMD_66, VEX_OPCODE_0F, &mut attributes);
            self.emit_int24(0x72, (0xC0 | encode), low8_exec(shift));
        } else {
            let encode = self.vex_prefix_and_encode(4, dst.encoding, src.encoding, VEX_SIMD_66, VEX_OPCODE_0F, &mut attributes);
            self.emit_int24(0x72, (0xC0 | encode), low8_exec(shift));
        }
    }

    /// `evpsllw dst, mask, nds, src, merge, vector_len`
    pub fn evpsllw(&mut self, dst: XMMRegister, mask: KRegister, nds: XMMRegister, src: XMMRegister, merge: bool, vector_len: u8)
        requires
            dst.wf(),
            mask.wf(),
            nds.wf(),
            src.wf(),
            ({
                let f = old(self).features;
                (f.supports_avx512bw() && ((vector_len == AVX_512BIT) || f.supports_avx512vl())) && ({ let a1 = InstructionAttr::spec_new(f, vector_len, true, false, false, true); let a2 = a1.evex_only(); let a3 = a2.with_mask(mask); (if merge { ({ let a4 = a3.merging(); (vex_rr_ok(f, a4, dst.encoding, nds.encoding, src.encoding)) }) } else { (vex_rr_ok(f, a3, dst.encoding, nds.encoding, src.encoding)) }) })
            }),
        ensures
            ({
                let f = old(self).features;
                final(self).appends(*old(self), ({ let a1 = InstructionAttr::spec_new(f, vector_len, true, false, false, true); let a2 = a1.evex_only(); let a3 = a2.with_mask(mask); (if merge { ({ let a4 = a3.merging(); vex_rr_bytes(f, a4, dst.encoding, nds.encoding, src.encoding, VEX_SIMD_66, VEX_OPCODE_0F) + seq![0xF1, (0xC0 | rr_bits(dst.encoding, src.encoding))] }) } else { vex_rr_bytes(f, a3, dst.encoding, nds.encoding, src.encoding, VEX_SIMD_66, VEX_OPCODE_0F) + seq![0xF1, (0xC0 | rr_bits(dst.encoding, src.encoding))] }) }))
            }),
    {
        let mut attributes = InstructionAttr::new(&self.features, vector_len, true, false, false, true);
        attributes.set_is_evex_instruction();
        attributes.set_embedded_opmask_register_specifier(mask);
        if merge {
            attributes.reset_is_clear_context();
            let encode = self.vex_prefix_and_encode(dst.encoding, nds.encoding, src.encoding, VEX_SIMD_66, VEX_OPCODE_0F, &mut attributes);
            self.emit_int16(0xF1, (0xC0 | encode));
        } else {
            let encode = self.vex_prefix_and_encode(dst.encoding, nds.encoding, src.encoding, VEX_SIMD_66, VEX_OPCODE_0F, &mut attributes);
            self.emit_int16(0xF1, (0xC0 | encode));
        }
    }

    /// `evpslld dst, mask, nds, src, merge, vector_len`
    pub fn evpslld(&mut self, dst: XMMRegister, mask: KRegister, nds: XMMRegister, src: XMMRegister, merge: bool, vector_len: u8)
        requires
            dst.wf(),
            mask.wf(),
            nds.wf(),
            src.wf(),
            ({
                let f = old(self).features;
                (f.supports_evex()) && (((vector_len == AVX_512BIT) || f.supports_avx512vl()) && ({ let a1 = InstructionAttr::spec_new(f, vector_len, false, false, false, true); let a2 = a1.evex_only(); let a3 = a2.with_mask(mask); (if merge { ({ let a4 = a3.merging(); (vex_rr_ok(f, a4, dst.encoding, nds.encoding, src.encoding)) }) } else { (vex_rr_ok(f, a3, dst.encoding, nds.encoding, src.encoding)) }) }))
            }),
        ensures
            ({
                let f = old(self).features;
                final(self).appends(*old(self), ({ let a1 = InstructionAttr::spec_new(f, vector_len, false, false, false, true); let a2 = a1.evex_only(); let a3 = a2.with_mask(mask); (if merge { ({ let a4 = a3.merging(); vex_rr_bytes(f, a4, dst.encoding, nds.encoding, src.encoding, VEX_SIMD_66, VEX_OPCODE_0F) + seq![0xF2, (0xC0 | rr_bits(dst.encoding, src.encoding))] }) } else { vex_rr_bytes(f, a3, dst.encoding, nds.encoding, src.encoding, VEX_SIMD_66, VEX_OPCODE_0F) + seq![0xF2, (0xC0 | rr_bits(dst.encoding, src.encoding))] }) }))
            }),
    {
        let mut attributes = InstructionAttr::new(&self.features, vector_len, false, false, false, true);
        attributes.set_is_evex_instruction();
        attributes.set_embedded_opmask_register_specifier(mask);
        if merge {
            attributes.reset_is_clear_context();
            let encode = self.vex_prefix_and_encode(dst.encoding, nds.encoding, src.encoding, VEX_SIMD_66, VEX_OPCODE_0F, &mut attributes);
            self.emit_int16(0xF2, (0xC0 | encode));
        } else {
            let encode = self.vex_prefix_and_encode(dst.encoding, nds.encoding, src.encoding, VEX_SIMD_66, VEX_OPCODE_0F, &mut attributes);
            self.emit_int16(0xF2, (0xC0 | encode));
        }
    }

    /// `evpsllq dst, mask, nds, src, merge, vector_len`
    pub fn evpsllq(&mut self, dst: XMMRegister, mask: KRegister, nds: XMMRegister, src: XMMRegister, merge: bool, vector_len: u8)
        requires
            dst.wf(),
            mask.wf(),
            nds.wf(),
            src.wf(),
            ({
                let f = old(self).features;
                (f.supports_evex()) && (((vector_len == AVX_512BIT) || f.supports_avx512vl()) && ({ let a1 = InstructionAttr::spec_new(f, vector_len, true, false, false, true); let a2 = a1.evex_only(); let a3 = a2.with_mask(mask); (if merge { ({ let a4 = a3.merging(); (vex_rr_ok(f, a4, dst.encoding, nds.encoding, src.encoding)) }) } else { (vex_rr_ok(f, a3, dst.encoding, nds.encoding, src.encoding)) }) }))
            }),
        ensures
            ({
                let f = old(self).features;
                final(self).appends(*old(self), ({ let a1 = InstructionAttr::spec_new(f, vector_len, true, false, false, true); let a2 = a1.evex_only(); let a3 = a2.with_mask(mask); (if merge { ({ let a4 = a3.merging(); vex_rr_bytes(f, a4, dst.encoding, nds.encoding, src.encoding, VEX_SIMD_66, VEX_OPCODE_0F) + seq![0xF3, (0xC0 | rr_bits(dst.encoding, src.encoding))] }) } else { vex_rr_bytes(f, a3, dst.encoding, nds.encoding, src.encoding, VEX_SIMD_66, VEX_OPCODE_0F) + seq![0xF3, (0xC0 | rr_bits(dst.encoding, src.encoding))] }) }))
            }),
    {
        let mut attributes = InstructionAttr::new(&self.features, vector_len, true, false, false, true);
        attributes.set_is_evex_instruction();
        attributes.set_embedded_opmask_register_specifier(mask);
        if merge {
            attributes.reset_is_clear_context();
            let encode = self.vex_prefix_and_encode(dst.encoding, nds.encoding, src.encoding, VEX_SIMD_66, VEX_OPCODE_0F, &mut attributes);
            self.emit_int16(0xF3, (0xC0 | encode));
        } else {
            let encode = self.vex_prefix_and_encode(dst.encoding, nds.encoding, src.encoding, VEX_SIMD_66, VEX_OPCODE_0F, &mut attributes);
            self.emit_int16(0xF3, (0xC0 | encode));
        }
    }

    /// `evpsrlw dst, mask, nds, src, merge, vector_len`
    pub fn evpsrlw(&mut self, dst: XMMRegister, mask: KRegister, nds: XMMRegister, src: XMMRegister, merge: bool, vector_len: u8)
        requires
            dst.wf(),
            mask.wf(),
            nds.wf(),
            src.wf(),
            ({
                let f = old(self).features;
                (f.supports_avx512bw() && ((vector_len == AVX_512BIT) || f.supports_avx512vl())) && ({ let a1 = InstructionAttr::spec_new(f, vector_len, true, false, false, true); let a2 = a1.evex_only(); let a3 = a2.with_mask(mask); (if merge { ({ let a4 = a3.merging(); (vex_rr_ok(f, a4, dst.encoding, nds.encoding, src.encoding)) }) } else { (vex_rr_ok(f, a3, dst.encoding, nds.encoding, src.encoding)) }) })
            }),
        ensures
            ({
                let f = old(self).features;
                final(self).appends(*old(self), ({ let a1 = InstructionAttr::spec_new(f, vector_len, true, false, false, true); let a2 = a1.evex_only(); let a3 = a2.with_mask(mask); (if merge { ({ let a4 = a3.merging(); vex_rr_bytes(f, a4, dst.encoding, nds.encoding, src.encoding, VEX_SIMD_66, VEX_OPCODE_0F) + seq![0xD1, (0xC0 | rr_bits(dst.encoding, src.encoding))] }) } else { vex_rr_bytes(f, a3, dst.encoding, nds.encoding, src.encoding, VEX_SIMD_66, VEX_OPCODE_0F) + seq![0xD1, (0xC0 | rr_bits(dst.encoding, src.encoding))] }) }))
            }),
    {
        let mut attributes = InstructionAttr::new(&self.features, vector_len, true, false, false, true);
        attributes.set_is_evex_instruction();
        attributes.set_embedded_opmask_register_specifier(mask);
        if merge {
            attributes.reset_is_clear_context();
            let encode = self.vex_prefix_and_encode(dst.encoding, nds.encoding, src.encoding, VEX_SIMD_66, VEX_OPCODE_0F, &mut attributes);
            self.emit_int16(0xD1, (0xC0 | encode));
        } else {
            let encode = self.vex_prefix_and_encode(dst.encoding, nds.encoding, src.encoding, VEX_SIMD_66, VEX_OPCODE_0F, &mut attributes);
            self.emit_int16(0xD1, (0xC0 | encode));
        }
    }

    /// `evpsrld dst, mask, nds, src, merge, vector_len`
    pub fn evpsrld(&mut self, dst: XMMRegister, mask: KRegister, nds: XMMRegister, src: XMMRegister, merge: bool, vector_len: u8)
        requires
            dst.wf(),
            mask.wf(),
            nds.wf(),
            src.wf(),
            ({
                let f = old(self).features;
                (f.supports_evex()) && (((vector_len == AVX_512BIT) || f.supports_avx512vl()) && ({ let a1 = InstructionAttr::spec_new(f, vector_len, false, false, false, true); let a2 = a1.evex_only(); let a3 = a2.with_mask(mask); (if merge { ({ let a4 = a3.merging(); (vex_rr_ok(f, a4, dst.encoding, nds.encoding, src.encoding)) }) } else { (vex_rr_ok(f, a3, dst.encoding, nds.encoding, src.encoding)) }) }))
            }),
        ensures
            ({
                let f = old(self).features;
                final(self).appends(*old(self), ({ let a1 = InstructionAttr::spec_new(f, vector_len, false, false, false, true); let a2 = a1.evex_only(); let a3 = a2.with_mask(mask); (if merge { ({ let a4 = a3.merging(); vex_rr_bytes(f, a4, dst.encoding, nds.encoding, src.encoding, VEX_SIMD_66, VEX_OPCODE_0F) + seq![0xD2, (0xC0 | rr_bits(dst.encoding, src.encoding))] }) } else { vex_rr_bytes(f, a3, dst.encoding, nds.encoding, src.encoding, VEX_SIMD_66, VEX_OPCODE_0F) + seq![0xD2, (0xC0 | rr_bits(dst.encoding, src.encoding))] }) }))
            }),
    {
        let mut attributes = InstructionAttr::new(&self.features, vector_len, false, false, false, true);
        attributes.set_is_evex_instruction();
        attributes.set_embedded_opmask_register_specifier(mask);
        if merge {
            attributes.reset_is_clear_context();
            let encode = self.vex_prefix_and_encode(dst.encoding, nds.encoding, src.encoding, VEX_SIMD_66, VEX_OPCODE_0F, &mut attributes);
            self.emit_int16(0xD2, (0xC0 | encode));
        } else {
            let encode = self.vex_prefix_and_encode(dst.encoding, nds.encoding, src.encoding, VEX_SIMD_66, VEX_OPCODE_0F, &mut attributes);
            self.emit_int16(0xD2, (0xC0 | encode));
        }
    }

    /// `evpsrlq dst, mask, nds, src, merge, vector_len`
    pub fn evpsrlq(&mut self, dst: XMMRegister, mask: KRegister, nds: XMMRegister, src: XMMRegister, merge: bool, vector_len: u8)
        requires
            dst.wf(),
            mask.wf(),
            nds.wf(),
            src.wf(),
            ({
                let f = old(self).features;
                (f.supports_evex()) && (((vector_len == AVX_512BIT) || f.supports_avx512vl()) && ({ let a1 = InstructionAttr::spec_new(f, vector_len, true, false, false, true); let a2 = a1.evex_only(); let a3 = a2.with_mask(mask); (if merge { ({ let a4 = a3.merging(); (vex_rr_ok(f, a4, dst.encoding, nds.encoding, src.encoding)) }) } else { (vex_rr_ok(f, a3, dst.encoding, nds.encoding, src.encoding)) }) }))
            }),
        ensures
            ({
                let f = old(self).features;
                final(self).appends(*old(self), ({ let a1 = InstructionAttr::spec_new(f, vector_len, true, false, false, true); let a2 = a1.evex_only(); let a3 = a2.with_mask(mask); (if merge { ({ let a4 = a3.merging(); vex_rr_bytes(f, a4, dst.encoding, nds.encoding, src.encoding, VEX_SIMD_66, VEX_OPCODE_0F) + seq![0xD3, (0xC0 | rr_bits(dst.encoding, src.encoding))] }) } else { vex_rr_bytes(f, a3, dst.encoding, nds.encoding, src.encoding, VEX_SIMD_66, VEX_OPCODE_0F) + seq![0xD3, (0xC0 | rr_bits(dst.encoding, src.encoding))] }) }))
            }),
    {
        let mut attributes = InstructionAttr::new(&self.features, vector_len, true, false, false, true);
        attributes.set_is_evex_instruction();
        attributes.set_embedded_opmask_register_specifier(mask);
        if merge {
            attributes.reset_is_clear_context();
            let encode = self.vex_prefix_and_encode(dst.encoding, nds.encoding, src.encoding, VEX_SIMD_66, VEX_OPCODE_0F, &mut attributes);
            self.emit_int16(0xD3, (0xC0 | encode));
        } else {
            let encode = self.vex_prefix_and_encode(dst.encoding, nds.encoding, src.encoding, VEX_SIMD_66, VEX_OPCODE_0F, &mut attributes);
            self.emit_int16(0xD3, (0xC0 | encode));
        }
    }

    /// `evpsraw dst, mask, nds, src, merge, vector_len`
    pub fn evpsraw(&mut self, dst: XMMRegister, mask: KRegister, nds: XMMRegister, src: XMMRegister, merge: bool, vector_len: u8)
        requires
            dst.wf(),
            mask.wf(),
            nds.wf(),
            src.wf(),
            ({
                let f = old(self).features;
                (f.supports_avx512bw() && ((vector_len == AVX_512BIT) || f.supports_avx512vl())) && ({ let a1 = InstructionAttr::spec_new(f, vector_len, true, false, false, true); let a2 = a1.evex_only(); let a3 = a2.with_mask(mask); (if merge { ({ let a4 = a3.merging(); (vex_rr_ok(f, a4, dst.encoding, nds.encoding, src.encoding)) }) } else { (vex_rr_ok(f, a3, dst.encoding, nds.encoding, src.encoding)) }) })
            }),
        ensures
            ({
                let f = old(self).features;
                final(self).appends(*old(self), ({ let a1 = InstructionAttr::spec_new(f, vector_len, true, false, false, true); let a2 = a1.evex_only(); let a3 = a2.with_mask(mask); (if merge { ({ let a4 = a3.merging(); vex_rr_bytes(f, a4, dst.encoding, nds.encoding, src.encoding, VEX_SIMD_66, VEX_OPCODE_0F) + seq![0xE1, (0xC0 | rr_bits(dst.encoding, src.encoding))] }) } else { vex_rr_bytes(f, a3, dst.encoding, nds.encoding, src.encoding, VEX_SIMD_66, VEX_OPCODE_0F) + seq![0xE1, (0xC0 | rr_bits(dst.encoding, src.encoding))] }) }))
            }),
    {
        let mut attributes = InstructionAttr::new(&self.features, vector_len, true, false, false, true);
        attributes.set_is_evex_instruction();
        attributes.set_embedded_opmask_register_specifier(mask);
        if merge {
            attributes.reset_is_clear_context();
            let encode = self.vex_prefix_and_encode(dst.encoding, nds.encoding, src.encoding, VEX_SIMD_66, VEX_OPCODE_0F, &mut attributes);
            self.emit_int16(0xE1, (0xC0 | encode));
        } else {
            let encode = self.vex_prefix_and_encode(dst.encoding, nds.encoding, src.encoding, VEX_SIMD_66, VEX_OPCODE_0F, &mut attributes);
            self.emit_int16(0xE1, (0xC0 | encode));
        }
    }

    /// `evpsrad dst, mask, nds, src, merge, vector_len`
    pub fn evpsrad(&mut self, dst: XMMRegister, mask: KRegister, nds: XMMRegister, src: XMMRegister, merge: bool, vector_len: u8)
        requires
            dst.wf(),
            mask.wf(),
            nds.wf(),
            src.wf(),
            ({
                let f = old(self).features;
                (f.supports_evex()) && (((vector_len == AVX_512BIT) || f.supports_avx512vl()) && ({ let a1 = InstructionAttr::spec_new(f, vector_len, false, false, false, true); let a2 = a1.evex_only(); let a3 = a2.with_mask(mask); (if merge { ({ let a4 = a3.merging(); (vex_rr_ok(f, a4, dst.encoding, nds.encoding, src.encoding)) }) } else { (vex_rr_ok(f, a3, dst.encoding, nds.encoding, src.encoding)) }) }))
            }),
        ensures
            ({
                let f = old(self).features;
                final(self).appends(*old(self), ({ let a1 = InstructionAttr::spec_new(f, vector_len, false, false, false, true); let a2 = a1.evex_only(); let a3 = a2.with_mask(mask); (if merge { ({ let a4 = a3.merging(); vex_rr_bytes(f, a4, dst.encoding, nds.encoding, src.encoding, VEX_SIMD_66, VEX_OPCODE_0F) + seq![0xE2, (0xC0 | rr_bits(dst.encoding, src.encoding))] }) } else { vex_rr_bytes(f, a3, dst.encoding, nds.encoding, src.encoding, VEX_SIMD_66, VEX_OPCODE_0F) + seq![0xE2, (0xC0 | rr_bits(dst.encoding, src.encoding))] }) }))
            }),
    {
        let mut attributes = InstructionAttr::new(&self.features, vector_len, false, false, false, true);
        attributes.set_is_evex_instruction();
        attributes.set_embedded_opmask_register_specifier(mask);
        if merge {
            attributes.reset_is_clear_context();
            let encode = self.vex_prefix_and_encode(dst.encoding, nds.encoding, src.encoding, VEX_SIMD_66, VEX_OPCODE_0F, &mut attributes);
            self.emit_int16(0xE2, (0xC0 | encode));
        } else {
            let encode = self.vex_prefix_and_encode(dst.encoding, nds.encoding, src.encoding, VEX_SIMD_66, VEX_OPCODE_0F, &mut attributes);
            self.emit_int16(0xE2, (0xC0 | encode));
        }
    }

    /// `evpsraq dst, mask, nds, src, merge, vector_len`
    pub fn evpsraq_xkxx(&mut self, dst: XMMRegister, mask: KRegister, nds: XMMRegister, src: XMMRegister, merge: bool, vector_len: u8)
        requires
            dst.wf(),
            mask.wf(),
            nds.wf(),
            src.wf(),
            ({
                let f = old(self).features;
                (f.supports_evex()) && (((vector_len == AVX_512BIT) || f.supports_avx512vl()) && ({ let a1 = InstructionAttr::spec_new(f, vector_len, true, false, false, true); let a2 = a1.evex_only(); let a3 = a2.with_mask(mask); (if merge { ({ let a4 = a3.merging(); (vex_rr_ok(f, a4, dst.encoding, nds.encoding, src.encoding)) }) } else { (vex_rr_ok(f, a3, dst.encoding, nds.encoding, src.encoding)) }) }))
            }),
        ensures
            ({
                let f = old(self).features;
                final(self).appends(*old(self), ({ let a1 = InstructionAttr::spec_new(f, vector_len, true, false, false, true); let a2 = a1.evex_only(); let a3 = a2.with_mask(mask); (if merge { ({ let a4 = a3.merging(); vex_rr_bytes(f, a4, dst.encoding, nds.encoding, src.encoding, VEX_SIMD_66, VEX_OPCODE_0F) + seq![0xE2, (0xC0 | rr_bits(dst.encoding, src.encoding))] }) } else { vex_rr_bytes(f, a3, dst.encoding, nds.encoding, src.encoding, VEX_SIMD_66, VEX_OPCODE_0F) + seq![0xE2, (0xC0 | rr_bits(dst.encoding, src.encoding))] }) }))
            }),
    {
        let mut attributes = InstructionAttr::new(&self.features, vector_len, true, false, false, true);
        attributes.set_is_evex_instruction();
        attributes.set_embedded_opmask_register_specifier(mask);
        if merge {
            attributes.reset_is_clear_context();
            let encode = self.vex_prefix_and_encode(dst.encoding, nds.encoding, src.encoding, VEX_SIMD_66, VEX_OPCODE_0F, &mut attributes);
            self.emit_int16(0xE2, (0xC0 | encode));
        } else {
            let encode = self.vex_prefix_and_encode(dst.encoding, nds.encoding, src.encoding, VEX_SIMD_66, VEX_OPCODE_0F, &mut attributes);
            self.emit_int16(0xE2, (0xC0 | encode));
        }
    }

    /// `evpsllvw dst, mask, nds, src, merge, vector_len`
    pub fn evpsllvw_xkxx(&mut self, dst: XMMRegister, mask: KRegister, nds: XMMRegister, src: XMMRegister, merge: bool, vector_len: u8)
        requires
            dst.wf(),
            mask.wf(),
            nds.wf(),
            src.wf(),
            ({
                let f = old(self).features;
                (f.supports_avx512bw() && ((vector_len == AVX_512BIT) || f.supports_avx512vl())) && ({ let a1 = InstructionAttr::spec_new(f, vector_len, true, false, false, true); let a2 = a1.evex_only(); let a3 = a2.with_mask(mask); (if merge { ({ let a4 = a3.merging(); (vex_rr_ok(f, a4, dst.encoding, nds.encoding, src.encoding)) }) } else { (vex_rr_ok(f, a3, dst.encoding, nds.encoding, src.encoding)) }) })
            }),
        ensures
            ({
                let f = old(self).features;
                final(self).appends(*old(self), ({ let a1 = InstructionAttr::spec_new(f, vector_len, true, false, false, true); let a2 = a1.evex_only(); let a3 = a2.with_mask(mask); (if merge { ({ let a4 = a3.merging(); vex_rr_bytes(f, a4, dst.encoding, nds.encoding, src.encoding, VEX_SIMD_66, VEX_OPCODE_0F_38) + seq![0x12, (0xC0 | rr_bits(dst.encoding, src.encoding))] }) } else { vex_rr_bytes(f, a3, dst.encoding, nds.encoding, src.encoding, VEX_SIMD_66, VEX_OPCODE_0F_38) + seq![0x12, (0xC0 | rr_bits(dst.encoding, src.encoding))] }) }))
            }),
    {
        let mut attributes = InstructionAttr::new(&self.features, vector_len, true, false, false, true);
        attributes.set_is_evex_instruction();
        attributes.set_embedded_opmask_register_specifier(mask);
        if merge {
            attributes.reset_is_clear_context();
            let encode = self.vex_prefix_and_encode(dst.encoding, nds.encoding, src.encoding, VEX_SIMD_66, VEX_OPCODE_0F_38, &mut attributes);
            self.emit_int16(0x12, (0xC0 | encode));
        } else {
            let encode = self.vex_prefix_and_encode(dst.encoding, nds.encoding, src.encoding, VEX_SIMD_66, VEX_OPCODE_0F_38, &mut attributes);
            self.emit_int16(0x12, (0xC0 | encode));
        }
    }

    /// `evpsllvd dst, mask, nds, src, merge, vector_len`
    pub fn evpsllvd(&mut self, dst: XMMRegister, mask: KRegister, nds: XMMRegister, src: XMMRegister, merge: bool, vector_len: u8)
        requires
            dst.wf(),
            mask.wf(),
            nds.wf(),
            src.wf(),
            ({
                let f = old(self).features;
                (f.supports_evex()) && (((vector_len == AVX_512BIT) || f.supports_avx512vl()) && ({ let a1 = InstructionAttr::spec_new(f, vector_len, false, false, false, true); let a2 = a1.evex_only(); let a3 = a2.with_mask(mask); (if merge { ({ let a4 = a3.merging(); (vex_rr_ok(f, a4, dst.encoding, nds.encoding, src.encoding)) }) } else { (vex_rr_ok(f, a3, dst.encoding, nds.encoding, src.encoding)) }) }))
            }),
        ensures
            ({
                let f = old(self).features;
                final(self).appends(*old(self), ({ let a1 = InstructionAttr::spec_new(f, vector_len, false, false, false, true); let a2 = a1.evex_only(); let a3 = a2.with_mask(mask); (if merge { ({ let a4 = a3.merging(); vex_rr_bytes(f, a4, dst.encoding, nds.encoding, src.encoding, VEX_SIMD_66, VEX_OPCODE_0F_38) + seq![0x47, (0xC0 | rr_bits(dst.encoding, src.encoding))] }) } else { vex_rr_bytes(f, a3, dst.encoding, nds.encoding, src.encoding, VEX_SIMD_66, VEX_OPCODE_0F_38) + seq![0x47, (0xC0 | rr_bits(dst.encoding, src.encoding))] }) }))
            }),
    {
        let mut attributes = InstructionAttr::new(&self.features, vector_len, false, false, false, true);
        attributes.set_is_evex_instruction();
        attributes.set_embedded_opmask_register_specifier(mask);
        if merge {
            attributes.reset_is_clear_context();
            let encode = self.vex_prefix_and_encode(dst.encoding, nds.encoding, src.encoding, VEX_SIMD_66, VEX_OPCODE_0F_38, &mut attributes);
            self.emit_int16(0x47, (0xC0 | encode));
        } else {
            let encode = self.vex_prefix_and_encode(dst.encoding, nds.encoding, src.encoding, VEX_SIMD_66, VEX_OPCODE_0F_38, &mut attributes);
            self.emit_int16(0x47, (0xC0 | encode));
        }
    }

    /// `evpsllvq dst, mask, nds, src, merge, vector_len`
    pub fn evpsllvq(&mut self, dst: XMMRegister, mask: KRegister, nds: XMMRegister, src: XMMRegister, merge: bool, vector_len: u8)
        requires
            dst.wf(),
            mask.wf(),
            nds.wf(),
            src.wf(),
            ({
                let f = old(self).features;
                (f.supports_evex()) && (((vector_len == AVX_512BIT) || f.supports_avx512vl()) && ({ let a1 = InstructionAttr::spec_new(f, vector_len, true, false, false, true); let a2 = a1.evex_only(); let a3 = a2.with_mask(mask); (if merge { ({ let a4 = a3.merging(); (vex_rr_ok(f, a4, dst.encoding, nds.encoding, src.encoding)) }) } else { (vex_rr_ok(f, a3, dst.encoding, nds.encoding, src.encoding)) }) }))
            }),
        ensures
            ({
                let f = old(self).features;
                final(self).appends(*old(self), ({ let a1 = InstructionAttr::spec_new(f, vector_len, true, false, false, true); let a2 = a1.evex_only(); let a3 = a2.with_mask(mask); (if merge { ({ let a4 = a3.merging(); vex_rr_bytes(f, a4, dst.encoding, nds.encoding, src.encoding, VEX_SIMD_66, VEX_OPCODE_0F_38) + seq![0x47, (0xC0 | rr_bits(dst.encoding, src.encoding))] }) } else { vex_rr_bytes(f, a3, dst.encoding, nds.encoding, src.encoding, VEX_SIMD_66, VEX_OPCODE_0F_38) + seq![0x47, (0xC0 | rr_bits(dst.encoding, src.encoding))] }) }))
            }),
    {
        let mut attributes = InstructionAttr::new(&self.features, vector_len, true, false, false, true);
        attributes.set_is_evex_instruction();
        attributes.set_embedded_opmask_register_specifier(mask);
        if merge {
            attributes.reset_is_clear_context();
            let encode = self.vex_prefix_and_encode(dst.encoding, nds.encoding, src.encoding, VEX_SIMD_66, VEX_OPCODE_0F_38, &mut attributes);
            self.emit_int16(0x47, (0xC0 | encode));
        } else {
            let encode = self.vex_prefix_and_encode(dst.encoding, nds.encoding, src.encoding, VEX_SIMD_66, VEX_OPCODE_0F_38, &mut attributes);
            self.emit_int16(0x47, (0xC0 | encode));
        }
    }

    /// `evpsrlvw dst, mask, nds, src, merge, vector_len`
    pub fn evpsrlvw_xkxx(&mut self, dst: XMMRegister, mask: KRegister, nds: XMMRegister, src: XMMRegister, merge: bool, vector_len: u8)
        requires
            dst.wf(),
            mask.wf(),
            nds.wf(),
            src.wf(),
            ({
                let f = old(self).features;
                (f.supports_avx512bw() && ((vector_len == AVX_512BIT) || f.supports_avx512vl())) && ({ let a1 = InstructionAttr::spec_new(f, vector_len, true, false, false, true); let a2 = a1.evex_only(); let a3 = a2.with_mask(mask); (if merge { ({ let a4 = a3.merging(); (vex_rr_ok(f, a4, dst.encoding, nds.encoding, src.encoding)) }) } else { (vex_rr_ok(f, a3, dst.encoding, nds.encoding, src.encoding)) }) })
            }),
        ensures
            ({
                let f = old(self).features;
                final(self).appends(*old(self), ({ let a1 = InstructionAttr::spec_new(f, vector_len, true, false, false, true); let a2 = a1.evex_only(); let a3 = a2.with_mask(mask); (if merge { ({ let a4 = a3.merging(); vex_rr_bytes(f, a4, dst.encoding, nds.encoding, src.encoding, VEX_SIMD_66, VEX_OPCODE_0F_38) + seq![0x10, (0xC0 | rr_bits(dst.encoding, src.encoding))] }) } else { vex_rr_bytes(f, a3, dst.encoding, nds.encoding, src.encoding, VEX_SIMD_66, VEX_OPCODE_0F_38) + seq![0x10, (0xC0 | rr_bits(dst.encoding, src.encoding))] }) }))
            }),
    {
        let mut attributes = InstructionAttr::new(&self.features, vector_len, true, false, false, true);
        attributes.set_is_evex_instruction();
        attributes.set_embedded_opmask_register_specifier(mask);
        if merge {
            attributes.reset_is_clear_context();
            let encode = self.vex_prefix_and_encode(dst.encoding, nds.encoding, src.encoding, VEX_SIMD_66, VEX_OPCODE_0F_38, &mut attributes);
            self.emit_int16(0x10, (0xC0 | encode));
        } else {
            let encode = self.vex_prefix_and_encode(dst.encoding, nds.encoding, src.encoding, VEX_SIMD_66, VEX_OPCODE_0F_38, &mut attributes);
            self.emit_int16(0x10, (0xC0 | encode));
        }
    }

    /// `evpsrlvd dst, mask, nds, src, merge, vector_len`
    pub fn evpsrlvd(&mut self, dst: XMMRegister, mask: KRegister, nds: XMMRegister, src: XMMRegister, merge: bool, vector_len: u8)
        requires
            dst.wf(),
            mask.wf(),
            nds.wf(),
            src.wf(),
            ({
                let f = old(self).features;
                (f.supports_evex()) && (((vector_len == AVX_512BIT) || f.supports_avx512vl()) && ({ let a1 = InstructionAttr::spec_new(f, vector_len, false, false, false, true); let a2 = a1.evex_only(); let a3 = a2.with_mask(mask); (if merge { ({ let a4 = a3.merging(); (vex_rr_ok(f, a4, dst.encoding, nds.encoding, src.encoding)) }) } else { (vex_rr_ok(f, a3, dst.encoding, nds.encoding, src.encoding)) }) }))
            }),
        ensures
            ({
                let f = old(self).features;
                final(self).appends(*old(self), ({ let a1 = InstructionAttr::spec_new(f, vector_len, false, false, false, true); let a2 = a1.evex_only(); let a3 = a2.with_mask(mask); (if merge { ({ let a4 = a3.merging(); vex_rr_bytes(f, a4, dst.encoding, nds.encoding, src.encoding, VEX_SIMD_66, VEX_OPCODE_0F_38) + seq![0x45, (0xC0 | rr_bits(dst.encoding, src.encoding))] }) } else { vex_rr_bytes(f, a3, dst.encoding, nds.encoding, src.encoding, VEX_SIMD_66, VEX_OPCODE_0F_38) + seq![0x45, (0xC0 | rr_bits(dst.encoding, src.encoding))] }) }))
            }),
    {
        let mut attributes = InstructionAttr::new(&self.features, vector_len, false, false, false, true);
        attributes.set_is_evex_instruction();
        attributes.set_embedded_opmask_register_specifier(mask);
        if merge {
            attributes.reset_is_clear_context();
            let encode = self.vex_prefix_and_encode(dst.encoding, nds.encoding, src.encoding, VEX_SIMD_66, VEX_OPCODE_0F_38, &mut attributes);
            self.emit_int16(0x45, (0xC0 | encode));
        } else {
            let encode = self.vex_prefix_and_encode(dst.encoding, nds.encoding, src.encoding, VEX_SIMD_66, VEX_OPCODE_0F_38, &mut attributes);
            self.emit_int16(0x45, (0xC0 | encode));
        }
    }

    /// `evpsrlvq dst, mask, nds, src, merge, vector_len`
    pub fn evpsrlvq(&mut self, dst: XMMRegister, mask: KRegister, nds: XMMRegister, src: XMMRegister, merge: bool, vector_len: u8)
        requires
            dst.wf(),
            mask.wf(),
            nds.wf(),
            src.wf(),
            ({
                let f = old(self).features;
                (f.supports_evex()) && (((vector_len == AVX_512BIT) || f.supports_avx512vl()) && ({ let a1 = InstructionAttr::spec_new(f, vector_len, true, false, false, true); let a2 = a1.evex_only(); let a3 = a2.with_mask(mask); (if merge { ({ let a4 = a3.merging(); (vex_rr_ok(f, a4, dst.encoding, nds.encoding, src.encoding)) }) } else { (vex_rr_ok(f, a3, dst.encoding, nds.encoding, src.encoding)) }) }))
            }),
        ensures
            ({
                let f = old(self).features;
                final(self).appends(*old(self), ({ let a1 = InstructionAttr::spec_new(f, vector_len, true, false, false, true); let a2 = a1.evex_only(); let a3 = a2.with_mask(mask); (if merge { ({ let a4 = a3.merging(); vex_rr_bytes(f, a4, dst.encoding, nds.encoding, src.encoding, VEX_SIMD_66, VEX_OPCODE_0F_38) + seq![0x45, (0xC0 | rr_bits(dst.encoding, src.encoding))] }) } else { vex_rr_bytes(f, a3, dst.encoding, nds.encoding, src.encoding, VEX_SIMD_66, VEX_OPCODE_0F_38) + seq![0x45, (0xC0 | rr_bits(dst.encoding, src.encoding))] }) }))
            }),
    {
        let mut attributes = InstructionAttr::new(&self.features, vector_len, true, false, false, true);
        attributes.set_is_evex_instruction();
        attributes.set_embedded_opmask_register_specifier(mask);
        if merge {
            attributes.reset_is_clear_context();
            let encode = self.vex_prefix_and_encode(dst.encoding, nds.encoding, src.encoding, VEX_SIMD_66, VEX_OPCODE_0F_38, &mut attributes);
            self.emit_int16(0x45, (0xC0 | encode));
        } else {
            let encode = self.vex_prefix_and_encode(dst.encoding, nds.encoding, src.encoding, VEX_SIMD_66, VEX_OPCODE_0F_38, &mut attributes);
            self.emit_int16(0x45, (0xC0 | encode));
        }
    }

    /// `evpsravw dst, mask, nds, src, merge, vector_len`
    pub fn evpsravw_xkxx(&mut self, dst: XMMRegister, mask: KRegister, nds: XMMRegister, src: XMMRegister, merge: bool, vector_len: u8)
        requires
            dst.wf(),
            mask.wf(),
            nds.wf(),
            src.wf(),
            ({
                let f = old(self).features;
                (f.supports_avx512bw() && ((vector_len == AVX_512BIT) || f.supports_avx512vl())) && ({ let a1 = InstructionAttr::spec_new(f, vector_len, true, false, false, true); let a2 = a1.evex_only(); let a3 = a2.with_mask(mask); (if merge { ({ let a4 = a3.merging(); (vex_rr_ok(f, a4, dst.encoding, nds.encoding, src.encoding)) }) } else { (vex_rr_ok(f, a3, dst.encoding, nds.encoding, src.encoding)) }) })
            }),
        ensures
            ({
                let f = old(self).features;
                final(self).appends(*old(self), ({ let a1 = InstructionAttr::spec_new(f, vector_len, true, false, false, true); let a2 = a1.evex_only(); let a3 = a2.with_mask(mask); (if merge { ({ let a4 = a3.merging(); vex_rr_bytes(f, a4, dst.encoding, nds.encoding, src.encoding, VEX_SIMD_66, VEX_OPCODE_0F_38) + seq![0x11, (0xC0 | rr_bits(dst.encoding, src.encoding))] }) } else { vex_rr_bytes(f, a3, dst.encoding, nds.encoding, src.encoding, VEX_SIMD_66, VEX_OPCODE_0F_38) + seq![0x11, (0xC0 | rr_bits(dst.encoding, src.encoding))] }) }))
            }),
    {
        let mut attributes = InstructionAttr::new(&self.features, vector_len, true, false, false, true);
        attributes.set_is_evex_instruction();
        attributes.set_embedded_opmask_register_specifier(mask);
        if merge {
            attributes.reset_is_clear_context();
            let encode = self.vex_prefix_and_encode(dst.encoding, nds.encoding, src.encoding, VEX_SIMD_66, VEX_OPCODE_0F_38, &mut attributes);
            self.emit_int16(0x11, (0xC0 | encode));
        } else {
            let encode = self.vex_prefix_and_encode(dst.encoding, nds.encoding, src.encoding, VEX_SIMD_66, VEX_OPCODE_0F_38, &mut attributes);
            self.emit_int16(0x11, (0xC0 | encode));
        }
    }

    /// `evpsravd dst, mask, nds, src, merge, vector_len`
    pub fn evpsravd(&mut self, dst: XMMRegister, mask: KRegister, nds: XMMRegister, src: XMMRegister, merge: bool, vector_len: u8)
        requires
            dst.wf(),
            mask.wf(),
            nds.wf(),
            src.wf(),
            ({
                let f = old(self).features;
                (f.supports_evex()) && (((vector_len == AVX_512BIT) || f.supports_avx512vl()) && ({ let a1 = InstructionAttr::spec_new(f, vector_len, false, false, false, true); let a2 = a1.evex_only(); let a3 = a2.with_mask(mask); (if merge { ({ let a4 = a3.merging(); (vex_rr_ok(f, a4, dst.encoding, nds.encoding, src.encoding)) }) } else { (vex_rr_ok(f, a3, dst.encoding, nds.encoding, src.encoding)) }) }))
            }),
        ensures
            ({
                let f = old(self).features;
                final(self).appends(*old(self), ({ let a1 = InstructionAttr::spec_new(f, vector_len, false, false, false, true); let a2 = a1.evex_only(); let a3 = a2.with_mask(mask); (if merge { ({ let a4 = a3.merging(); vex_rr_bytes(f, a4, dst.encoding, nds.encoding, src.encoding, VEX_SIMD_66, VEX_OPCODE_0F_38) + seq![0x46, (0xC0 | rr_bits(dst.encoding, src.encoding))] }) } else { vex_rr_bytes(f, a3, dst.encoding, nds.encoding, src.encoding, VEX_SIMD_66, VEX_OPCODE_0F_38) + seq![0x46, (0xC0 | rr_bits(dst.encoding, src.encoding))] }) }))
            }),
    {
        let mut attributes = InstructionAttr::new(&self.features, vector_len, false, false, false, true);
        attributes.set_is_evex_instruction();
        attributes.set_embedded_opmask_register_specifier(mask);
        if merge {
            attributes.reset_is_clear_context();
            let encode = self.vex_prefix_and_encode(dst.encoding, nds.encoding, src.encoding, VEX_SIMD_66, VEX_OPCODE_0F_38, &mut attributes);
            self.emit_int16(0x46, (0xC0 | encode));
        } else {
            let encode = self.vex_prefix_and_encode(dst.encoding, nds.encoding, src.encoding, VEX_SIMD_66, VEX_OPCODE_0F_38, &mut attributes);
            self.emit_int16(0x46, (0xC0 | encode));
        }
    }

    /// `evpsravq dst, mask, nds, src, merge, vector_len`
    pub fn evpsravq_xkxx(&mut self, dst: XMMRegister, mask: KRegister, nds: XMMRegister, src: XMMRegister, merge: bool, vector_len: u8)
        requires
            dst.wf(),
            mask.wf(),
            nds.wf(),
            src.wf(),
            ({
                let f = old(self).features;
                (f.supports_evex()) && (((vector_len == AVX_512BIT) || f.supports_avx512vl()) && ({ let a1 = InstructionAttr::spec_new(f, vector_len, true, false, false, true); let a2 = a1.evex_only(); let a3 = a2.with_mask(mask); (if merge { ({ let a4 = a3.merging(); (vex_rr_ok(f, a4, dst.encoding, nds.encoding, src.encoding)) }) } else { (vex_rr_ok(f, a3, dst.encoding, nds.encoding, src.encoding)) }) }))
            }),
        ensures
            ({
                let f = old(self).features;
                final(self).appends(*old(self), ({ let a1 = InstructionAttr::spec_new(f, vector_len, true, false, false, true); let a2 = a1.evex_only(); let a3 = a2.with_mask(mask); (if merge { ({ let a4 = a3.merging(); vex_rr_bytes(f, a4, dst.encoding, nds.encoding, src.encoding, VEX_SIMD_66, VEX_OPCODE_0F_38) + seq![0x46, (0xC0 | rr_bits(dst.encoding, src.encoding))] }) } else { vex_rr_bytes(f, a3, dst.encoding, nds.encoding, src.encoding, VEX_SIMD_66, VEX_OPCODE_0F_38) + seq![0x46, (0xC0 | rr_bits(dst.encoding, src.encoding))] }) }))
            }),
    {
        let mut attributes = InstructionAttr::new(&self.features, vector_len, true, false, false, true);
        attributes.set_is_evex_instruction();
        attributes.set_embedded_opmask_register_specifier(mask);
        if merge {
            attributes.reset_is_clear_context();
            let encode = self.vex_prefix_and_encode(dst.encoding, nds.encoding, src.encoding, VEX_SIMD_66, VEX_OPCODE_0F_38, &mut attributes);
            self.emit_int16(0x46, (0xC0 | encode));
        } else {
            let encode = self.vex_prefix_and_encode(dst.encoding, nds.encoding, src.encoding, VEX_SIMD_66, VEX_OPCODE_0F_38, &mut attributes);
            self.emit_int16(0x46, (0xC0 | encode));
        }
    }

    /// `evpminsb dst, mask, nds, src, merge, vector_len`
    pub fn evpminsb(&mut self, dst: XMMRegister, mask: KRegister, nds: XMMRegister, src: XMMRegister, merge: bool, vector_len: u8)
        requires
            dst.wf(),
            mask.wf(),
            nds.wf(),
            src.wf(),
            ({
                let f = old(self).features;
                (f.supports_avx512bw() && ((vector_len == AVX_512BIT) || f.supports_avx512vl())) && ({ let a1 = InstructionAttr::spec_new(f, vector_len, false, false, false, true); let a2 = a1.evex_only(); let a3 = a2.with_mask(mask); (if merge { ({ let a4 = a3.merging(); (vex_rr_ok(f, a4, dst.encoding, nds.encoding, src.encoding)) }) } else { (vex_rr_ok(f, a3, dst.encoding, nds.encoding, src.encoding)) }) })
            }),
        ensures
            ({
                let f = old(self).features;
                final(self).appends(*old(self), ({ let a1 = InstructionAttr::spec_new(f, vector_len, false, false, false, true); let a2 = a1.evex_only(); let a3 = a2.with_mask(mask); (if merge { ({ let a4 = a3.merging(); vex_rr_bytes(f, a4, dst.encoding, nds.encoding, src.encoding, VEX_SIMD_66, VEX_OPCODE_0F_38) + seq![0x38, (0xC0 | rr_bits(dst.encoding, src.encoding))] }) } else { vex_rr_bytes(f, a3, dst.encoding, nds.encoding, src.encoding, VEX_SIMD_66, VEX_OPCODE_0F_38) + seq![0x38, (0xC0 | rr_bits(dst.encoding, src.encoding))] }) }))
            }),
    {
        let mut attributes = InstructionAttr::new(&self.features, vector_len, false, false, false, true);
        attributes.set_is_evex_instruction();
        attributes.set_embedded_opmask_register_specifier(mask);
        if merge {
            attributes.reset_is_clear_context();
            let encode = self.vex_prefix_and_encode(dst.encoding, nds.encoding, src.encoding, VEX_SIMD_66, VEX_OPCODE_0F_38, &mut attributes);
            self.emit_int16(0x38, (0xC0 | encode));
        } else {
            let encode = self.vex_prefix_and_encode(dst.encoding, nds.encoding, src.encoding, VEX_SIMD_66, VEX_OPCODE_0F_38, &mut attributes);
            self.emit_int16(0x38, (0xC0 | encode));
        }
    }

    /// `evpminsb dst, mask, nds, [src], merge, vector_len`
    pub fn evpminsb_xkxm(&mut self, dst: XMMRegister, mask: KRegister, nds: XMMRegister, src: Address, merge: bool, vector_len: u8)
        requires
            dst.wf(),
            mask.wf(),
            nds.wf(),
            src.wf(),
            ({
                let f = old(self).features;
                (f.supports_avx512bw()) && ({ let a1 = InstructionAttr::spec_new(f, vector_len, false, false, false, true); let a2 = a1.evex_only(); let a3 = a2.with_mask(mask); (if merge { ({ let a4 = a3.merging(); (vex_adr_ok(f, a4, nds.encoding, dst.encoding, src)) }) } else { (vex_adr_ok(f, a3, nds.encoding, dst.encoding, src)) }) })
            }),
        ensures
            ({
                let f = old(self).features;
                final(self).appends(*old(self), ({ let a1 = InstructionAttr::spec_new(f, vector_len, false, false, false, true); let a2 = a1.evex_only(); let a3 = a2.with_mask(mask); (if merge { ({ let a4 = a3.merging(); vex_adr_bytes(f, a4, src, nds.encoding, dst.encoding, VEX_SIMD_66, VEX_OPCODE_0F_38) + ({ let a5 = vex_adr_attr(f, a4, nds.encoding, dst.encoding); seq![0x38] + address_bytes(f, Some(a5), dst.encoding, src, true) }) }) } else { vex_adr_bytes(f, a3, src, nds.encoding, dst.encoding, VEX_SIMD_66, VEX_OPCODE_0F_38) + ({ let a6 = vex_adr_attr(f, a3, nds.encoding, dst.encoding); seq![0x38] + address_bytes(f, Some(a6), dst.encoding, src, true) }) }) }))
            }),
    {
        let mut attributes = InstructionAttr::new(&self.features, vector_len, false, false, false, true);
        attributes.set_is_evex_instruction();
        attributes.set_embedded_opmask_register_specifier(mask);
        if merge {
            attributes.reset_is_clear_context();
            self.vex_prefix(&src, nds.encoding, dst.encoding, VEX_SIMD_66, VEX_OPCODE_0F_38, &mut attributes);
            self.emit_int8(0x38);
            self.emit_operand_attr(dst.encoding, &src, &attributes, true);
        } else {
            self.vex_prefix(&src, nds.encoding, dst.encoding, VEX_SIMD_66, VEX_OPCODE_0F_38, &mut attributes);
            self.emit_int8(0x38);
            self.emit_operand_attr(dst.encoding, &src, &attributes, true);
        }
    }

    /// `evpminsw dst, mask, nds, src, merge, vector_len`
    pub fn evpminsw(&mut self, dst: XMMRegister, mask: KRegister, nds: XMMRegister, src: XMMRegister, merge: bool, vector_len: u8)
        requires
            dst.wf(),
            mask.wf(),
            nds.wf(),
            src.wf(),
            ({
                let f = old(self).features;
                (f.supports_avx512bw() && ((vector_len == AVX_512BIT) || f.supports_avx512vl())) && ({ let a1 = InstructionAttr::spec_new(f, vector_len, false, false, false, true); let a2 = a1.evex_only(); let a3 = a2.with_mask(mask); (if merge { ({ let a4 = a3.merging(); (vex_rr_ok(f, a4, dst.encoding, nds.encoding, src.encoding)) }) } else { (vex_rr_ok(f, a3, dst.encoding, nds.encoding, src.encoding)) }) })
            }),
        ensures
            ({
                let f = old(self).features;
                final(self).appends(*old(self), ({ let a1 = InstructionAttr::spec_new(f, vector_len, false, false, false, true); let a2 = a1.evex_only(); let a3 = a2.with_mask(mask); (if merge { ({ let a4 = a3.merging(); vex_rr_bytes(f, a4, dst.encoding, nds.encoding, src.encoding, VEX_SIMD_66, VEX_OPCODE_0F) + seq![0xEA, (0xC0 | rr_bits(dst.encoding, src.encoding))] }) } else { vex_rr_bytes(f, a3, dst.encoding, nds.encoding, src.encoding, VEX_SIMD_66, VEX_OPCODE_0F) + seq![0xEA, (0xC0 | rr_bits(dst.encoding, src.encoding))] }) }))
            }),
    {
        let mut attributes = InstructionAttr::new(&self.features, vector_len, false, false, false, true);
        attributes.set_is_evex_instruction();
        attributes.set_embedded_opmask_register_specifier(mask);
        if merge {
            attributes.reset_is_clear_context();
            let encode = self.vex_prefix_and_encode(dst.encoding, nds.encoding, src.encoding, VEX_SIMD_66, VEX_OPCODE_0F, &mut attributes);
            self.emit_int16(0xEA, (0xC0 | encode));
        } else {
            let encode = self.vex_prefix_and_encode(dst.encoding, nds.encoding, src.encoding, VEX_SIMD_66, VEX_OPCODE_0F, &mut attributes);
            self.emit_int16(0xEA, (0xC0 | encode));
        }
    }

    /// `evpminsw dst, mask, nds, [src], merge, vector_len`
    pub fn evpminsw_xkxm(&mut self, dst: XMMRegister, mask: KRegister, nds: XMMRegister, src: Address, merge: bool, vector_len: u8)
        requires
            dst.wf(),
            mask.wf(),
            nds.wf(),
            src.wf(),
            ({
                let f = old(self).features;
                (f.supports_avx512bw() && ((vector_len == AVX_512BIT) || f.supports_avx512vl())) && ({ let a1 = InstructionAttr::spec_new(f, vector_len, false, false, false, true); let a2 = a1.evex_only(); let a3 = a2.with_mask(mask); (if merge { ({ let a4 = a3.merging(); (vex_adr_ok(f, a4, nds.encoding, dst.encoding, src)) }) } else { (vex_adr_ok(f, a3, nds.encoding, dst.encoding, src)) }) })
            }),
        ensures
            ({
                let f = old(self).features;
                final(self).appends(*old(self), ({ let a1 = InstructionAttr::spec_new(f, vector_len, false, false, false, true); let a2 = a1.evex_only(); let a3 = a2.with_mask(mask); (if merge { ({ let a4 = a3.merging(); vex_adr_bytes(f, a4, src, nds.encoding, dst.encoding, VEX_SIMD_66, VEX_OPCODE_0F) + ({ let a5 = vex_adr_attr(f, a4, nds.encoding, dst.encoding); seq![0xEA] + address_bytes(f, Some(a5), dst.encoding, src, true) }) }) } else { vex_adr_bytes(f, a3, src, nds.encoding, dst.encoding, VEX_SIMD_66, VEX_OPCODE_0F) + ({ let a6 = vex_adr_attr(f, a3, nds.encoding, dst.encoding); seq![0xEA] + address_bytes(f, Some(a6), dst.encoding, src, true) }) }) }))
            }),
    {
        let mut attributes = InstructionAttr::new(&self.features, vector_len, false, false, false, true);
        attributes.set_is_evex_instruction();
        attributes.set_embedded_opmask_register_specifier(mask);
        if merge {
            attributes.reset_is_clear_context();
            self.vex_prefix(&src, nds.encoding, dst.encoding, VEX_SIMD_66, VEX_OPCODE_0F, &mut attributes);
            self.emit_int8(0xEA);
            self.emit_operand_attr(dst.encoding, &src, &attributes, true);
        } else {
            self.vex_prefix(&src, nds.encoding, dst.encoding, VEX_SIMD_66, VEX_OPCODE_0F, &mut attributes);
            self.emit_int8(0xEA);
            self.emit_operand_attr(dst.encoding, &src, &attributes, true);
        }
    }

    /// `evpminsd dst, mask, nds, src, merge, vector_len`
    pub fn evpminsd(&mut self, dst: XMMRegister, mask: KRegister, nds: XMMRegister, src: XMMRegister, merge: bool, vector_len: u8)
        requires
            dst.wf(),
            mask.wf(),
            nds.wf(),
            src.wf(),
            ({
                let f = old(self).features;
                (f.supports_evex()) && (((vector_len == AVX_512BIT) || f.supports_avx512vl()) && ({ let a1 = InstructionAttr::spec_new(f, vector_len, false, false, false, true); let a2 = a1.evex_only(); let a3 = a2.with_mask(mask); (if merge { ({ let a4 = a3.merging(); (vex_rr_ok(f, a4, dst.encoding, nds.encoding, src.encoding)) }) } else { (vex_rr_ok(f, a3, dst.encoding, nds.encoding, src.encoding)) }) }))
            }),
        ensures
            ({
                let f = old(self).features;
                final(self).appends(*old(self), ({ let a1 = InstructionAttr::spec_new(f, vector_len, false, false, false, true); let a2 = a1.evex_only(); let a3 = a2.with_mask(mask); (if merge { ({ let a4 = a3.merging(); vex_rr_bytes(f, a4, dst.encoding, nds.encoding, src.encoding, VEX_SIMD_66, VEX_OPCODE_0F_38) + seq![0x39, (0xC0 | rr_bits(dst.encoding, src.encoding))] }) } else { vex_rr_bytes(f, a3, dst.encoding, nds.encoding, src.encoding, VEX_SIMD_66, VEX_OPCODE_0F_38) + seq![0x39, (0xC0 | rr_bits(dst.encoding, src.encoding))] }) }))
            }),
    {
        let mut attributes = InstructionAttr::new(&self.features, vector_len, false, false, false, true);
        attributes.set_is_evex_instruction();
        attributes.set_embedded_opmask_register_specifier(mask);
        if merge {
            attributes.reset_is_clear_context();
            let encode = self.vex_prefix_and_encode(dst.encoding, nds.encoding, src.encoding, VEX_SIMD_66, VEX_OPCODE_0F_38, &mut attributes);
            self.emit_int16(0x39, (0xC0 | encode));
        } else {
            let encode = self.vex_prefix_and_encode(dst.encoding, nds.encoding, src.encoding, VEX_SIMD_66, VEX_OPCODE_0F_38, &mut attributes);
            self.emit_int16(0x39, (0xC0 | encode));
        }
    }

    /// `evpminsd dst, mask, nds, [src], merge, vector_len`
    pub fn evpminsd_xkxm(&mut self, dst: XMMRegister, mask: KRegister, nds: XMMRegister, src: Address, merge: bool, vector_len: u8)
        requires
            dst.wf(),
            mask.wf(),
            nds.wf(),
            src.wf(),
            ({
                let f = old(self).features;
                (f.supports_evex()) && (((vector_len == AVX_512BIT) || f.supports_avx512vl()) && ({ let a1 = InstructionAttr::spec_new(f, vector_len, false, false, false, true); let a2 = a1.evex_only(); let a3 = a2.with_mask(mask); (if merge { ({ let a4 = a3.merging(); (vex_adr_ok(f, a4, nds.encoding, dst.encoding, src)) }) } else { (vex_adr_ok(f, a3, nds.encoding, dst.encoding, src)) }) }))
            }),
        ensures
            ({
                let f = old(self).features;
                final(self).appends(*old(self), ({ let a1 = InstructionAttr::spec_new(f, vector_len, false, false, false, true); let a2 = a1.evex_only(); let a3 = a2.with_mask(mask); (if merge { ({ let a4 = a3.merging(); vex_adr_bytes(f, a4, src, nds.encoding, dst.encoding, VEX_SIMD_66, VEX_OPCODE_0F_38) + ({ let a5 = vex_adr_attr(f, a4, nds.encoding, dst.encoding); seq![0x39] + address_bytes(f, Some(a5), dst.encoding, src, true) }) }) } else { vex_adr_bytes(f, a3, src, nds.encoding, dst.encoding, VEX_SIMD_66, VEX_OPCODE_0F_38) + ({ let a6 = vex_adr_attr(f, a3, nds.encoding, dst.encoding); seq![0x39] + address_bytes(f, Some(a6), dst.encoding, src, true) }) }) }))
            }),
    {
        let mut attributes = InstructionAttr::new(&self.features, vector_len, false, false, false, true);
        attributes.set_is_evex_instruction();
        attributes.set_embedded_opmask_register_specifier(mask);
        if merge {
            attributes.reset_is_clear_context();
            self.vex_prefix(&src, nds.encoding, dst.encoding, VEX_SIMD_66, VEX_OPCODE_0F_38, &mut attributes);
            self.emit_int8(0x39);
            self.emit_operand_attr(dst.encoding, &src, &attributes, true);
        } else {
            self.vex_prefix(&src, nds.encoding, dst.encoding, VEX_SIMD_66, VEX_OPCODE_0F_38, &mut attributes);
            self.emit_int8(0x39);
            self.emit_operand_attr(dst.encoding, &src, &attributes, true);
        }
    }

    /// `evpminsq dst, mask, nds, src, merge, vector_len`
    pub fn evpminsq(&mut self, dst: XMMRegister, mask: KRegister, nds: XMMRegister, src: XMMRegister, merge: bool, vector_len: u8)
        requires
            dst.wf(),
            mask.wf(),
            nds.wf(),
            src.wf(),
            ({
                let f = old(self).features;
                (f.supports_evex()) && (((vector_len == AVX_512BIT) || f.supports_avx512vl()) && ({ let a1 = InstructionAttr::spec_new(f, vector_len, true, false, false, true); let a2 = a1.evex_only(); let a3 = a2.with_mask(mask); (if merge { ({ let a4 = a3.merging(); (vex_rr_ok(f, a4, dst.encoding, nds.encoding, src.encoding)) }) } else { (vex_rr_ok(f, a3, dst.encoding, nds.encoding, src.encoding)) }) }))
            }),
        ensures
            ({
                let f = old(self).features;
                final(self).appends(*old(self), ({ let a1 = InstructionAttr::spec_new(f, vector_len, true, false, false, true); let a2 = a1.evex_only(); let a3 = a2.with_mask(mask); (if merge { ({ let a4 = a3.merging(); vex_rr_bytes(f, a4, dst.encoding, nds.encoding, src.encoding, VEX_SIMD_66, VEX_OPCODE_0F_38) + seq![0x39, (0xC0 | rr_bits(dst.encoding, src.encoding))] }) } else { vex_rr_bytes(f, a3, dst.encoding, nds.encoding, src.encoding, VEX_SIMD_66, VEX_OPCODE_0F_38) + seq![0x39, (0xC0 | rr_bits(dst.encoding, src.encoding))] }) }))
            }),
    {
        let mut attributes = InstructionAttr::new(&self.features, vector_len, true, false, false, true);
        attributes.set_is_evex_instruction();
        attributes.set_embedded_opmask_register_specifier(mask);
        if merge {
            attributes.reset_is_clear_context();
            let encode = self.vex_prefix_and_encode(dst.encoding, nds.encoding, src.encoding, VEX_SIMD_66, VEX_OPCODE_0F_38, &mut attributes);
            self.emit_int16(0x39, (0xC0 | encode));
        } else {
            let encode = self.vex_prefix_and_encode(dst.encoding, nds.encoding, src.encoding, VEX_SIMD_66, VEX_OPCODE_0F_38, &mut attributes);
            self.emit_int16(0x39, (0xC0 | encode));
        }
    }

    /// `evpminsq dst, mask, nds, [src], merge, vector_len`
    pub fn evpminsq_xkxm(&mut self, dst: XMMRegister, mask: KRegister, nds: XMMRegister, src: Address, merge: bool, vector_len: u8)
        requires
            dst.wf(),
            mask.wf(),
            nds.wf(),
            src.wf(),
            ({
                let f = old(self).features;
                (f.supports_evex()) && (((vector_len == AVX_512BIT) || f.supports_avx512vl()) && ({ let a1 = InstructionAttr::spec_new(f, vector_len, true, false, false, true); let a2 = a1.evex_only(); let a3 = a2.with_mask(mask); (if merge { ({ let a4 = a3.merging(); (vex_adr_ok(f, a4, nds.encoding, dst.encoding, src)) }) } else { (vex_adr_ok(f, a3, nds.encoding, dst.encoding, src)) }) }))
            }),
        ensures
            ({
                let f = old(self).features;
                final(self).appends(*old(self), ({ let a1 = InstructionAttr::spec_new(f, vector_len, true, false, false, true); let a2 = a1.evex_only(); let a3 = a2.with_mask(mask); (if merge { ({ let a4 = a3.merging(); vex_adr_bytes(f, a4, src, nds.encoding, dst.encoding, VEX_SIMD_66, VEX_OPCODE_0F_38) + ({ let a5 = vex_adr_attr(f, a4, nds.encoding, dst.encoding); seq![0x39] + address_bytes(f, Some(a5), dst.encoding, src, true) }) }) } else { vex_adr_bytes(f, a3, src, nds.encoding, dst.encoding, VEX_SIMD_66, VEX_OPCODE_0F_38) + ({ let a6 = vex_adr_attr(f, a3, nds.encoding, dst.encoding); seq![0x39] + address_bytes(f, Some(a6), dst.encoding, src, true) }) }) }))
            }),
    {
        let mut attributes = InstructionAttr::new(&self.features, vector_len, true, false, false, true);
        attributes.set_is_evex_instruction();
        attributes.set_embedded_opmask_register_specifier(mask);
        if merge {
            attributes.reset_is_clear_context();
            self.vex_prefix(&src, nds.encoding, dst.encoding, VEX_SIMD_66, VEX_OPCODE_0F_38, &mut attributes);
            self.emit_int8(0x39);
            self.emit_operand_attr(dst.encoding, &src, &attributes, true);
        } else {
            self.vex_prefix(&src, nds.encoding, dst.encoding, VEX_SIMD_66, VEX_OPCODE_0F_38, &mut attributes);
            self.emit_int8(0x39);
            self.emit_operand_attr(dst.encoding, &src, &attributes, true);
        }
    }

    /// `evpmaxsb dst, mask, nds, src, merge, vector_len`
    pub fn evpmaxsb(&mut self, dst: XMMRegister, mask: KRegister, nds: XMMRegister, src: XMMRegister, merge: bool, vector_len: u8)
        requires
            dst.wf(),
            mask.wf(),
            nds.wf(),
            src.wf(),
            ({
                let f = old(self).features;
                (f.supports_avx512bw() && ((vector_len == AVX_512BIT) || f.supports_avx512vl())) && ({ let a1 = InstructionAttr::spec_new(f, vector_len, false, false, false, true); let a2 = a1.evex_only(); let a3 = a2.with_mask(mask); (if merge { ({ let a4 = a3.merging(); (vex_rr_ok(f, a4, dst.encoding, nds.encoding, src.encoding)) }) } else { (vex_rr_ok(f, a3, dst.encoding, nds.encoding, src.encoding)) }) })
            }),
        ensures
            ({
                let f = old(self).features;
                final(self).appends(*old(self), ({ let a1 = InstructionAttr::spec_new(f, vector_len, false, false, false, true); let a2 = a1.evex_only(); let a3 = a2.with_mask(mask); (if merge { ({ let a4 = a3.merging(); vex_rr_bytes(f, a4, dst.encoding, nds.encoding, src.encoding, VEX_SIMD_66, VEX_OPCODE_0F_38) + seq![0x3C, (0xC0 | rr_bits(dst.encoding, src.encoding))] }) } else { vex_rr_bytes(f, a3, dst.encoding, nds.encoding, src.encoding, VEX_SIMD_66, VEX_OPCODE_0F_38) + seq![0x3C, (0xC0 | rr_bits(dst.encoding, src.encoding))] }) }))
            }),
    {
        let mut attributes = InstructionAttr::new(&self.features, vector_len, false, false, false, true);
        attributes.set_is_evex_instruction();
        attributes.set_embedded_opmask_register_specifier(mask);
        if merge {
            attributes.reset_is_clear_context();
            let encode = self.vex_prefix_and_encode(dst.encoding, nds.encoding, src.encoding, VEX_SIMD_66, VEX_OPCODE_0F_38, &mut attributes);
            self.emit_int16(0x3C, (0xC0 | encode));
        } else {
            let encode = self.vex_prefix_and_encode(dst.encoding, nds.encoding, src.encoding, VEX_SIMD_66, VEX_OPCODE_0F_38, &mut attributes);
            self.emit_int16(0x3C, (0xC0 | encode));
        }
    }

    /// `evpmaxsb dst, mask, nds, [src], merge, vector_len`
    pub fn evpmaxsb_xkxm(&mut self, dst: XMMRegister, mask: KRegister, nds: XMMRegister, src: Address, merge: bool, vector_len: u8)
        requires
            dst.wf(),
            mask.wf(),
            nds.wf(),
            src.wf(),
            ({
                let f = old(self).features;
                (f.supports_avx512bw() && ((vector_len == AVX_512BIT) || f.supports_avx512vl())) && ({ let a1 = InstructionAttr::spec_new(f, vector_len, false, false, false, true); let a2 = a1.evex_only(); let a3 = a2.with_mask(mask); (if merge { ({ let a4 = a3.merging(); (vex_adr_ok(f, a4, nds.encoding, dst.encoding, src)) }) } else { (vex_adr_ok(f, a3, nds.encoding, dst.encoding, src)) }) })
            }),
        ensures
            ({
                let f = old(self).features;
                final(self).appends(*old(self), ({ let a1 = InstructionAttr::spec_new(f, vector_len, false, false, false, true); let a2 = a1.evex_only(); let a3 = a2.with_mask(mask); (if merge { ({ let a4 = a3.merging(); vex_adr_bytes(f, a4, src, nds.encoding, dst.encoding, VEX_SIMD_66, VEX_OPCODE_0F_38) + ({ let a5 = vex_adr_attr(f, a4, nds.encoding, dst.encoding); seq![0x3C] + address_bytes(f, Some(a5), dst.encoding, src, true) }) }) } else { vex_adr_bytes(f, a3, src, nds.encoding, dst.encoding, VEX_SIMD_66, VEX_OPCODE_0F_38) + ({ let a6 = vex_adr_attr(f, a3, nds.encoding, dst.encoding); seq![0x3C] + address_bytes(f, Some(a6), dst.encoding, src, true) }) }) }))
            }),
    {
        let mut attributes = InstructionAttr::new(&self.features, vector_len, false, false, false, true);
        attributes.set_is_evex_instruction();
        attributes.set_embedded_opmask_register_specifier(mask);
        if merge {
            attributes.reset_is_clear_context();
            self.vex_prefix(&src, nds.encoding, dst.encoding, VEX_SIMD_66, VEX_OPCODE_0F_38, &mut attributes);
            self.emit_int8(0x3C);
            self.emit_operand_attr(dst.encoding, &src, &attributes, true);
        } else {
            self.vex_prefix(&src, nds.encoding, dst.encoding, VEX_SIMD_66, VEX_OPCODE_0F_38, &mut attributes);
            self.emit_int8(0x3C);
            self.emit_operand_attr(dst.encoding, &src, &attributes, true);
        }
    }

    /// `evpmaxsw dst, mask, nds, src, merge, vector_len`
    pub fn evpmaxsw(&mut self, dst: XMMRegister, mask: KRegister, nds: XMMRegister, src: XMMRegister, merge: bool, vector_len: u8)
        requires
            dst.wf(),
            mask.wf(),
            nds.wf(),
            src.wf(),
            ({
                let f = old(self).features;
                (f.supports_avx512bw() && ((vector_len == AVX_512BIT) || f.supports_avx512vl())) && ({ let a1 = InstructionAttr::spec_new(f, vector_len, false, false, false, true); let a2 = a1.evex_only(); let a3 = a2.with_mask(mask); (if merge { ({ let a4 = a3.merging(); (vex_rr_ok(f, a4, dst.encoding, nds.encoding, src.encoding)) }) } else { (vex_rr_ok(f, a3, dst.encoding, nds.encoding, src.encoding)) }) })
            }),
        ensures
            ({
                let f = old(self).features;
                final(self).appends(*old(self), ({ let a1 = InstructionAttr::spec_new(f, vector_len, false, false, false, true); let a2 = a1.evex_only(); let a3 = a2.with_mask(mask); (if merge { ({ let a4 = a3.merging(); vex_rr_bytes(f, a4, dst.encoding, nds.encoding, src.encoding, VEX_SIMD_66, VEX_OPCODE_0F) + seq![0xEE, (0xC0 | rr_bits(dst.encoding, src.encoding))] }) } else { vex_rr_bytes(f, a3, dst.encoding, nds.encoding, src.encoding, VEX_SIMD_66, VEX_OPCODE_0F) + seq![0xEE, (0xC0 | rr_bits(dst.encoding, src.encoding))] }) }))
            }),
    {
        let mut attributes = InstructionAttr::new(&self.features, vector_len, false, false, false, true);
        attributes.set_is_evex_instruction();
        attributes.set_embedded_opmask_register_specifier(mask);
        if merge {
            attributes.reset_is_clear_context();
            let encode = self.vex_prefix_and_encode(dst.encoding, nds.encoding, src.encoding, VEX_SIMD_66, VEX_OPCODE_0F, &mut attributes);
            self.emit_int16(0xEE, (0xC0 | encode));
        } else {
            let encode = self.vex_prefix_and_encode(dst.encoding, nds.encoding, src.encoding, VEX_SIMD_66, VEX_OPCODE_0F, &mut attributes);
            self.emit_int16(0xEE, (0xC0 | encode));
        }
    }

    /// `evpmaxsw dst, mask, nds, [src], merge, vector_len`
    pub fn evpmaxsw_xkxm(&mut self, dst: XMMRegister, mask: KRegister, nds: XMMRegister, src: Address, merge: bool, vector_len: u8)
        requires
            dst.wf(),
            mask.wf(),
            nds.wf(),
            src.wf(),
            ({
                let f = old(self).features;
                (f.supports_avx512bw() && ((vector_len == AVX_512BIT) || f.supports_avx512vl())) && ({ let a1 = InstructionAttr::spec_new(f, vector_len, false, false, false, true); let a2 = a1.evex_only(); let a3 = a2.with_mask(mask); (if merge { ({ let a4 = a3.merging(); (vex_adr_ok(f, a4, nds.encoding, dst.encoding, src)) }) } else { (vex_adr_ok(f, a3, nds.encoding, dst.encoding, src)) }) })
            }),
        ensures
            ({
                let f = old(self).features;
                final(self).appends(*old(self), ({ let a1 = InstructionAttr::spec_new(f, vector_len, false, false, false, true); let a2 = a1.evex_only(); let a3 = a2.with_mask(mask); (if merge { ({ let a4 = a3.merging(); vex_adr_bytes(f, a4, src, nds.encoding, dst.encoding, VEX_SIMD_66, VEX_OPCODE_0F) + ({ let a5 = vex_adr_attr(f, a4, nds.encoding, dst.encoding); seq![0xEE] + address_bytes(f, Some(a5), dst.encoding, src, true) }) }) } else { vex_adr_bytes(f, a3, src, nds.encoding, dst.encoding, VEX_SIMD_66, VEX_OPCODE_0F) + ({ let a6 = vex_adr_attr(f, a3, nds.encoding, dst.encoding); seq![0xEE] + address_bytes(f, Some(a6), dst.encoding, src, true) }) }) }))
            }),
    {
        let mut attributes = InstructionAttr::new(&self.features, vector_len, false, false, false, true);
        attributes.set_is_evex_instruction();
        attributes.set_embedded_opmask_register_specifier(mask);
        if merge {
            attributes.reset_is_clear_context();
            self.vex_prefix(&src, nds.encoding, dst.encoding, VEX_SIMD_66, VEX_OPCODE_0F, &mut attributes);
            self.emit_int8(0xEE);
            self.emit_operand_attr(dst.encoding, &src, &attributes, true);
        } else {
            self.vex_prefix(&src, nds.encoding, dst.encoding, VEX_SIMD_66, VEX_OPCODE_0F, &mut attributes);
            self.emit_int8(0xEE);
            self.emit_operand_attr(dst.encoding, &src, &attributes, true);
        }
    }

    /// `evpmaxsd dst, mask, nds, src, merge, vector_len`
    pub fn evpmaxsd(&mut self, dst: XMMRegister, mask: KRegister, nds: XMMRegister, src: XMMRegister, merge: bool, vector_len: u8)
        requires
            dst.wf(),
            mask.wf(),
            nds.wf(),
            src.wf(),
            ({
                let f = old(self).features;
                (f.supports_evex()) && (((vector_len == AVX_512BIT) || f.supports_avx512vl()) && ({ let a1 = InstructionAttr::spec_new(f, vector_len, false, false, false, true); let a2 = a1.evex_only(); let a3 = a2.with_mask(mask); (if merge { ({ let a4 = a3.merging(); (vex_rr_ok(f, a4, dst.encoding, nds.encoding, src.encoding)) }) } else { (vex_rr_ok(f, a3, dst.encoding, nds.encoding, src.encoding)) }) }))
            }),
        ensures
            ({
                let f = old(self).features;
                final(self).appends(*old(self), ({ let a1 = InstructionAttr::spec_new(f, vector_len, false, false, false, true); let a2 = a1.evex_only(); let a3 = a2.with_mask(mask); (if merge { ({ let a4 = a3.merging(); vex_rr_bytes(f, a4, dst.encoding, nds.encoding, src.encoding, VEX_SIMD_66, VEX_OPCODE_0F_38) + seq![0x3D, (0xC0 | rr_bits(dst.encoding, src.encoding))] }) } else { vex_rr_bytes(f, a3, dst.encoding, nds.encoding, src.encoding, VEX_SIMD_66, VEX_OPCODE_0F_38) + seq![0x3D, (0xC0 | rr_bits(dst.encoding, src.encoding))] }) }))
            }),
    {
        let mut attributes = InstructionAttr::new(&self.features, vector_len, false, false, false, true);
        attributes.set_is_evex_instruction();
        attributes.set_embedded_opmask_register_specifier(mask);
        if merge {
            attributes.reset_is_clear_context();
            let encode = self.vex_prefix_and_encode(dst.encoding, nds.encoding, src.encoding, VEX_SIMD_66, VEX_OPCODE_0F_38, &mut attributes);
            self.emit_int16(0x3D, (0xC0 | encode));
        } else {
            let encode = self.vex_prefix_and_encode(dst.encoding, nds.encoding, src.encoding, VEX_SIMD_66, VEX_OPCODE_0F_38, &mut attributes);
            self.emit_int16(0x3D, (0xC0 | encode));
        }
    }

    /// `evpmaxsd dst, mask, nds, [src], merge, vector_len`
    pub fn evpmaxsd_xkxm(&mut self, dst: XMMRegister, mask: KRegister, nds: XMMRegister, src: Address, merge: bool, vector_len: u8)
        requires
            dst.wf(),
            mask.wf(),
            nds.wf(),
            src.wf(),
            ({
                let f = old(self).features;
                (f.supports_evex()) && (((vector_len == AVX_512BIT) || f.supports_avx512vl()) && ({ let a1 = InstructionAttr::spec_new(f, vector_len, false, false, false, true); let a2 = a1.evex_only(); let a3 = a2.with_mask(mask); (if merge { ({ let a4 = a3.merging(); (vex_adr_ok(f, a4, nds.encoding, dst.encoding, src)) }) } else { (vex_adr_ok(f, a3, nds.encoding, dst.encoding, src)) }) }))
            }),
        ensures
            ({
                let f = old(self).features;
                final(self).appends(*old(self), ({ let a1 = InstructionAttr::spec_new(f, vector_len, false, false, false, true); let a2 = a1.evex_only(); let a3 = a2.with_mask(mask); (if merge { ({ let a4 = a3.merging(); vex_adr_bytes(f, a4, src, nds.encoding, dst.encoding, VEX_SIMD_66, VEX_OPCODE_0F_38) + ({ let a5 = vex_adr_attr(f, a4, nds.encoding, dst.encoding); seq![0x3D] + address_bytes(f, Some(a5), dst.encoding, src, true) }) }) } else { vex_adr_bytes(f, a3, src, nds.encoding, dst.encoding, VEX_SIMD_66, VEX_OPCODE_0F_38) + ({ let a6 = vex_adr_attr(f, a3, nds.encoding, dst.encoding); seq![0x3D] + address_bytes(f, Some(a6), dst.encoding, src, true) }) }) }))
            }),
    {
        let mut attributes = InstructionAttr::new(&self.features, vector_len, false, false, false, true);
        attributes.set_is_evex_instruction();
        attributes.set_embedded_opmask_register_specifier(mask);
        if merge {
            attributes.reset_is_clear_context();
            self.vex_prefix(&src, nds.encoding, dst.encoding, VEX_SIMD_66, VEX_OPCODE_0F_38, &mut attributes);
            self.emit_int8(0x3D);
            self.emit_operand_attr(dst.encoding, &src, &attributes, true);
        } else {
            self.vex_prefix(&src, nds.encoding, dst.encoding, VEX_SIMD_66, VEX_OPCODE_0F_38, &mut attributes);
            self.emit_int8(0x3D);
            self.emit_operand_attr(dst.encoding, &src, &attributes, true);
        }
    }

    /// `evpmaxsq dst, mask, nds, src, merge, vector_len`
    pub fn evpmaxsq(&mut self, dst: XMMRegister, mask: KRegister, nds: XMMRegister, src: XMMRegister, merge: bool, vector_len: u8)
        requires
            dst.wf(),
            mask.wf(),
            nds.wf(),
            src.wf(),
            ({
                let f = old(self).features;
                (f.supports_evex()) && (((vector_len == AVX_512BIT) || f.supports_avx512vl()) && ({ let a1 = InstructionAttr::spec_new(f, vector_len, true, false, false, true); let a2 = a1.evex_only(); let a3 = a2.with_mask(mask); (if merge { ({ let a4 = a3.merging(); (vex_rr_ok(f, a4, dst.encoding, nds.encoding, src.encoding)) }) } else { (vex_rr_ok(f, a3, dst.encoding, nds.encoding, src.encoding)) }) }))
            }),
        ensures
            ({
                let f = old(self).features;
                final(self).appends(*old(self), ({ let a1 = InstructionAttr::spec_new(f, vector_len, true, false, false, true); let a2 = a1.evex_only(); let a3 = a2.with_mask(mask); (if merge { ({ let a4 = a3.merging(); vex_rr_bytes(f, a4, dst.encoding, nds.encoding, src.encoding, VEX_SIMD_66, VEX_OPCODE_0F_38) + seq![0x3D, (0xC0 | rr_bits(dst.encoding, src.encoding))] }) } else { vex_rr_bytes(f, a3, dst.encoding, nds.encoding, src.encoding, VEX_SIMD_66, VEX_OPCODE_0F_38) + seq![0x3D, (0xC0 | rr_bits(dst.encoding, src.encoding))] }) }))
            }),
    {
        let mut attributes = InstructionAttr::new(&self.features, vector_len, true, false, false, true);
        attributes.set_is_evex_instruction();
        attributes.set_embedded_opmask_register_specifier(mask);
        if merge {
            attributes.reset_is_clear_context();
            let encode = self.vex_prefix_and_encode(dst.encoding, nds.encoding, src.encoding, VEX_SIMD_66, VEX_OPCODE_0F_38, &mut attributes);
            self.emit_int16(0x3D, (0xC0 | encode));
        } else {
            let encode = self.vex_prefix_and_encode(dst.encoding, nds.encoding, src.encoding, VEX_SIMD_66, VEX_OPCODE_0F_38, &mut attributes);
            self.emit_int16(0x3D, (0xC0 | encode));
        }
    }

    /// `evpmaxsq dst, mask, nds, [src], merge, vector_len`
    pub fn evpmaxsq_xkxm(&mut self, dst: XMMRegister, mask: KRegister, nds: XMMRegister, src: Address, merge: bool, vector_len: u8)
        requires
            dst.wf(),
            mask.wf(),
            nds.wf(),
            src.wf(),
            ({
                let f = old(self).features;
                (f.supports_evex()) && (((vector_len == AVX_512BIT) || f.supports_avx512vl()) && ({ let a1 = InstructionAttr::spec_new(f, vector_len, true, false, false, true); let a2 = a1.evex_only(); let a3 = a2.with_mask(mask); (if merge { ({ let a4 = a3.merging(); (vex_adr_ok(f, a4, nds.encoding, dst.encoding, src)) }) } else { (vex_adr_ok(f, a3, nds.encoding, dst.encoding, src)) }) }))
            }),
        ensures
            ({
                let f = old(self).features;
                final(self).appends(*old(self), ({ let a1 = InstructionAttr::spec_new(f, vector_len, true, false, false, true); let a2 = a1.evex_only(); let a3 = a2.with_mask(mask); (if merge { ({ let a4 = a3.merging(); vex_adr_bytes(f, a4, src, nds.encoding, dst.encoding, VEX_SIMD_66, VEX_OPCODE_0F_38) + ({ let a5 = vex_adr_attr(f, a4, nds.encoding, dst.encoding); seq![0x3D] + address_bytes(f, Some(a5), dst.encoding, src, true) }) }) } else { vex_adr_bytes(f, a3, src, nds.encoding, dst.encoding, VEX_SIMD_66, VEX_OPCODE_0F_38) + ({ let a6 = vex_adr_attr(f, a3, nds.encoding, dst.encoding); seq![0x3D] + address_bytes(f, Some(a6), dst.encoding, src, true) }) }) }))
            }),
    {
        let mut attributes = InstructionAttr::new(&self.features, vector_len, true, false, false, true);
        attributes.set_is_evex_instruction();
        attributes.set_embedded_opmask_register_specifier(mask);
        if merge {
            attributes.reset_is_clear_context();
            self.vex_prefix(&src, nds.encoding, dst.encoding, VEX_SIMD_66, VEX_OPCODE_0F_38, &mut attributes);
            self.emit_int8(0x3D);
            self.emit_operand_attr(dst.encoding, &src, &attributes, true);
        } else {
            self.vex_prefix(&src, nds.encoding, dst.encoding, VEX_SIMD_66, VEX_OPCODE_0F_38, &mut attributes);
            self.emit_int8(0x3D);
            self.emit_operand_attr(dst.encoding, &src, &attributes, true);
        }
    }

    /// `evpternlogd dst, imm8, mask, src2, src3, merge, vector_len`
    pub fn evpternlogd(&mut self, dst: XMMRegister, imm8: i8, mask: KRegister, src2: XMMRegister, src3: XMMRegister, merge: bool, vector_len: u8)
        requires
            dst.wf(),
            mask.wf(),
            src2.wf(),
            src3.wf(),
            ({
                let f = old(self).features;
                (f.supports_evex()) && (((vector_len == AVX_512BIT) || f.supports_avx512vl()) && ({ let a1 = InstructionAttr::spec_new(f, vector_len, false, false, false, true); let a2 = a1.evex_only(); let a3 = a2.with_mask(mask); (if merge { ({ let a4 = a3.merging(); (vex_rr_ok(f, a4, dst.encoding, src2.encoding, src3.encoding)) }) } else { (vex_rr_ok(f, a3, dst.encoding, src2.encoding, src3.encoding)) }) }))
            }),
        ensures
            ({
                let f = old(self).features;
                final(self).appends(*old(self), ({ let a1 = InstructionAttr::spec_new(f, vector_len, false, false, false, true); let a2 = a1.evex_only(); let a3 = a2.with_mask(mask); (if merge { ({ let a4 = a3.merging(); vex_rr_bytes(f, a4, dst.encoding, src2.encoding, src3.encoding, VEX_SIMD_66, VEX_OPCODE_0F_3A) + seq![0x25, (0xC0 | rr_bits(dst.encoding, src3.encoding)), imm_byte(imm8)] }) } else { vex_rr_bytes(f, a3, dst.encoding, src2.encoding, src3.encoding, VEX_SIMD_66, VEX_OPCODE_0F_3A) + seq![0x25, (0xC0 | rr_bits(dst.encoding, src3.encoding)), imm_byte(imm8)] }) }))
            }),
    {
        let mut attributes = InstructionAttr::new(&self.features, vector_len, false, false, false, true);
        attributes.set_is_evex_instruction();
        attributes.set_embedded_opmask_register_specifier(mask);
        if merge {
            attributes.reset_is_clear_context();
            let encode = self.vex_prefix_and_encode(dst.encoding, src2.encoding, src3.encoding, VEX_SIMD_66, VEX_OPCODE_0F_3A, &mut attributes);
            self.emit_int24(0x25, (0xC0 | encode), imm_byte_exec(imm8));
        } else {
            let encode = self.vex_prefix_and_encode(dst.encoding, src2.encoding, src3.encoding, VEX_SIMD_66, VEX_OPCODE_0F_3A, &mut attributes);
            self.emit_int24(0x25, (0xC0 | encode), imm_byte_exec(imm8));
        }
    }

    /// `evpternlogd dst, imm8, mask, src2, [src3], merge, vector_len`
    pub fn evpternlogd_xikxm(&mut self, dst: XMMRegister, imm8: i8, mask: KRegister, src2: XMMRegister, src3: Address, merge: bool, vector_len: u8)
        requires
            dst.wf(),
            mask.wf(),
            src2.wf(),
            src3.wf(),
            ({
                let f = old(self).features;
                (f.supports_evex()) && (((vector_len == AVX_512BIT) || f.supports_avx512vl()) && ({ let a1 = InstructionAttr::spec_new(f, vector_len, false, false, false, true); let a2 = a1.evex_only(); let a3 = a2.with_mask(mask); let a4 = a3.with_address(f, EVEX_FV, EVEX_64BIT); (if merge { ({ let a5 = a4.merging(); (vex_adr_ok(f, a5, src2.encoding, dst.encoding, src3)) }) } else { (vex_adr_ok(f, a4, src2.encoding, dst.encoding, src3)) }) }))
            }),
        ensures
            ({
                let f = old(self).features;
                final(self).appends(*old(self), ({ let a1 = InstructionAttr::spec_new(f, vector_len, false, false, false, true); let a2 = a1.evex_only(); let a3 = a2.with_mask(mask); let a4 = a3.with_address(f, EVEX_FV, EVEX_64BIT); (if merge { ({ let a5 = a4.merging(); vex_adr_bytes(f, a5, src3, src2.encoding, dst.encoding, VEX_SIMD_66, VEX_OPCODE_0F_3A) + ({ let a6 = vex_adr_attr(f, a5, src2.encoding, dst.encoding); seq![0x25] + address_bytes(f, Some(a6), dst.encoding, src3, true) + seq![imm_byte(imm8)] }) }) } else { vex_adr_bytes(f, a4, src3, src2.encoding, dst.encoding, VEX_SIMD_66, VEX_OPCODE_0F_3A) + ({ let a7 = vex_adr_attr(f, a4, src2.encoding, dst.encoding); seq![0x25] + address_bytes(f, Some(a7), dst.encoding, src3, true) + seq![imm_byte(imm8)] }) }) }))
            }),
    {
        let mut attributes = InstructionAttr::new(&self.features, vector_len, false, false, false, true);
        attributes.set_is_evex_instruction();
        attributes.set_embedded_opmask_register_specifier(mask);
        attributes.set_address_attributes(&self.features, EVEX_FV, EVEX_64BIT);
        if merge {
            attributes.reset_is_clear_context();
            self.vex_prefix(&src3, src2.encoding, dst.encoding, VEX_SIMD_66, VEX_OPCODE_0F_3A, &mut attributes);
            self.emit_int8(0x25);
            self.emit_operand_attr(dst.encoding, &src3, &attributes, true);
            self.emit_int8(imm_byte_exec(imm8));
        } else {
            self.vex_prefix(&src3, src2.encoding, dst.encoding, VEX_SIMD_66, VEX_OPCODE_0F_3A, &mut attributes);
            self.emit_int8(0x25);
            self.emit_operand_attr(dst.encoding, &src3, &attributes, true);
            self.emit_int8(imm_byte_exec(imm8));
        }
    }

    /// `evpternlogq dst, imm8, mask, src2, src3, merge, vector_len`
    pub fn evpternlogq(&mut self, dst: XMMRegister, imm8: i8, mask: KRegister, src2: XMMRegister, src3: XMMRegister, merge: bool, vector_len: u8)
        requires
            dst.wf(),
            mask.wf(),
            src2.wf(),
            src3.wf(),
            ({
                let f = old(self).features;
                (f.supports_evex()) && (((vector_len == AVX_512BIT) || f.supports_avx512vl()) && ({ let a1 = InstructionAttr::spec_new(f, vector_len, true, false, false, true); let a2 = a1.evex_only(); let a3 = a2.with_mask(mask); (if merge { ({ let a4 = a3.merging(); (vex_rr_ok(f, a4, dst.encoding, src2.encoding, src3.encoding)) }) } else { (vex_rr_ok(f, a3, dst.encoding, src2.encoding, src3.encoding)) }) }))
            }),
        ensures
            ({
                let f = old(self).features;
                final(self).appends(*old(self), ({ let a1 = InstructionAttr::spec_new(f, vector_len, true, false, false, true); let a2 = a1.evex_only(); let a3 = a2.with_mask(mask); (if merge { ({ let a4 = a3.merging(); vex_rr_bytes(f, a4, dst.encoding, src2.encoding, src3.encoding, VEX_SIMD_66, VEX_OPCODE_0F_3A) + seq![0x25, (0xC0 | rr_bits(dst.encoding, src3.encoding)), imm_byte(imm8)] }) } else { vex_rr_bytes(f, a3, dst.encoding, src2.encoding, src3.encoding, VEX_SIMD_66, VEX_OPCODE_0F_3A) + seq![0x25, (0xC0 | rr_bits(dst.encoding, src3.encoding)), imm_byte(imm8)] }) }))
            }),
    {
        let mut attributes = InstructionAttr::new(&self.features, vector_len, true, false, false, true);
        attributes.set_is_evex_instruction();
        attributes.set_embedded_opmask_register_specifier(mask);
        if merge {
            attributes.reset_is_clear_context();
            let encode = self.vex_prefix_and_encode(dst.encoding, src2.encoding, src3.encoding, VEX_SIMD_66, VEX_OPCODE_0F_3A, &mut attributes);
            self.emit_int24(0x25, (0xC0 | encode), imm_byte_exec(imm8));
        } else {
            let encode = self.vex_prefix_and_encode(dst.encoding, src2.encoding, src3.encoding, VEX_SIMD_66, VEX_OPCODE_0F_3A, &mut attributes);
            self.emit_int24(0x25, (0xC0 | encode), imm_byte_exec(imm8));
        }
    }

    /// `evpternlogq dst, imm8, mask, src2, [src3], merge, vector_len`
    pub fn evpternlogq_xikxm(&mut self, dst: XMMRegister, imm8: i8, mask: KRegister, src2: XMMRegister, src3: Address, merge: bool, vector_len: u8)
        requires
            dst.wf(),
            mask.wf(),
            src2.wf(),
            src3.wf(),
            ({
                let f = old(self).features;
                (f.supports_evex()) && (((vector_len == AVX_512BIT) || f.supports_avx512vl()) && ({ let a1 = InstructionAttr::spec_new(f, vector_len, true, false, false, true); let a2 = a1.evex_only(); let a3 = a2.with_mask(mask); let a4 = a3.with_address(f, EVEX_FV, EVEX_64BIT); (if merge { ({ let a5 = a4.merging(); (vex_adr_ok(f, a5, src2.encoding, dst.encoding, src3)) }) } else { (vex_adr_ok(f, a4, src2.encoding, dst.encoding, src3)) }) }))
            }),
        ensures
            ({
                let f = old(self).features;
                final(self).appends(*old(self), ({ let a1 = InstructionAttr::spec_new(f, vector_len, true, false, false, true); let a2 = a1.evex_only(); let a3 = a2.with_mask(mask); let a4 = a3.with_address(f, EVEX_FV, EVEX_64BIT); (if merge { ({ let a5 = a4.merging(); vex_adr_bytes(f, a5, src3, src2.encoding, dst.encoding, VEX_SIMD_66, VEX_OPCODE_0F_3A) + ({ let a6 = vex_adr_attr(f, a5, src2.encoding, dst.encoding); seq![0x25] + address_bytes(f, Some(a6), dst.encoding, src3, true) + seq![imm_byte(imm8)] }) }) } else { vex_adr_bytes(f, a4, src3, src2.encoding, dst.encoding, VEX_SIMD_66, VEX_OPCODE_0F_3A) + ({ let a7 = vex_adr_attr(f, a4, src2.encoding, dst.encoding); seq![0x25] + address_bytes(f, Some(a7), dst.encoding, src3, true) + seq![imm_byte(imm8)] }) }) }))
            }),
    {
        let mut attributes = InstructionAttr::new(&self.features, vector_len, true, false, false, true);
        attributes.set_is_evex_instruction();
        attributes.set_embedded_opmask_register_specifier(mask);
        attributes.set_address_attributes(&self.features, EVEX_FV, EVEX_64BIT);
        if merge {
            attributes.reset_is_clear_context();
            self.vex_prefix(&src3, src2.encoding, dst.encoding, VEX_SIMD_66, VEX_OPCODE_0F_3A, &mut attributes);
            self.emit_int8(0x25);
            self.emit_operand_attr(dst.encoding, &src3, &attributes, true);
            self.emit_int8(imm_byte_exec(imm8));
        } else {
            self.vex_prefix(&src3, src2.encoding, dst.encoding, VEX_SIMD_66, VEX_OPCODE_0F_3A, &mut attributes);
            self.emit_int8(0x25);
            self.emit_operand_attr(dst.encoding, &src3, &attributes, true);
            self.emit_int8(imm_byte_exec(imm8));
        }
    }

    /// `evbroadcasti32x4 dst, [src], vector_len`
    pub fn evbroadcasti32x4(&mut self, dst: XMMRegister, src: Address, vector_len: u8)
        requires
            dst.wf(),
            src.wf(),
            ({
                let f = old(self).features;
                (vector_len != AVX_128BIT) && ((f.supports_evex()) && ({ let a1 = InstructionAttr::spec_new(f, vector_len, false, false, true, true); let a2 = a1.reverted(); let a3 = a2.with_address(f, EVEX_T4, EVEX_32BIT); (vex_adr_ok(f, a3, 0, dst.encoding, src)) }))
            }),
        ensures
            ({
                let f = old(self).features;
                final(self).appends(*old(self), ({ let a1 = InstructionAttr::spec_new(f, vector_len, false, false, true, true); let a2 = a1.reverted(); let a3 = a2.with_address(f, EVEX_T4, EVEX_32BIT); vex_adr_bytes(f, a3, src, 0, dst.encoding, VEX_SIMD_66, VEX_OPCODE_0F_38) + ({ let a4 = vex_adr_attr(f, a3, 0, dst.encoding); seq![0x5A] + address_bytes(f, Some(a4), dst.encoding, src, true) }) }))
            }),
    {
        let mut attributes = InstructionAttr::new(&self.features, vector_len, false, false, true, true);
        attributes.set_rex_vex_w_reverted();
        attributes.set_address_attributes(&self.features, EVEX_T4, EVEX_32BIT);
        self.vex_prefix(&src, 0, dst.encoding, VEX_SIMD_66, VEX_OPCODE_0F_38, &mut attributes);
        self.emit_int8(0x5A);
        self.emit_operand_attr(dst.encoding, &src, &attributes, true);
    }

    /// `evbroadcasti64x2 dst, src, vector_len`
    pub fn evbroadcasti64x2(&mut self, dst: XMMRegister, src: XMMRegister, vector_len: u8)
        requires
            dst.wf(),
            src.wf(),
            ({
                let f = old(self).features;
                (vector_len != AVX_128BIT) && ((f.supports_avx512dq()) && ({ let a1 = InstructionAttr::spec_new(f, vector_len, true, false, true, true); let a2 = a1.reverted(); (vex_rr_ok(f, a2, dst.encoding, 0, src.encoding)) }))
            }),
        ensures
            ({
                let f = old(self).features;
                final(self).appends(*old(self), ({ let a1 = InstructionAttr::spec_new(f, vector_len, true, false, true, true); let a2 = a1.reverted(); vex_rr_bytes(f, a2, dst.encoding, 0, src.encoding, VEX_SIMD_66, VEX_OPCODE_0F_38) + seq![0x5A, (0xC0 | rr_bits(dst.encoding, src.encoding))] }))
            }),
    {
        let mut attributes = InstructionAttr::new(&self.features, vector_len, true, false, true, true);
        attributes.set_rex_vex_w_reverted();
        let encode = self.vex_prefix_and_encode(dst.encoding, 0, src.encoding, VEX_SIMD_66, VEX_OPCODE_0F_38, &mut attributes);
        self.emit_int16(0x5A, (0xC0 | encode));
    }

    /// `evbroadcasti64x2 dst, [src], vector_len`
    pub fn evbroadcasti64x2_xm(&mut self, dst: XMMRegister, src: Address, vector_len: u8)
        requires
            dst.wf(),
            src.wf(),
            ({
                let f = old(self).features;
                (vector_len != AVX_128BIT) && ((f.supports_avx512dq()) && ({ let a1 = InstructionAttr::spec_new(f, vector_len, true, false, true, true); let a2 = a1.reverted(); let a3 = a2.with_address(f, EVEX_T2, EVEX_64BIT); (vex_adr_ok(f, a3, 0, dst.encoding, src)) }))
            }),
        ensures
            ({
                let f = old(self).features;
                final(self).appends(*old(self), ({ let a1 = InstructionAttr::spec_new(f, vector_len, true, false, true, true); let a2 = a1.reverted(); let a3 = a2.with_address(f, EVEX_T2, EVEX_64BIT); vex_adr_bytes(f, a3, src, 0, dst.encoding, VEX_SIMD_66, VEX_OPCODE_0F_38) + ({ let a4 = vex_adr_attr(f, a3, 0, dst.encoding); seq![0x5A] + address_bytes(f, Some(a4), dst.encoding, src, true) }) }))
            }),
    {
        let mut attributes = InstructionAttr::new(&self.features, vector_len, true, false, true, true);
        attributes.set_rex_vex_w_reverted();
        attributes.set_address_attributes(&self.features, EVEX_T2, EVEX_64BIT);
        self.vex_prefix(&src, 0, dst.encoding, VEX_SIMD_66, VEX_OPCODE_0F_38, &mut attributes);
        self.emit_int8(0x5A);
        self.emit_operand_attr(dst.encoding, &src, &attributes, true);
    }

    /// `evpbroadcastb dst, src, vector_len`
    pub fn evpbroadcastb(&mut self, dst: XMMRegister, src: Register, vector_len: u8)
        requires
            dst.wf(),
            src.wf(),
            ({
                let f = old(self).features;
                (f.supports_avx512bw()) && ({ let a1 = InstructionAttr::spec_new(f, vector_len, false, f.legacy_mode_bw(), true, true); let a2 = a1.evex_only(); (vex_rr_ok(f, a2, dst.encoding, 0, src.encoding)) })
            }),
        ensures
            ({
                let f = old(self).features;
                final(self).appends(*old(self), ({ let a1 = InstructionAttr::spec_new(f, vector_len, false, f.legacy_mode_bw(), true, true); let a2 = a1.evex_only(); vex_rr_bytes(f, a2, dst.encoding, 0, src.encoding, VEX_SIMD_66, VEX_OPCODE_0F_38) + seq![0x7A, (0xC0 | rr_bits(dst.encoding, src.encoding))] }))
            }),
    {
        let mut attributes = InstructionAttr::new(&self.features, vector_len, false, self.features.legacy_mode_bw(), true, true);
        attributes.set_is_evex_instruction();
        let encode = self.vex_prefix_and_encode(dst.encoding, 0, src.encoding, VEX_SIMD_66, VEX_OPCODE_0F_38, &mut attributes);
        self.emit_int16(0x7A, (0xC0 | encode));
    }

    /// `evpbroadcastw dst, src, vector_len`
    pub fn evpbroadcastw(&mut self, dst: XMMRegister, src: Register, vector_len: u8)
        requires
            dst.wf(),
            src.wf(),
            ({
                let f = old(self).features;
                (f.supports_avx512bw()) && ({ let a1 = InstructionAttr::spec_new(f, vector_len, false, f.legacy_mode_bw(), true, true); let a2 = a1.evex_only(); (vex_rr_ok(f, a2, dst.encoding, 0, src.encoding)) })
            }),
        ensures
            ({
                let f = old(self).features;
                final(self).appends(*old(self), ({ let a1 = InstructionAttr::spec_new(f, vector_len, false, f.legacy_mode_bw(), true, true); let a2 = a1.evex_only(); vex_rr_bytes(f, a2, dst.encoding, 0, src.encoding, VEX_SIMD_66, VEX_OPCODE_0F_38) + seq![0x7B, (0xC0 | rr_bits(dst.encoding, src.encoding))] }))
            }),
    {
        let mut attributes = InstructionAttr::new(&self.features, vector_len, false, self.features.legacy_mode_bw(), true, true);
        attributes.set_is_evex_instruction();
        let encode = self.vex_prefix_and_encode(dst.encoding, 0, src.encoding, VEX_SIMD_66, VEX_OPCODE_0F_38, &mut attributes);
        self.emit_int16(0x7B, (0xC0 | encode));
    }

    /// `evpbroadcastd dst, src, vector_len`
    pub fn evpbroadcastd(&mut self, dst: XMMRegister, src: Register, vector_len: u8)
        requires
            dst.wf(),
            src.wf(),
            ({
                let f = old(self).features;
                (f.supports_evex()) && ({ let a1 = InstructionAttr::spec_new(f, vector_len, false, false, true, true); let a2 = a1.evex_only(); (vex_rr_ok(f, a2, dst.encoding, 0, src.encoding)) })
            }),
        ensures
            ({
                let f = old(self).features;
                final(self).appends(*old(self), ({ let a1 = InstructionAttr::spec_new(f, vector_len, false, false, true, true); let a2 = a1.evex_only(); vex_rr_bytes(f, a2, dst.encoding, 0, src.encoding, VEX_SIMD_66, VEX_OPCODE_0F_38) + seq![0x7C, (0xC0 | rr_bits(dst.encoding, src.encoding))] }))
            }),
    {
        let mut attributes = InstructionAttr::new(&self.features, vector_len, false, false, true, true);
        attributes.set_is_evex_instruction();
        let encode = self.vex_prefix_and_encode(dst.encoding, 0, src.encoding, VEX_SIMD_66, VEX_OPCODE_0F_38, &mut attributes);
        self.emit_int16(0x7C, (0xC0 | encode));
    }

    /// `evpbroadcastq dst, src, vector_len`
    pub fn evpbroadcastq(&mut self, dst: XMMRegister, src: Register, vector_len: u8)
        requires
            dst.wf(),
            src.wf(),
            ({
                let f = old(self).features;
                (f.supports_evex()) && ({ let a1 = InstructionAttr::spec_new(f, vector_len, true, false, true, true); let a2 = a1.evex_only(); (vex_rr_ok(f, a2, dst.encoding, 0, src.encoding)) })
            }),
        ensures
            ({
                let f = old(self).features;
                final(self).appends(*old(self), ({ let a1 = InstructionAttr::spec_new(f, vector_len, true, false, true, true); let a2 = a1.evex_only(); vex_rr_bytes(f, a2, dst.encoding, 0, src.encoding, VEX_SIMD_66, VEX_OPCODE_0F_38) + seq![0x7C, (0xC0 | rr_bits(dst.encoding, src.encoding))] }))
            }),
    {
        let mut attributes = InstructionAttr::new(&self.features, vector_len, true, false, true, true);
        attributes.set_is_evex_instruction();
        let encode = self.vex_prefix_and_encode(dst.encoding, 0, src.encoding, VEX_SIMD_66, VEX_OPCODE_0F_38, &mut attributes);
        self.emit_int16(0x7C, (0xC0 | encode));
    }

    /// `evpgatherdd dst, mask, [src], vector_len`
    pub fn evpgatherdd(&mut self, dst: XMMRegister, mask: KRegister, src: Address, vector_len: u8)
        requires
            dst.wf(),
            mask.wf(),
            src.wf(),
            ({
                let f = old(self).features;
                (f.supports_evex()) && ((src.xmmindex is Some) && ((src.xmmindex != Some(dst)) && ((mask.encoding != 0) && ({ let a1 = InstructionAttr::spec_new(f, vector_len, false, false, false, true); let a2 = a1.with_address(f, EVEX_T1S, EVEX_32BIT); let a3 = a2.merging(); let a4 = a3.with_mask(mask); let a5 = a4.evex_only(); (vex_adr_ok(f, a5, 0, dst.encoding, src)) }))))
            }),
        ensures
            ({
                let f = old(self).features;
                final(self).appends(*old(self), ({ let a1 = InstructionAttr::spec_new(f, vector_len, false, false, false, true); let a2 = a1.with_address(f, EVEX_T1S, EVEX_32BIT); let a3 = a2.merging(); let a4 = a3.with_mask(mask); let a5 = a4.evex_only(); vex_adr_bytes(f, a5, src, 0, dst.encoding, VEX_SIMD_66, VEX_OPCODE_0F_38) + ({ let a6 = vex_adr_attr(f, a5, 0, dst.encoding); seq![0x90] + address_bytes(f, Some(a6), dst.encoding, src, true) }) }))
            }),
    {
        let mut attributes = InstructionAttr::new(&self.features, vector_len, false, false, false, true);
        attributes.set_address_attributes(&self.features, EVEX_T1S, EVEX_32BIT);
        attributes.reset_is_clear_context();
        attributes.set_embedded_opmask_register_specifier(mask);
        attributes.set_is_evex_instruction();
        self.vex_prefix(&src, 0, dst.encoding, VEX_SIMD_66, VEX_OPCODE_0F_38, &mut attributes);
        self.emit_int8(0x90);
        self.emit_operand_attr(dst.encoding, &src, &attributes, true);
    }

    /// `evpgatherdq dst, mask, [src], vector_len`
    pub fn evpgatherdq(&mut self, dst: XMMRegister, mask: KRegister, src: Address, vector_len: u8)
        requires
            dst.wf(),
            mask.wf(),
            src.wf(),
            ({
                let f = old(self).features;
                (f.supports_evex()) && ((src.xmmindex is Some) && ((src.xmmindex != Some(dst)) && ((mask.encoding != 0) && ({ let a1 = InstructionAttr::spec_new(f, vector_len, true, false, false, true); let a2 = a1.with_address(f, EVEX_T1S, EVEX_32BIT); let a3 = a2.merging(); let a4 = a3.with_mask(mask); let a5 = a4.evex_only(); (vex_adr_ok(f, a5, 0, dst.encoding, src)) }))))
            }),
        ensures
            ({
                let f = old(self).features;
                final(self).appends(*old(self), ({ let a1 = InstructionAttr::spec_new(f, vector_len, true, false, false, true); let a2 = a1.with_address(f, EVEX_T1S, EVEX_32BIT); let a3 = a2.merging(); let a4 = a3.with_mask(mask); let a5 = a4.evex_only(); vex_adr_bytes(f, a5, src, 0, dst.encoding, VEX_SIMD_66, VEX_OPCODE_0F_38) + ({ let a6 = vex_adr_attr(f, a5, 0, dst.encoding); seq![0x90] + address_bytes(f, Some(a6), dst.encoding, src, true) }) }))
            }),
    {
        let mut attributes = InstructionAttr::new(&self.features, vector_len, true, false, false, true);
        attributes.set_address_attributes(&self.features, EVEX_T1S, EVEX_32BIT);
        attributes.reset_is_clear_context();
        attributes.set_embedded_opmask_register_specifier(mask);
        attributes.set_is_evex_instruction();
        self.vex_prefix(&src, 0, dst.encoding, VEX_SIMD_66, VEX_OPCODE_0F_38, &mut attributes);
        self.emit_int8(0x90);
        self.emit_operand_attr(dst.encoding, &src, &attributes, true);
    }

    /// `evgatherdpd dst, mask, [src], vector_len`
    pub fn evgatherdpd(&mut self, dst: XMMRegister, mask: KRegister, src: Address, vector_len: u8)
        requires
            dst.wf(),
            mask.wf(),
            src.wf(),
            ({
                let f = old(self).features;
                (f.supports_evex()) && ((src.xmmindex is Some) && ((src.xmmindex != Some(dst)) && ((mask.encoding != 0) && ({ let a1 = InstructionAttr::spec_new(f, vector_len, true, false, false, true); let a2 = a1.with_address(f, EVEX_T1S, EVEX_32BIT); let a3 = a2.merging(); let a4 = a3.with_mask(mask); let a5 = a4.evex_only(); (vex_adr_ok(f, a5, 0, dst.encoding, src)) }))))
            }),
        ensures
            ({
                let f = old(self).features;
                final(self).appends(*old(self), ({ let a1 = InstructionAttr::spec_new(f, vector_len, true, false, false, true); let a2 = a1.with_address(f, EVEX_T1S, EVEX_32BIT); let a3 = a2.merging(); let a4 = a3.with_mask(mask); let a5 = a4.evex_only(); vex_adr_bytes(f, a5, src, 0, dst.encoding, VEX_SIMD_66, VEX_OPCODE_0F_38) + ({ let a6 = vex_adr_attr(f, a5, 0, dst.encoding); seq![0x92] + address_bytes(f, Some(a6), dst.encoding, src, true) }) }))
            }),
    {
        let mut attributes = InstructionAttr::new(&self.features, vector_len, true, false, false, true);
        attributes.set_address_attributes(&self.features, EVEX_T1S, EVEX_32BIT);
        attributes.reset_is_clear_context();
        attributes.set_embedded_opmask_register_specifier(mask);
        attributes.set_is_evex_instruction();
        self.vex_prefix(&src, 0, dst.encoding, VEX_SIMD_66, VEX_OPCODE_0F_38, &mut attributes);
        self.emit_int8(0x92);
        self.emit_operand_attr(dst.encoding, &src, &attributes, true);
    }

    /// `evgatherdps dst, mask, [src], vector_len`
    pub fn evgatherdps(&mut self, dst: XMMRegister, mask: KRegister, src: Address, vector_len: u8)
        requires
            dst.wf(),
            mask.wf(),
            src.wf(),
            ({
                let f = old(self).features;
                (f.supports_evex()) && ((src.xmmindex is Some) && ((src.xmmindex != Some(dst)) && ((mask.encoding != 0) && ({ let a1 = InstructionAttr::spec_new(f, vector_len, false, false, false, true); let a2 = a1.with_address(f, EVEX_T1S, EVEX_32BIT); let a3 = a2.merging(); let a4 = a3.with_mask(mask); let a5 = a4.evex_only(); (vex_adr_ok(f, a5, 0, dst.encoding, src)) }))))
            }),
        ensures
            ({
                let f = old(self).features;
                final(self).appends(*old(self), ({ let a1 = InstructionAttr::spec_new(f, vector_len, false, false, false, true); let a2 = a1.with_address(f, EVEX_T1S, EVEX_32BIT); let a3 = a2.merging(); let a4 = a3.with_mask(mask); let a5 = a4.evex_only(); vex_adr_bytes(f, a5, src, 0, dst.encoding, VEX_SIMD_66, VEX_OPCODE_0F_38) + ({ let a6 = vex_adr_attr(f, a5, 0, dst.encoding); seq![0x92] + address_bytes(f, Some(a6), dst.encoding, src, true) }) }))
            }),
    {
        let mut attributes = InstructionAttr::new(&self.features, vector_len, false, false, false, true);
        attributes.set_address_attributes(&self.features, EVEX_T1S, EVEX_32BIT);
        attributes.reset_is_clear_context();
        attributes.set_embedded_opmask_register_specifier(mask);
        attributes.set_is_evex_instruction();
        self.vex_prefix(&src, 0, dst.encoding, VEX_SIMD_66, VEX_OPCODE_0F_38, &mut attributes);
        self.emit_int8(0x92);
        self.emit_operand_attr(dst.encoding, &src, &attributes, true);
    }

    /// `evpscatterdd [dst], mask, src, vector_len`
    pub fn evpscatterdd(&mut self, dst: Address, mask: KRegister, src: XMMRegister, vector_len: u8)
        requires
            dst.wf(),
            mask.wf(),
            src.wf(),
            ({
                let f = old(self).features;
                (f.supports_evex()) && ((mask.encoding != 0) && ({ let a1 = InstructionAttr::spec_new(f, vector_len, false, false, false, true); let a2 = a1.with_address(f, EVEX_T1S, EVEX_32BIT); let a3 = a2.merging(); let a4 = a3.with_mask(mask); let a5 = a4.evex_only(); (vex_adr_ok(f, a5, 0, src.encoding, dst)) }))
            }),
        ensures
            ({
                let f = old(self).features;
                final(self).appends(*old(self), ({ let a1 = InstructionAttr::spec_new(f, vector_len, false, false, false, true); let a2 = a1.with_address(f, EVEX_T1S, EVEX_32BIT); let a3 = a2.merging(); let a4 = a3.with_mask(mask); let a5 = a4.evex_only(); vex_adr_bytes(f, a5, dst, 0, src.encoding, VEX_SIMD_66, VEX_OPCODE_0F_38) + ({ let a6 = vex_adr_attr(f, a5, 0, src.encoding); seq![0xA0] + address_bytes(f, Some(a6), src.encoding, dst, true) }) }))
            }),
    {
        let mut attributes = InstructionAttr::new(&self.features, vector_len, false, false, false, true);
        attributes.set_address_attributes(&self.features, EVEX_T1S, EVEX_32BIT);
        attributes.reset_is_clear_context();
        attributes.set_embedded_opmask_register_specifier(mask);
        attributes.set_is_evex_instruction();
        self.vex_prefix(&dst, 0, src.encoding, VEX_SIMD_66, VEX_OPCODE_0F_38, &mut attributes);
        self.emit_int8(0xA0);
        self.emit_operand_attr(src.encoding, &dst, &attributes, true);
    }

    /// `evpscatterdq [dst], mask, src, vector_len`
    pub fn evpscatterdq(&mut self, dst: Address, mask: KRegister, src: XMMRegister, vector_len: u8)
        requires
            dst.wf(),
            mask.wf(),
            src.wf(),
            ({
                let f = old(self).features;
                (f.supports_evex()) && ((mask.encoding != 0) && ({ let a1 = InstructionAttr::spec_new(f, vector_len, true, false, false, true); let a2 = a1.with_address(f, EVEX_T1S, EVEX_32BIT); let a3 = a2.merging(); let a4 = a3.with_mask(mask); let a5 = a4.evex_only(); (vex_adr_ok(f, a5, 0, src.encoding, dst)) }))
            }),
        ensures
            ({
                let f = old(self).features;
                final(self).appends(*old(self), ({ let a1 = InstructionAttr::spec_new(f, vector_len, true, false, false, true); let a2 = a1.with_address(f, EVEX_T1S, EVEX_32BIT); let a3 = a2.merging(); let a4 = a3.with_mask(mask); let a5 = a4.evex_only(); vex_adr_bytes(f, a5, dst, 0, src.encoding, VEX_SIMD_66, VEX_OPCODE_0F_38) + ({ let a6 = vex_adr_attr(f, a5, 0, src.encoding); seq![0xA0] + address_bytes(f, Some(a6), src.encoding, dst, true) }) }))
            }),
    {
        let mut attributes = InstructionAttr::new(&self.features, vector_len, true, false, false, true);
        attributes.set_address_attributes(&self.features, EVEX_T1S, EVEX_32BIT);
        attributes.reset_is_clear_context();
        attributes.set_embedded_opmask_register_specifier(mask);
        attributes.set_is_evex_instruction();
        self.vex_prefix(&dst, 0, src.encoding, VEX_SIMD_66, VEX_OPCODE_0F_38, &mut attributes);
        self.emit_int8(0xA0);
        self.emit_operand_attr(src.encoding, &dst, &attributes, true);
    }

    /// `evscatterdps [dst], mask, src, vector_len`
    pub fn evscatterdps(&mut self, dst: Address, mask: KRegister, src: XMMRegister, vector_len: u8)
        requires
            dst.wf(),
            mask.wf(),
            src.wf(),
            ({
                let f = old(self).features;
                (f.supports_evex()) && ((mask.encoding != 0) && ({ let a1 = InstructionAttr::spec_new(f, vector_len, false, false, false, true); let a2 = a1.with_address(f, EVEX_T1S, EVEX_32BIT); let a3 = a2.merging(); let a4 = a3.with_mask(mask); let a5 = a4.evex_only(); (vex_adr_ok(f, a5, 0, src.encoding, dst)) }))
            }),
        ensures
            ({
                let f = old(self).features;
                final(self).appends(*old(self), ({ let a1 = InstructionAttr::spec_new(f, vector_len, false, false, false, true); let a2 = a1.with_address(f, EVEX_T1S, EVEX_32BIT); let a3 = a2.merging(); let a4 = a3.with_mask(mask); let a5 = a4.evex_only(); vex_adr_bytes(f, a5, dst, 0, src.encoding, VEX_SIMD_66, VEX_OPCODE_0F_38) + ({ let a6 = vex_adr_attr(f, a5, 0, src.encoding); seq![0xA2] + address_bytes(f, Some(a6), src.encoding, dst, true) }) }))
            }),
    {
        let mut attributes = InstructionAttr::new(&self.features, vector_len, false, false, false, true);
        attributes.set_address_attributes(&self.features, EVEX_T1S, EVEX_32BIT);
        attributes.reset_is_clear_context();
        attributes.set_embedded_opmask_register_specifier(mask);
        attributes.set_is_evex_instruction();
        self.vex_prefix(&dst, 0, src.encoding, VEX_SIMD_66, VEX_OPCODE_0F_38, &mut attributes);
        self.emit_int8(0xA2);
        self.emit_operand_attr(src.encoding, &dst, &attributes, true);
    }

    /// `evscatterdpd [dst], mask, src, vector_len`
    pub fn evscatterdpd(&mut self, dst: Address, mask: KRegister, src: XMMRegister, vector_len: u8)
        requires
            dst.wf(),
            mask.wf(),
            src.wf(),
            ({
                let f = old(self).features;
                (f.supports_evex()) && ((mask.encoding != 0) && ({ let a1 = InstructionAttr::spec_new(f, vector_len, true, false, false, true); let a2 = a1.with_address(f, EVEX_T1S, EVEX_32BIT); let a3 = a2.merging(); let a4 = a3.with_mask(mask); let a5 = a4.evex_only(); (vex_adr_ok(f, a5, 0, src.encoding, dst)) }))
            }),
        ensures
            ({
                let f = old(self).features;
                final(self).appends(*old(self), ({ let a1 = InstructionAttr::spec_new(f, vector_len, true, false, false, true); let a2 = a1.with_address(f, EVEX_T1S, EVEX_32BIT); let a3 = a2.merging(); let a4 = a3.with_mask(mask); let a5 = a4.evex_only(); vex_adr_bytes(f, a5, dst, 0, src.encoding, VEX_SIMD_66, VEX_OPCODE_0F_38) + ({ let a6 = vex_adr_attr(f, a5, 0, src.encoding); seq![0xA2] + address_bytes(f, Some(a6), src.encoding, dst, true) }) }))
            }),
    {
        let mut attributes = InstructionAttr::new(&self.features, vector_len, true, false, false, true);
        attributes.set_address_attributes(&self.features, EVEX_T1S, EVEX_32BIT);
        attributes.reset_is_clear_context();
        attributes.set_embedded_opmask_register_specifier(mask);
        attributes.set_is_evex_instruction();
        self.vex_prefix(&dst, 0, src.encoding, VEX_SIMD_66, VEX_OPCODE_0F_38, &mut attributes);
        self.emit_int8(0xA2);
        self.emit_operand_attr(src.encoding, &dst, &attributes, true);
    }

    /// `evpclmulqdq dst, nds, src, mask, vector_len`
    pub fn evpclmulqdq(&mut self, dst: XMMRegister, nds: XMMRegister, src: XMMRegister, mask: i32, vector_len: u8)
        requires
            dst.wf(),
            nds.wf(),
            src.wf(),
            ({
                let f = old(self).features;
                (f.supports_avx512_vpclmulqdq()) && ({ let a1 = InstructionAttr::spec_new(f, vector_len, false, false, true, true); let a2 = a1.evex_only(); (vex_rr_ok(f, a2, dst.encoding, nds.encoding, src.encoding)) })
            }),
        ensures
            ({
                let f = old(self).features;
                final(self).appends(*old(self), ({ let a1 = InstructionAttr::spec_new(f, vector_len, false, false, true, true); let a2 = a1.evex_only(); vex_rr_bytes(f, a2, dst.encoding, nds.encoding, src.encoding, VEX_SIMD_66, VEX_OPCODE_0F_3A) + seq![0x44, (0xC0 | rr_bits(dst.encoding, src.encoding)), low8(mask)] }))
            }),
    {
        let mut attributes = InstructionAttr::new(&self.features, vector_len, false, false, true, true);
        attributes.set_is_evex_instruction();
        let encode = self.vex_prefix_and_encode(dst.encoding, nds.encoding, src.encoding, VEX_SIMD_66, VEX_OPCODE_0F_3A, &mut attributes);
        self.emit_int24(0x44, (0xC0 | encode), low8_exec(mask));
    }

    /// `vfpclassss kdst, src, imm8`
    pub fn vfpclassss(&mut self, kdst: KRegister, src: XMMRegister, imm8: u8)
        requires
            kdst.wf(),
            src.wf(),
            ({
                let f = old(self).features;
                (f.supports_evex()) && ((f.supports_avx512dq()) && ({ let a1 = InstructionAttr::spec_new(f, AVX_128BIT, false, false, false, false); let a2 = a1.evex_only(); (vex_rr_ok(f, a2, kdst.encoding, 0, src.encoding)) }))
            }),
        ensures
            ({
                let f = old(self).features;
                final(self).appends(*old(self), ({ let a1 = InstructionAttr::spec_new(f, AVX_128BIT, false, false, false, false); let a2 = a1.evex_only(); vex_rr_bytes(f, a2, kdst.encoding, 0, src.encoding, VEX_SIMD_66, VEX_OPCODE_0F_3A) + seq![0x67, (0xC0 | rr_bits(kdst.encoding, src.encoding)), imm8] }))
            }),
    {
        let mut attributes = InstructionAttr::new(&self.features, AVX_128BIT, false, false, false, false);
        attributes.set_is_evex_instruction();
        let encode = self.vex_prefix_and_encode(kdst.encoding, 0, src.encoding, VEX_SIMD_66, VEX_OPCODE_0F_3A, &mut attributes);
        self.emit_int24(0x67, (0xC0 | encode), imm8);
    }

    /// `vfpclasssd kdst, src, imm8`
    pub fn vfpclasssd(&mut self, kdst: KRegister, src: XMMRegister, imm8: u8)
        requires
            kdst.wf(),
            src.wf(),
            ({
                let f = old(self).features;
                (f.supports_evex()) && ((f.supports_avx512dq()) && ({ let a1 = InstructionAttr::spec_new(f, AVX_128BIT, true, false, false, false); let a2 = a1.evex_only(); (vex_rr_ok(f, a2, kdst.encoding, 0, src.encoding)) }))
            }),
        ensures
            ({
                let f = old(self).features;
                final(self).appends(*old(self), ({ let a1 = InstructionAttr::spec_new(f, AVX_128BIT, true, false, false, false); let a2 = a1.evex_only(); vex_rr_bytes(f, a2, kdst.encoding, 0, src.encoding, VEX_SIMD_66, VEX_OPCODE_0F_3A) + seq![0x67, (0xC0 | rr_bits(kdst.encoding, src.encoding)), imm8] }))
            }),
    {
        let mut attributes = InstructionAttr::new(&self.features, AVX_128BIT, true, false, false, false);
        attributes.set_is_evex_instruction();
        let encode = self.vex_prefix_and_encode(kdst.encoding, 0, src.encoding, VEX_SIMD_66, VEX_OPCODE_0F_3A, &mut attributes);
        self.emit_int24(0x67, (0xC0 | encode), imm8);
    }

    /// `evcmpps kdst, mask, nds, src, comparison, vector_len`
    pub fn evcmpps(&mut self, kdst: KRegister, mask: KRegister, nds: XMMRegister, src: XMMRegister, comparison: i32, vector_len: u8)
        requires
            kdst.wf(),
            mask.wf(),
            nds.wf(),
            src.wf(),
            ({
                let f = old(self).features;
                (f.supports_evex()) && ({ let a1 = InstructionAttr::spec_new(f, vector_len, false, false, false, true); let a2 = a1.evex_only(); let a3 = a2.with_mask(mask); let a4 = a3.merging(); (vex_rr_ok(f, a4, kdst.encoding, nds.encoding, src.encoding)) })
            }),
        ensures
            ({
                let f = old(self).features;
                final(self).appends(*old(self), ({ let a1 = InstructionAttr::spec_new(f, vector_len, false, false, false, true); let a2 = a1.evex_only(); let a3 = a2.with_mask(mask); let a4 = a3.merging(); vex_rr_bytes(f, a4, kdst.encoding, nds.encoding, src.encoding, VEX_SIMD_NONE, VEX_OPCODE_0F) + seq![0xC2, (0xC0 | rr_bits(kdst.encoding, src.encoding)), low8(comparison)] }))
            }),
    {
        let mut attributes = InstructionAttr::new(&self.features, vector_len, false, false, false, true);
        attributes.set_is_evex_instruction();
        attributes.set_embedded_opmask_register_specifier(mask);
        attributes.reset_is_clear_context();
        let encode = self.vex_prefix_and_encode(kdst.encoding, nds.encoding, src.encoding, VEX_SIMD_NONE, VEX_OPCODE_0F, &mut attributes);
        self.emit_int24(0xC2, (0xC0 | encode), low8_exec(comparison));
    }

    /// `evcmppd kdst, mask, nds, src, comparison, vector_len`
    pub fn evcmppd(&mut self, kdst: KRegister, mask: KRegister, nds: XMMRegister, src: XMMRegister, comparison: i32, vector_len: u8)
        requires
            kdst.wf(),
            mask.wf(),
            nds.wf(),
            src.wf(),
            ({
                let f = old(self).features;
                (f.supports_evex()) && ({ let a1 = InstructionAttr::spec_new(f, vector_len, true, false, false, true); let a2 = a1.evex_only(); let a3 = a2.with_mask(mask); let a4 = a3.merging(); (vex_rr_ok(f, a4, kdst.encoding, nds.encoding, src.encoding)) })
            }),
        ensures
            ({
                let f = old(self).features;
                final(self).appends(*old(self), ({ let a1 = InstructionAttr::spec_new(f, vector_len, true, false, false, true); let a2 = a1.evex_only(); let a3 = a2.with_mask(mask); let a4 = a3.merging(); vex_rr_bytes(f, a4, kdst.encoding, nds.encoding, src.encoding, VEX_SIMD_66, VEX_OPCODE_0F) + seq![0xC2, (0xC0 | rr_bits(kdst.encoding, src.encoding)), low8(comparison)] }))
            }),
    {
        let mut attributes = InstructionAttr::new(&self.features, vector_len, true, false, false, true);
        attributes.set_is_evex_instruction();
        attributes.set_embedded_opmask_register_specifier(mask);
        attributes.reset_is_clear_context();
        let encode = self.vex_prefix_and_encode(kdst.encoding, nds.encoding, src.encoding, VEX_SIMD_66, VEX_OPCODE_0F, &mut attributes);
        self.emit_int24(0xC2, (0xC0 | encode), low8_exec(comparison));
    }

    /// `evpcmpd kdst, mask, nds, src, comparison, is_signed, vector_len`
    pub fn evpcmpd(&mut self, kdst: KRegister, mask: KRegister, nds: XMMRegister, src: XMMRegister, comparison: i32, is_signed: bool, vector_len: u8)
        requires
            kdst.wf(),
            mask.wf(),
            nds.wf(),
            src.wf(),
            ({
                let f = old(self).features;
                (f.supports_evex()) && (((comparison >= 0) && (comparison <= 7)) && ({ let a1 = InstructionAttr::spec_new(f, vector_len, false, false, false, true); let a2 = a1.evex_only(); let a3 = a2.with_mask(mask); let a4 = a3.merging(); (vex_rr_ok(f, a4, kdst.encoding, nds.encoding, src.encoding)) }))
            }),
        ensures
            ({
                let f = old(self).features;
                final(self).appends(*old(self), ({ let a1 = InstructionAttr::spec_new(f, vector_len, false, false, false, true); let a2 = a1.evex_only(); let a3 = a2.with_mask(mask); let a4 = a3.merging(); vex_rr_bytes(f, a4, kdst.encoding, nds.encoding, src.encoding, VEX_SIMD_66, VEX_OPCODE_0F_3A) + ({ let opcode: u8 = (if is_signed { 0x1F } else { 0x1E }); seq![opcode, (0xC0 | rr_bits(kdst.encoding, src.encoding)), low8(comparison)] }) }))
            }),
    {
        let mut attributes = InstructionAttr::new(&self.features, vector_len, false, false, false, true);
        attributes.set_is_evex_instruction();
        attributes.set_embedded_opmask_register_specifier(mask);
        attributes.reset_is_clear_context();
        let encode = self.vex_prefix_and_encode(kdst.encoding, nds.encoding, src.encoding, VEX_SIMD_66, VEX_OPCODE_0F_3A, &mut attributes);
        let opcode: u8 = if is_signed { 0x1F } else { 0x1E };
        self.emit_int24(opcode, (0xC0 | encode), low8_exec(comparison));
    }

    /// `evpcmpd kdst, mask, nds, [src], comparison, is_signed, vector_len`
    pub fn evpcmpd_kkxmi(&mut self, kdst: KRegister, mask: KRegister, nds: XMMRegister, src: Address, comparison: i32, is_signed: bool, vector_len: u8)
        requires
            kdst.wf(),
            mask.wf(),
            nds.wf(),
            src.wf(),
            ({
                let f = old(self).features;
                (f.supports_evex()) && (((comparison >= 0) && (comparison <= 7)) && ({ let a1 = InstructionAttr::spec_new(f, vector_len, false, false, false, true); let a2 = a1.with_address(f, EVEX_FV, EVEX_NOBIT); let a3 = a2.evex_only(); let a4 = a3.with_mask(mask); let a5 = a4.merging(); (vex_adr_ok(f, a5, nds.encoding, kdst.encoding, src)) }))
            }),
        ensures
            ({
                let f = old(self).features;
                final(self).appends(*old(self), ({ let a1 = InstructionAttr::spec_new(f, vector_len, false, false, false, true); let a2 = a1.with_address(f, EVEX_FV, EVEX_NOBIT); let a3 = a2.evex_only(); let a4 = a3.with_mask(mask); let a5 = a4.merging(); vex_adr_bytes(f, a5, src, nds.encoding, kdst.encoding, VEX_SIMD_66, VEX_OPCODE_0F_3A) + ({ let a6 = vex_adr_attr(f, a5, nds.encoding, kdst.encoding); let opcode: u8 = (if is_signed { 0x1F } else { 0x1E }); seq![opcode] + address_bytes(f, Some(a6), kdst.encoding, src, false) + seq![low8(comparison)] }) }))
            }),
    {
        let mut attributes = InstructionAttr::new(&self.features, vector_len, false, false, false, true);
        attributes.set_address_attributes(&self.features, EVEX_FV, EVEX_NOBIT);
        attributes.set_is_evex_instruction();
        attributes.set_embedded_opmask_register_specifier(mask);
        attributes.reset_is_clear_context();
        let dst_enc: u8 = kdst.encoding;
        self.vex_prefix(&src, nds.encoding, dst_enc, VEX_SIMD_66, VEX_OPCODE_0F_3A, &mut attributes);
        let opcode: u8 = if is_signed { 0x1F } else { 0x1E };
        self.emit_int8(opcode);
        self.emit_operand_attr(dst_enc, &src, &attributes, false);
        self.emit_int8(low8_exec(comparison));
    }

    /// `evpcmpq kdst, mask, nds, src, comparison, is_signed, vector_len`
    pub fn evpcmpq(&mut self, kdst: KRegister, mask: KRegister, nds: XMMRegister, src: XMMRegister, comparison: i32, is_signed: bool, vector_len: u8)
        requires
            kdst.wf(),
            mask.wf(),
            nds.wf(),
            src.wf(),
            ({
                let f = old(self).features;
                (f.supports_evex()) && (((comparison >= 0) && (comparison <= 7)) && ({ let a1 = InstructionAttr::spec_new(f, vector_len, true, false, false, true); let a2 = a1.evex_only(); let a3 = a2.with_mask(mask); let a4 = a3.merging(); (vex_rr_ok(f, a4, kdst.encoding, nds.encoding, src.encoding)) }))
            }),
        ensures
            ({
                let f = old(self).features;
                final(self).appends(*old(self), ({ let a1 = InstructionAttr::spec_new(f, vector_len, true, false, false, true); let a2 = a1.evex_only(); let a3 = a2.with_mask(mask); let a4 = a3.merging(); vex_rr_bytes(f, a4, kdst.encoding, nds.encoding, src.encoding, VEX_SIMD_66, VEX_OPCODE_0F_3A) + ({ let opcode: u8 = (if is_signed { 0x1F } else { 0x1E }); seq![opcode, (0xC0 | rr_bits(kdst.encoding, src.encoding)), low8(comparison)] }) }))
            }),
    {
        let mut attributes = InstructionAttr::new(&self.features, vector_len, true, false, false, true);
        attributes.set_is_evex_instruction();
        attributes.set_embedded_opmask_register_specifier(mask);
        attributes.reset_is_clear_context();
        let encode = self.vex_prefix_and_encode(kdst.encoding, nds.encoding, src.encoding, VEX_SIMD_66, VEX_OPCODE_0F_3A, &mut attributes);
        let opcode: u8 = if is_signed { 0x1F } else { 0x1E };
        self.emit_int24(opcode, (0xC0 | encode), low8_exec(comparison));
    }

    /// `evpcmpq kdst, mask, nds, [src], comparison, is_signed, vector_len`
    pub fn evpcmpq_kkxmi(&mut self, kdst: KRegister, mask: KRegister, nds: XMMRegister, src: Address, comparison: i32, is_signed: bool, vector_len: u8)
        requires
            kdst.wf(),
            mask.wf(),
            nds.wf(),
            src.wf(),
            ({
                let f = old(self).features;
                (f.supports_evex()) && (((comparison >= 0) && (comparison <= 7)) && ({ let a1 = InstructionAttr::spec_new(f, vector_len, true, false, false, true); let a2 = a1.with_address(f, EVEX_FV, EVEX_NOBIT); let a3 = a2.evex_only(); let a4 = a3.with_mask(mask); let a5 = a4.merging(); (vex_adr_ok(f, a5, nds.encoding, kdst.encoding, src)) }))
            }),
        ensures
            ({
                let f = old(self).features;
                final(self).appends(*old(self), ({ let a1 = InstructionAttr::spec_new(f, vector_len, true, false, false, true); let a2 = a1.with_address(f, EVEX_FV, EVEX_NOBIT); let a3 = a2.evex_only(); let a4 = a3.with_mask(mask); let a5 = a4.merging(); vex_adr_bytes(f, a5, src, nds.encoding, kdst.encoding, VEX_SIMD_66, VEX_OPCODE_0F_3A) + ({ let a6 = vex_adr_attr(f, a5, nds.encoding, kdst.encoding); let opcode: u8 = (if is_signed { 0x1F } else { 0x1E }); seq![opcode] + address_bytes(f, Some(a6), kdst.encoding, src, false) + seq![low8(comparison)] }) }))
            }),
    {
        let mut attributes = InstructionAttr::new(&self.features, vector_len, true, false, false, true);
        attributes.set_address_attributes(&self.features, EVEX_FV, EVEX_NOBIT);
        attributes.set_is_evex_instruction();
        attributes.set_embedded_opmask_register_specifier(mask);
        attributes.reset_is_clear_context();
        let dst_enc: u8 = kdst.encoding;
        self.vex_prefix(&src, nds.encoding, dst_enc, VEX_SIMD_66, VEX_OPCODE_0F_3A, &mut attributes);
        let opcode: u8 = if is_signed { 0x1F } else { 0x1E };
        self.emit_int8(opcode);
        self.emit_operand_attr(dst_enc, &src, &attributes, false);
        self.emit_int8(low8_exec(comparison));
    }

    /// `evpcmpb kdst, mask, nds, src, comparison, is_signed, vector_len`
    pub fn evpcmpb(&mut self, kdst: KRegister, mask: KRegister, nds: XMMRegister, src: XMMRegister, comparison: i32, is_signed: bool, vector_len: u8)
        requires
            kdst.wf(),
            mask.wf(),
            nds.wf(),
            src.wf(),
            ({
                let f = old(self).features;
                (f.supports_evex()) && ((f.supports_avx512bw()) && (((comparison >= 0) && (comparison <= 7)) && ({ let a1 = InstructionAttr::spec_new(f, vector_len, false, f.legacy_mode_bw(), false, true); let a2 = a1.evex_only(); let a3 = a2.with_mask(mask); let a4 = a3.merging(); (vex_rr_ok(f, a4, kdst.encoding, nds.encoding, src.encoding)) })))
            }),
        ensures
            ({
                let f = old(self).features;
                final(self).appends(*old(self), ({ let a1 = InstructionAttr::spec_new(f, vector_len, false, f.legacy_mode_bw(), false, true); let a2 = a1.evex_only(); let a3 = a2.with_mask(mask); let a4 = a3.merging(); vex_rr_bytes(f, a4, kdst.encoding, nds.encoding, src.encoding, VEX_SIMD_66, VEX_OPCODE_0F_3A) + ({ let opcode: u8 = (if is_signed { 0x3F } else { 0x3E }); seq![opcode, (0xC0 | rr_bits(kdst.encoding, src.encoding)), low8(comparison)] }) }))
            }),
    {
        let mut attributes = InstructionAttr::new(&self.features, vector_len, false, self.features.legacy_mode_bw(), false, true);
        attributes.set_is_evex_instruction();
        attributes.set_embedded_opmask_register_specifier(mask);
        attributes.reset_is_clear_context();
        let encode = self.vex_prefix_and_encode(kdst.encoding, nds.encoding, src.encoding, VEX_SIMD_66, VEX_OPCODE_0F_3A, &mut attributes);
        let opcode: u8 = if is_signed { 0x3F } else { 0x3E };
        self.emit_int24(opcode, (0xC0 | encode), low8_exec(comparison));
    }

    /// `evpcmpb kdst, mask, nds, [src], comparison, is_signed, vector_len`
    pub fn evpcmpb_kkxmi(&mut self, kdst: KRegister, mask: KRegister, nds: XMMRegister, src: Address, comparison: i32, is_signed: bool, vector_len: u8)
        requires
            kdst.wf(),
            mask.wf(),
            nds.wf(),
            src.wf(),
            ({
                let f = old(self).features;
                (f.supports_evex()) && ((f.supports_avx512bw()) && (((comparison >= 0) && (comparison <= 7)) && ({ let a1 = InstructionAttr::spec_new(f, vector_len, false, f.legacy_mode_bw(), false, true); let a2 = a1.with_address(f, EVEX_FVM, EVEX_NOBIT); let a3 = a2.evex_only(); let a4 = a3.with_mask(mask); let a5 = a4.merging(); (vex_adr_ok(f, a5, nds.encoding, kdst.encoding, src)) })))
            }),
        ensures
            ({
                let f = old(self).features;
                final(self).appends(*old(self), ({ let a1 = InstructionAttr::spec_new(f, vector_len, false, f.legacy_mode_bw(), false, true); let a2 = a1.with_address(f, EVEX_FVM, EVEX_NOBIT); let a3 = a2.evex_only(); let a4 = a3.with_mask(mask); let a5 = a4.merging(); vex_adr_bytes(f, a5, src, nds.encoding, kdst.encoding, VEX_SIMD_66, VEX_OPCODE_0F_3A) + ({ let a6 = vex_adr_attr(f, a5, nds.encoding, kdst.encoding); let opcode: u8 = (if is_signed { 0x3F } else { 0x3E }); seq![opcode] + address_bytes(f, Some(a6), kdst.encoding, src, false) + seq![low8(comparison)] }) }))
            }),
    {
        let mut attributes = InstructionAttr::new(&self.features, vector_len, false, self.features.legacy_mode_bw(), false, true);
        attributes.set_address_attributes(&self.features, EVEX_FVM, EVEX_NOBIT);
        attributes.set_is_evex_instruction();
        attributes.set_embedded_opmask_register_specifier(mask);
        attributes.reset_is_clear_context();
        let dst_enc: u8 = kdst.encoding;
        self.vex_prefix(&src, nds.encoding, dst_enc, VEX_SIMD_66, VEX_OPCODE_0F_3A, &mut attributes);
        let opcode: u8 = if is_signed { 0x3F } else { 0x3E };
        self.emit_int8(opcode);
        self.emit_operand_attr(dst_enc, &src, &attributes, false);
        self.emit_int8(low8_exec(comparison));
    }

    /// `evpcmpw kdst, mask, nds, src, comparison, is_signed, vector_len`
    pub fn evpcmpw(&mut self, kdst: KRegister, mask: KRegister, nds: XMMRegister, src: XMMRegister, comparison: i32, is_signed: bool, vector_len: u8)
        requires
            kdst.wf(),
            mask.wf(),
            nds.wf(),
            src.wf(),
            ({
                let f = old(self).features;
                (f.supports_evex()) && ((f.supports_avx512bw()) && (((comparison >= 0) && (comparison <= 7)) && ({ let a1 = InstructionAttr::spec_new(f, vector_len, true, f.legacy_mode_bw(), false, true); let a2 = a1.evex_only(); let a3 = a2.with_mask(mask); let a4 = a3.merging(); (vex_rr_ok(f, a4, kdst.encoding, nds.encoding, src.encoding)) })))
            }),
        ensures
            ({
                let f = old(self).features;
                final(self).appends(*old(self), ({ let a1 = InstructionAttr::spec_new(f, vector_len, true, f.legacy_mode_bw(), false, true); let a2 = a1.evex_only(); let a3 = a2.with_mask(mask); let a4 = a3.merging(); vex_rr_bytes(f, a4, kdst.encoding, nds.encoding, src.encoding, VEX_SIMD_66, VEX_OPCODE_0F_3A) + ({ let opcode: u8 = (if is_signed { 0x3F } else { 0x3E }); seq![opcode, (0xC0 | rr_bits(kdst.encoding, src.encoding)), low8(comparison)] }) }))
            }),
    {
        let mut attributes = InstructionAttr::new(&self.features, vector_len, true, self.features.legacy_mode_bw(), false, true);
        attributes.set_is_evex_instruction();
        attributes.set_embedded_opmask_register_specifier(mask);
        attributes.reset_is_clear_context();
        let encode = self.vex_prefix_and_encode(kdst.encoding, nds.encoding, src.encoding, VEX_SIMD_66, VEX_OPCODE_0F_3A, &mut attributes);
        let opcode: u8 = if is_signed { 0x3F } else { 0x3E };
        self.emit_int24(opcode, (0xC0 | encode), low8_exec(comparison));
    }

    /// `evpcmpw kdst, mask, nds, [src], comparison, is_signed, vector_len`
    pub fn evpcmpw_kkxmi(&mut self, kdst: KRegister, mask: KRegister, nds: XMMRegister, src: Address, comparison: i32, is_signed: bool, vector_len: u8)
        requires
            kdst.wf(),
            mask.wf(),
            nds.wf(),
            src.wf(),
            ({
                let f = old(self).features;
                (f.supports_evex()) && ((f.supports_avx512bw()) && (((comparison >= 0) && (comparison <= 7)) && ({ let a1 = InstructionAttr::spec_new(f, vector_len, true, f.legacy_mode_bw(), false, true); let a2 = a1.with_address(f, EVEX_FVM, EVEX_NOBIT); let a3 = a2.evex_only(); let a4 = a3.with_mask(mask); let a5 = a4.merging(); (vex_adr_ok(f, a5, nds.encoding, kdst.encoding, src)) })))
            }),
        ensures
            ({
                let f = old(self).features;
                final(self).appends(*old(self), ({ let a1 = InstructionAttr::spec_new(f, vector_len, true, f.legacy_mode_bw(), false, true); let a2 = a1.with_address(f, EVEX_FVM, EVEX_NOBIT); let a3 = a2.evex_only(); let a4 = a3.with_mask(mask); let a5 = a4.merging(); vex_adr_bytes(f, a5, src, nds.encoding, kdst.encoding, VEX_SIMD_66, VEX_OPCODE_0F_3A) + ({ let a6 = vex_adr_attr(f, a5, nds.encoding, kdst.encoding); let opcode: u8 = (if is_signed { 0x3F } else { 0x3E }); seq![opcode] + address_bytes(f, Some(a6), kdst.encoding, src, false) + seq![low8(comparison)] }) }))
            }),
    {
        let mut attributes = InstructionAttr::new(&self.features, vector_len, true, self.features.legacy_mode_bw(), false, true);
        attributes.set_address_attributes(&self.features, EVEX_FVM, EVEX_NOBIT);
        attributes.set_is_evex_instruction();
        attributes.set_embedded_opmask_register_specifier(mask);
        attributes.reset_is_clear_context();
        let dst_enc: u8 = kdst.encoding;
        self.vex_prefix(&src, nds.encoding, dst_enc, VEX_SIMD_66, VEX_OPCODE_0F_3A, &mut attributes);
        let opcode: u8 = if is_signed { 0x3F } else { 0x3E };
        self.emit_int8(opcode);
        self.emit_operand_attr(dst_enc, &src, &attributes, false);
        self.emit_int8(low8_exec(comparison));
    }

    /// `evprord dst, mask, src, shift, merge, vector_len`
    pub fn evprord_xkxi(&mut self, dst: XMMRegister, mask: KRegister, src: XMMRegister, shift: i32, merge: bool, vector_len: u8)
        requires
            dst.wf(),
            mask.wf(),
            src.wf(),
            ({
                let f = old(self).features;
                ((vector_len == AVX_512BIT) || f.supports_avx512vl()) && ({ let a1 = InstructionAttr::spec_new(f, vector_len, false, false, false, true); let a2 = a1.evex_only(); let a3 = a2.with_mask(mask); (if merge { ({ let a4 = a3.merging(); (vex_rr_ok(f, a4, 0, dst.encoding, src.encoding)) }) } else { (vex_rr_ok(f, a3, 0, dst.encoding, src.encoding)) }) })
            }),
        ensures
            ({
                let f = old(self).features;
                final(self).appends(*old(self), ({ let a1 = InstructionAttr::spec_new(f, vector_len, false, false, false, true); let a2 = a1.evex_only(); let a3 = a2.with_mask(mask); (if merge { ({ let a4 = a3.merging(); vex_rr_bytes(f, a4, 0, dst.encoding, src.encoding, VEX_SIMD_66, VEX_OPCODE_0F) + seq![0x72, (0xC0 | rr_bits(0, src.encoding)), low8(shift)] }) } else { vex_rr_bytes(f, a3, 0, dst.encoding, src.encoding, VEX_SIMD_66, VEX_OPCODE_0F) + seq![0x72, (0xC0 | rr_bits(0, src.encoding)), low8(shift)] }) }))
            }),
    {
        let mut attributes = InstructionAttr::new(&self.features, vector_len, false, false, false, true);
        attributes.set_is_evex_instruction();
        attributes.set_embedded_opmask_register_specifier(mask);
        if merge {
            attributes.reset_is_clear_context();
            let encode = self.vex_prefix_and_encode(0, dst.encoding, src.encoding, VEX_SIMD_66, VEX_OPCODE_0F, &mut attributes);
            self.emit_int24(0x72, (0xC0 | encode), low8_exec(shift));
        } else {
            let encode = self.vex_prefix_and_encode(0, dst.encoding, src.encoding, VEX_SIMD_66, VEX_OPCODE_0F, &mut attributes);
            self.emit_int24(0x72, (0xC0 | encode), low8_exec(shift));
        }
    }

    /// `evprorq dst, mask, src, shift, merge, vector_len`
    pub fn evprorq_xkxi(&mut self, dst: XMMRegister, mask: KRegister, src: XMMRegister, shift: i32, merge: bool, vector_len: u8)
        requires
            dst.wf(),
            mask.wf(),
            src.wf(),
            ({
                let f = old(self).features;
                ((vector_len == AVX_512BIT) || f.supports_avx512vl()) && ({ let a1 = InstructionAttr::spec_new(f, vector_len, true, false, false, true); let a2 = a1.evex_only(); let a3 = a2.with_mask(mask); (if merge { ({ let a4 = a3.merging(); (vex_rr_ok(f, a4, 0, dst.encoding, src.encoding)) }) } else { (vex_rr_ok(f, a3, 0, dst.encoding, src.encoding)) }) })
            }),
        ensures
            ({
                let f = old(self).features;
                final(self).appends(*old(self), ({ let a1 = InstructionAttr::spec_new(f, vector_len, true, false, false, true); let a2 = a1.evex_only(); let a3 = a2.with_mask(mask); (if merge { ({ let a4 = a3.merging(); vex_rr_bytes(f, a4, 0, dst.encoding, src.encoding, VEX_SIMD_66, VEX_OPCODE_0F) + seq![0x72, (0xC0 | rr_bits(0, src.encoding)), low8(shift)] }) } else { vex_rr_bytes(f, a3, 0, dst.encoding, src.encoding, VEX_SIMD_66, VEX_OPCODE_0F) + seq![0x72, (0xC0 | rr_bits(0, src.encoding)), low8(shift)] }) }))
            }),
    {
        let mut attributes = InstructionAttr::new(&self.features, vector_len, true, false, false, true);
        attributes.set_is_evex_instruction();
        attributes.set_embedded_opmask_register_specifier(mask);
        if merge {
            attributes.reset_is_clear_context();
            let encode = self.vex_prefix_and_encode(0, dst.encoding, src.encoding, VEX_SIMD_66, VEX_OPCODE_0F, &mut attributes);
            self.emit_int24(0x72, (0xC0 | encode), low8_exec(shift));
        } else {
            let encode = self.vex_prefix_and_encode(0, dst.encoding, src.encoding, VEX_SIMD_66, VEX_OPCODE_0F, &mut attributes);
            self.emit_int24(0x72, (0xC0 | encode), low8_exec(shift));
        }
    }

    /// `evprorvd dst, mask, nds, src, merge, vector_len`
    pub fn evprorvd_xkxx(&mut self, dst: XMMRegister, mask: KRegister, nds: XMMRegister, src: XMMRegister, merge: bool, vector_len: u8)
        requires
            dst.wf(),
            mask.wf(),
            nds.wf(),
            src.wf(),
            ({
                let f = old(self).features;
                ((vector_len == AVX_512BIT) || f.supports_avx512vl()) && ({ let a1 = InstructionAttr::spec_new(f, vector_len, false, false, false, true); let a2 = a1.evex_only(); let a3 = a2.with_mask(mask); (if merge { ({ let a4 = a3.merging(); (vex_rr_ok(f, a4, dst.encoding, nds.encoding, src.encoding)) }) } else { (vex_rr_ok(f, a3, dst.encoding, nds.encoding, src.encoding)) }) })
            }),
        ensures
            ({
                let f = old(self).features;
                final(self).appends(*old(self), ({ let a1 = InstructionAttr::spec_new(f, vector_len, false, false, false, true); let a2 = a1.evex_only(); let a3 = a2.with_mask(mask); (if merge { ({ let a4 = a3.merging(); vex_rr_bytes(f, a4, dst.encoding, nds.encoding, src.encoding, VEX_SIMD_66, VEX_OPCODE_0F_38) + seq![0x14, (0xC0 | rr_bits(dst.encoding, src.encoding))] }) } else { vex_rr_bytes(f, a3, dst.encoding, nds.encoding, src.encoding, VEX_SIMD_66, VEX_OPCODE_0F_38) + seq![0x14, (0xC0 | rr_bits(dst.encoding, src.encoding))] }) }))
            }),
    {
        let mut attributes = InstructionAttr::new(&self.features, vector_len, false, false, false, true);
        attributes.set_is_evex_instruction();
        attributes.set_embedded_opmask_register_specifier(mask);
        if merge {
            attributes.reset_is_clear_context();
            let encode = self.vex_prefix_and_encode(dst.encoding, nds.encoding, src.encoding, VEX_SIMD_66, VEX_OPCODE_0F_38, &mut attributes);
            self.emit_int16(0x14, (0xC0 | encode));
        } else {
            let encode = self.vex_prefix_and_encode(dst.encoding, nds.encoding, src.encoding, VEX_SIMD_66, VEX_OPCODE_0F_38, &mut attributes);
            self.emit_int16(0x14, (0xC0 | encode));
        }
    }

    /// `evprorvq dst, mask, nds, src, merge, vector_len`
    pub fn evprorvq_xkxx(&mut self, dst: XMMRegister, mask: KRegister, nds: XMMRegister, src: XMMRegister, merge: bool, vector_len: u8)
        requires
            dst.wf(),
            mask.wf(),
            nds.wf(),
            src.wf(),
            ({
                let f = old(self).features;
                ((vector_len == AVX_512BIT) || f.supports_avx512vl()) && ({ let a1 = InstructionAttr::spec_new(f, vector_len, true, false, false, true); let a2 = a1.evex_only(); let a3 = a2.with_mask(mask); (if merge { ({ let a4 = a3.merging(); (vex_rr_ok(f, a4, dst.encoding, nds.encoding, src.encoding)) }) } else { (vex_rr_ok(f, a3, dst.encoding, nds.encoding, src.encoding)) }) })
            }),
        ensures
            ({
                let f = old(self).features;
                final(self).appends(*old(self), ({ let a1 = InstructionAttr::spec_new(f, vector_len, true, false, false, true); let a2 = a1.evex_only(); let a3 = a2.with_mask(mask); (if merge { ({ let a4 = a3.merging(); vex_rr_bytes(f, a4, dst.encoding, nds.encoding, src.encoding, VEX_SIMD_66, VEX_OPCODE_0F_38) + seq![0x14, (0xC0 | rr_bits(dst.encoding, src.encoding))] }) } else { vex_rr_bytes(f, a3, dst.encoding, nds.encoding, src.encoding, VEX_SIMD_66, VEX_OPCODE_0F_38) + seq![0x14, (0xC0 | rr_bits(dst.encoding, src.encoding))] }) }))
            }),
    {
        let mut attributes = InstructionAttr::new(&self.features, vector_len, true, false, false, true);
        attributes.set_is_evex_instruction();
        attributes.set_embedded_opmask_register_specifier(mask);
        if merge {
            attributes.reset_is_clear_context();
            let encode = self.vex_prefix_and_encode(dst.encoding, nds.encoding, src.encoding, VEX_SIMD_66, VEX_OPCODE_0F_38, &mut attributes);
            self.emit_int16(0x14, (0xC0 | encode));
        } else {
            let encode = self.vex_prefix_and_encode(dst.encoding, nds.encoding, src.encoding, VEX_SIMD_66, VEX_OPCODE_0F_38, &mut attributes);
            self.emit_int16(0x14, (0xC0 | encode));
        }
    }

    /// `evprold dst, mask, src, shift, merge, vector_len`
    pub fn evprold_xkxi(&mut self, dst: XMMRegister, mask: KRegister, src: XMMRegister, shift: i32, merge: bool, vector_len: u8)
        requires
            dst.wf(),
            mask.wf(),
            src.wf(),
            ({
                let f = old(self).features;
                ((vector_len == AVX_512BIT) || f.supports_avx512vl()) && ({ let a1 = InstructionAttr::spec_new(f, vector_len, false, false, false, true); let a2 = a1.evex_only(); let a3 = a2.with_mask(mask); (if merge { ({ let a4 = a3.merging(); (vex_rr_ok(f, a4, 1, dst.encoding, src.encoding)) }) } else { (vex_rr_ok(f, a3, 1, dst.encoding, src.encoding)) }) })
            }),
        ensures
            ({
                let f = old(self).features;
                final(self).appends(*old(self), ({ let a1 = InstructionAttr::spec_new(f, vector_len, false, false, false, true); let a2 = a1.evex_only(); let a3 = a2.with_mask(mask); (if merge { ({ let a4 = a3.merging(); vex_rr_bytes(f, a4, 1, dst.encoding, src.encoding, VEX_SIMD_66, VEX_OPCODE_0F) + seq![0x72, (0xC0 | rr_bits(1, src.encoding)), low8(shift)] }) } else { vex_rr_bytes(f, a3, 1, dst.encoding, src.encoding, VEX_SIMD_66, VEX_OPCODE_0F) + seq![0x72, (0xC0 | rr_bits(1, src.encoding)), low8(shift)] }) }))
            }),
    {
        let mut attributes = InstructionAttr::new(&self.features, vector_len, false, false, false, true);
        attributes.set_is_evex_instruction();
        attributes.set_embedded_opmask_register_specifier(mask);
        if merge {
            attributes.reset_is_clear_context();
            let encode = self.vex_prefix_and_encode(1, dst.encoding, src.encoding, VEX_SIMD_66, VEX_OPCODE_0F, &mut attributes);
            self.emit_int24(0x72, (0xC0 | encode), low8_exec(shift));
        } else {
            let encode = self.vex_prefix_and_encode(1, dst.encoding, src.encoding, VEX_SIMD_66, VEX_OPCODE_0F, &mut attributes);
            self.emit_int24(0x72, (0xC0 | encode), low8_exec(shift));
        }
    }

    /// `evprolq dst, mask, src, shift, merge, vector_len`
    pub fn evprolq_xkxi(&mut self, dst: XMMRegister, mask: KRegister, src: XMMRegister, shift: i32, merge: bool, vector_len: u8)
        requires
            dst.wf(),
            mask.wf(),
            src.wf(),
            ({
                let f = old(self).features;
                ((vector_len == AVX_512BIT) || f.supports_avx512vl()) && ({ let a1 = InstructionAttr::spec_new(f, vector_len, true, false, false, true); let a2 = a1.evex_only(); let a3 = a2.with_mask(mask); (if merge { ({ let a4 = a3.merging(); (vex_rr_ok(f, a4, 1, dst.encoding, src.encoding)) }) } else { (vex_rr_ok(f, a3, 1, dst.encoding, src.encoding)) }) })
            }),
        ensures
            ({
                let f = old(self).features;
                final(self).appends(*old(self), ({ let a1 = InstructionAttr::spec_new(f, vector_len, true, false, false, true); let a2 = a1.evex_only(); let a3 = a2.with_mask(mask); (if merge { ({ let a4 = a3.merging(); vex_rr_bytes(f, a4, 1, dst.encoding, src.encoding, VEX_SIMD_66, VEX_OPCODE_0F) + seq![0x72, (0xC0 | rr_bits(1, src.encoding)), low8(shift)] }) } else { vex_rr_bytes(f, a3, 1, dst.encoding, src.encoding, VEX_SIMD_66, VEX_OPCODE_0F) + seq![0x72, (0xC0 | rr_bits(1, src.encoding)), low8(shift)] }) }))
            }),
    {
        let mut attributes = InstructionAttr::new(&self.features, vector_len, true, false, false, true);
        attributes.set_is_evex_instruction();
        attributes.set_embedded_opmask_register_specifier(mask);
        if merge {
            attributes.reset_is_clear_context();
            let encode = self.vex_prefix_and_encode(1, dst.encoding, src.encoding, VEX_SIMD_66, VEX_OPCODE_0F, &mut attributes);
            self.emit_int24(0x72, (0xC0 | encode), low8_exec(shift));
        } else {
            let encode = self.vex_prefix_and_encode(1, dst.encoding, src.encoding, VEX_SIMD_66, VEX_OPCODE_0F, &mut attributes);
            self.emit_int24(0x72, (0xC0 | encode), low8_exec(shift));
        }
    }

    /// `evprolvd dst, mask, nds, src, merge, vector_len`
    pub fn evprolvd_xkxx(&mut self, dst: XMMRegister, mask: KRegister, nds: XMMRegister, src: XMMRegister, merge: bool, vector_len: u8)
        requires
            dst.wf(),
            mask.wf(),
            nds.wf(),
            src.wf(),
            ({
                let f = old(self).features;
                ((vector_len == AVX_512BIT) || f.supports_avx512vl()) && ({ let a1 = InstructionAttr::spec_new(f, vector_len, false, false, false, true); let a2 = a1.evex_only(); let a3 = a2.with_mask(mask); (if merge { ({ let a4 = a3.merging(); (vex_rr_ok(f, a4, dst.encoding, nds.encoding, src.encoding)) }) } else { (vex_rr_ok(f, a3, dst.encoding, nds.encoding, src.encoding)) }) })
            }),
        ensures
            ({
                let f = old(self).features;
                final(self).appends(*old(self), ({ let a1 = InstructionAttr::spec_new(f, vector_len, false, false, false, true); let a2 = a1.evex_only(); let a3 = a2.with_mask(mask); (if merge { ({ let a4 = a3.merging(); vex_rr_bytes(f, a4, dst.encoding, nds.encoding, src.encoding, VEX_SIMD_66, VEX_OPCODE_0F_38) + seq![0x15, (0xC0 | rr_bits(dst.encoding, src.encoding))] }) } else { vex_rr_bytes(f, a3, dst.encoding, nds.encoding, src.encoding, VEX_SIMD_66, VEX_OPCODE_0F_38) + seq![0x15, (0xC0 | rr_bits(dst.encoding, src.encoding))] }) }))
            }),
    {
        let mut attributes = InstructionAttr::new(&self.features, vector_len, false, false, false, true);
        attributes.set_is_evex_instruction();
        attributes.set_embedded_opmask_register_specifier(mask);
        if merge {
            attributes.reset_is_clear_context();
            let encode = self.vex_prefix_and_encode(dst.encoding, nds.encoding, src.encoding, VEX_SIMD_66, VEX_OPCODE_0F_38, &mut attributes);
            self.emit_int16(0x15, (0xC0 | encode));
        } else {
            let encode = self.vex_prefix_and_encode(dst.encoding, nds.encoding, src.encoding, VEX_SIMD_66, VEX_OPCODE_0F_38, &mut attributes);
            self.emit_int16(0x15, (0xC0 | encode));
        }
    }

    /// `evprolvq dst, mask, nds, src, merge, vector_len`
    pub fn evprolvq_xkxx(&mut self, dst: XMMRegister, mask: KRegister, nds: XMMRegister, src: XMMRegister, merge: bool, vector_len: u8)
        requires
            dst.wf(),
            mask.wf(),
            nds.wf(),
            src.wf(),
            ({
                let f = old(self).features;
                ((vector_len == AVX_512BIT) || f.supports_avx512vl()) && ({ let a1 = InstructionAttr::spec_new(f, vector_len, true, false, false, true); let a2 = a1.evex_only(); let a3 = a2.with_mask(mask); (if merge { ({ let a4 = a3.merging(); (vex_rr_ok(f, a4, dst.encoding, nds.encoding, src.encoding)) }) } else { (vex_rr_ok(f, a3, dst.encoding, nds.encoding, src.encoding)) }) })
            }),
        ensures
            ({
                let f = old(self).features;
                final(self).appends(*old(self), ({ let a1 = InstructionAttr::spec_new(f, vector_len, true, false, false, true); let a2 = a1.evex_only(); let a3 = a2.with_mask(mask); (if merge { ({ let a4 = a3.merging(); vex_rr_bytes(f, a4, dst.encoding, nds.encoding, src.encoding, VEX_SIMD_66, VEX_OPCODE_0F_38) + seq![0x15, (0xC0 | rr_bits(dst.encoding, src.encoding))] }) } else { vex_rr_bytes(f, a3, dst.encoding, nds.encoding, src.encoding, VEX_SIMD_66, VEX_OPCODE_0F_38) + seq![0x15, (0xC0 | rr_bits(dst.encoding, src.encoding))] }) }))
            }),
    {
        let mut attributes = InstructionAttr::new(&self.features, vector_len, true, false, false, true);
        attributes.set_is_evex_instruction();
        attributes.set_embedded_opmask_register_specifier(mask);
        if merge {
            attributes.reset_is_clear_context();
            let encode = self.vex_prefix_and_encode(dst.encoding, nds.encoding, src.encoding, VEX_SIMD_66, VEX_OPCODE_0F_38, &mut attributes);
            self.emit_int16(0x15, (0xC0 | encode));
        } else {
            let encode = self.vex_prefix_and_encode(dst.encoding, nds.encoding, src.encoding, VEX_SIMD_66, VEX_OPCODE_0F_38, &mut attributes);
            self.emit_int16(0x15, (0xC0 | encode));
        }
    }

    /// `evblendmpd dst, mask, nds, src, merge, vector_len`
    pub fn evblendmpd(&mut self, dst: XMMRegister, mask: KRegister, nds: XMMRegister, src: XMMRegister, merge: bool, vector_len: u8)
        requires
            dst.wf(),
            mask.wf(),
            nds.wf(),
            src.wf(),
            ({
                let f = old(self).features;
                (f.supports_evex()) && ({ let a1 = InstructionAttr::spec_new(f, vector_len, true, false, false, true); let a2 = a1.evex_only(); let a3 = a2.with_mask(mask); (if merge { ({ let a4 = a3.merging(); (vex_rr_ok(f, a4, dst.encoding, nds.encoding, src.encoding)) }) } else { (vex_rr_ok(f, a3, dst.encoding, nds.encoding, src.encoding)) }) })
            }),
        ensures
            ({
                let f = old(self).features;
                final(self).appends(*old(self), ({ let a1 = InstructionAttr::spec_new(f, vector_len, true, false, false, true); let a2 = a1.evex_only(); let a3 = a2.with_mask(mask); (if merge { ({ let a4 = a3.merging(); vex_rr_bytes(f, a4, dst.encoding, nds.encoding, src.encoding, VEX_SIMD_66, VEX_OPCODE_0F_38) + seq![0x65, (0xC0 | rr_bits(dst.encoding, src.encoding))] }) } else { vex_rr_bytes(f, a3, dst.encoding, nds.encoding, src.encoding, VEX_SIMD_66, VEX_OPCODE_0F_38) + seq![0x65, (0xC0 | rr_bits(dst.encoding, src.encoding))] }) }))
            }),
    {
        let mut attributes = InstructionAttr::new(&self.features, vector_len, true, false, false, true);
        attributes.set_is_evex_instruction();
        attributes.set_embedded_opmask_register_specifier(mask);
        if merge {
            attributes.reset_is_clear_context();
            let encode = self.vex_prefix_and_encode(dst.encoding, nds.encoding, src.encoding, VEX_SIMD_66, VEX_OPCODE_0F_38, &mut attributes);
            self.emit_int16(0x65, (0xC0 | encode));
        } else {
            let encode = self.vex_prefix_and_encode(dst.encoding, nds.encoding, src.encoding, VEX_SIMD_66, VEX_OPCODE_0F_38, &mut attributes);
            self.emit_int16(0x65, (0xC0 | encode));
        }
    }

    /// `evblendmps dst, mask, nds, src, merge, vector_len`
    pub fn evblendmps(&mut self, dst: XMMRegister, mask: KRegister, nds: XMMRegister, src: XMMRegister, merge: bool, vector_len: u8)
        requires
            dst.wf(),
            mask.wf(),
            nds.wf(),
            src.wf(),
            ({
                let f = old(self).features;
                (f.supports_evex()) && ({ let a1 = InstructionAttr::spec_new(f, vector_len, false, false, false, true); let a2 = a1.evex_only(); let a3 = a2.with_mask(mask); (if merge { ({ let a4 = a3.merging(); (vex_rr_ok(f, a4, dst.encoding, nds.encoding, src.encoding)) }) } else { (vex_rr_ok(f, a3, dst.encoding, nds.encoding, src.encoding)) }) })
            }),
        ensures
            ({
                let f = old(self).features;
                final(self).appends(*old(self), ({ let a1 = InstructionAttr::spec_new(f, vector_len, false, false, false, true); let a2 = a1.evex_only(); let a3 = a2.with_mask(mask); (if merge { ({ let a4 = a3.merging(); vex_rr_bytes(f, a4, dst.encoding, nds.encoding, src.encoding, VEX_SIMD_66, VEX_OPCODE_0F_38) + seq![0x65, (0xC0 | rr_bits(dst.encoding, src.encoding))] }) } else { vex_rr_bytes(f, a3, dst.encoding, nds.encoding, src.encoding, VEX_SIMD_66, VEX_OPCODE_0F_38) + seq![0x65, (0xC0 | rr_bits(dst.encoding, src.encoding))] }) }))
            }),
    {
        let mut attributes = InstructionAttr::new(&self.features, vector_len, false, false, false, true);
        attributes.set_is_evex_instruction();
        attributes.set_embedded_opmask_register_specifier(mask);
        if merge {
            attributes.reset_is_clear_context();
            let encode = self.vex_prefix_and_encode(dst.encoding, nds.encoding, src.encoding, VEX_SIMD_66, VEX_OPCODE_0F_38, &mut attributes);
            self.emit_int16(0x65, (0xC0 | encode));
        } else {
            let encode = self.vex_prefix_and_encode(dst.encoding, nds.encoding, src.encoding, VEX_SIMD_66, VEX_OPCODE_0F_38, &mut attributes);
            self.emit_int16(0x65, (0xC0 | encode));
        }
    }

    /// `evpblendmb dst, mask, nds, src, merge, vector_len`
    pub fn evpblendmb(&mut self, dst: XMMRegister, mask: KRegister, nds: XMMRegister, src: XMMRegister, merge: bool, vector_len: u8)
        requires
            dst.wf(),
            mask.wf(),
            nds.wf(),
            src.wf(),
            ({
                let f = old(self).features;
                (f.supports_evex()) && ((f.supports_avx512bw()) && ({ let a1 = InstructionAttr::spec_new(f, vector_len, false, f.legacy_mode_bw(), false, true); let a2 = a1.evex_only(); let a3 = a2.with_mask(mask); (if merge { ({ let a4 = a3.merging(); (vex_rr_ok(f, a4, dst.encoding, nds.encoding, src.encoding)) }) } else { (vex_rr_ok(f, a3, dst.encoding, nds.encoding, src.encoding)) }) }))
            }),
        ensures
            ({
                let f = old(self).features;
                final(self).appends(*old(self), ({ let a1 = InstructionAttr::spec_new(f, vector_len, false, f.legacy_mode_bw(), false, true); let a2 = a1.evex_only(); let a3 = a2.with_mask(mask); (if merge { ({ let a4 = a3.merging(); vex_rr_bytes(f, a4, dst.encoding, nds.encoding, src.encoding, VEX_SIMD_66, VEX_OPCODE_0F_38) + seq![0x66, (0xC0 | rr_bits(dst.encoding, src.encoding))] }) } else { vex_rr_bytes(f, a3, dst.encoding, nds.encoding, src.encoding, VEX_SIMD_66, VEX_OPCODE_0F_38) + seq![0x66, (0xC0 | rr_bits(dst.encoding, src.encoding))] }) }))
            }),
    {
        let mut attributes = InstructionAttr::new(&self.features, vector_len, false, self.features.legacy_mode_bw(), false, true);
        attributes.set_is_evex_instruction();
        attributes.set_embedded_opmask_register_specifier(mask);
        if merge {
            attributes.reset_is_clear_context();
            let encode = self.vex_prefix_and_encode(dst.encoding, nds.encoding, src.encoding, VEX_SIMD_66, VEX_OPCODE_0F_38, &mut attributes);
            self.emit_int16(0x66, (0xC0 | encode));
        } else {
            let encode = self.vex_prefix_and_encode(dst.encoding, nds.encoding, src.encoding, VEX_SIMD_66, VEX_OPCODE_0F_38, &mut attributes);
            self.emit_int16(0x66, (0xC0 | encode));
        }
    }

    /// `evpblendmw dst, mask, nds, src, merge, vector_len`
    pub fn evpblendmw(&mut self, dst: XMMRegister, mask: KRegister, nds: XMMRegister, src: XMMRegister, merge: bool, vector_len: u8)
        requires
            dst.wf(),
            mask.wf(),
            nds.wf(),
            src.wf(),
            ({
                let f = old(self).features;
                (f.supports_evex()) && ((f.supports_avx512bw()) && ({ let a1 = InstructionAttr::spec_new(f, vector_len, true, f.legacy_mode_bw(), false, true); let a2 = a1.evex_only(); let a3 = a2.with_mask(mask); (if merge { ({ let a4 = a3.merging(); (vex_rr_ok(f, a4, dst.encoding, nds.encoding, src.encoding)) }) } else { (vex_rr_ok(f, a3, dst.encoding, nds.encoding, src.encoding)) }) }))
            }),
        ensures
            ({
                let f = old(self).features;
                final(self).appends(*old(self), ({ let a1 = InstructionAttr::spec_new(f, vector_len, true, f.legacy_mode_bw(), false, true); let a2 = a1.evex_only(); let a3 = a2.with_mask(mask); (if merge { ({ let a4 = a3.merging(); vex_rr_bytes(f, a4, dst.encoding, nds.encoding, src.encoding, VEX_SIMD_66, VEX_OPCODE_0F_38) + seq![0x66, (0xC0 | rr_bits(dst.encoding, src.encoding))] }) } else { vex_rr_bytes(f, a3, dst.encoding, nds.encoding, src.encoding, VEX_SIMD_66, VEX_OPCODE_0F_38) + seq![0x66, (0xC0 | rr_bits(dst.encoding, src.encoding))] }) }))
            }),
    {
        let mut attributes = InstructionAttr::new(&self.features, vector_len, true, self.features.legacy_mode_bw(), false, true);
        attributes.set_is_evex_instruction();
        attributes.set_embedded_opmask_register_specifier(mask);
        if merge {
            attributes.reset_is_clear_context();
            let encode = self.vex_prefix_and_encode(dst.encoding, nds.encoding, src.encoding, VEX_SIMD_66, VEX_OPCODE_0F_38, &mut attributes);
            self.emit_int16(0x66, (0xC0 | encode));
        } else {
            let encode = self.vex_prefix_and_encode(dst.encoding, nds.encoding, src.encoding, VEX_SIMD_66, VEX_OPCODE_0F_38, &mut attributes);
            self.emit_int16(0x66, (0xC0 | encode));
        }
    }

    /// `evpblendmd dst, mask, nds, src, merge, vector_len`
    pub fn evpblendmd(&mut self, dst: XMMRegister, mask: KRegister, nds: XMMRegister, src: XMMRegister, merge: bool, vector_len: u8)
        requires
            dst.wf(),
            mask.wf(),
            nds.wf(),
            src.wf(),
            ({
                let f = old(self).features;
                (f.supports_evex()) && ({ let a1 = InstructionAttr::spec_new(f, vector_len, false, false, false, true); let a2 = a1.evex_only(); let a3 = a2.with_mask(mask); (if merge { ({ let a4 = a3.merging(); (vex_rr_ok(f, a4, dst.encoding, nds.encoding, src.encoding)) }) } else { (vex_rr_ok(f, a3, dst.encoding, nds.encoding, src.encoding)) }) })
            }),
        ensures
            ({
                let f = old(self).features;
                final(self).appends(*old(self), ({ let a1 = InstructionAttr::spec_new(f, vector_len, false, false, false, true); let a2 = a1.evex_only(); let a3 = a2.with_mask(mask); (if merge { ({ let a4 = a3.merging(); vex_rr_bytes(f, a4, dst.encoding, nds.encoding, src.encoding, VEX_SIMD_66, VEX_OPCODE_0F_38) + seq![0x64, (0xC0 | rr_bits(dst.encoding, src.encoding))] }) } else { vex_rr_bytes(f, a3, dst.encoding, nds.encoding, src.encoding, VEX_SIMD_66, VEX_OPCODE_0F_38) + seq![0x64, (0xC0 | rr_bits(dst.encoding, src.encoding))] }) }))
            }),
    {
        let mut attributes = InstructionAttr::new(&self.features, vector_len, false, false, false, true);
        attributes.set_is_evex_instruction();
        attributes.set_embedded_opmask_register_specifier(mask);
        if merge {
            attributes.reset_is_clear_context();
            let encode = self.vex_prefix_and_encode(dst.encoding, nds.encoding, src.encoding, VEX_SIMD_66, VEX_OPCODE_0F_38, &mut attributes);
            self.emit_int16(0x64, (0xC0 | encode));
        } else {
            let encode = self.vex_prefix_and_encode(dst.encoding, nds.encoding, src.encoding, VEX_SIMD_66, VEX_OPCODE_0F_38, &mut attributes);
            self.emit_int16(0x64, (0xC0 | encode));
        }
    }

    /// `evpblendmq dst, mask, nds, src, merge, vector_len`
    pub fn evpblendmq(&mut self, dst: XMMRegister, mask: KRegister, nds: XMMRegister, src: XMMRegister, merge: bool, vector_len: u8)
        requires
            dst.wf(),
            mask.wf(),
            nds.wf(),
            src.wf(),
            ({
                let f = old(self).features;
                (f.supports_evex()) && ({ let a1 = InstructionAttr::spec_new(f, vector_len, true, false, false, true); let a2 = a1.evex_only(); let a3 = a2.with_mask(mask); (if merge { ({ let a4 = a3.merging(); (vex_rr_ok(f, a4, dst.encoding, nds.encoding, src.encoding)) }) } else { (vex_rr_ok(f, a3, dst.encoding, nds.encoding, src.encoding)) }) })
            }),
        ensures
            ({
                let f = old(self).features;
                final(self).appends(*old(self), ({ let a1 = InstructionAttr::spec_new(f, vector_len, true, false, false, true); let a2 = a1.evex_only(); let a3 = a2.with_mask(mask); (if merge { ({ let a4 = a3.merging(); vex_rr_bytes(f, a4, dst.encoding, nds.encoding, src.encoding, VEX_SIMD_66, VEX_OPCODE_0F_38) + seq![0x64, (0xC0 | rr_bits(dst.encoding, src.encoding))] }) } else { vex_rr_bytes(f, a3, dst.encoding, nds.encoding, src.encoding, VEX_SIMD_66, VEX_OPCODE_0F_38) + seq![0x64, (0xC0 | rr_bits(dst.encoding, src.encoding))] }) }))
            }),
    {
        let mut attributes = InstructionAttr::new(&self.features, vector_len, true, false, false, true);
        attributes.set_is_evex_instruction();
        attributes.set_embedded_opmask_register_specifier(mask);
        if merge {
            attributes.reset_is_clear_context();
            let encode = self.vex_prefix_and_encode(dst.encoding, nds.encoding, src.encoding, VEX_SIMD_66, VEX_OPCODE_0F_38, &mut attributes);
            self.emit_int16(0x64, (0xC0 | encode));
        } else {
            let encode = self.vex_prefix_and_encode(dst.encoding, nds.encoding, src.encoding, VEX_SIMD_66, VEX_OPCODE_0F_38, &mut attributes);
            self.emit_int16(0x64, (0xC0 | encode));
        }
    }

    /// `evpmovq2m dst, src, vector_len`
    pub fn evpmovq2m(&mut self, dst: KRegister, src: XMMRegister, vector_len: u8)
        requires
            dst.wf(),
            src.wf(),
            ({
                let f = old(self).features;
                (f.supports_avx512vldq()) && ({ let a1 = InstructionAttr::spec_new(f, vector_len, true, false, true, true); let a2 = a1.evex_only(); (vex_rr_ok(f, a2, dst.encoding, 0, src.encoding)) })
            }),
        ensures
            ({
                let f = old(self).features;
                final(self).appends(*old(self), ({ let a1 = InstructionAttr::spec_new(f, vector_len, true, false, true, true); let a2 = a1.evex_only(); vex_rr_bytes(f, a2, dst.encoding, 0, src.encoding, VEX_SIMD_F3, VEX_OPCODE_0F_38) + seq![0x39, (0xC0 | rr_bits(dst.encoding, src.encoding))] }))
            }),
    {
        let mut attributes = InstructionAttr::new(&self.features, vector_len, true, false, true, true);
        attributes.set_is_evex_instruction();
        let encode = self.vex_prefix_and_encode(dst.encoding, 0, src.encoding, VEX_SIMD_F3, VEX_OPCODE_0F_38, &mut attributes);
        self.emit_int16(0x39, (0xC0 | encode));
    }

    /// `evpmovd2m dst, src, vector_len`
    pub fn evpmovd2m(&mut self, dst: KRegister, src: XMMRegister, vector_len: u8)
        requires
            dst.wf(),
            src.wf(),
            ({
                let f = old(self).features;
                (f.supports_avx512vldq()) && ({ let a1 = InstructionAttr::spec_new(f, vector_len, false, false, true, true); let a2 = a1.evex_only(); (vex_rr_ok(f, a2, dst.encoding, 0, src.encoding)) })
            }),
        ensures
            ({
                let f = old(self).features;
                final(self).appends(*old(self), ({ let a1 = InstructionAttr::spec_new(f, vector_len, false, false, true, true); let a2 = a1.evex_only(); vex_rr_bytes(f, a2, dst.encoding, 0, src.encoding, VEX_SIMD_F3, VEX_OPCODE_0F_38) + seq![0x39, (0xC0 | rr_bits(dst.encoding, src.encoding))] }))
            }),
    {
        let mut attributes = InstructionAttr::new(&self.features, vector_len, false, false, true, true);
        attributes.set_is_evex_instruction();
        let encode = self.vex_prefix_and_encode(dst.encoding, 0, src.encoding, VEX_SIMD_F3, VEX_OPCODE_0F_38, &mut attributes);
        self.emit_int16(0x39, (0xC0 | encode));
    }

    /// `evpmovw2m dst, src, vector_len`
    pub fn evpmovw2m(&mut self, dst: KRegister, src: XMMRegister, vector_len: u8)
        requires
            dst.wf(),
            src.wf(),
            ({
                let f = old(self).features;
                (f.supports_avx512vlbw()) && ({ let a1 = InstructionAttr::spec_new(f, vector_len, true, false, true, true); let a2 = a1.evex_only(); (vex_rr_ok(f, a2, dst.encoding, 0, src.encoding)) })
            }),
        ensures
            ({
                let f = old(self).features;
                final(self).appends(*old(self), ({ let a1 = InstructionAttr::spec_new(f, vector_len, true, false, true, true); let a2 = a1.evex_only(); vex_rr_bytes(f, a2, dst.encoding, 0, src.encoding, VEX_SIMD_F3, VEX_OPCODE_0F_38) + seq![0x29, (0xC0 | rr_bits(dst.encoding, src.encoding))] }))
            }),
    {
        let mut attributes = InstructionAttr::new(&self.features, vector_len, true, false, true, true);
        attributes.set_is_evex_instruction();
        let encode = self.vex_prefix_and_encode(dst.encoding, 0, src.encoding, VEX_SIMD_F3, VEX_OPCODE_0F_38, &mut attributes);
        self.emit_int16(0x29, (0xC0 | encode));
    }

    /// `evpmovb2m dst, src, vector_len`
    pub fn evpmovb2m(&mut self, dst: KRegister, src: XMMRegister, vector_len: u8)
        requires
            dst.wf(),
            src.wf(),
            ({
                let f = old(self).features;
                (f.supports_avx512vlbw()) && ({ let a1 = InstructionAttr::spec_new(f, vector_len, false, false, true, true); let a2 = a1.evex_only(); (vex_rr_ok(f, a2, dst.encoding, 0, src.encoding)) })
            }),
        ensures
            ({
                let f = old(self).features;
                final(self).appends(*old(self), ({ let a1 = InstructionAttr::spec_new(f, vector_len, false, false, true, true); let a2 = a1.evex_only(); vex_rr_bytes(f, a2, dst.encoding, 0, src.encoding, VEX_SIMD_F3, VEX_OPCODE_0F_38) + seq![0x29, (0xC0 | rr_bits(dst.encoding, src.encoding))] }))
            }),
    {
        let mut attributes = InstructionAttr::new(&self.features, vector_len, false, false, true, true);
        attributes.set_is_evex_instruction();
        let encode = self.vex_prefix_and_encode(dst.encoding, 0, src.encoding, VEX_SIMD_F3, VEX_OPCODE_0F_38, &mut attributes);
        self.emit_int16(0x29, (0xC0 | encode));
    }

    /// `evpmovm2q dst, src, vector_len`
    pub fn evpmovm2q(&mut self, dst: XMMRegister, src: KRegister, vector_len: u8)
        requires
            dst.wf(),
            src.wf(),
            ({
                let f = old(self).features;
                (f.supports_avx512vldq()) && ({ let a1 = InstructionAttr::spec_new(f, vector_len, true, false, true, true); let a2 = a1.evex_only(); (vex_rr_ok(f, a2, dst.encoding, 0, src.encoding)) })
            }),
        ensures
            ({
                let f = old(self).features;
                final(self).appends(*old(self), ({ let a1 = InstructionAttr::spec_new(f, vector_len, true, false, true, true); let a2 = a1.evex_only(); vex_rr_bytes(f, a2, dst.encoding, 0, src.encoding, VEX_SIMD_F3, VEX_OPCODE_0F_38) + seq![0x38, (0xC0 | rr_bits(dst.encoding, src.encoding))] }))
            }),
    {
        let mut attributes = InstructionAttr::new(&self.features, vector_len, true, false, true, true);
        attributes.set_is_evex_instruction();
        let encode = self.vex_prefix_and_encode(dst.encoding, 0, src.encoding, VEX_SIMD_F3, VEX_OPCODE_0F_38, &mut attributes);
        self.emit_int16(0x38, (0xC0 | encode));
    }

    /// `evpmovm2d dst, src, vector_len`
    pub fn evpmovm2d(&mut self, dst: XMMRegister, src: KRegister, vector_len: u8)
        requires
            dst.wf(),
            src.wf(),
            ({
                let f = old(self).features;
                (f.supports_avx512vldq()) && ({ let a1 = InstructionAttr::spec_new(f, vector_len, false, false, true, true); let a2 = a1.evex_only(); (vex_rr_ok(f, a2, dst.encoding, 0, src.encoding)) })
            }),
        ensures
            ({
                let f = old(self).features;
                final(self).appends(*old(self), ({ let a1 = InstructionAttr::spec_new(f, vector_len, false, false, true, true); let a2 = a1.evex_only(); vex_rr_bytes(f, a2, dst.encoding, 0, src.encoding, VEX_SIMD_F3, VEX_OPCODE_0F_38) + seq![0x38, (0xC0 | rr_bits(dst.encoding, src.encoding))] }))
            }),
    {
        let mut attributes = InstructionAttr::new(&self.features, vector_len, false, false, true, true);
        attributes.set_is_evex_instruction();
        let encode = self.vex_prefix_and_encode(dst.encoding, 0, src.encoding, VEX_SIMD_F3, VEX_OPCODE_0F_38, &mut attributes);
        self.emit_int16(0x38, (0xC0 | encode));
    }

    /// `evpmovm2w dst, src, vector_len`
    pub fn evpmovm2w(&mut self, dst: XMMRegister, src: KRegister, vector_len: u8)
        requires
            dst.wf(),
            src.wf(),
            ({
                let f = old(self).features;
                (f.supports_avx512vlbw()) && ({ let a1 = InstructionAttr::spec_new(f, vector_len, true, false, true, true); let a2 = a1.evex_only(); (vex_rr_ok(f, a2, dst.encoding, 0, src.encoding)) })
            }),
        ensures
            ({
                let f = old(self).features;
                final(self).appends(*old(self), ({ let a1 = InstructionAttr::spec_new(f, vector_len, true, false, true, true); let a2 = a1.evex_only(); vex_rr_bytes(f, a2, dst.encoding, 0, src.encoding, VEX_SIMD_F3, VEX_OPCODE_0F_38) + seq![0x28, (0xC0 | rr_bits(dst.encoding, src.encoding))] }))
            }),
    {
        let mut attributes = InstructionAttr::new(&self.features, vector_len, true, false, true, true);
        attributes.set_is_evex_instruction();
        let encode = self.vex_prefix_and_encode(dst.encoding, 0, src.encoding, VEX_SIMD_F3, VEX_OPCODE_0F_38, &mut attributes);
        self.emit_int16(0x28, (0xC0 | encode));
    }

    /// `evpmovm2b dst, src, vector_len`
    pub fn evpmovm2b(&mut self, dst: XMMRegister, src: KRegister, vector_len: u8)
        requires
            dst.wf(),
            src.wf(),
            ({
                let f = old(self).features;
                (f.supports_avx512vlbw()) && ({ let a1 = InstructionAttr::spec_new(f, vector_len, false, false, true, true); let a2 = a1.evex_only(); (vex_rr_ok(f, a2, dst.encoding, 0, src.encoding)) })
            }),
        ensures
            ({
                let f = old(self).features;
                final(self).appends(*old(self), ({ let a1 = InstructionAttr::spec_new(f, vector_len, false, false, true, true); let a2 = a1.evex_only(); vex_rr_bytes(f, a2, dst.encoding, 0, src.encoding, VEX_SIMD_F3, VEX_OPCODE_0F_38) + seq![0x28, (0xC0 | rr_bits(dst.encoding, src.encoding))] }))
            }),
    {
        let mut attributes = InstructionAttr::new(&self.features, vector_len, false, false, true, true);
        attributes.set_is_evex_instruction();
        let encode = self.vex_prefix_and_encode(dst.encoding, 0, src.encoding, VEX_SIMD_F3, VEX_OPCODE_0F_38, &mut attributes);
        self.emit_int16(0x28, (0xC0 | encode));
    }

    /// `evpcompressb dst, mask, src, merge, vector_len`
    pub fn evpcompressb(&mut self, dst: XMMRegister, mask: KRegister, src: XMMRegister, merge: bool, vector_len: u8)
        requires
            dst.wf(),
            mask.wf(),
            src.wf(),
            ({
                let f = old(self).features;
                (f.supports_avx512_vbmi2()) && (((vector_len == AVX_512BIT) || f.supports_avx512vl()) && ({ let a1 = InstructionAttr::spec_new(f, vector_len, false, false, false, true); let a2 = a1.with_mask(mask); let a3 = a2.evex_only(); (if merge { ({ let a4 = a3.merging(); (vex_rr_ok(f, a4, src.encoding, 0, dst.encoding)) }) } else { (vex_rr_ok(f, a3, src.encoding, 0, dst.encoding)) }) }))
            }),
        ensures
            ({
                let f = old(self).features;
                final(self).appends(*old(self), ({ let a1 = InstructionAttr::spec_new(f, vector_len, false, false, false, true); let a2 = a1.with_mask(mask); let a3 = a2.evex_only(); (if merge { ({ let a4 = a3.merging(); vex_rr_bytes(f, a4, src.encoding, 0, dst.encoding, VEX_SIMD_66, VEX_OPCODE_0F_38) + seq![0x63, (0xC0 | rr_bits(src.encoding, dst.encoding))] }) } else { vex_rr_bytes(f, a3, src.encoding, 0, dst.encoding, VEX_SIMD_66, VEX_OPCODE_0F_38) + seq![0x63, (0xC0 | rr_bits(src.encoding, dst.encoding))] }) }))
            }),
    {
        let mut attributes = InstructionAttr::new(&self.features, vector_len, false, false, false, true);
        attributes.set_embedded_opmask_register_specifier(mask);
        attributes.set_is_evex_instruction();
        if merge {
            attributes.reset_is_clear_context();
            let encode = self.vex_prefix_and_encode(src.encoding, 0, dst.encoding, VEX_SIMD_66, VEX_OPCODE_0F_38, &mut attributes);
            self.emit_int16(0x63, (0xC0 | encode));
        } else {
            let encode = self.vex_prefix_and_encode(src.encoding, 0, dst.encoding, VEX_SIMD_66, VEX_OPCODE_0F_38, &mut attributes);
            self.emit_int16(0x63, (0xC0 | encode));
        }
    }

    /// `evpcompressw dst, mask, src, merge, vector_len`
    pub fn evpcompressw(&mut self, dst: XMMRegister, mask: KRegister, src: XMMRegister, merge: bool, vector_len: u8)
        requires
            dst.wf(),
            mask.wf(),
            src.wf(),
            ({
                let f = old(self).features;
                (f.supports_avx512_vbmi2()) && (((vector_len == AVX_512BIT) || f.supports_avx512vl()) && ({ let a1 = InstructionAttr::spec_new(f, vector_len, true, false, false, true); let a2 = a1.with_mask(mask); let a3 = a2.evex_only(); (if merge { ({ let a4 = a3.merging(); (vex_rr_ok(f, a4, src.encoding, 0, dst.encoding)) }) } else { (vex_rr_ok(f, a3, src.encoding, 0, dst.encoding)) }) }))
            }),
        ensures
            ({
                let f = old(self).features;
                final(self).appends(*old(self), ({ let a1 = InstructionAttr::spec_new(f, vector_len, true, false, false, true); let a2 = a1.with_mask(mask); let a3 = a2.evex_only(); (if merge { ({ let a4 = a3.merging(); vex_rr_bytes(f, a4, src.encoding, 0, dst.encoding, VEX_SIMD_66, VEX_OPCODE_0F_38) + seq![0x63, (0xC0 | rr_bits(src.encoding, dst.encoding))] }) } else { vex_rr_bytes(f, a3, src.encoding, 0, dst.encoding, VEX_SIMD_66, VEX_OPCODE_0F_38) + seq![0x63, (0xC0 | rr_bits(src.encoding, dst.encoding))] }) }))
            }),
    {
        let mut attributes = InstructionAttr::new(&self.features, vector_len, true, false, false, true);
        attributes.set_embedded_opmask_register_specifier(mask);
        attributes.set_is_evex_instruction();
        if merge {
            attributes.reset_is_clear_context();
            let encode = self.vex_prefix_and_encode(src.encoding, 0, dst.encoding, VEX_SIMD_66, VEX_OPCODE_0F_38, &mut attributes);
            self.emit_int16(0x63, (0xC0 | encode));
        } else {
            let encode = self.vex_prefix_and_encode(src.encoding, 0, dst.encoding, VEX_SIMD_66, VEX_OPCODE_0F_38, &mut attributes);
            self.emit_int16(0x63, (0xC0 | encode));
        }
    }

    /// `evpcompressd dst, mask, src, merge, vector_len`
    pub fn evpcompressd(&mut self, dst: XMMRegister, mask: KRegister, src: XMMRegister, merge: bool, vector_len: u8)
        requires
            dst.wf(),
            mask.wf(),
            src.wf(),
            ({
                let f = old(self).features;
                (f.supports_evex()) && (((vector_len == AVX_512BIT) || f.supports_avx512vl()) && ({ let a1 = InstructionAttr::spec_new(f, vector_len, false, false, false, true); let a2 = a1.with_mask(mask); let a3 = a2.evex_only(); (if merge { ({ let a4 = a3.merging(); (vex_rr_ok(f, a4, src.encoding, 0, dst.encoding)) }) } else { (vex_rr_ok(f, a3, src.encoding, 0, dst.encoding)) }) }))
            }),
        ensures
            ({
                let f = old(self).features;
                final(self).appends(*old(self), ({ let a1 = InstructionAttr::spec_new(f, vector_len, false, false, false, true); let a2 = a1.with_mask(mask); let a3 = a2.evex_only(); (if merge { ({ let a4 = a3.merging(); vex_rr_bytes(f, a4, src.encoding, 0, dst.encoding, VEX_SIMD_66, VEX_OPCODE_0F_38) + seq![0x8B, (0xC0 | rr_bits(src.encoding, dst.encoding))] }) } else { vex_rr_bytes(f, a3, src.encoding, 0, dst.encoding, VEX_SIMD_66, VEX_OPCODE_0F_38) + seq![0x8B, (0xC0 | rr_bits(src.encoding, dst.encoding))] }) }))
            }),
    {
        let mut attributes = InstructionAttr::new(&self.features, vector_len, false, false, false, true);
        attributes.set_embedded_opmask_register_specifier(mask);
        attributes.set_is_evex_instruction();
        if merge {
            attributes.reset_is_clear_context();
            let encode = self.vex_prefix_and_encode(src.encoding, 0, dst.encoding, VEX_SIMD_66, VEX_OPCODE_0F_38, &mut attributes);
            self.emit_int16(0x8B, (0xC0 | encode));
        } else {
            let encode = self.vex_prefix_and_encode(src.encoding, 0, dst.encoding, VEX_SIMD_66, VEX_OPCODE_0F_38, &mut attributes);
            self.emit_int16(0x8B, (0xC0 | encode));
        }
    }

    /// `evpcompressq dst, mask, src, merge, vector_len`
    pub fn evpcompressq(&mut self, dst: XMMRegister, mask: KRegister, src: XMMRegister, merge: bool, vector_len: u8)
        requires
            dst.wf(),
            mask.wf(),
            src.wf(),
            ({
                let f = old(self).features;
                (f.supports_evex()) && (((vector_len == AVX_512BIT) || f.supports_avx512vl()) && ({ let a1 = InstructionAttr::spec_new(f, vector_len, true, false, false, true); let a2 = a1.with_mask(mask); let a3 = a2.evex_only(); (if merge { ({ let a4 = a3.merging(); (vex_rr_ok(f, a4, src.encoding, 0, dst.encoding)) }) } else { (vex_rr_ok(f, a3, src.encoding, 0, dst.encoding)) }) }))
            }),
        ensures
            ({
                let f = old(self).features;
                final(self).appends(*old(self), ({ let a1 = InstructionAttr::spec_new(f, vector_len, true, false, false, true); let a2 = a1.with_mask(mask); let a3 = a2.evex_only(); (if merge { ({ let a4 = a3.merging(); vex_rr_bytes(f, a4, src.encoding, 0, dst.encoding, VEX_SIMD_66, VEX_OPCODE_0F_38) + seq![0x8B, (0xC0 | rr_bits(src.encoding, dst.encoding))] }) } else { vex_rr_bytes(f, a3, src.encoding, 0, dst.encoding, VEX_SIMD_66, VEX_OPCODE_0F_38) + seq![0x8B, (0xC0 | rr_bits(src.encoding, dst.encoding))] }) }))
            }),
    {
        let mut attributes = InstructionAttr::new(&self.features, vector_len, true, false, false, true);
        attributes.set_embedded_opmask_register_specifier(mask);
        attributes.set_is_evex_instruction();
        if merge {
            attributes.reset_is_clear_context();
            let encode = self.vex_prefix_and_encode(src.encoding, 0, dst.encoding, VEX_SIMD_66, VEX_OPCODE_0F_38, &mut attributes);
            self.emit_int16(0x8B, (0xC0 | encode));
        } else {
            let encode = self.vex_prefix_and_encode(src.encoding, 0, dst.encoding, VEX_SIMD_66, VEX_OPCODE_0F_38, &mut attributes);
            self.emit_int16(0x8B, (0xC0 | encode));
        }
    }

    /// `evcompressps dst, mask, src, merge, vector_len`
    pub fn evcompressps(&mut self, dst: XMMRegister, mask: KRegister, src: XMMRegister, merge: bool, vector_len: u8)
        requires
            dst.wf(),
            mask.wf(),
            src.wf(),
            ({
                let f = old(self).features;
                (f.supports_evex()) && (((vector_len == AVX_512BIT) || f.supports_avx512vl()) && ({ let a1 = InstructionAttr::spec_new(f, vector_len, false, false, false, true); let a2 = a1.with_mask(mask); let a3 = a2.evex_only(); (if merge { ({ let a4 = a3.merging(); (vex_rr_ok(f, a4, src.encoding, 0, dst.encoding)) }) } else { (vex_rr_ok(f, a3, src.encoding, 0, dst.encoding)) }) }))
            }),
        ensures
            ({
                let f = old(self).features;
                final(self).appends(*old(self), ({ let a1 = InstructionAttr::spec_new(f, vector_len, false, false, false, true); let a2 = a1.with_mask(mask); let a3 = a2.evex_only(); (if merge { ({ let a4 = a3.merging(); vex_rr_bytes(f, a4, src.encoding, 0, dst.encoding, VEX_SIMD_66, VEX_OPCODE_0F_38) + seq![0x8A, (0xC0 | rr_bits(src.encoding, dst.encoding))] }) } else { vex_rr_bytes(f, a3, src.encoding, 0, dst.encoding, VEX_SIMD_66, VEX_OPCODE_0F_38) + seq![0x8A, (0xC0 | rr_bits(src.encoding, dst.encoding))] }) }))
            }),
    {
        let mut attributes = InstructionAttr::new(&self.features, vector_len, false, false, false, true);
        attributes.set_embedded_opmask_register_specifier(mask);
        attributes.set_is_evex_instruction();
        if merge {
            attributes.reset_is_clear_context();
            let encode = self.vex_prefix_and_encode(src.encoding, 0, dst.encoding, VEX_SIMD_66, VEX_OPCODE_0F_38, &mut attributes);
            self.emit_int16(0x8A, (0xC0 | encode));
        } else {
            let encode = self.vex_prefix_and_encode(src.encoding, 0, dst.encoding, VEX_SIMD_66, VEX_OPCODE_0F_38, &mut attributes);
            self.emit_int16(0x8A, (0xC0 | encode));
        }
    }

    /// `evcompresspd dst, mask, src, merge, vector_len`
    pub fn evcompresspd(&mut self, dst: XMMRegister, mask: KRegister, src: XMMRegister, merge: bool, vector_len: u8)
        requires
            dst.wf(),
            mask.wf(),
            src.wf(),
            ({
                let f = old(self).features;
                (f.supports_evex()) && (((vector_len == AVX_512BIT) || f.supports_avx512vl()) && ({ let a1 = InstructionAttr::spec_new(f, vector_len, true, false, false, true); let a2 = a1.with_mask(mask); let a3 = a2.evex_only(); (if merge { ({ let a4 = a3.merging(); (vex_rr_ok(f, a4, src.encoding, 0, dst.encoding)) }) } else { (vex_rr_ok(f, a3, src.encoding, 0, dst.encoding)) }) }))
            }),
        ensures
            ({
                let f = old(self).features;
                final(self).appends(*old(self), ({ let a1 = InstructionAttr::spec_new(f, vector_len, true, false, false, true); let a2 = a1.with_mask(mask); let a3 = a2.evex_only(); (if merge { ({ let a4 = a3.merging(); vex_rr_bytes(f, a4, src.encoding, 0, dst.encoding, VEX_SIMD_66, VEX_OPCODE_0F_38) + seq![0x8A, (0xC0 | rr_bits(src.encoding, dst.encoding))] }) } else { vex_rr_bytes(f, a3, src.encoding, 0, dst.encoding, VEX_SIMD_66, VEX_OPCODE_0F_38) + seq![0x8A, (0xC0 | rr_bits(src.encoding, dst.encoding))] }) }))
            }),
    {
        let mut attributes = InstructionAttr::new(&self.features, vector_len, true, false, false, true);
        attributes.set_embedded_opmask_register_specifier(mask);
        attributes.set_is_evex_instruction();
        if merge {
            attributes.reset_is_clear_context();
            let encode = self.vex_prefix_and_encode(src.encoding, 0, dst.encoding, VEX_SIMD_66, VEX_OPCODE_0F_38, &mut attributes);
            self.emit_int16(0x8A, (0xC0 | encode));
        } else {
            let encode = self.vex_prefix_and_encode(src.encoding, 0, dst.encoding, VEX_SIMD_66, VEX_OPCODE_0F_38, &mut attributes);
            self.emit_int16(0x8A, (0xC0 | encode));
        }
    }
}

} // verus!
