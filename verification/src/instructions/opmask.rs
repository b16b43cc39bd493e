//! AVX-512 opmask (k register) instructions.
use vstd::prelude::*;
use crate::address::Address;
use crate::assembler::Assembler;
use crate::attributes::{AVX_128BIT, AVX_256BIT, InstructionAttr, VEX_OPCODE_0F, VEX_OPCODE_0F_3A, VEX_SIMD_66, VEX_SIMD_F2, VEX_SIMD_NONE};
use crate::encoding::{address_bytes, imm_byte, imm_byte_exec, rr_bits, vex_adr_attr, vex_adr_bytes, vex_adr_ok, vex_rr_bytes, vex_rr_ok};
use crate::registers::{KRegister, Register};

verus! {

impl Assembler {
    /// `kmovbl dst, src`
    pub fn kmovbl(&mut self, dst: KRegister, src: KRegister)
        requires
            dst.wf(),
            src.wf(),
            ({
                let f = old(self).features;
                (f.supports_avx512dq()) && ({ let a1 = InstructionAttr::spec_new(f, AVX_128BIT, false, true, true, false); (vex_rr_ok(f, a1, dst.encoding, 0, src.encoding)) })
            }),
        ensures
            ({
                let f = old(self).features;
                final(self).appends(*old(self), ({ let a1 = InstructionAttr::spec_new(f, AVX_128BIT, false, true, true, false); vex_rr_bytes(f, a1, dst.encoding, 0, src.encoding, VEX_SIMD_66, VEX_OPCODE_0F) + seq![0x90, (0xC0 | rr_bits(dst.encoding, src.encoding))] }))
            }),
    {
        let mut attributes = InstructionAttr::new(&self.features, AVX_128BIT, false, true, true, false);
        let encode = self.vex_prefix_and_encode(dst.encoding, 0, src.encoding, VEX_SIMD_66, VEX_OPCODE_0F, &mut attributes);
        self.emit_int16(0x90, (0xC0 | encode));
    }

    /// `kmovbl dst, src`
    pub fn kmovbl_kr(&mut self, dst: KRegister, src: Register)
        requires
            dst.wf(),
            src.wf(),
            ({
                let f = old(self).features;
                (f.supports_avx512dq()) && ({ let a1 = InstructionAttr::spec_new(f, AVX_128BIT, false, true, true, false); (vex_rr_ok(f, a1, dst.encoding, 0, src.encoding)) })
            }),
        ensures
            ({
                let f = old(self).features;
                final(self).appends(*old(self), ({ let a1 = InstructionAttr::spec_new(f, AVX_128BIT, false, true, true, false); vex_rr_bytes(f, a1, dst.encoding, 0, src.encoding, VEX_SIMD_66, VEX_OPCODE_0F) + seq![0x92, (0xC0 | rr_bits(dst.encoding, src.encoding))] }))
            }),
    {
        let mut attributes = InstructionAttr::new(&self.features, AVX_128BIT, false, true, true, false);
        let encode = self.vex_prefix_and_encode(dst.encoding, 0, src.encoding, VEX_SIMD_66, VEX_OPCODE_0F, &mut attributes);
        self.emit_int16(0x92, (0xC0 | encode));
    }

    /// `kmovbl dst, src`
    pub fn kmovbl_rk(&mut self, dst: Register, src: KRegister)
        requires
            dst.wf(),
            src.wf(),
            ({
                let f = old(self).features;
                (f.supports_avx512dq()) && ({ let a1 = InstructionAttr::spec_new(f, AVX_128BIT, false, true, true, false); (vex_rr_ok(f, a1, dst.encoding, 0, src.encoding)) })
            }),
        ensures
            ({
                let f = old(self).features;
                final(self).appends(*old(self), ({ let a1 = InstructionAttr::spec_new(f, AVX_128BIT, false, true, true, false); vex_rr_bytes(f, a1, dst.encoding, 0, src.encoding, VEX_SIMD_66, VEX_OPCODE_0F) + seq![0x93, (0xC0 | rr_bits(dst.encoding, src.encoding))] }))
            }),
    {
        let mut attributes = InstructionAttr::new(&self.features, AVX_128BIT, false, true, true, false);
        let encode = self.vex_prefix_and_encode(dst.encoding, 0, src.encoding, VEX_SIMD_66, VEX_OPCODE_0F, &mut attributes);
        self.emit_int16(0x93, (0xC0 | encode));
    }

    /// `kmovwl dst, src`
    pub fn kmovwl(&mut self, dst: KRegister, src: Register)
        requires
            dst.wf(),
            src.wf(),
            ({
                let f = old(self).features;
                (f.supports_evex()) && ({ let a1 = InstructionAttr::spec_new(f, AVX_128BIT, false, true, true, false); (vex_rr_ok(f, a1, dst.encoding, 0, src.encoding)) })
            }),
        ensures
            ({
                let f = old(self).features;
                final(self).appends(*old(self), ({ let a1 = InstructionAttr::spec_new(f, AVX_128BIT, false, true, true, false); vex_rr_bytes(f, a1, dst.encoding, 0, src.encoding, VEX_SIMD_NONE, VEX_OPCODE_0F) + seq![0x92, (0xC0 | rr_bits(dst.encoding, src.encoding))] }))
            }),
    {
        let mut attributes = InstructionAttr::new(&self.features, AVX_128BIT, false, true, true, false);
        let encode = self.vex_prefix_and_encode(dst.encoding, 0, src.encoding, VEX_SIMD_NONE, VEX_OPCODE_0F, &mut attributes);
        self.emit_int16(0x92, (0xC0 | encode));
    }

    /// `kmovwl dst, src`
    pub fn kmovwl_rk(&mut self, dst: Register, src: KRegister)
        requires
            dst.wf(),
            src.wf(),
            ({
                let f = old(self).features;
                (f.supports_evex()) && ({ let a1 = InstructionAttr::spec_new(f, AVX_128BIT, false, true, true, false); (vex_rr_ok(f, a1, dst.encoding, 0, src.encoding)) })
            }),
        ensures
            ({
                let f = old(self).features;
                final(self).appends(*old(self), ({ let a1 = InstructionAttr::spec_new(f, AVX_128BIT, false, true, true, false); vex_rr_bytes(f, a1, dst.encoding, 0, src.encoding, VEX_SIMD_NONE, VEX_OPCODE_0F) + seq![0x93, (0xC0 | rr_bits(dst.encoding, src.encoding))] }))
            }),
    {
        let mut attributes = InstructionAttr::new(&self.features, AVX_128BIT, false, true, true, false);
        let encode = self.vex_prefix_and_encode(dst.encoding, 0, src.encoding, VEX_SIMD_NONE, VEX_OPCODE_0F, &mut attributes);
        self.emit_int16(0x93, (0xC0 | encode));
    }

    /// `kmovwl dst, [src]`
    pub fn kmovwl_km(&mut self, dst: KRegister, src: Address)
        requires
            dst.wf(),
            src.wf(),
            ({
                let f = old(self).features;
                (f.supports_evex()) && ({ let a1 = InstructionAttr::spec_new(f, AVX_128BIT, false, true, true, false); (vex_adr_ok(f, a1, 0, dst.encoding, src)) })
            }),
        ensures
            ({
                let f = old(self).features;
                final(self).appends(*old(self), ({ let a1 = InstructionAttr::spec_new(f, AVX_128BIT, false, true, true, false); vex_adr_bytes(f, a1, src, 0, dst.encoding, VEX_SIMD_NONE, VEX_OPCODE_0F) + ({ let a2 = vex_adr_attr(f, a1, 0, dst.encoding); seq![0x90] + address_bytes(f, Some(a2), dst.encoding, src, true) }) }))
            }),
    {
        let mut attributes = InstructionAttr::new(&self.features, AVX_128BIT, false, true, true, false);
        self.vex_prefix(&src, 0, dst.encoding, VEX_SIMD_NONE, VEX_OPCODE_0F, &mut attributes);
        self.emit_int8(0x90);
        self.emit_operand_attr(dst.encoding, &src, &attributes, true);
    }

    /// `kmovwl [dst], src`
    pub fn kmovwl_mk(&mut self, dst: Address, src: KRegister)
        requires
            dst.wf(),
            src.wf(),
            ({
                let f = old(self).features;
                (f.supports_evex()) && ({ let a1 = InstructionAttr::spec_new(f, AVX_128BIT, false, true, true, false); (vex_adr_ok(f, a1, 0, src.encoding, dst)) })
            }),
        ensures
            ({
                let f = old(self).features;
                final(self).appends(*old(self), ({ let a1 = InstructionAttr::spec_new(f, AVX_128BIT, false, true, true, false); vex_adr_bytes(f, a1, dst, 0, src.encoding, VEX_SIMD_NONE, VEX_OPCODE_0F) + ({ let a2 = vex_adr_attr(f, a1, 0, src.encoding); seq![0x91] + address_bytes(f, Some(a2), src.encoding, dst, true) }) }))
            }),
    {
        let mut attributes = InstructionAttr::new(&self.features, AVX_128BIT, false, true, true, false);
        self.vex_prefix(&dst, 0, src.encoding, VEX_SIMD_NONE, VEX_OPCODE_0F, &mut attributes);
        self.emit_int8(0x91);
        self.emit_operand_attr(src.encoding, &dst, &attributes, true);
    }

    /// `kmovwl dst, src`
    pub fn kmovwl_kk(&mut self, dst: KRegister, src: KRegister)
        requires
            dst.wf(),
            src.wf(),
            ({
                let f = old(self).features;
                (f.supports_evex()) && ({ let a1 = InstructionAttr::spec_new(f, AVX_128BIT, false, true, true, false); (vex_rr_ok(f, a1, dst.encoding, 0, src.encoding)) })
            }),
        ensures
            ({
                let f = old(self).features;
                final(self).appends(*old(self), ({ let a1 = InstructionAttr::spec_new(f, AVX_128BIT, false, true, true, false); vex_rr_bytes(f, a1, dst.encoding, 0, src.encoding, VEX_SIMD_NONE, VEX_OPCODE_0F) + seq![0x90, (0xC0 | rr_bits(dst.encoding, src.encoding))] }))
            }),
    {
        let mut attributes = InstructionAttr::new(&self.features, AVX_128BIT, false, true, true, false);
        let encode = self.vex_prefix_and_encode(dst.encoding, 0, src.encoding, VEX_SIMD_NONE, VEX_OPCODE_0F, &mut attributes);
        self.emit_int16(0x90, (0xC0 | encode));
    }

    /// `kmovdl dst, src`
    pub fn kmovdl(&mut self, dst: KRegister, src: Register)
        requires
            dst.wf(),
            src.wf(),
            ({
                let f = old(self).features;
                (f.supports_avx512bw()) && ({ let a1 = InstructionAttr::spec_new(f, AVX_128BIT, false, true, true, false); (vex_rr_ok(f, a1, dst.encoding, 0, src.encoding)) })
            }),
        ensures
            ({
                let f = old(self).features;
                final(self).appends(*old(self), ({ let a1 = InstructionAttr::spec_new(f, AVX_128BIT, false, true, true, false); vex_rr_bytes(f, a1, dst.encoding, 0, src.encoding, VEX_SIMD_F2, VEX_OPCODE_0F) + seq![0x92, (0xC0 | rr_bits(dst.encoding, src.encoding))] }))
            }),
    {
        let mut attributes = InstructionAttr::new(&self.features, AVX_128BIT, false, true, true, false);
        let encode = self.vex_prefix_and_encode(dst.encoding, 0, src.encoding, VEX_SIMD_F2, VEX_OPCODE_0F, &mut attributes);
        self.emit_int16(0x92, (0xC0 | encode));
    }

    /// `kmovdl dst, src`
    pub fn kmovdl_rk(&mut self, dst: Register, src: KRegister)
        requires
            dst.wf(),
            src.wf(),
            ({
                let f = old(self).features;
                (f.supports_avx512bw()) && ({ let a1 = InstructionAttr::spec_new(f, AVX_128BIT, false, true, true, false); (vex_rr_ok(f, a1, dst.encoding, 0, src.encoding)) })
            }),
        ensures
            ({
                let f = old(self).features;
                final(self).appends(*old(self), ({ let a1 = InstructionAttr::spec_new(f, AVX_128BIT, false, true, true, false); vex_rr_bytes(f, a1, dst.encoding, 0, src.encoding, VEX_SIMD_F2, VEX_OPCODE_0F) + seq![0x93, (0xC0 | rr_bits(dst.encoding, src.encoding))] }))
            }),
    {
        let mut attributes = InstructionAttr::new(&self.features, AVX_128BIT, false, true, true, false);
        let encode = self.vex_prefix_and_encode(dst.encoding, 0, src.encoding, VEX_SIMD_F2, VEX_OPCODE_0F, &mut attributes);
        self.emit_int16(0x93, (0xC0 | encode));
    }

    /// `kmovql dst, src`
    pub fn kmovql(&mut self, dst: KRegister, src: KRegister)
        requires
            dst.wf(),
            src.wf(),
            ({
                let f = old(self).features;
                (f.supports_avx512bw()) && ({ let a1 = InstructionAttr::spec_new(f, AVX_128BIT, true, true, true, false); (vex_rr_ok(f, a1, dst.encoding, 0, src.encoding)) })
            }),
        ensures
            ({
                let f = old(self).features;
                final(self).appends(*old(self), ({ let a1 = InstructionAttr::spec_new(f, AVX_128BIT, true, true, true, false); vex_rr_bytes(f, a1, dst.encoding, 0, src.encoding, VEX_SIMD_NONE, VEX_OPCODE_0F) + seq![0x90, (0xC0 | rr_bits(dst.encoding, src.encoding))] }))
            }),
    {
        let mut attributes = InstructionAttr::new(&self.features, AVX_128BIT, true, true, true, false);
        let encode = self.vex_prefix_and_encode(dst.encoding, 0, src.encoding, VEX_SIMD_NONE, VEX_OPCODE_0F, &mut attributes);
        self.emit_int16(0x90, (0xC0 | encode));
    }

    /// `kmovql dst, [src]`
    pub fn kmovql_km(&mut self, dst: KRegister, src: Address)
        requires
            dst.wf(),
            src.wf(),
            ({
                let f = old(self).features;
                (f.supports_avx512bw()) && ({ let a1 = InstructionAttr::spec_new(f, AVX_128BIT, true, true, true, false); (vex_adr_ok(f, a1, 0, dst.encoding, src)) })
            }),
        ensures
            ({
                let f = old(self).features;
                final(self).appends(*old(self), ({ let a1 = InstructionAttr::spec_new(f, AVX_128BIT, true, true, true, false); vex_adr_bytes(f, a1, src, 0, dst.encoding, VEX_SIMD_NONE, VEX_OPCODE_0F) + ({ let a2 = vex_adr_attr(f, a1, 0, dst.encoding); seq![0x90] + address_bytes(f, Some(a2), dst.encoding, src, true) }) }))
            }),
    {
        let mut attributes = InstructionAttr::new(&self.features, AVX_128BIT, true, true, true, false);
        self.vex_prefix(&src, 0, dst.encoding, VEX_SIMD_NONE, VEX_OPCODE_0F, &mut attributes);
        self.emit_int8(0x90);
        self.emit_operand_attr(dst.encoding, &src, &attributes, true);
    }

    /// `kmovql [dst], src`
    pub fn kmovql_mk(&mut self, dst: Address, src: KRegister)
        requires
            dst.wf(),
            src.wf(),
            ({
                let f = old(self).features;
                (f.supports_avx512bw()) && ({ let a1 = InstructionAttr::spec_new(f, AVX_128BIT, true, true, true, false); (vex_adr_ok(f, a1, 0, src.encoding, dst)) })
            }),
        ensures
            ({
                let f = old(self).features;
                final(self).appends(*old(self), ({ let a1 = InstructionAttr::spec_new(f, AVX_128BIT, true, true, true, false); vex_adr_bytes(f, a1, dst, 0, src.encoding, VEX_SIMD_NONE, VEX_OPCODE_0F) + ({ let a2 = vex_adr_attr(f, a1, 0, src.encoding); seq![0x91] + address_bytes(f, Some(a2), src.encoding, dst, true) }) }))
            }),
    {
        let mut attributes = InstructionAttr::new(&self.features, AVX_128BIT, true, true, true, false);
        self.vex_prefix(&dst, 0, src.encoding, VEX_SIMD_NONE, VEX_OPCODE_0F, &mut attributes);
        self.emit_int8(0x91);
        self.emit_operand_attr(src.encoding, &dst, &attributes, true);
    }

    /// `kmovql dst, src`
    pub fn kmovql_kr(&mut self, dst: KRegister, src: Register)
        requires
            dst.wf(),
            src.wf(),
            ({
                let f = old(self).features;
                (f.supports_avx512bw()) && ({ let a1 = InstructionAttr::spec_new(f, AVX_128BIT, true, true, true, false); (vex_rr_ok(f, a1, dst.encoding, 0, src.encoding)) })
            }),
        ensures
            ({
                let f = old(self).features;
                final(self).appends(*old(self), ({ let a1 = InstructionAttr::spec_new(f, AVX_128BIT, true, true, true, false); vex_rr_bytes(f, a1, dst.encoding, 0, src.encoding, VEX_SIMD_F2, VEX_OPCODE_0F) + seq![0x92, (0xC0 | rr_bits(dst.encoding, src.encoding))] }))
            }),
    {
        let mut attributes = InstructionAttr::new(&self.features, AVX_128BIT, true, true, true, false);
        let encode = self.vex_prefix_and_encode(dst.encoding, 0, src.encoding, VEX_SIMD_F2, VEX_OPCODE_0F, &mut attributes);
        self.emit_int16(0x92, (0xC0 | encode));
    }

    /// `kmovql dst, src`
    pub fn kmovql_rk(&mut self, dst: Register, src: KRegister)
        requires
            dst.wf(),
            src.wf(),
            ({
                let f = old(self).features;
                (f.supports_avx512bw()) && ({ let a1 = InstructionAttr::spec_new(f, AVX_128BIT, true, true, true, false); (vex_rr_ok(f, a1, dst.encoding, 0, src.encoding)) })
            }),
        ensures
            ({
                let f = old(self).features;
                final(self).appends(*old(self), ({ let a1 = InstructionAttr::spec_new(f, AVX_128BIT, true, true, true, false); vex_rr_bytes(f, a1, dst.encoding, 0, src.encoding, VEX_SIMD_F2, VEX_OPCODE_0F) + seq![0x93, (0xC0 | rr_bits(dst.encoding, src.encoding))] }))
            }),
    {
        let mut attributes = InstructionAttr::new(&self.features, AVX_128BIT, true, true, true, false);
        let encode = self.vex_prefix_and_encode(dst.encoding, 0, src.encoding, VEX_SIMD_F2, VEX_OPCODE_0F, &mut attributes);
        self.emit_int16(0x93, (0xC0 | encode));
    }

    /// `knotwl dst, src`
    pub fn knotwl(&mut self, dst: KRegister, src: KRegister)
        requires
            dst.wf(),
            src.wf(),
            ({
                let f = old(self).features;
                (f.supports_evex()) && ({ let a1 = InstructionAttr::spec_new(f, AVX_128BIT, false, true, true, false); (vex_rr_ok(f, a1, dst.encoding, 0, src.encoding)) })
            }),
        ensures
            ({
                let f = old(self).features;
                final(self).appends(*old(self), ({ let a1 = InstructionAttr::spec_new(f, AVX_128BIT, false, true, true, false); vex_rr_bytes(f, a1, dst.encoding, 0, src.encoding, VEX_SIMD_NONE, VEX_OPCODE_0F) + seq![0x44, (0xC0 | rr_bits(dst.encoding, src.encoding))] }))
            }),
    {
        let mut attributes = InstructionAttr::new(&self.features, AVX_128BIT, false, true, true, false);
        let encode = self.vex_prefix_and_encode(dst.encoding, 0, src.encoding, VEX_SIMD_NONE, VEX_OPCODE_0F, &mut attributes);
        self.emit_int16(0x44, (0xC0 | encode));
    }

    /// `knotbl dst, src`
    pub fn knotbl(&mut self, dst: KRegister, src: KRegister)
        requires
            dst.wf(),
            src.wf(),
            ({
                let f = old(self).features;
                (f.supports_evex()) && ({ let a1 = InstructionAttr::spec_new(f, AVX_128BIT, false, true, true, false); (vex_rr_ok(f, a1, dst.encoding, 0, src.encoding)) })
            }),
        ensures
            ({
                let f = old(self).features;
                final(self).appends(*old(self), ({ let a1 = InstructionAttr::spec_new(f, AVX_128BIT, false, true, true, false); vex_rr_bytes(f, a1, dst.encoding, 0, src.encoding, VEX_SIMD_66, VEX_OPCODE_0F) + seq![0x44, (0xC0 | rr_bits(dst.encoding, src.encoding))] }))
            }),
    {
        let mut attributes = InstructionAttr::new(&self.features, AVX_128BIT, false, true, true, false);
        let encode = self.vex_prefix_and_encode(dst.encoding, 0, src.encoding, VEX_SIMD_66, VEX_OPCODE_0F, &mut attributes);
        self.emit_int16(0x44, (0xC0 | encode));
    }

    /// `korbl dst, src1, src2`
    pub fn korbl(&mut self, dst: KRegister, src1: KRegister, src2: KRegister)
        requires
            dst.wf(),
            src1.wf(),
            src2.wf(),
            ({
                let f = old(self).features;
                (f.supports_avx512dq()) && ({ let a1 = InstructionAttr::spec_new(f, AVX_256BIT, false, true, true, false); (vex_rr_ok(f, a1, dst.encoding, src1.encoding, src2.encoding)) })
            }),
        ensures
            ({
                let f = old(self).features;
                final(self).appends(*old(self), ({ let a1 = InstructionAttr::spec_new(f, AVX_256BIT, false, true, true, false); vex_rr_bytes(f, a1, dst.encoding, src1.encoding, src2.encoding, VEX_SIMD_66, VEX_OPCODE_0F) + seq![0x45, (0xC0 | rr_bits(dst.encoding, src2.encoding))] }))
            }),
    {
        let mut attributes = InstructionAttr::new(&self.features, AVX_256BIT, false, true, true, false);
        let encode = self.vex_prefix_and_encode(dst.encoding, src1.encoding, src2.encoding, VEX_SIMD_66, VEX_OPCODE_0F, &mut attributes);
        self.emit_int16(0x45, (0xC0 | encode));
    }

    /// `korwl dst, src1, src2`
    pub fn korwl(&mut self, dst: KRegister, src1: KRegister, src2: KRegister)
        requires
            dst.wf(),
            src1.wf(),
            src2.wf(),
            ({
                let f = old(self).features;
                (f.supports_evex()) && ({ let a1 = InstructionAttr::spec_new(f, AVX_256BIT, false, true, true, false); (vex_rr_ok(f, a1, dst.encoding, src1.encoding, src2.encoding)) })
            }),
        ensures
            ({
                let f = old(self).features;
                final(self).appends(*old(self), ({ let a1 = InstructionAttr::spec_new(f, AVX_256BIT, false, true, true, false); vex_rr_bytes(f, a1, dst.encoding, src1.encoding, src2.encoding, VEX_SIMD_NONE, VEX_OPCODE_0F) + seq![0x45, (0xC0 | rr_bits(dst.encoding, src2.encoding))] }))
            }),
    {
        let mut attributes = InstructionAttr::new(&self.features, AVX_256BIT, false, true, true, false);
        let encode = self.vex_prefix_and_encode(dst.encoding, src1.encoding, src2.encoding, VEX_SIMD_NONE, VEX_OPCODE_0F, &mut attributes);
        self.emit_int16(0x45, (0xC0 | encode));
    }

    /// `kordl dst, src1, src2`
    pub fn kordl(&mut self, dst: KRegister, src1: KRegister, src2: KRegister)
        requires
            dst.wf(),
            src1.wf(),
            src2.wf(),
            ({
                let f = old(self).features;
                (f.supports_avx512bw()) && ({ let a1 = InstructionAttr::spec_new(f, AVX_256BIT, true, true, true, false); (vex_rr_ok(f, a1, dst.encoding, src1.encoding, src2.encoding)) })
            }),
        ensures
            ({
                let f = old(self).features;
                final(self).appends(*old(self), ({ let a1 = InstructionAttr::spec_new(f, AVX_256BIT, true, true, true, false); vex_rr_bytes(f, a1, dst.encoding, src1.encoding, src2.encoding, VEX_SIMD_66, VEX_OPCODE_0F) + seq![0x45, (0xC0 | rr_bits(dst.encoding, src2.encoding))] }))
            }),
    {
        let mut attributes = InstructionAttr::new(&self.features, AVX_256BIT, true, true, true, false);
        let encode = self.vex_prefix_and_encode(dst.encoding, src1.encoding, src2.encoding, VEX_SIMD_66, VEX_OPCODE_0F, &mut attributes);
        self.emit_int16(0x45, (0xC0 | encode));
    }

    /// `korql dst, src1, src2`
    pub fn korql(&mut self, dst: KRegister, src1: KRegister, src2: KRegister)
        requires
            dst.wf(),
            src1.wf(),
            src2.wf(),
            ({
                let f = old(self).features;
                (f.supports_avx512bw()) && ({ let a1 = InstructionAttr::spec_new(f, AVX_256BIT, true, true, true, false); (vex_rr_ok(f, a1, dst.encoding, src1.encoding, src2.encoding)) })
            }),
        ensures
            ({
                let f = old(self).features;
                final(self).appends(*old(self), ({ let a1 = InstructionAttr::spec_new(f, AVX_256BIT, true, true, true, false); vex_rr_bytes(f, a1, dst.encoding, src1.encoding, src2.encoding, VEX_SIMD_NONE, VEX_OPCODE_0F) + seq![0x45, (0xC0 | rr_bits(dst.encoding, src2.encoding))] }))
            }),
    {
        let mut attributes = InstructionAttr::new(&self.features, AVX_256BIT, true, true, true, false);
        let encode = self.vex_prefix_and_encode(dst.encoding, src1.encoding, src2.encoding, VEX_SIMD_NONE, VEX_OPCODE_0F, &mut attributes);
        self.emit_int16(0x45, (0xC0 | encode));
    }

    /// `kxorbl dst, src1, src2`
    pub fn kxorbl(&mut self, dst: KRegister, src1: KRegister, src2: KRegister)
        requires
            dst.wf(),
            src1.wf(),
            src2.wf(),
            ({
                let f = old(self).features;
                (f.supports_avx512dq()) && ({ let a1 = InstructionAttr::spec_new(f, AVX_256BIT, false, true, true, false); (vex_rr_ok(f, a1, dst.encoding, src1.encoding, src2.encoding)) })
            }),
        ensures
            ({
                let f = old(self).features;
                final(self).appends(*old(self), ({ let a1 = InstructionAttr::spec_new(f, AVX_256BIT, false, true, true, false); vex_rr_bytes(f, a1, dst.encoding, src1.encoding, src2.encoding, VEX_SIMD_66, VEX_OPCODE_0F) + seq![0x47, (0xC0 | rr_bits(dst.encoding, src2.encoding))] }))
            }),
    {
        let mut attributes = InstructionAttr::new(&self.features, AVX_256BIT, false, true, true, false);
        let encode = self.vex_prefix_and_encode(dst.encoding, src1.encoding, src2.encoding, VEX_SIMD_66, VEX_OPCODE_0F, &mut attributes);
        self.emit_int16(0x47, (0xC0 | encode));
    }

    /// `kxorwl dst, src1, src2`
    pub fn kxorwl(&mut self, dst: KRegister, src1: KRegister, src2: KRegister)
        requires
            dst.wf(),
            src1.wf(),
            src2.wf(),
            ({
                let f = old(self).features;
                (f.supports_evex()) && ({ let a1 = InstructionAttr::spec_new(f, AVX_256BIT, false, true, true, false); (vex_rr_ok(f, a1, dst.encoding, src1.encoding, src2.encoding)) })
            }),
        ensures
            ({
                let f = old(self).features;
                final(self).appends(*old(self), ({ let a1 = InstructionAttr::spec_new(f, AVX_256BIT, false, true, true, false); vex_rr_bytes(f, a1, dst.encoding, src1.encoding, src2.encoding, VEX_SIMD_NONE, VEX_OPCODE_0F) + seq![0x47, (0xC0 | rr_bits(dst.encoding, src2.encoding))] }))
            }),
    {
        let mut attributes = InstructionAttr::new(&self.features, AVX_256BIT, false, true, true, false);
        let encode = self.vex_prefix_and_encode(dst.encoding, src1.encoding, src2.encoding, VEX_SIMD_NONE, VEX_OPCODE_0F, &mut attributes);
        self.emit_int16(0x47, (0xC0 | encode));
    }

    /// `kxordl dst, src1, src2`
    pub fn kxordl(&mut self, dst: KRegister, src1: KRegister, src2: KRegister)
        requires
            dst.wf(),
            src1.wf(),
            src2.wf(),
            ({
                let f = old(self).features;
                (f.supports_avx512bw()) && ({ let a1 = InstructionAttr::spec_new(f, AVX_256BIT, true, true, true, false); (vex_rr_ok(f, a1, dst.encoding, src1.encoding, src2.encoding)) })
            }),
        ensures
            ({
                let f = old(self).features;
                final(self).appends(*old(self), ({ let a1 = InstructionAttr::spec_new(f, AVX_256BIT, true, true, true, false); vex_rr_bytes(f, a1, dst.encoding, src1.encoding, src2.encoding, VEX_SIMD_66, VEX_OPCODE_0F) + seq![0x47, (0xC0 | rr_bits(dst.encoding, src2.encoding))] }))
            }),
    {
        let mut attributes = InstructionAttr::new(&self.features, AVX_256BIT, true, true, true, false);
        let encode = self.vex_prefix_and_encode(dst.encoding, src1.encoding, src2.encoding, VEX_SIMD_66, VEX_OPCODE_0F, &mut attributes);
        self.emit_int16(0x47, (0xC0 | encode));
    }

    /// `kxorql dst, src1, src2`
    pub fn kxorql(&mut self, dst: KRegister, src1: KRegister, src2: KRegister)
        requires
            dst.wf(),
            src1.wf(),
            src2.wf(),
            ({
                let f = old(self).features;
                (f.supports_avx512bw()) && ({ let a1 = InstructionAttr::spec_new(f, AVX_256BIT, true, true, true, false); (vex_rr_ok(f, a1, dst.encoding, src1.encoding, src2.encoding)) })
            }),
        ensures
            ({
                let f = old(self).features;
                final(self).appends(*old(self), ({ let a1 = InstructionAttr::spec_new(f, AVX_256BIT, true, true, true, false); vex_rr_bytes(f, a1, dst.encoding, src1.encoding, src2.encoding, VEX_SIMD_NONE, VEX_OPCODE_0F) + seq![0x47, (0xC0 | rr_bits(dst.encoding, src2.encoding))] }))
            }),
    {
        let mut attributes = InstructionAttr::new(&self.features, AVX_256BIT, true, true, true, false);
        let encode = self.vex_prefix_and_encode(dst.encoding, src1.encoding, src2.encoding, VEX_SIMD_NONE, VEX_OPCODE_0F, &mut attributes);
        self.emit_int16(0x47, (0xC0 | encode));
    }

    /// `kandbl dst, src1, src2`
    pub fn kandbl(&mut self, dst: KRegister, src1: KRegister, src2: KRegister)
        requires
            dst.wf(),
            src1.wf(),
            src2.wf(),
            ({
                let f = old(self).features;
                (f.supports_avx512dq()) && ({ let a1 = InstructionAttr::spec_new(f, AVX_256BIT, false, true, true, false); (vex_rr_ok(f, a1, dst.encoding, src1.encoding, src2.encoding)) })
            }),
        ensures
            ({
                let f = old(self).features;
                final(self).appends(*old(self), ({ let a1 = InstructionAttr::spec_new(f, AVX_256BIT, false, true, true, false); vex_rr_bytes(f, a1, dst.encoding, src1.encoding, src2.encoding, VEX_SIMD_66, VEX_OPCODE_0F) + seq![0x41, (0xC0 | rr_bits(dst.encoding, src2.encoding))] }))
            }),
    {
        let mut attributes = InstructionAttr::new(&self.features, AVX_256BIT, false, true, true, false);
        let encode = self.vex_prefix_and_encode(dst.encoding, src1.encoding, src2.encoding, VEX_SIMD_66, VEX_OPCODE_0F, &mut attributes);
        self.emit_int16(0x41, (0xC0 | encode));
    }

    /// `kandwl dst, src1, src2`
    pub fn kandwl(&mut self, dst: KRegister, src1: KRegister, src2: KRegister)
        requires
            dst.wf(),
            src1.wf(),
            src2.wf(),
            ({
                let f = old(self).features;
                (f.supports_evex()) && ({ let a1 = InstructionAttr::spec_new(f, AVX_256BIT, false, true, true, false); (vex_rr_ok(f, a1, dst.encoding, src1.encoding, src2.encoding)) })
            }),
        ensures
            ({
                let f = old(self).features;
                final(self).appends(*old(self), ({ let a1 = InstructionAttr::spec_new(f, AVX_256BIT, false, true, true, false); vex_rr_bytes(f, a1, dst.encoding, src1.encoding, src2.encoding, VEX_SIMD_NONE, VEX_OPCODE_0F) + seq![0x41, (0xC0 | rr_bits(dst.encoding, src2.encoding))] }))
            }),
    {
        let mut attributes = InstructionAttr::new(&self.features, AVX_256BIT, false, true, true, false);
        let encode = self.vex_prefix_and_encode(dst.encoding, src1.encoding, src2.encoding, VEX_SIMD_NONE, VEX_OPCODE_0F, &mut attributes);
        self.emit_int16(0x41, (0xC0 | encode));
    }

    /// `kanddl dst, src1, src2`
    pub fn kanddl(&mut self, dst: KRegister, src1: KRegister, src2: KRegister)
        requires
            dst.wf(),
            src1.wf(),
            src2.wf(),
            ({
                let f = old(self).features;
                (f.supports_avx512bw()) && ({ let a1 = InstructionAttr::spec_new(f, AVX_256BIT, true, true, true, false); (vex_rr_ok(f, a1, dst.encoding, src1.encoding, src2.encoding)) })
            }),
        ensures
            ({
                let f = old(self).features;
                final(self).appends(*old(self), ({ let a1 = InstructionAttr::spec_new(f, AVX_256BIT, true, true, true, false); vex_rr_bytes(f, a1, dst.encoding, src1.encoding, src2.encoding, VEX_SIMD_66, VEX_OPCODE_0F) + seq![0x41, (0xC0 | rr_bits(dst.encoding, src2.encoding))] }))
            }),
    {
        let mut attributes = InstructionAttr::new(&self.features, AVX_256BIT, true, true, true, false);
        let encode = self.vex_prefix_and_encode(dst.encoding, src1.encoding, src2.encoding, VEX_SIMD_66, VEX_OPCODE_0F, &mut attributes);
        self.emit_int16(0x41, (0xC0 | encode));
    }

    /// `kandql dst, src1, src2`
    pub fn kandql(&mut self, dst: KRegister, src1: KRegister, src2: KRegister)
        requires
            dst.wf(),
            src1.wf(),
            src2.wf(),
            ({
                let f = old(self).features;
                (f.supports_avx512bw()) && ({ let a1 = InstructionAttr::spec_new(f, AVX_256BIT, true, true, true, false); (vex_rr_ok(f, a1, dst.encoding, src1.encoding, src2.encoding)) })
            }),
        ensures
            ({
                let f = old(self).features;
                final(self).appends(*old(self), ({ let a1 = InstructionAttr::spec_new(f, AVX_256BIT, true, true, true, false); vex_rr_bytes(f, a1, dst.encoding, src1.encoding, src2.encoding, VEX_SIMD_NONE, VEX_OPCODE_0F) + seq![0x41, (0xC0 | rr_bits(dst.encoding, src2.encoding))] }))
            }),
    {
        let mut attributes = InstructionAttr::new(&self.features, AVX_256BIT, true, true, true, false);
        let encode = self.vex_prefix_and_encode(dst.encoding, src1.encoding, src2.encoding, VEX_SIMD_NONE, VEX_OPCODE_0F, &mut attributes);
        self.emit_int16(0x41, (0xC0 | encode));
    }

    /// `knotdl dst, src`
    pub fn knotdl(&mut self, dst: KRegister, src: KRegister)
        requires
            dst.wf(),
            src.wf(),
            ({
                let f = old(self).features;
                (f.supports_avx512bw()) && ({ let a1 = InstructionAttr::spec_new(f, AVX_128BIT, true, true, true, false); (vex_rr_ok(f, a1, dst.encoding, 0, src.encoding)) })
            }),
        ensures
            ({
                let f = old(self).features;
                final(self).appends(*old(self), ({ let a1 = InstructionAttr::spec_new(f, AVX_128BIT, true, true, true, false); vex_rr_bytes(f, a1, dst.encoding, 0, src.encoding, VEX_SIMD_66, VEX_OPCODE_0F) + seq![0x44, (0xC0 | rr_bits(dst.encoding, src.encoding))] }))
            }),
    {
        let mut attributes = InstructionAttr::new(&self.features, AVX_128BIT, true, true, true, false);
        let encode = self.vex_prefix_and_encode(dst.encoding, 0, src.encoding, VEX_SIMD_66, VEX_OPCODE_0F, &mut attributes);
        self.emit_int16(0x44, (0xC0 | encode));
    }

    /// `knotql dst, src`
    pub fn knotql(&mut self, dst: KRegister, src: KRegister)
        requires
            dst.wf(),
            src.wf(),
            ({
                let f = old(self).features;
                (f.supports_avx512bw()) && ({ let a1 = InstructionAttr::spec_new(f, AVX_128BIT, true, true, true, false); (vex_rr_ok(f, a1, dst.encoding, 0, src.encoding)) })
            }),
        ensures
            ({
                let f = old(self).features;
                final(self).appends(*old(self), ({ let a1 = InstructionAttr::spec_new(f, AVX_128BIT, true, true, true, false); vex_rr_bytes(f, a1, dst.encoding, 0, src.encoding, VEX_SIMD_NONE, VEX_OPCODE_0F) + seq![0x44, (0xC0 | rr_bits(dst.encoding, src.encoding))] }))
            }),
    {
        let mut attributes = InstructionAttr::new(&self.features, AVX_128BIT, true, true, true, false);
        let encode = self.vex_prefix_and_encode(dst.encoding, 0, src.encoding, VEX_SIMD_NONE, VEX_OPCODE_0F, &mut attributes);
        self.emit_int16(0x44, (0xC0 | encode));
    }

    /// `kortestbl src1, src2`
    pub fn kortestbl(&mut self, src1: KRegister, src2: KRegister)
        requires
            src1.wf(),
            src2.wf(),
            ({
                let f = old(self).features;
                (f.supports_avx512dq()) && ({ let a1 = InstructionAttr::spec_new(f, AVX_128BIT, false, true, true, false); (vex_rr_ok(f, a1, src1.encoding, 0, src2.encoding)) })
            }),
        ensures
            ({
                let f = old(self).features;
                final(self).appends(*old(self), ({ let a1 = InstructionAttr::spec_new(f, AVX_128BIT, false, true, true, false); vex_rr_bytes(f, a1, src1.encoding, 0, src2.encoding, VEX_SIMD_66, VEX_OPCODE_0F) + seq![0x98, (0xC0 | rr_bits(src1.encoding, src2.encoding))] }))
            }),
    {
        let mut attributes = InstructionAttr::new(&self.features, AVX_128BIT, false, true, true, false);
        let encode = self.vex_prefix_and_encode(src1.encoding, 0, src2.encoding, VEX_SIMD_66, VEX_OPCODE_0F, &mut attributes);
        self.emit_int16(0x98, (0xC0 | encode));
    }

    /// `kortestwl src1, src2`
    pub fn kortestwl(&mut self, src1: KRegister, src2: KRegister)
        requires
            src1.wf(),
            src2.wf(),
            ({
                let f = old(self).features;
                (f.supports_evex()) && ({ let a1 = InstructionAttr::spec_new(f, AVX_128BIT, false, true, true, false); (vex_rr_ok(f, a1, src1.encoding, 0, src2.encoding)) })
            }),
        ensures
            ({
                let f = old(self).features;
                final(self).appends(*old(self), ({ let a1 = InstructionAttr::spec_new(f, AVX_128BIT, false, true, true, false); vex_rr_bytes(f, a1, src1.encoding, 0, src2.encoding, VEX_SIMD_NONE, VEX_OPCODE_0F) + seq![0x98, (0xC0 | rr_bits(src1.encoding, src2.encoding))] }))
            }),
    {
        let mut attributes = InstructionAttr::new(&self.features, AVX_128BIT, false, true, true, false);
        let encode = self.vex_prefix_and_encode(src1.encoding, 0, src2.encoding, VEX_SIMD_NONE, VEX_OPCODE_0F, &mut attributes);
        self.emit_int16(0x98, (0xC0 | encode));
    }

    /// `kortestdl src1, src2`
    pub fn kortestdl(&mut self, src1: KRegister, src2: KRegister)
        requires
            src1.wf(),
            src2.wf(),
            ({
                let f = old(self).features;
                (f.supports_avx512bw()) && ({ let a1 = InstructionAttr::spec_new(f, AVX_128BIT, true, true, true, false); (vex_rr_ok(f, a1, src1.encoding, 0, src2.encoding)) })
            }),
        ensures
            ({
                let f = old(self).features;
                final(self).appends(*old(self), ({ let a1 = InstructionAttr::spec_new(f, AVX_128BIT, true, true, true, false); vex_rr_bytes(f, a1, src1.encoding, 0, src2.encoding, VEX_SIMD_66, VEX_OPCODE_0F) + seq![0x98, (0xC0 | rr_bits(src1.encoding, src2.encoding))] }))
            }),
    {
        let mut attributes = InstructionAttr::new(&self.features, AVX_128BIT, true, true, true, false);
        let encode = self.vex_prefix_and_encode(src1.encoding, 0, src2.encoding, VEX_SIMD_66, VEX_OPCODE_0F, &mut attributes);
        self.emit_int16(0x98, (0xC0 | encode));
    }

    /// `kortestql src1, src2`
    pub fn kortestql(&mut self, src1: KRegister, src2: KRegister)
        requires
            src1.wf(),
            src2.wf(),
            ({
                let f = old(self).features;
                (f.supports_avx512bw()) && ({ let a1 = InstructionAttr::spec_new(f, AVX_128BIT, true, true, true, false); (vex_rr_ok(f, a1, src1.encoding, 0, src2.encoding)) })
            }),
        ensures
            ({
                let f = old(self).features;
                final(self).appends(*old(self), ({ let a1 = InstructionAttr::spec_new(f, AVX_128BIT, true, true, true, false); vex_rr_bytes(f, a1, src1.encoding, 0, src2.encoding, VEX_SIMD_NONE, VEX_OPCODE_0F) + seq![0x98, (0xC0 | rr_bits(src1.encoding, src2.encoding))] }))
            }),
    {
        let mut attributes = InstructionAttr::new(&self.features, AVX_128BIT, true, true, true, false);
        let encode = self.vex_prefix_and_encode(src1.encoding, 0, src2.encoding, VEX_SIMD_NONE, VEX_OPCODE_0F, &mut attributes);
        self.emit_int16(0x98, (0xC0 | encode));
    }

    /// `ktestql src1, src2`
    pub fn ktestql(&mut self, src1: KRegister, src2: KRegister)
        requires
            src1.wf(),
            src2.wf(),
            ({
                let f = old(self).features;
                (f.supports_avx512bw()) && ({ let a1 = InstructionAttr::spec_new(f, AVX_128BIT, true, true, true, false); (vex_rr_ok(f, a1, src1.encoding, 0, src2.encoding)) })
            }),
        ensures
            ({
                let f = old(self).features;
                final(self).appends(*old(self), ({ let a1 = InstructionAttr::spec_new(f, AVX_128BIT, true, true, true, false); vex_rr_bytes(f, a1, src1.encoding, 0, src2.encoding, VEX_SIMD_NONE, VEX_OPCODE_0F) + seq![0x99, (0xC0 | rr_bits(src1.encoding, src2.encoding))] }))
            }),
    {
        let mut attributes = InstructionAttr::new(&self.features, AVX_128BIT, true, true, true, false);
        let encode = self.vex_prefix_and_encode(src1.encoding, 0, src2.encoding, VEX_SIMD_NONE, VEX_OPCODE_0F, &mut attributes);
        self.emit_int16(0x99, (0xC0 | encode));
    }

    /// `ktestdl src1, src2`
    pub fn ktestdl(&mut self, src1: KRegister, src2: KRegister)
        requires
            src1.wf(),
            src2.wf(),
            ({
                let f = old(self).features;
                (f.supports_avx512bw()) && ({ let a1 = InstructionAttr::spec_new(f, AVX_128BIT, true, true, true, false); (vex_rr_ok(f, a1, src1.encoding, 0, src2.encoding)) })
            }),
        ensures
            ({
                let f = old(self).features;
                final(self).appends(*old(self), ({ let a1 = InstructionAttr::spec_new(f, AVX_128BIT, true, true, true, false); vex_rr_bytes(f, a1, src1.encoding, 0, src2.encoding, VEX_SIMD_66, VEX_OPCODE_0F) + seq![0x99, (0xC0 | rr_bits(src1.encoding, src2.encoding))] }))
            }),
    {
        let mut attributes = InstructionAttr::new(&self.features, AVX_128BIT, true, true, true, false);
        let encode = self.vex_prefix_and_encode(src1.encoding, 0, src2.encoding, VEX_SIMD_66, VEX_OPCODE_0F, &mut attributes);
        self.emit_int16(0x99, (0xC0 | encode));
    }

    /// `ktestwl src1, src2`
    pub fn ktestwl(&mut self, src1: KRegister, src2: KRegister)
        requires
            src1.wf(),
            src2.wf(),
            ({
                let f = old(self).features;
                (f.supports_avx512dq()) && ({ let a1 = InstructionAttr::spec_new(f, AVX_128BIT, false, true, true, false); (vex_rr_ok(f, a1, src1.encoding, 0, src2.encoding)) })
            }),
        ensures
            ({
                let f = old(self).features;
                final(self).appends(*old(self), ({ let a1 = InstructionAttr::spec_new(f, AVX_128BIT, false, true, true, false); vex_rr_bytes(f, a1, src1.encoding, 0, src2.encoding, VEX_SIMD_NONE, VEX_OPCODE_0F) + seq![0x99, (0xC0 | rr_bits(src1.encoding, src2.encoding))] }))
            }),
    {
        let mut attributes = InstructionAttr::new(&self.features, AVX_128BIT, false, true, true, false);
        let encode = self.vex_prefix_and_encode(src1.encoding, 0, src2.encoding, VEX_SIMD_NONE, VEX_OPCODE_0F, &mut attributes);
        self.emit_int16(0x99, (0xC0 | encode));
    }

    /// `ktestbl src1, src2`
    pub fn ktestbl(&mut self, src1: KRegister, src2: KRegister)
        requires
            src1.wf(),
            src2.wf(),
            ({
                let f = old(self).features;
                (f.supports_avx512dq()) && ({ let a1 = InstructionAttr::spec_new(f, AVX_128BIT, false, true, true, false); (vex_rr_ok(f, a1, src1.encoding, 0, src2.encoding)) })
            }),
        ensures
            ({
                let f = old(self).features;
                final(self).appends(*old(self), ({ let a1 = InstructionAttr::spec_new(f, AVX_128BIT, false, true, true, false); vex_rr_bytes(f, a1, src1.encoding, 0, src2.encoding, VEX_SIMD_66, VEX_OPCODE_0F) + seq![0x99, (0xC0 | rr_bits(src1.encoding, src2.encoding))] }))
            }),
    {
        let mut attributes = InstructionAttr::new(&self.features, AVX_128BIT, false, true, true, false);
        let encode = self.vex_prefix_and_encode(src1.encoding, 0, src2.encoding, VEX_SIMD_66, VEX_OPCODE_0F, &mut attributes);
        self.emit_int16(0x99, (0xC0 | encode));
    }

    /// `ktestq src1, src2`
    pub fn ktestq(&mut self, src1: KRegister, src2: KRegister)
        requires
            src1.wf(),
            src2.wf(),
            ({
                let f = old(self).features;
                (f.supports_avx512bw()) && ({ let a1 = InstructionAttr::spec_new(f, AVX_128BIT, true, true, true, false); (vex_rr_ok(f, a1, src1.encoding, 0, src2.encoding)) })
            }),
        ensures
            ({
                let f = old(self).features;
                final(self).appends(*old(self), ({ let a1 = InstructionAttr::spec_new(f, AVX_128BIT, true, true, true, false); vex_rr_bytes(f, a1, src1.encoding, 0, src2.encoding, VEX_SIMD_NONE, VEX_OPCODE_0F) + seq![0x99, (0xC0 | rr_bits(src1.encoding, src2.encoding))] }))
            }),
    {
        let mut attributes = InstructionAttr::new(&self.features, AVX_128BIT, true, true, true, false);
        let encode = self.vex_prefix_and_encode(src1.encoding, 0, src2.encoding, VEX_SIMD_NONE, VEX_OPCODE_0F, &mut attributes);
        self.emit_int16(0x99, (0xC0 | encode));
    }

    /// `ktestd src1, src2`
    pub fn ktestd(&mut self, src1: KRegister, src2: KRegister)
        requires
            src1.wf(),
            src2.wf(),
            ({
                let f = old(self).features;
                (f.supports_avx512bw()) && ({ let a1 = InstructionAttr::spec_new(f, AVX_128BIT, true, true, true, false); (vex_rr_ok(f, a1, src1.encoding, 0, src2.encoding)) })
            }),
        ensures
            ({
                let f = old(self).features;
                final(self).appends(*old(self), ({ let a1 = InstructionAttr::spec_new(f, AVX_128BIT, true, true, true, false); vex_rr_bytes(f, a1, src1.encoding, 0, src2.encoding, VEX_SIMD_66, VEX_OPCODE_0F) + seq![0x99, (0xC0 | rr_bits(src1.encoding, src2.encoding))] }))
            }),
    {
        let mut attributes = InstructionAttr::new(&self.features, AVX_128BIT, true, true, true, false);
        let encode = self.vex_prefix_and_encode(src1.encoding, 0, src2.encoding, VEX_SIMD_66, VEX_OPCODE_0F, &mut attributes);
        self.emit_int16(0x99, (0xC0 | encode));
    }

    /// `kxnorbl dst, src1, src2`
    pub fn kxnorbl(&mut self, dst: KRegister, src1: KRegister, src2: KRegister)
        requires
            dst.wf(),
            src1.wf(),
            src2.wf(),
            ({
                let f = old(self).features;
                (f.supports_avx512dq()) && ({ let a1 = InstructionAttr::spec_new(f, AVX_256BIT, false, true, true, false); (vex_rr_ok(f, a1, dst.encoding, src1.encoding, src2.encoding)) })
            }),
        ensures
            ({
                let f = old(self).features;
                final(self).appends(*old(self), ({ let a1 = InstructionAttr::spec_new(f, AVX_256BIT, false, true, true, false); vex_rr_bytes(f, a1, dst.encoding, src1.encoding, src2.encoding, VEX_SIMD_66, VEX_OPCODE_0F) + seq![0x46, (0xC0 | rr_bits(dst.encoding, src2.encoding))] }))
            }),
    {
        let mut attributes = InstructionAttr::new(&self.features, AVX_256BIT, false, true, true, false);
        let encode = self.vex_prefix_and_encode(dst.encoding, src1.encoding, src2.encoding, VEX_SIMD_66, VEX_OPCODE_0F, &mut attributes);
        self.emit_int16(0x46, (0xC0 | encode));
    }

    /// `kshiftlbl dst, src, imm8`
    pub fn kshiftlbl(&mut self, dst: KRegister, src: KRegister, imm8: i8)
        requires
            dst.wf(),
            src.wf(),
            ({
                let f = old(self).features;
                (f.supports_avx512dq()) && ({ let a1 = InstructionAttr::spec_new(f, AVX_128BIT, false, true, true, false); (vex_rr_ok(f, a1, dst.encoding, 0, src.encoding)) })
            }),
        ensures
            ({
                let f = old(self).features;
                final(self).appends(*old(self), ({ let a1 = InstructionAttr::spec_new(f, AVX_128BIT, false, true, true, false); vex_rr_bytes(f, a1, dst.encoding, 0, src.encoding, VEX_SIMD_66, VEX_OPCODE_0F_3A) + seq![0x32, (0xC0 | rr_bits(dst.encoding, src.encoding))] + seq![imm_byte(imm8)] }))
            }),
    {
        let mut attributes = InstructionAttr::new(&self.features, AVX_128BIT, false, true, true, false);
        let encode = self.vex_prefix_and_encode(dst.encoding, 0, src.encoding, VEX_SIMD_66, VEX_OPCODE_0F_3A, &mut attributes);
        self.emit_int16(0x32, (0xC0 | encode));
        self.emit_int8(imm_byte_exec(imm8));
    }

    /// `kshiftlql dst, src, imm8`
    pub fn kshiftlql(&mut self, dst: KRegister, src: KRegister, imm8: i8)
        requires
            dst.wf(),
            src.wf(),
            ({
                let f = old(self).features;
                (f.supports_avx512bw()) && ({ let a1 = InstructionAttr::spec_new(f, AVX_128BIT, true, true, true, false); (vex_rr_ok(f, a1, dst.encoding, 0, src.encoding)) })
            }),
        ensures
            ({
                let f = old(self).features;
                final(self).appends(*old(self), ({ let a1 = InstructionAttr::spec_new(f, AVX_128BIT, true, true, true, false); vex_rr_bytes(f, a1, dst.encoding, 0, src.encoding, VEX_SIMD_66, VEX_OPCODE_0F_3A) + seq![0x33, (0xC0 | rr_bits(dst.encoding, src.encoding))] + seq![imm_byte(imm8)] }))
            }),
    {
        let mut attributes = InstructionAttr::new(&self.features, AVX_128BIT, true, true, true, false);
        let encode = self.vex_prefix_and_encode(dst.encoding, 0, src.encoding, VEX_SIMD_66, VEX_OPCODE_0F_3A, &mut attributes);
        self.emit_int16(0x33, (0xC0 | encode));
        self.emit_int8(imm_byte_exec(imm8));
    }

    /// `kshiftrbl dst, src, imm8`
    pub fn kshiftrbl(&mut self, dst: KRegister, src: KRegister, imm8: i8)
        requires
            dst.wf(),
            src.wf(),
            ({
                let f = old(self).features;
                (f.supports_avx512dq()) && ({ let a1 = InstructionAttr::spec_new(f, AVX_128BIT, false, true, true, false); (vex_rr_ok(f, a1, dst.encoding, 0, src.encoding)) })
            }),
        ensures
            ({
                let f = old(self).features;
                final(self).appends(*old(self), ({ let a1 = InstructionAttr::spec_new(f, AVX_128BIT, false, true, true, false); vex_rr_bytes(f, a1, dst.encoding, 0, src.encoding, VEX_SIMD_66, VEX_OPCODE_0F_3A) + seq![0x30, (0xC0 | rr_bits(dst.encoding, src.encoding))] }))
            }),
    {
        let mut attributes = InstructionAttr::new(&self.features, AVX_128BIT, false, true, true, false);
        let encode = self.vex_prefix_and_encode(dst.encoding, 0, src.encoding, VEX_SIMD_66, VEX_OPCODE_0F_3A, &mut attributes);
        self.emit_int16(0x30, (0xC0 | encode));
    }

    /// `kshiftrwl dst, src, imm8`
    pub fn kshiftrwl(&mut self, dst: KRegister, src: KRegister, imm8: i8)
        requires
            dst.wf(),
            src.wf(),
            ({
                let f = old(self).features;
                (f.supports_evex()) && ({ let a1 = InstructionAttr::spec_new(f, AVX_128BIT, true, true, true, false); (vex_rr_ok(f, a1, dst.encoding, 0, src.encoding)) })
            }),
        ensures
            ({
                let f = old(self).features;
                final(self).appends(*old(self), ({ let a1 = InstructionAttr::spec_new(f, AVX_128BIT, true, true, true, false); vex_rr_bytes(f, a1, dst.encoding, 0, src.encoding, VEX_SIMD_66, VEX_OPCODE_0F_3A) + seq![0x30, (0xC0 | rr_bits(dst.encoding, src.encoding))] + seq![imm_byte(imm8)] }))
            }),
    {
        let mut attributes = InstructionAttr::new(&self.features, AVX_128BIT, true, true, true, false);
        let encode = self.vex_prefix_and_encode(dst.encoding, 0, src.encoding, VEX_SIMD_66, VEX_OPCODE_0F_3A, &mut attributes);
        self.emit_int16(0x30, (0xC0 | encode));
        self.emit_int8(imm_byte_exec(imm8));
    }

    /// `kshiftrdl dst, src, imm8`
    pub fn kshiftrdl(&mut self, dst: KRegister, src: KRegister, imm8: i8)
        requires
            dst.wf(),
            src.wf(),
            ({
                let f = old(self).features;
                (f.supports_avx512bw()) && ({ let a1 = InstructionAttr::spec_new(f, AVX_128BIT, false, true, true, false); (vex_rr_ok(f, a1, dst.encoding, 0, src.encoding)) })
            }),
        ensures
            ({
                let f = old(self).features;
                final(self).appends(*old(self), ({ let a1 = InstructionAttr::spec_new(f, AVX_128BIT, false, true, true, false); vex_rr_bytes(f, a1, dst.encoding, 0, src.encoding, VEX_SIMD_66, VEX_OPCODE_0F_3A) + seq![0x31, (0xC0 | rr_bits(dst.encoding, src.encoding))] + seq![imm_byte(imm8)] }))
            }),
    {
        let mut attributes = InstructionAttr::new(&self.features, AVX_128BIT, false, true, true, false);
        let encode = self.vex_prefix_and_encode(dst.encoding, 0, src.encoding, VEX_SIMD_66, VEX_OPCODE_0F_3A, &mut attributes);
        self.emit_int16(0x31, (0xC0 | encode));
        self.emit_int8(imm_byte_exec(imm8));
    }

    /// `kshiftrql dst, src, imm8`
    pub fn kshiftrql(&mut self, dst: KRegister, src: KRegister, imm8: i8)
        requires
            dst.wf(),
            src.wf(),
            ({
                let f = old(self).features;
                (f.supports_avx512bw()) && ({ let a1 = InstructionAttr::spec_new(f, AVX_128BIT, true, true, true, false); (vex_rr_ok(f, a1, dst.encoding, 0, src.encoding)) })
            }),
        ensures
            ({
                let f = old(self).features;
                final(self).appends(*old(self), ({ let a1 = InstructionAttr::spec_new(f, AVX_128BIT, true, true, true, false); vex_rr_bytes(f, a1, dst.encoding, 0, src.encoding, VEX_SIMD_66, VEX_OPCODE_0F_3A) + seq![0x31, (0xC0 | rr_bits(dst.encoding, src.encoding))] + seq![imm_byte(imm8)] }))
            }),
    {
        let mut attributes = InstructionAttr::new(&self.features, AVX_128BIT, true, true, true, false);
        let encode = self.vex_prefix_and_encode(dst.encoding, 0, src.encoding, VEX_SIMD_66, VEX_OPCODE_0F_3A, &mut attributes);
        self.emit_int16(0x31, (0xC0 | encode));
        self.emit_int8(imm_byte_exec(imm8));
    }

    /// `kunpckdql dst, src1, src2`
    pub fn kunpckdql(&mut self, dst: KRegister, src1: KRegister, src2: KRegister)
        requires
            dst.wf(),
            src1.wf(),
            src2.wf(),
            ({
                let f = old(self).features;
                (f.supports_avx512bw()) && ({ let a1 = InstructionAttr::spec_new(f, AVX_256BIT, true, true, true, false); (vex_rr_ok(f, a1, dst.encoding, src1.encoding, src2.encoding)) })
            }),
        ensures
            ({
                let f = old(self).features;
                final(self).appends(*old(self), ({ let a1 = InstructionAttr::spec_new(f, AVX_256BIT, true, true, true, false); vex_rr_bytes(f, a1, dst.encoding, src1.encoding, src2.encoding, VEX_SIMD_NONE, VEX_OPCODE_0F) + seq![0x4B, (0xC0 | rr_bits(dst.encoding, src2.encoding))] }))
            }),
    {
        let mut attributes = InstructionAttr::new(&self.features, AVX_256BIT, true, true, true, false);
        let encode = self.vex_prefix_and_encode(dst.encoding, src1.encoding, src2.encoding, VEX_SIMD_NONE, VEX_OPCODE_0F, &mut attributes);
        self.emit_int16(0x4B, (0xC0 | encode));
    }
}

} // verus!
