//! General purpose integer, control and system instructions.
use vstd::prelude::*;
use crate::address::Address;
use crate::assembler::{Assembler, RelocType};
use crate::attributes::{VEX_OPCODE_0F_38, VEX_OPCODE_0F_3A, VEX_SIMD_NONE};
use crate::encoding::{address_bytes, imm_byte, imm_byte_exec, le16, le32, le64, low8, low8_exec, rex_byte, rex_for_adr, rex_for_rr, rex_opt, rr_bits, simd_opc_bytes, simd_pre_bytes};
use crate::operands::{arith_imm_bytes, arith_operand_bytes, encode, get_prefixq};
use crate::registers::{Register, XMMRegister};

verus! {

impl Assembler {
    /// `adcl_m_imm [dst], imm32`
    pub fn adcl_m_imm(&mut self, dst: Address, imm32: i32)
        requires
            dst.wf(),
        ensures
            ({
                let f = old(self).features;
                final(self).appends(*old(self), rex_opt(false, false, dst.spec_index_needs_rex(), dst.spec_base_needs_rex(), false) + arith_operand_bytes(f, 0x81, 2, dst, imm32))
            }),
    {
        self.prefix_adr(&dst);
        self.emit_arith_operand(0x81, 2, &dst, imm32);
    }

    /// `adcl_m_reg [dst], src`
    pub fn adcl_m_reg(&mut self, dst: Address, src: Register)
        requires
            dst.wf(),
            src.wf(),
        ensures
            ({
                let f = old(self).features;
                final(self).appends(*old(self), rex_for_adr(false, src.encoding, dst, false) + seq![0x11] + address_bytes(f, None, src.encoding, dst, false))
            }),
    {
        self.prefix_adr_reg(&dst, src.encoding, false);
        self.emit_int8(0x11);
        self.emit_operand(src.encoding, &dst);
    }

    /// `adcl_r_imm dst, imm32`
    pub fn adcl_r_imm(&mut self, dst: Register, imm32: i32)
        requires
            dst.wf(),
        ensures
            final(self).appends(*old(self), rex_opt(false, false, false, dst.encoding >= 8, false) + arith_imm_bytes(0x81, 0xD0, dst, imm32)),
    {
        self.prefix_reg(dst);
        self.emit_arith(0x81, 0xD0, dst, imm32);
    }

    /// `adcl_r_m dst, [src]`
    pub fn adcl_r_m(&mut self, dst: Register, src: Address)
        requires
            dst.wf(),
            src.wf(),
        ensures
            ({
                let f = old(self).features;
                final(self).appends(*old(self), rex_for_adr(false, dst.encoding, src, false) + seq![0x13] + address_bytes(f, None, dst.encoding, src, false))
            }),
    {
        self.prefix_adr_reg(&src, dst.encoding, false);
        self.emit_int8(0x13);
        self.emit_operand(dst.encoding, &src);
    }

    /// `adcl_reg_r dst, src`
    pub fn adcl_reg_r(&mut self, dst: Register, src: Register)
        requires
            dst.wf(),
            src.wf(),
        ensures
            final(self).appends(*old(self), rex_for_rr(false, dst.encoding, src.encoding, false, false) + seq![0x13, 0xC0 | ((encode(dst) << 3) | encode(src))]),
    {
        let _ = self.prefix_and_encode_rr(dst.encoding, false, src.encoding, false);
        self.emit_arith_rr(0x13, 0xC0, dst, src);
    }

    /// `addl [dst], imm32`
    pub fn addl_mi(&mut self, dst: Address, imm32: i32)
        requires
            dst.wf(),
        ensures
            ({
                let f = old(self).features;
                final(self).appends(*old(self), rex_opt(false, false, dst.spec_index_needs_rex(), dst.spec_base_needs_rex(), false) + arith_operand_bytes(f, 0x81, 0, dst, imm32))
            }),
    {
        self.prefix_adr(&dst);
        self.emit_arith_operand(0x81, 0, &dst, imm32);
    }

    /// `addb [dst], imm8`
    pub fn addb(&mut self, dst: Address, imm8: i8)
        requires
            dst.wf(),
        ensures
            ({
                let f = old(self).features;
                final(self).appends(*old(self), rex_opt(false, false, dst.spec_index_needs_rex(), dst.spec_base_needs_rex(), false) + seq![0x80] + address_bytes(f, None, 0, dst, false) + seq![imm_byte(imm8)])
            }),
    {
        self.prefix_adr(&dst);
        self.emit_int8(0x80);
        self.emit_operand(0, &dst);
        self.emit_int8(imm_byte_exec(imm8));
    }

    /// `addw dst, src`
    pub fn addw(&mut self, dst: Register, src: Register)
        requires
            dst.wf(),
            src.wf(),
        ensures
            final(self).appends(*old(self), seq![0x66] + rex_for_rr(false, dst.encoding, src.encoding, false, false) + seq![0x03, 0xC0 | ((encode(dst) << 3) | encode(src))]),
    {
        self.emit_int8(0x66);
        let _ = self.prefix_and_encode_rr(dst.encoding, false, src.encoding, false);
        self.emit_arith_rr(0x03, 0xC0, dst, src);
    }

    /// `addw [dst], imm16`
    pub fn addw_mi(&mut self, dst: Address, imm16: i16)
        requires
            dst.wf(),
        ensures
            ({
                let f = old(self).features;
                final(self).appends(*old(self), seq![0x66] + rex_opt(false, false, dst.spec_index_needs_rex(), dst.spec_base_needs_rex(), false) + seq![0x81] + address_bytes(f, None, 0, dst, false) + le16(imm16))
            }),
    {
        self.emit_int8(0x66);
        self.prefix_adr(&dst);
        self.emit_int8(0x81);
        self.emit_operand(0, &dst);
        self.emit_i16(imm16);
    }

    /// `addl [dst], src`
    pub fn addl_mr(&mut self, dst: Address, src: Register)
        requires
            dst.wf(),
            src.wf(),
        ensures
            ({
                let f = old(self).features;
                final(self).appends(*old(self), rex_for_adr(false, src.encoding, dst, false) + seq![0x01] + address_bytes(f, None, src.encoding, dst, false))
            }),
    {
        self.prefix_adr_reg(&dst, src.encoding, false);
        self.emit_int8(0x01);
        self.emit_operand(src.encoding, &dst);
    }

    /// `addl dst, imm32`
    pub fn addl_ri(&mut self, dst: Register, imm32: i32)
        requires
            dst.wf(),
        ensures
            final(self).appends(*old(self), rex_opt(false, false, false, dst.encoding >= 8, false) + arith_imm_bytes(0x81, 0xC0, dst, imm32)),
    {
        self.prefix_reg(dst);
        self.emit_arith(0x81, 0xC0, dst, imm32);
    }

    /// `addl dst, [src]`
    pub fn addl_rm(&mut self, dst: Register, src: Address)
        requires
            dst.wf(),
            src.wf(),
        ensures
            ({
                let f = old(self).features;
                final(self).appends(*old(self), rex_for_adr(false, dst.encoding, src, false) + seq![0x03] + address_bytes(f, None, dst.encoding, src, false))
            }),
    {
        self.prefix_adr_reg(&src, dst.encoding, false);
        self.emit_int8(0x03);
        self.emit_operand(dst.encoding, &src);
    }

    /// `addl dst, src`
    pub fn addl(&mut self, dst: Register, src: Register)
        requires
            dst.wf(),
            src.wf(),
        ensures
            final(self).appends(*old(self), rex_for_rr(false, dst.encoding, src.encoding, false, false) + seq![0x03, 0xC0 | ((encode(dst) << 3) | encode(src))]),
    {
        let _ = self.prefix_and_encode_rr(dst.encoding, false, src.encoding, false);
        self.emit_arith_rr(0x03, 0xC0, dst, src);
    }

    /// `andb [dst], src`
    pub fn andb(&mut self, dst: Address, src: Register)
        requires
            dst.wf(),
            src.wf(),
        ensures
            ({
                let f = old(self).features;
                final(self).appends(*old(self), rex_for_adr(false, src.encoding, dst, true) + seq![0x20] + address_bytes(f, None, src.encoding, dst, false))
            }),
    {
        self.prefix_adr_reg(&dst, src.encoding, true);
        self.emit_int8(0x20);
        self.emit_operand(src.encoding, &dst);
    }

    /// `andw dst, src`
    pub fn andw(&mut self, dst: Register, src: Register)
        requires
            dst.wf(),
            src.wf(),
        ensures
            final(self).appends(*old(self), rex_for_rr(false, dst.encoding, src.encoding, false, false) + seq![0x23, 0xC0 | ((encode(dst) << 3) | encode(src))]),
    {
        let _ = self.prefix_and_encode_rr(dst.encoding, false, src.encoding, false);
        self.emit_arith_rr(0x23, 0xC0, dst, src);
    }

    /// `andl [dst], imm32`
    pub fn andl_mi(&mut self, dst: Address, imm32: i32)
        requires
            dst.wf(),
        ensures
            ({
                let f = old(self).features;
                final(self).appends(*old(self), rex_opt(false, false, dst.spec_index_needs_rex(), dst.spec_base_needs_rex(), false) + arith_operand_bytes(f, 0x81, 4, dst, imm32))
            }),
    {
        self.prefix_adr(&dst);
        self.emit_arith_operand(0x81, 4, &dst, imm32);
    }

    /// `andl dst, imm32`
    pub fn andl_ri(&mut self, dst: Register, imm32: i32)
        requires
            dst.wf(),
        ensures
            final(self).appends(*old(self), rex_opt(false, false, false, dst.encoding >= 8, false) + arith_imm_bytes(0x81, 0xE0, dst, imm32)),
    {
        self.prefix_reg(dst);
        self.emit_arith(0x81, 0xE0, dst, imm32);
    }

    /// `andl [dst], src`
    pub fn andl_mr(&mut self, dst: Address, src: Register)
        requires
            dst.wf(),
            src.wf(),
        ensures
            ({
                let f = old(self).features;
                final(self).appends(*old(self), rex_for_adr(false, src.encoding, dst, false) + seq![0x21] + address_bytes(f, None, src.encoding, dst, false))
            }),
    {
        self.prefix_adr_reg(&dst, src.encoding, false);
        self.emit_int8(0x21);
        self.emit_operand(src.encoding, &dst);
    }

    /// `andl dst, [src]`
    pub fn andl_rm(&mut self, dst: Register, src: Address)
        requires
            dst.wf(),
            src.wf(),
        ensures
            ({
                let f = old(self).features;
                final(self).appends(*old(self), rex_for_adr(false, dst.encoding, src, false) + seq![0x23] + address_bytes(f, None, dst.encoding, src, false))
            }),
    {
        self.prefix_adr_reg(&src, dst.encoding, false);
        self.emit_int8(0x23);
        self.emit_operand(dst.encoding, &src);
    }

    /// `andl dst, src`
    pub fn andl(&mut self, dst: Register, src: Register)
        requires
            dst.wf(),
            src.wf(),
        ensures
            final(self).appends(*old(self), rex_for_rr(false, dst.encoding, src.encoding, false, false) + seq![0x23, 0xC0 | ((encode(dst) << 3) | encode(src))]),
    {
        let _ = self.prefix_and_encode_rr(dst.encoding, false, src.encoding, false);
        self.emit_arith_rr(0x23, 0xC0, dst, src);
    }

    /// `bsfl dst, src`
    pub fn bsfl(&mut self, dst: Register, src: Register)
        requires
            dst.wf(),
            src.wf(),
        ensures
            final(self).appends(*old(self), rex_for_rr(false, dst.encoding, src.encoding, false, false) + seq![0x0F, 0xBC, (0xC0 | rr_bits(dst.encoding, src.encoding))]),
    {
        let encode = self.prefix_and_encode_rr(dst.encoding, false, src.encoding, false);
        self.emit_int24(0x0F, 0xBC, (0xC0 | encode));
    }

    /// `bsrl dst, src`
    pub fn bsrl(&mut self, dst: Register, src: Register)
        requires
            dst.wf(),
            src.wf(),
        ensures
            final(self).appends(*old(self), rex_for_rr(false, dst.encoding, src.encoding, false, false) + seq![0x0F, 0xBD, (0xC0 | rr_bits(dst.encoding, src.encoding))]),
    {
        let encode = self.prefix_and_encode_rr(dst.encoding, false, src.encoding, false);
        self.emit_int24(0x0F, 0xBD, (0xC0 | encode));
    }

    /// `bswapl reg`
    pub fn bswapl(&mut self, reg: Register)
        requires
            reg.wf(),
        ensures
            final(self).appends(*old(self), rex_opt(false, false, false, reg.encoding >= 8, false) + seq![0x0F, (0xC8 | (reg.encoding & 7))]),
    {
        let encode = self.prefix_and_encode(reg.encoding, false);
        self.emit_int16(0x0F, (0xC8 | encode));
    }

    /// `call dst`
    pub fn call(&mut self, dst: Register)
        requires
            dst.wf(),
        ensures
            final(self).appends(*old(self), rex_opt(false, false, false, dst.encoding >= 8, false) + seq![0xFF, (0xD0 | (dst.encoding & 7))]),
    {
        let encode = self.prefix_and_encode(dst.encoding, false);
        self.emit_int16(0xFF, (0xD0 | encode));
    }

    /// `call [adr]`
    pub fn call_m(&mut self, adr: Address)
        requires
            adr.wf(),
        ensures
            ({
                let f = old(self).features;
                final(self).appends(*old(self), rex_opt(false, false, adr.spec_index_needs_rex(), adr.spec_base_needs_rex(), false) + seq![0xFF] + address_bytes(f, None, 2, adr, false))
            }),
    {
        self.prefix_adr(&adr);
        self.emit_int8(0xFF);
        self.emit_operand(2, &adr);
    }

    /// `cdql`
    pub fn cdql(&mut self)
        ensures
            final(self).appends(*old(self), seq![0x99]),
    {
        self.emit_int8(0x99);
    }

    /// `cld`
    pub fn cld(&mut self)
        ensures
            final(self).appends(*old(self), seq![0xFC]),
    {
        self.emit_int8(0xFC);
    }

    /// `cmovl cc, dst, src`
    pub fn cmovl(&mut self, cc: u8, dst: Register, src: Register)
        requires
            cc < 16,
            dst.wf(),
            src.wf(),
        ensures
            final(self).appends(*old(self), rex_for_rr(false, dst.encoding, src.encoding, false, false) + seq![0x0F, (0x40 | cc), (0xC0 | rr_bits(dst.encoding, src.encoding))]),
    {
        let encode = self.prefix_and_encode_rr(dst.encoding, false, src.encoding, false);
        self.emit_int24(0x0F, (0x40 | cc), (0xC0 | encode));
    }

    /// `cmovl cc, dst, [src]`
    pub fn cmovl_rm(&mut self, cc: u8, dst: Register, src: Address)
        requires
            cc < 16,
            dst.wf(),
            src.wf(),
        ensures
            ({
                let f = old(self).features;
                final(self).appends(*old(self), rex_for_adr(false, dst.encoding, src, false) + seq![0x0F, (0x40 | cc)] + address_bytes(f, None, dst.encoding, src, false))
            }),
    {
        self.prefix_adr_reg(&src, dst.encoding, false);
        self.emit_int16(0x0F, (0x40 | cc));
        self.emit_operand(dst.encoding, &src);
    }

    /// `cmpb [dst], imm8`
    pub fn cmpb(&mut self, dst: Address, imm8: i8)
        requires
            dst.wf(),
        ensures
            ({
                let f = old(self).features;
                final(self).appends(*old(self), rex_opt(false, false, dst.spec_index_needs_rex(), dst.spec_base_needs_rex(), false) + seq![0x80] + address_bytes(f, None, 7, dst, false) + seq![imm_byte(imm8)])
            }),
    {
        self.prefix_adr(&dst);
        self.emit_int8(0x80);
        self.emit_operand(7, &dst);
        self.emit_int8(imm_byte_exec(imm8));
    }

    /// `cmpl [dst], imm32`
    pub fn cmpl_mi(&mut self, dst: Address, imm32: i32)
        requires
            dst.wf(),
        ensures
            ({
                let f = old(self).features;
                final(self).appends(*old(self), rex_opt(false, false, dst.spec_index_needs_rex(), dst.spec_base_needs_rex(), false) + arith_operand_bytes(f, 0x81, 7, dst, imm32))
            }),
    {
        self.prefix_adr(&dst);
        self.emit_arith_operand(0x81, 7, &dst, imm32);
    }

    /// `cmpl dst, imm32`
    pub fn cmpl_ri(&mut self, dst: Register, imm32: i32)
        requires
            dst.wf(),
        ensures
            final(self).appends(*old(self), rex_opt(false, false, false, dst.encoding >= 8, false) + arith_imm_bytes(0x81, 0xF8, dst, imm32)),
    {
        self.prefix_reg(dst);
        self.emit_arith(0x81, 0xF8, dst, imm32);
    }

    /// `cmpl dst, src`
    pub fn cmpl(&mut self, dst: Register, src: Register)
        requires
            dst.wf(),
            src.wf(),
        ensures
            final(self).appends(*old(self), rex_for_rr(false, dst.encoding, src.encoding, false, false) + seq![0x3B, 0xC0 | ((encode(dst) << 3) | encode(src))]),
    {
        let _ = self.prefix_and_encode_rr(dst.encoding, false, src.encoding, false);
        self.emit_arith_rr(0x3B, 0xC0, dst, src);
    }

    /// `cmpl dst, [src]`
    pub fn cmpl_rm(&mut self, dst: Register, src: Address)
        requires
            dst.wf(),
            src.wf(),
        ensures
            ({
                let f = old(self).features;
                final(self).appends(*old(self), rex_for_adr(false, dst.encoding, src, false) + seq![0x3B] + address_bytes(f, None, dst.encoding, src, false))
            }),
    {
        self.prefix_adr_reg(&src, dst.encoding, false);
        self.emit_int8(0x3B);
        self.emit_operand(dst.encoding, &src);
    }

    /// `cmpl_imm32 [dst], imm32`
    pub fn cmpl_imm32(&mut self, dst: Address, imm32: i32)
        requires
            dst.wf(),
        ensures
            ({
                let f = old(self).features;
                final(self).appends(*old(self), rex_opt(false, false, dst.spec_index_needs_rex(), dst.spec_base_needs_rex(), false) + seq![0x81] + address_bytes(f, None, 7, dst, false) + le32(imm32))
            }),
    {
        self.prefix_adr(&dst);
        self.emit_arith_operand_imm32(0x81, 7, &dst, imm32);
    }

    /// `cmpw [dst], imm16`
    pub fn cmpw(&mut self, dst: Address, imm16: i16)
        requires
            dst.wf(),
        ensures
            ({
                let f = old(self).features;
                final(self).appends(*old(self), seq![0x66] + rex_opt(false, false, dst.spec_index_needs_rex(), dst.spec_base_needs_rex(), false) + seq![0x81] + address_bytes(f, None, 7, dst, false) + le16(imm16))
            }),
    {
        self.emit_int8(0x66);
        self.prefix_adr(&dst);
        self.emit_int8(0x81);
        self.emit_operand(7, &dst);
        self.emit_i16(imm16);
    }

    /// `cmpxchgl reg, [adr]`
    pub fn cmpxchgl(&mut self, reg: Register, adr: Address)
        requires
            reg.wf(),
            adr.wf(),
        ensures
            ({
                let f = old(self).features;
                final(self).appends(*old(self), rex_for_adr(false, reg.encoding, adr, false) + seq![0x0F, 0xB1] + address_bytes(f, None, reg.encoding, adr, false))
            }),
    {
        self.prefix_adr_reg(&adr, reg.encoding, false);
        self.emit_int16(0x0F, 0xB1);
        self.emit_operand(reg.encoding, &adr);
    }

    /// `cmpxchgw reg, [adr]`
    pub fn cmpxchgw(&mut self, reg: Register, adr: Address)
        requires
            reg.wf(),
            adr.wf(),
        ensures
            ({
                let f = old(self).features;
                final(self).appends(*old(self), seq![0x66] + rex_for_adr(false, reg.encoding, adr, false) + seq![0x0F, 0xB1] + address_bytes(f, None, reg.encoding, adr, false))
            }),
    {
        self.size_prefix();
        self.prefix_adr_reg(&adr, reg.encoding, false);
        self.emit_int16(0x0F, 0xB1);
        self.emit_operand(reg.encoding, &adr);
    }

    /// `cmpxchgb reg, [adr]`
    pub fn cmpxchgb(&mut self, reg: Register, adr: Address)
        requires
            reg.wf(),
            adr.wf(),
        ensures
            ({
                let f = old(self).features;
                final(self).appends(*old(self), rex_for_adr(false, reg.encoding, adr, true) + seq![0x0F, 0xB0] + address_bytes(f, None, reg.encoding, adr, false))
            }),
    {
        self.prefix_adr_reg(&adr, reg.encoding, true);
        self.emit_int16(0x0F, 0xB0);
        self.emit_operand(reg.encoding, &adr);
    }

    /// `cpuid`
    pub fn cpuid(&mut self)
        ensures
            final(self).appends(*old(self), seq![0x0F, 0xA2]),
    {
        self.emit_int16(0x0F, 0xA2);
    }

    /// `decl [dst]`
    pub fn decl_m(&mut self, dst: Address)
        requires
            dst.wf(),
        ensures
            ({
                let f = old(self).features;
                final(self).appends(*old(self), rex_opt(false, false, dst.spec_index_needs_rex(), dst.spec_base_needs_rex(), false) + seq![0xFF] + address_bytes(f, None, 1, dst, false))
            }),
    {
        self.prefix_adr(&dst);
        self.emit_int8(0xFF);
        self.emit_operand(1, &dst);
    }

    /// `hlt`
    pub fn hlt(&mut self)
        ensures
            final(self).appends(*old(self), seq![0xF4]),
    {
        self.emit_int8(0xF4);
    }

    /// `idivl src`
    pub fn idivl(&mut self, src: Register)
        requires
            src.wf(),
        ensures
            final(self).appends(*old(self), rex_opt(false, false, false, src.encoding >= 8, false) + seq![0xF7, (0xF8 | (src.encoding & 7))]),
    {
        let encode = self.prefix_and_encode(src.encoding, false);
        self.emit_int16(0xF7, (0xF8 | encode));
    }

    /// `divl src`
    pub fn divl(&mut self, src: Register)
        requires
            src.wf(),
        ensures
            final(self).appends(*old(self), rex_opt(false, false, false, src.encoding >= 8, false) + seq![0xF7, (0xF0 | (src.encoding & 7))]),
    {
        let encode = self.prefix_and_encode(src.encoding, false);
        self.emit_int16(0xF7, (0xF0 | encode));
    }

    /// `imull src`
    pub fn imull(&mut self, src: Register)
        requires
            src.wf(),
        ensures
            final(self).appends(*old(self), rex_opt(false, false, false, src.encoding >= 8, false) + seq![0xF7, (0xE8 | (src.encoding & 7))]),
    {
        let encode = self.prefix_and_encode(src.encoding, false);
        self.emit_int16(0xF7, (0xE8 | encode));
    }

    /// `imull dst, src`
    pub fn imull_rr(&mut self, dst: Register, src: Register)
        requires
            dst.wf(),
            src.wf(),
        ensures
            final(self).appends(*old(self), rex_for_rr(false, dst.encoding, src.encoding, false, false) + seq![0x0F, 0xAF, (0xC0 | rr_bits(dst.encoding, src.encoding))]),
    {
        let encode = self.prefix_and_encode_rr(dst.encoding, false, src.encoding, false);
        self.emit_int24(0x0F, 0xAF, (0xC0 | encode));
    }

    /// `imull dst, [src], value`
    pub fn imull_rmi(&mut self, dst: Register, src: Address, value: i32)
        requires
            dst.wf(),
            src.wf(),
        ensures
            ({
                let f = old(self).features;
                final(self).appends(*old(self), rex_for_adr(false, dst.encoding, src, false) + (if (-128 <= value && value < 128) { seq![0x6B] + address_bytes(f, None, dst.encoding, src, false) + seq![low8(value)] } else { seq![0x69] + address_bytes(f, None, dst.encoding, src, false) + le32(value) }))
            }),
    {
        self.prefix_adr_reg(&src, dst.encoding, false);
        if -128 <= value && value < 128 {
            self.emit_int8(0x6B);
            self.emit_operand(dst.encoding, &src);
            self.emit_int8(low8_exec(value));
        } else {
            self.emit_int8(0x69);
            self.emit_operand(dst.encoding, &src);
            self.emit_i32(value);
        }
    }

    /// `imull dst, src, value`
    pub fn imull_rri(&mut self, dst: Register, src: Register, value: i32)
        requires
            dst.wf(),
            src.wf(),
        ensures
            final(self).appends(*old(self), rex_for_rr(false, dst.encoding, src.encoding, false, false) + (if (-128 <= value && value < 128) { seq![0x6B, (0xC0 | rr_bits(dst.encoding, src.encoding)), low8(value)] } else { seq![0x69, (0xC0 | rr_bits(dst.encoding, src.encoding))] + le32(value) })),
    {
        let encode = self.prefix_and_encode_rr(dst.encoding, false, src.encoding, false);
        if -128 <= value && value < 128 {
            self.emit_int24(0x6B, (0xC0 | encode), low8_exec(value));
        } else {
            self.emit_int16(0x69, (0xC0 | encode));
            self.emit_i32(value);
        }
    }

    /// `imull dst, [src]`
    pub fn imull_rm(&mut self, dst: Register, src: Address)
        requires
            dst.wf(),
            src.wf(),
        ensures
            ({
                let f = old(self).features;
                final(self).appends(*old(self), rex_for_adr(false, dst.encoding, src, false) + seq![0x0F, 0xAF] + address_bytes(f, None, dst.encoding, src, false))
            }),
    {
        self.prefix_adr_reg(&src, dst.encoding, false);
        self.emit_int16(0x0F, 0xAF);
        self.emit_operand(dst.encoding, &src);
    }

    /// `incl [dst]`
    pub fn incl_m(&mut self, dst: Address)
        requires
            dst.wf(),
        ensures
            ({
                let f = old(self).features;
                final(self).appends(*old(self), rex_opt(false, false, dst.spec_index_needs_rex(), dst.spec_base_needs_rex(), false) + seq![0xFF] + address_bytes(f, None, 0, dst, false))
            }),
    {
        self.prefix_adr(&dst);
        self.emit_int8(0xFF);
        self.emit_operand(0, &dst);
    }

    /// `jmp [adr]`
    pub fn jmp_m(&mut self, adr: Address)
        requires
            adr.wf(),
        ensures
            ({
                let f = old(self).features;
                final(self).appends(*old(self), rex_opt(false, false, adr.spec_index_needs_rex(), adr.spec_base_needs_rex(), false) + seq![0xFF] + address_bytes(f, None, 4, adr, false))
            }),
    {
        self.prefix_adr(&adr);
        self.emit_int8(0xFF);
        self.emit_operand(4, &adr);
    }

    /// `jmp entry`
    pub fn jmp(&mut self, entry: Register)
        requires
            entry.wf(),
        ensures
            final(self).appends(*old(self), rex_opt(false, false, false, entry.encoding >= 8, false) + seq![0xFF, (0xE0 | (entry.encoding & 7))]),
    {
        let encode = self.prefix_and_encode(entry.encoding, false);
        self.emit_int16(0xFF, (0xE0 | encode));
    }

    /// `leal dst, [src]`
    pub fn leal(&mut self, dst: Register, src: Address)
        requires
            dst.wf(),
            src.wf(),
        ensures
            ({
                let f = old(self).features;
                final(self).appends(*old(self), rex_for_adr(false, dst.encoding, src, false) + seq![0x8D] + address_bytes(f, None, dst.encoding, src, false))
            }),
    {
        self.prefix_adr_reg(&src, dst.encoding, false);
        self.emit_int8(0x8D);
        self.emit_operand(dst.encoding, &src);
    }

    /// `lfence`
    pub fn lfence(&mut self)
        ensures
            final(self).appends(*old(self), seq![0x0F, 0xAE, 0xE8]),
    {
        self.emit_int24(0x0F, 0xAE, 0xE8);
    }

    /// `lock`
    pub fn lock(&mut self)
        ensures
            final(self).appends(*old(self), seq![0xF0]),
    {
        self.emit_int8(0xF0);
    }

    /// `lzcntl dst, src`
    pub fn lzcntl(&mut self, dst: Register, src: Register)
        requires
            dst.wf(),
            src.wf(),
            ({
                let f = old(self).features;
                (f.supports_lzcnt())
            }),
        ensures
            final(self).appends(*old(self), seq![0xF3] + rex_for_rr(false, dst.encoding, src.encoding, false, false) + seq![0x0F, 0xBD, (0xC0 | rr_bits(dst.encoding, src.encoding))]),
    {
        self.emit_int8(0xF3);
        let encode = self.prefix_and_encode_rr(dst.encoding, false, src.encoding, false);
        self.emit_int24(0x0F, 0xBD, (0xC0 | encode));
    }

    /// `lzcntl dst, [src]`
    pub fn lzcntl_rm(&mut self, dst: Register, src: Address)
        requires
            dst.wf(),
            src.wf(),
            ({
                let f = old(self).features;
                (f.supports_lzcnt())
            }),
        ensures
            ({
                let f = old(self).features;
                final(self).appends(*old(self), seq![0xF3] + rex_for_adr(false, dst.encoding, src, false) + seq![0x0F, 0xBD] + address_bytes(f, None, dst.encoding, src, false))
            }),
    {
        self.emit_int8(0xF3);
        self.prefix_adr_reg(&src, dst.encoding, false);
        self.emit_int16(0x0F, 0xBD);
        self.emit_operand(dst.encoding, &src);
    }

    /// `mfence`
    pub fn mfence(&mut self)
        ensures
            final(self).appends(*old(self), seq![0x0F, 0xAE, 0xF0]),
    {
        self.emit_int24(0x0F, 0xAE, 0xF0);
    }

    /// `sfence`
    pub fn sfence(&mut self)
        ensures
            final(self).appends(*old(self), seq![0x0F, 0xAE, 0xF8]),
    {
        self.emit_int24(0x0F, 0xAE, 0xF8);
    }

    /// `mov dst, src`
    pub fn mov(&mut self, dst: Register, src: Register)
        requires
            dst.wf(),
            src.wf(),
        ensures
            final(self).appends(*old(self), rex_for_rr(true, dst.encoding, src.encoding, false, false) + seq![0x8B, (0xC0 | rr_bits(dst.encoding, src.encoding))]),
    {
        self.movq_rr(dst, src);
    }

    /// `movb dst, [src]`
    pub fn movb(&mut self, dst: Register, src: Address)
        requires
            dst.wf(),
            src.wf(),
        ensures
            ({
                let f = old(self).features;
                final(self).appends(*old(self), rex_for_adr(false, dst.encoding, src, true) + seq![0x8A] + address_bytes(f, None, dst.encoding, src, false))
            }),
    {
        self.prefix_adr_reg(&src, dst.encoding, true);
        self.emit_int8(0x8A);
        self.emit_operand(dst.encoding, &src);
    }

    /// `movb [dst], imm8`
    pub fn movb_mi(&mut self, dst: Address, imm8: i8)
        requires
            dst.wf(),
        ensures
            ({
                let f = old(self).features;
                final(self).appends(*old(self), rex_opt(false, false, dst.spec_index_needs_rex(), dst.spec_base_needs_rex(), false) + seq![0xC6] + address_bytes(f, None, 0, dst, false) + seq![imm_byte(imm8)])
            }),
    {
        self.prefix_adr(&dst);
        self.emit_int8(0xC6);
        self.emit_operand(0, &dst);
        self.emit_int8(imm_byte_exec(imm8));
    }

    /// `movb [dst], src`
    pub fn movb_mr(&mut self, dst: Address, src: Register)
        requires
            dst.wf(),
            src.wf(),
        ensures
            ({
                let f = old(self).features;
                final(self).appends(*old(self), rex_for_adr(false, src.encoding, dst, true) + seq![0x88] + address_bytes(f, None, src.encoding, dst, false))
            }),
    {
        self.prefix_adr_reg(&dst, src.encoding, true);
        self.emit_int8(0x88);
        self.emit_operand(src.encoding, &dst);
    }

    /// `movl dst, imm32`
    pub fn movl_ri(&mut self, dst: Register, imm32: i32)
        requires
            dst.wf(),
        ensures
            final(self).appends(*old(self), rex_opt(false, false, false, dst.encoding >= 8, false) + seq![(0xB8 | (dst.encoding & 7))] + le32(imm32)),
    {
        let encode = self.prefix_and_encode(dst.encoding, false);
        self.emit_int8((0xB8 | encode));
        self.emit_i32(imm32);
    }

    /// `movl dst, src`
    pub fn movl(&mut self, dst: Register, src: Register)
        requires
            dst.wf(),
            src.wf(),
        ensures
            final(self).appends(*old(self), rex_for_rr(false, dst.encoding, src.encoding, false, false) + seq![0x8B, (0xC0 | rr_bits(dst.encoding, src.encoding))]),
    {
        let encode = self.prefix_and_encode_rr(dst.encoding, false, src.encoding, false);
        self.emit_int16(0x8B, (0xC0 | encode));
    }

    /// `movl dst, [src]`
    pub fn movl_rm(&mut self, dst: Register, src: Address)
        requires
            dst.wf(),
            src.wf(),
        ensures
            ({
                let f = old(self).features;
                final(self).appends(*old(self), rex_for_adr(false, dst.encoding, src, false) + seq![0x8B] + address_bytes(f, None, dst.encoding, src, false))
            }),
    {
        self.prefix_adr_reg(&src, dst.encoding, false);
        self.emit_int8(0x8B);
        self.emit_operand(dst.encoding, &src);
    }

    /// `movl [dst], imm32`
    pub fn movl_mi(&mut self, dst: Address, imm32: i32)
        requires
            dst.wf(),
        ensures
            ({
                let f = old(self).features;
                final(self).appends(*old(self), rex_opt(false, false, dst.spec_index_needs_rex(), dst.spec_base_needs_rex(), false) + seq![0xC7] + address_bytes(f, None, 0, dst, false) + le32(imm32))
            }),
    {
        self.prefix_adr(&dst);
        self.emit_int8(0xC7);
        self.emit_operand(0, &dst);
        self.emit_i32(imm32);
    }

    /// `movl [dst], src`
    pub fn movl_mr(&mut self, dst: Address, src: Register)
        requires
            dst.wf(),
            src.wf(),
        ensures
            ({
                let f = old(self).features;
                final(self).appends(*old(self), rex_for_adr(false, src.encoding, dst, false) + seq![0x89] + address_bytes(f, None, src.encoding, dst, false))
            }),
    {
        self.prefix_adr_reg(&dst, src.encoding, false);
        self.emit_int8(0x89);
        self.emit_operand(src.encoding, &dst);
    }

    /// `movsbl dst, [src]`
    pub fn movsbl_rm(&mut self, dst: Register, src: Address)
        requires
            dst.wf(),
            src.wf(),
        ensures
            ({
                let f = old(self).features;
                final(self).appends(*old(self), rex_for_adr(false, dst.encoding, src, false) + seq![0x0F, 0xBE] + address_bytes(f, None, dst.encoding, src, false))
            }),
    {
        self.prefix_adr_reg(&src, dst.encoding, false);
        self.emit_int16(0x0F, 0xBE);
        self.emit_operand(dst.encoding, &src);
    }

    /// `movsbl dst, src`
    pub fn movsbl(&mut self, dst: Register, src: Register)
        requires
            dst.wf(),
            src.wf(),
        ensures
            final(self).appends(*old(self), rex_for_rr(false, dst.encoding, src.encoding, false, true) + seq![0x0F, 0xBE, (0xC0 | rr_bits(dst.encoding, src.encoding))]),
    {
        let encode = self.prefix_and_encode_rr(dst.encoding, false, src.encoding, true);
        self.emit_int24(0x0F, 0xBE, (0xC0 | encode));
    }

    /// `movswl dst, [src]`
    pub fn movswl_rm(&mut self, dst: Register, src: Address)
        requires
            dst.wf(),
            src.wf(),
        ensures
            ({
                let f = old(self).features;
                final(self).appends(*old(self), rex_for_adr(false, dst.encoding, src, false) + seq![0x0F, 0xBF] + address_bytes(f, None, dst.encoding, src, false))
            }),
    {
        self.prefix_adr_reg(&src, dst.encoding, false);
        self.emit_int16(0x0F, 0xBF);
        self.emit_operand(dst.encoding, &src);
    }

    /// `movswl dst, src`
    pub fn movswl(&mut self, dst: Register, src: Register)
        requires
            dst.wf(),
            src.wf(),
        ensures
            final(self).appends(*old(self), rex_for_rr(false, dst.encoding, src.encoding, false, false) + seq![0x0F, 0xBF, (0xC0 | rr_bits(dst.encoding, src.encoding))]),
    {
        let encode = self.prefix_and_encode_rr(dst.encoding, false, src.encoding, false);
        self.emit_int24(0x0F, 0xBF, (0xC0 | encode));
    }

    /// `movw [dst], imm16`
    pub fn movw(&mut self, dst: Address, imm16: i16)
        requires
            dst.wf(),
        ensures
            ({
                let f = old(self).features;
                final(self).appends(*old(self), seq![0x66] + rex_opt(false, false, dst.spec_index_needs_rex(), dst.spec_base_needs_rex(), false) + seq![0xC7] + address_bytes(f, None, 0, dst, false) + le16(imm16))
            }),
    {
        self.emit_int8(0x66);
        self.prefix_adr(&dst);
        self.emit_int8(0xC7);
        self.emit_operand(0, &dst);
        self.emit_i16(imm16);
    }

    /// `movw dst, [src]`
    pub fn movw_rm(&mut self, dst: Register, src: Address)
        requires
            dst.wf(),
            src.wf(),
        ensures
            ({
                let f = old(self).features;
                final(self).appends(*old(self), seq![0x66] + rex_for_adr(false, dst.encoding, src, false) + seq![0x8B] + address_bytes(f, None, dst.encoding, src, false))
            }),
    {
        self.emit_int8(0x66);
        self.prefix_adr_reg(&src, dst.encoding, false);
        self.emit_int8(0x8B);
        self.emit_operand(dst.encoding, &src);
    }

    /// `movw [dst], src`
    pub fn movw_mr(&mut self, dst: Address, src: Register)
        requires
            dst.wf(),
            src.wf(),
        ensures
            ({
                let f = old(self).features;
                final(self).appends(*old(self), seq![0x66] + rex_for_adr(false, src.encoding, dst, false) + seq![0x89] + address_bytes(f, None, src.encoding, dst, false))
            }),
    {
        self.emit_int8(0x66);
        self.prefix_adr_reg(&dst, src.encoding, false);
        self.emit_int8(0x89);
        self.emit_operand(src.encoding, &dst);
    }

    /// `movzbl dst, [src]`
    pub fn movzbl_rm(&mut self, dst: Register, src: Address)
        requires
            dst.wf(),
            src.wf(),
        ensures
            ({
                let f = old(self).features;
                final(self).appends(*old(self), rex_for_adr(false, dst.encoding, src, false) + seq![0x0F, 0xB6] + address_bytes(f, None, dst.encoding, src, false))
            }),
    {
        self.prefix_adr_reg(&src, dst.encoding, false);
        self.emit_int16(0x0F, 0xB6);
        self.emit_operand(dst.encoding, &src);
    }

    /// `movzbl dst, src`
    pub fn movzbl(&mut self, dst: Register, src: Register)
        requires
            dst.wf(),
            src.wf(),
        ensures
            final(self).appends(*old(self), rex_for_rr(false, dst.encoding, src.encoding, false, true) + seq![0x0F, 0xB6, (0xC0 | rr_bits(dst.encoding, src.encoding))]),
    {
        let encode = self.prefix_and_encode_rr(dst.encoding, false, src.encoding, true);
        self.emit_int24(0x0F, 0xB6, (0xC0 | encode));
    }

    /// `movzwl dst, [src]`
    pub fn movzwl_rm(&mut self, dst: Register, src: Address)
        requires
            dst.wf(),
            src.wf(),
        ensures
            ({
                let f = old(self).features;
                final(self).appends(*old(self), rex_for_adr(false, dst.encoding, src, false) + seq![0x0F, 0xB7] + address_bytes(f, None, dst.encoding, src, false))
            }),
    {
        self.prefix_adr_reg(&src, dst.encoding, false);
        self.emit_int16(0x0F, 0xB7);
        self.emit_operand(dst.encoding, &src);
    }

    /// `movzwl dst, src`
    pub fn movzwl(&mut self, dst: Register, src: Register)
        requires
            dst.wf(),
            src.wf(),
        ensures
            final(self).appends(*old(self), rex_for_rr(false, dst.encoding, src.encoding, false, false) + seq![0x0F, 0xB7, (0xC0 | rr_bits(dst.encoding, src.encoding))]),
    {
        let encode = self.prefix_and_encode_rr(dst.encoding, false, src.encoding, false);
        self.emit_int24(0x0F, 0xB7, (0xC0 | encode));
    }

    /// `mull [src]`
    pub fn mull_m(&mut self, src: Address)
        requires
            src.wf(),
        ensures
            ({
                let f = old(self).features;
                final(self).appends(*old(self), rex_opt(false, false, src.spec_index_needs_rex(), src.spec_base_needs_rex(), false) + seq![0xF7] + address_bytes(f, None, 4, src, false))
            }),
    {
        self.prefix_adr(&src);
        self.emit_int8(0xF7);
        self.emit_operand(4, &src);
    }

    /// `mull src`
    pub fn mull(&mut self, src: Register)
        requires
            src.wf(),
        ensures
            final(self).appends(*old(self), rex_opt(false, false, false, src.encoding >= 8, false) + seq![0xF7, (0xE0 | (src.encoding & 7))]),
    {
        let encode = self.prefix_and_encode(src.encoding, false);
        self.emit_int16(0xF7, (0xE0 | encode));
    }

    /// `negl dst`
    pub fn negl(&mut self, dst: Register)
        requires
            dst.wf(),
        ensures
            final(self).appends(*old(self), rex_opt(false, false, false, dst.encoding >= 8, false) + seq![0xF7, (0xD8 | (dst.encoding & 7))]),
    {
        let encode = self.prefix_and_encode(dst.encoding, false);
        self.emit_int16(0xF7, (0xD8 | encode));
    }

    /// `negl [dst]`
    pub fn negl_m(&mut self, dst: Address)
        requires
            dst.wf(),
        ensures
            ({
                let f = old(self).features;
                final(self).appends(*old(self), rex_opt(false, false, dst.spec_index_needs_rex(), dst.spec_base_needs_rex(), false) + seq![0xF7] + address_bytes(f, None, 3, dst, false))
            }),
    {
        self.prefix_adr(&dst);
        self.emit_int8(0xF7);
        self.emit_operand(3, &dst);
    }

    /// `notl dst`
    pub fn notl(&mut self, dst: Register)
        requires
            dst.wf(),
        ensures
            final(self).appends(*old(self), rex_opt(false, false, false, dst.encoding >= 8, false) + seq![0xF7, (0xD0 | (dst.encoding & 7))]),
    {
        let encode = self.prefix_and_encode(dst.encoding, false);
        self.emit_int16(0xF7, (0xD0 | encode));
    }

    /// `orw dst, src`
    pub fn orw(&mut self, dst: Register, src: Register)
        requires
            dst.wf(),
            src.wf(),
        ensures
            final(self).appends(*old(self), rex_for_rr(false, dst.encoding, src.encoding, false, false) + seq![0x0B, 0xC0 | ((encode(dst) << 3) | encode(src))]),
    {
        let _ = self.prefix_and_encode_rr(dst.encoding, false, src.encoding, false);
        self.emit_arith_rr(0x0B, 0xC0, dst, src);
    }

    /// `orl [dst], imm32`
    pub fn orl_mi(&mut self, dst: Address, imm32: i32)
        requires
            dst.wf(),
        ensures
            ({
                let f = old(self).features;
                final(self).appends(*old(self), rex_opt(false, false, dst.spec_index_needs_rex(), dst.spec_base_needs_rex(), false) + arith_operand_bytes(f, 0x81, 1, dst, imm32))
            }),
    {
        self.prefix_adr(&dst);
        self.emit_arith_operand(0x81, 1, &dst, imm32);
    }

    /// `orl dst, imm32`
    pub fn orl_ri(&mut self, dst: Register, imm32: i32)
        requires
            dst.wf(),
        ensures
            final(self).appends(*old(self), rex_opt(false, false, false, dst.encoding >= 8, false) + arith_imm_bytes(0x81, 0xC8, dst, imm32)),
    {
        self.prefix_reg(dst);
        self.emit_arith(0x81, 0xC8, dst, imm32);
    }

    /// `orl dst, [src]`
    pub fn orl_rm(&mut self, dst: Register, src: Address)
        requires
            dst.wf(),
            src.wf(),
        ensures
            ({
                let f = old(self).features;
                final(self).appends(*old(self), rex_for_adr(false, dst.encoding, src, false) + seq![0x0B] + address_bytes(f, None, dst.encoding, src, false))
            }),
    {
        self.prefix_adr_reg(&src, dst.encoding, false);
        self.emit_int8(0x0B);
        self.emit_operand(dst.encoding, &src);
    }

    /// `orl dst, src`
    pub fn orl(&mut self, dst: Register, src: Register)
        requires
            dst.wf(),
            src.wf(),
        ensures
            final(self).appends(*old(self), rex_for_rr(false, dst.encoding, src.encoding, false, false) + seq![0x0B, 0xC0 | ((encode(dst) << 3) | encode(src))]),
    {
        let _ = self.prefix_and_encode_rr(dst.encoding, false, src.encoding, false);
        self.emit_arith_rr(0x0B, 0xC0, dst, src);
    }

    /// `orl [dst], src`
    pub fn orl_mr(&mut self, dst: Address, src: Register)
        requires
            dst.wf(),
            src.wf(),
        ensures
            ({
                let f = old(self).features;
                final(self).appends(*old(self), rex_for_adr(false, src.encoding, dst, false) + seq![0x09] + address_bytes(f, None, src.encoding, dst, false))
            }),
    {
        self.prefix_adr_reg(&dst, src.encoding, false);
        self.emit_int8(0x09);
        self.emit_operand(src.encoding, &dst);
    }

    /// `orb [dst], imm8`
    pub fn orb(&mut self, dst: Address, imm8: i8)
        requires
            dst.wf(),
        ensures
            ({
                let f = old(self).features;
                final(self).appends(*old(self), rex_opt(false, false, dst.spec_index_needs_rex(), dst.spec_base_needs_rex(), false) + seq![0x80] + address_bytes(f, None, 1, dst, false) + seq![imm_byte(imm8)])
            }),
    {
        self.prefix_adr(&dst);
        self.emit_int8(0x80);
        self.emit_operand(1, &dst);
        self.emit_int8(imm_byte_exec(imm8));
    }

    /// `orb [dst], src`
    pub fn orb_mr(&mut self, dst: Address, src: Register)
        requires
            dst.wf(),
            src.wf(),
        ensures
            ({
                let f = old(self).features;
                final(self).appends(*old(self), rex_for_adr(false, src.encoding, dst, true) + seq![0x08] + address_bytes(f, None, src.encoding, dst, false))
            }),
    {
        self.prefix_adr_reg(&dst, src.encoding, true);
        self.emit_int8(0x08);
        self.emit_operand(src.encoding, &dst);
    }

    /// `pause`
    pub fn pause(&mut self)
        ensures
            final(self).appends(*old(self), seq![0xF3, 0x90]),
    {
        self.emit_int16(0xF3, 0x90);
    }

    /// `ud2`
    pub fn ud2(&mut self)
        ensures
            final(self).appends(*old(self), seq![0x0F, 0x0B]),
    {
        self.emit_int16(0x0F, 0x0B);
    }

    /// `pop dst`
    pub fn pop(&mut self, dst: Register)
        requires
            dst.wf(),
        ensures
            final(self).appends(*old(self), rex_opt(false, false, false, dst.encoding >= 8, false) + seq![(0x58 | (dst.encoding & 7))]),
    {
        let encode = self.prefix_and_encode(dst.encoding, false);
        self.emit_int8((0x58 | encode));
    }

    /// `popcntl dst, [src]`
    pub fn popcntl_rm(&mut self, dst: Register, src: Address)
        requires
            dst.wf(),
            src.wf(),
            ({
                let f = old(self).features;
                (f.supports_popcnt())
            }),
        ensures
            ({
                let f = old(self).features;
                final(self).appends(*old(self), seq![0xF3] + rex_for_adr(false, dst.encoding, src, false) + seq![0x0F, 0xB8] + address_bytes(f, None, dst.encoding, src, false))
            }),
    {
        self.emit_int8(0xF3);
        self.prefix_adr_reg(&src, dst.encoding, false);
        self.emit_int16(0x0F, 0xB8);
        self.emit_operand(dst.encoding, &src);
    }

    /// `popcntl dst, src`
    pub fn popcntl(&mut self, dst: Register, src: Register)
        requires
            dst.wf(),
            src.wf(),
            ({
                let f = old(self).features;
                (f.supports_popcnt())
            }),
        ensures
            final(self).appends(*old(self), seq![0xF3] + rex_for_rr(false, dst.encoding, src.encoding, false, false) + seq![0x0F, 0xB8, (0xC0 | rr_bits(dst.encoding, src.encoding))]),
    {
        self.emit_int8(0xF3);
        let encode = self.prefix_and_encode_rr(dst.encoding, false, src.encoding, false);
        self.emit_int24(0x0F, 0xB8, (0xC0 | encode));
    }

    /// `popf`
    pub fn popf(&mut self)
        ensures
            final(self).appends(*old(self), seq![0x9D]),
    {
        self.emit_int8(0x9D);
    }

    /// `popl [dst]`
    pub fn popl(&mut self, dst: Address)
        requires
            dst.wf(),
        ensures
            ({
                let f = old(self).features;
                final(self).appends(*old(self), rex_opt(false, false, dst.spec_index_needs_rex(), dst.spec_base_needs_rex(), false) + seq![0x8F] + address_bytes(f, None, 0, dst, false))
            }),
    {
        self.prefix_adr(&dst);
        self.emit_int8(0x8F);
        self.emit_operand(0, &dst);
    }

    /// `prefetchnta [src]`
    pub fn prefetchnta(&mut self, src: Address)
        requires
            src.wf(),
        ensures
            ({
                let f = old(self).features;
                final(self).appends(*old(self), rex_opt(false, false, src.spec_index_needs_rex(), src.spec_base_needs_rex(), false) + seq![0x0F, 0x18] + address_bytes(f, None, 0, src, false))
            }),
    {
        self.prefix_adr(&src);
        self.emit_int16(0x0F, 0x18);
        self.emit_operand(0, &src);
    }

    /// `prefetchr [src]`
    pub fn prefetchr(&mut self, src: Address)
        requires
            src.wf(),
            ({
                let f = old(self).features;
                (f.supports_prefetchw_3dnow())
            }),
        ensures
            ({
                let f = old(self).features;
                final(self).appends(*old(self), rex_opt(false, false, src.spec_index_needs_rex(), src.spec_base_needs_rex(), false) + seq![0x0F, 0x0D] + address_bytes(f, None, 0, src, false))
            }),
    {
        self.prefix_adr(&src);
        self.emit_int16(0x0F, 0x0D);
        self.emit_operand(0, &src);
    }

    /// `prefetcht0 [src]`
    pub fn prefetcht0(&mut self, src: Address)
        requires
            src.wf(),
        ensures
            ({
                let f = old(self).features;
                final(self).appends(*old(self), rex_opt(false, false, src.spec_index_needs_rex(), src.spec_base_needs_rex(), false) + seq![0x0F, 0x18] + address_bytes(f, None, 1, src, false))
            }),
    {
        self.prefix_adr(&src);
        self.emit_int16(0x0F, 0x18);
        self.emit_operand(1, &src);
    }

    /// `prefetcht1 [src]`
    pub fn prefetcht1(&mut self, src: Address)
        requires
            src.wf(),
        ensures
            ({
                let f = old(self).features;
                final(self).appends(*old(self), rex_opt(false, false, src.spec_index_needs_rex(), src.spec_base_needs_rex(), false) + seq![0x0F, 0x18] + address_bytes(f, None, 2, src, false))
            }),
    {
        self.prefix_adr(&src);
        self.emit_int16(0x0F, 0x18);
        self.emit_operand(2, &src);
    }

    /// `prefetcht2 [src]`
    pub fn prefetcht2(&mut self, src: Address)
        requires
            src.wf(),
        ensures
            ({
                let f = old(self).features;
                final(self).appends(*old(self), rex_opt(false, false, src.spec_index_needs_rex(), src.spec_base_needs_rex(), false) + seq![0x0F, 0x18] + address_bytes(f, None, 3, src, false))
            }),
    {
        self.prefix_adr(&src);
        self.emit_int16(0x0F, 0x18);
        self.emit_operand(3, &src);
    }

    /// `prefetchw [src]`
    pub fn prefetchw(&mut self, src: Address)
        requires
            src.wf(),
            ({
                let f = old(self).features;
                (f.supports_prefetchw_3dnow())
            }),
        ensures
            ({
                let f = old(self).features;
                final(self).appends(*old(self), rex_opt(false, false, src.spec_index_needs_rex(), src.spec_base_needs_rex(), false) + seq![0x0F, 0x0D] + address_bytes(f, None, 1, src, false))
            }),
    {
        self.prefix_adr(&src);
        self.emit_int16(0x0F, 0x0D);
        self.emit_operand(1, &src);
    }

    /// `push imm32`
    pub fn push_i(&mut self, imm32: i32)
        ensures
            final(self).appends(*old(self), seq![0x68] + le32(imm32)),
    {
        self.emit_int8(0x68);
        self.emit_i32(imm32);
    }

    /// `push src`
    pub fn push(&mut self, src: Register)
        requires
            src.wf(),
        ensures
            final(self).appends(*old(self), rex_opt(false, false, false, src.encoding >= 8, false) + seq![(0x50 | (src.encoding & 7))]),
    {
        let encode = self.prefix_and_encode(src.encoding, false);
        self.emit_int8((0x50 | encode));
    }

    /// `pushf`
    pub fn pushf(&mut self)
        ensures
            final(self).appends(*old(self), seq![0x9C]),
    {
        self.emit_int8(0x9C);
    }

    /// `pushl [src]`
    pub fn pushl(&mut self, src: Address)
        requires
            src.wf(),
        ensures
            ({
                let f = old(self).features;
                final(self).appends(*old(self), rex_opt(false, false, src.spec_index_needs_rex(), src.spec_base_needs_rex(), false) + seq![0xFF] + address_bytes(f, None, 6, src, false))
            }),
    {
        self.prefix_adr(&src);
        self.emit_int8(0xFF);
        self.emit_operand(6, &src);
    }

    /// `rcll dst, imm8`
    pub fn rcll(&mut self, dst: Register, imm8: i8)
        requires
            dst.wf(),
            (0 <= imm8 && imm8 < 32),
        ensures
            final(self).appends(*old(self), rex_opt(false, false, false, dst.encoding >= 8, false) + (if (imm8 == 1) { seq![0xD1, (0xD0 | (dst.encoding & 7))] } else { seq![0xC1, (0xD0 | (dst.encoding & 7)), imm_byte(imm8)] })),
    {
        let encode = self.prefix_and_encode(dst.encoding, false);
        if imm8 == 1 {
            self.emit_int16(0xD1, (0xD0 | encode));
        } else {
            self.emit_int24(0xC1, (0xD0 | encode), imm_byte_exec(imm8));
        }
    }

    /// `rdtsc`
    pub fn rdtsc(&mut self)
        ensures
            final(self).appends(*old(self), seq![0x0F, 0x31]),
    {
        self.emit_int16(0x0F, 0x31);
    }

    /// `rep_mov`
    pub fn rep_mov(&mut self)
        ensures
            final(self).appends(*old(self), seq![0xF3, 0x48, 0xA5]),
    {
        self.emit_int24(0xF3, 0x48, 0xA5);
    }

    /// `rep_stosb`
    pub fn rep_stosb(&mut self)
        ensures
            final(self).appends(*old(self), seq![0xF3, 0x48, 0xAA]),
    {
        self.emit_int24(0xF3, 0x48, 0xAA);
    }

    /// `rep_stos`
    pub fn rep_stos(&mut self)
        ensures
            final(self).appends(*old(self), seq![0xF3, 0x48, 0xAB]),
    {
        self.emit_int24(0xF3, 0x48, 0xAB);
    }

    /// `repne_scan`
    pub fn repne_scan(&mut self)
        ensures
            final(self).appends(*old(self), seq![0xF2, 0x48, 0xAF]),
    {
        self.emit_int24(0xF2, 0x48, 0xAF);
    }

    /// `repne_scanl`
    pub fn repne_scanl(&mut self)
        ensures
            final(self).appends(*old(self), seq![0xF2, 0xAF]),
    {
        self.emit_int16(0xF2, 0xAF);
    }

    /// `ret imm16`
    pub fn ret(&mut self, imm16: i16)
        ensures
            final(self).appends(*old(self), (if (imm16 == 0) { seq![0xC3] } else { seq![0xC2] + le16(imm16) })),
    {
        if imm16 == 0 {
            self.emit_int8(0xC3);
        } else {
            self.emit_int8(0xC2);
            self.emit_i16(imm16);
        }
    }

    /// `roll dst, imm8`
    pub fn roll_ri(&mut self, dst: Register, imm8: i8)
        requires
            dst.wf(),
            (0 <= imm8 && imm8 < 32),
        ensures
            final(self).appends(*old(self), rex_opt(false, false, false, dst.encoding >= 8, false) + (if (imm8 == 1) { seq![0xD1, (0xC0 | (dst.encoding & 7))] } else { seq![0xC1, (0xc0 | (dst.encoding & 7)), imm_byte(imm8)] })),
    {
        let encode = self.prefix_and_encode(dst.encoding, false);
        if imm8 == 1 {
            self.emit_int16(0xD1, (0xC0 | encode));
        } else {
            self.emit_int24(0xC1, (0xc0 | encode), imm_byte_exec(imm8));
        }
    }

    /// `roll dst`
    pub fn roll(&mut self, dst: Register)
        requires
            dst.wf(),
        ensures
            final(self).appends(*old(self), rex_opt(false, false, false, dst.encoding >= 8, false) + seq![0xD3, (0xC0 | (dst.encoding & 7))]),
    {
        let encode = self.prefix_and_encode(dst.encoding, false);
        self.emit_int16(0xD3, (0xC0 | encode));
    }

    /// `rorl dst, imm8`
    pub fn rorl_ri(&mut self, dst: Register, imm8: i8)
        requires
            dst.wf(),
            (0 <= imm8 && imm8 < 32),
        ensures
            final(self).appends(*old(self), rex_opt(false, false, false, dst.encoding >= 8, false) + (if (imm8 == 1) { seq![0xD1, (0xC8 | (dst.encoding & 7))] } else { seq![0xC1, (0xc8 | (dst.encoding & 7)), imm_byte(imm8)] })),
    {
        let encode = self.prefix_and_encode(dst.encoding, false);
        if imm8 == 1 {
            self.emit_int16(0xD1, (0xC8 | encode));
        } else {
            self.emit_int24(0xC1, (0xc8 | encode), imm_byte_exec(imm8));
        }
    }

    /// `rorl dst`
    pub fn rorl(&mut self, dst: Register)
        requires
            dst.wf(),
        ensures
            final(self).appends(*old(self), rex_opt(false, false, false, dst.encoding >= 8, false) + seq![0xD3, (0xC8 | (dst.encoding & 7))]),
    {
        let encode = self.prefix_and_encode(dst.encoding, false);
        self.emit_int16(0xD3, (0xC8 | encode));
    }

    /// `rorq dst`
    pub fn rorq(&mut self, dst: Register)
        requires
            dst.wf(),
        ensures
            final(self).appends(*old(self), rex_opt(true, false, false, dst.encoding >= 8, false) + seq![0xD3, (0xC8 | (dst.encoding & 7))]),
    {
        let encode = self.prefixq_and_encode(dst.encoding);
        self.emit_int16(0xD3, (0xC8 | encode));
    }

    /// `rorq dst, imm8`
    pub fn rorq_ri(&mut self, dst: Register, imm8: i8)
        requires
            dst.wf(),
            (0 <= (imm8 >> 1) && (imm8 >> 1) < 32),
        ensures
            final(self).appends(*old(self), rex_opt(true, false, false, dst.encoding >= 8, false) + (if (imm8 == 1) { seq![0xD1, (0xC8 | (dst.encoding & 7))] } else { seq![0xC1, (0xc8 | (dst.encoding & 7)), imm_byte(imm8)] })),
    {
        let encode = self.prefixq_and_encode(dst.encoding);
        if imm8 == 1 {
            self.emit_int16(0xD1, (0xC8 | encode));
        } else {
            self.emit_int24(0xC1, (0xc8 | encode), imm_byte_exec(imm8));
        }
    }

    /// `rolq dst`
    pub fn rolq(&mut self, dst: Register)
        requires
            dst.wf(),
        ensures
            final(self).appends(*old(self), rex_opt(true, false, false, dst.encoding >= 8, false) + seq![0xD3, (0xC0 | (dst.encoding & 7))]),
    {
        let encode = self.prefixq_and_encode(dst.encoding);
        self.emit_int16(0xD3, (0xC0 | encode));
    }

    /// `rolq dst, imm8`
    pub fn rolq_ri(&mut self, dst: Register, imm8: i8)
        requires
            dst.wf(),
            (0 <= (imm8 >> 1) && (imm8 >> 1) < 32),
        ensures
            final(self).appends(*old(self), rex_opt(true, false, false, dst.encoding >= 8, false) + (if (imm8 == 1) { seq![0xD1, (0xC0 | (dst.encoding & 7))] } else { seq![0xC1, (0xc0 | (dst.encoding & 7)), imm_byte(imm8)] })),
    {
        let encode = self.prefixq_and_encode(dst.encoding);
        if imm8 == 1 {
            self.emit_int16(0xD1, (0xC0 | encode));
        } else {
            self.emit_int24(0xC1, (0xc0 | encode), imm_byte_exec(imm8));
        }
    }

    /// `sall [dst], imm8`
    pub fn sall_mi(&mut self, dst: Address, imm8: i8)
        requires
            dst.wf(),
            (0 <= imm8 && imm8 < 32),
        ensures
            ({
                let f = old(self).features;
                final(self).appends(*old(self), rex_opt(false, false, dst.spec_index_needs_rex(), dst.spec_base_needs_rex(), false) + (if (imm8 == 1) { seq![0xD1] + address_bytes(f, None, 4, dst, false) } else { seq![0xC1] + address_bytes(f, None, 4, dst, false) + seq![imm_byte(imm8)] }))
            }),
    {
        self.prefix_adr(&dst);
        if imm8 == 1 {
            self.emit_int8(0xD1);
            self.emit_operand(4, &dst);
        } else {
            self.emit_int8(0xC1);
            self.emit_operand(4, &dst);
            self.emit_int8(imm_byte_exec(imm8));
        }
    }

    /// `sall [dst]`
    pub fn sall_m(&mut self, dst: Address)
        requires
            dst.wf(),
        ensures
            ({
                let f = old(self).features;
                final(self).appends(*old(self), rex_opt(false, false, dst.spec_index_needs_rex(), dst.spec_base_needs_rex(), false) + seq![0xD3] + address_bytes(f, None, 4, dst, false))
            }),
    {
        self.prefix_adr(&dst);
        self.emit_int8(0xD3);
        self.emit_operand(4, &dst);
    }

    /// `sall dst, imm8`
    pub fn sall_ri(&mut self, dst: Register, imm8: i8)
        requires
            dst.wf(),
            (0 <= imm8 && imm8 < 32),
        ensures
            final(self).appends(*old(self), rex_opt(false, false, false, dst.encoding >= 8, false) + (if (imm8 == 1) { seq![0xD1, (0xE0 | (dst.encoding & 7))] } else { seq![0xC1, (0xE0 | (dst.encoding & 7)), imm_byte(imm8)] })),
    {
        let encode = self.prefix_and_encode(dst.encoding, false);
        if imm8 == 1 {
            self.emit_int16(0xD1, (0xE0 | encode));
        } else {
            self.emit_int24(0xC1, (0xE0 | encode), imm_byte_exec(imm8));
        }
    }

    /// `sall dst`
    pub fn sall(&mut self, dst: Register)
        requires
            dst.wf(),
        ensures
            final(self).appends(*old(self), rex_opt(false, false, false, dst.encoding >= 8, false) + seq![0xD3, (0xE0 | (dst.encoding & 7))]),
    {
        let encode = self.prefix_and_encode(dst.encoding, false);
        self.emit_int16(0xD3, (0xE0 | encode));
    }

    /// `sarl [dst], imm8`
    pub fn sarl_mi(&mut self, dst: Address, imm8: i8)
        requires
            dst.wf(),
            (0 <= imm8 && imm8 < 32),
        ensures
            ({
                let f = old(self).features;
                final(self).appends(*old(self), rex_opt(false, false, dst.spec_index_needs_rex(), dst.spec_base_needs_rex(), false) + (if (imm8 == 1) { seq![0xD1] + address_bytes(f, None, 7, dst, false) } else { seq![0xC1] + address_bytes(f, None, 7, dst, false) + seq![imm_byte(imm8)] }))
            }),
    {
        self.prefix_adr(&dst);
        if imm8 == 1 {
            self.emit_int8(0xD1);
            self.emit_operand(7, &dst);
        } else {
            self.emit_int8(0xC1);
            self.emit_operand(7, &dst);
            self.emit_int8(imm_byte_exec(imm8));
        }
    }

    /// `sarl [dst]`
    pub fn sarl_m(&mut self, dst: Address)
        requires
            dst.wf(),
        ensures
            ({
                let f = old(self).features;
                final(self).appends(*old(self), rex_opt(false, false, dst.spec_index_needs_rex(), dst.spec_base_needs_rex(), false) + seq![0xD3] + address_bytes(f, None, 7, dst, false))
            }),
    {
        self.prefix_adr(&dst);
        self.emit_int8(0xD3);
        self.emit_operand(7, &dst);
    }

    /// `sarl dst, imm8`
    pub fn sarl_ri(&mut self, dst: Register, imm8: i8)
        requires
            dst.wf(),
            (0 <= imm8 && imm8 < 32),
        ensures
            final(self).appends(*old(self), rex_opt(false, false, false, dst.encoding >= 8, false) + (if (imm8 == 1) { seq![0xD1, (0xF8 | (dst.encoding & 7))] } else { seq![0xC1, (0xF8 | (dst.encoding & 7)), imm_byte(imm8)] })),
    {
        let encode = self.prefix_and_encode(dst.encoding, false);
        if imm8 == 1 {
            self.emit_int16(0xD1, (0xF8 | encode));
        } else {
            self.emit_int24(0xC1, (0xF8 | encode), imm_byte_exec(imm8));
        }
    }

    /// `sarl dst`
    pub fn sarl(&mut self, dst: Register)
        requires
            dst.wf(),
        ensures
            final(self).appends(*old(self), rex_opt(false, false, false, dst.encoding >= 8, false) + seq![0xD3, (0xF8 | (dst.encoding & 7))]),
    {
        let encode = self.prefix_and_encode(dst.encoding, false);
        self.emit_int16(0xD3, (0xF8 | encode));
    }

    /// `sbbl [dst], imm32`
    pub fn sbbl_mi(&mut self, dst: Address, imm32: i32)
        requires
            dst.wf(),
        ensures
            ({
                let f = old(self).features;
                final(self).appends(*old(self), rex_opt(false, false, dst.spec_index_needs_rex(), dst.spec_base_needs_rex(), false) + arith_operand_bytes(f, 0x81, 3, dst, imm32))
            }),
    {
        self.prefix_adr(&dst);
        self.emit_arith_operand(0x81, 3, &dst, imm32);
    }

    /// `sbbl dst, imm32`
    pub fn sbbl_ri(&mut self, dst: Register, imm32: i32)
        requires
            dst.wf(),
        ensures
            final(self).appends(*old(self), rex_opt(false, false, false, dst.encoding >= 8, false) + arith_imm_bytes(0x81, 0xD8, dst, imm32)),
    {
        self.prefix_reg(dst);
        self.emit_arith(0x81, 0xD8, dst, imm32);
    }

    /// `sbbl dst, [src]`
    pub fn sbbl_rm(&mut self, dst: Register, src: Address)
        requires
            dst.wf(),
            src.wf(),
        ensures
            ({
                let f = old(self).features;
                final(self).appends(*old(self), rex_for_adr(false, dst.encoding, src, false) + seq![0x1B] + address_bytes(f, None, dst.encoding, src, false))
            }),
    {
        self.prefix_adr_reg(&src, dst.encoding, false);
        self.emit_int8(0x1B);
        self.emit_operand(dst.encoding, &src);
    }

    /// `sbbl dst, src`
    pub fn sbbl(&mut self, dst: Register, src: Register)
        requires
            dst.wf(),
            src.wf(),
        ensures
            final(self).appends(*old(self), rex_for_rr(false, dst.encoding, src.encoding, false, false) + seq![0x1B, 0xC0 | ((encode(dst) << 3) | encode(src))]),
    {
        let _ = self.prefix_and_encode_rr(dst.encoding, false, src.encoding, false);
        self.emit_arith_rr(0x1B, 0xC0, dst, src);
    }

    /// `setb cc, dst`
    pub fn setb(&mut self, cc: u8, dst: Register)
        requires
            cc < 16,
            dst.wf(),
            ((0 <= cc) && (cc < 16)),
        ensures
            final(self).appends(*old(self), rex_opt(false, false, false, dst.encoding >= 8, dst.encoding >= 4) + seq![0x0F, (0x90 | cc), (0xC0 | (dst.encoding & 7))]),
    {
        let encode = self.prefix_and_encode(dst.encoding, true);
        self.emit_int24(0x0F, (0x90 | cc), (0xC0 | encode));
    }

    /// `sha1rnds4 dst, src, imm8`
    pub fn sha1rnds4(&mut self, dst: XMMRegister, src: XMMRegister, imm8: i8)
        requires
            dst.wf(),
            src.wf(),
            ({
                let f = old(self).features;
                (f.supports_sha()) && (dst.encoding < 16 && src.encoding < 16)
            }),
        ensures
            final(self).appends(*old(self), simd_pre_bytes(VEX_SIMD_NONE) + rex_for_rr(false, dst.encoding, src.encoding, false, false) + simd_opc_bytes(VEX_OPCODE_0F_3A) + seq![0xCC, (0xC0 | rr_bits(dst.encoding, src.encoding)), imm_byte(imm8)]),
    {
        let encode = self.rex_prefix_and_encode(dst.encoding, src.encoding, VEX_SIMD_NONE, VEX_OPCODE_0F_3A, false);
        self.emit_int24(0xCC, (0xC0 | encode), imm_byte_exec(imm8));
    }

    /// `sha1nexte dst, src`
    pub fn sha1nexte(&mut self, dst: XMMRegister, src: XMMRegister)
        requires
            dst.wf(),
            src.wf(),
            ({
                let f = old(self).features;
                (f.supports_sha()) && (dst.encoding < 16 && src.encoding < 16)
            }),
        ensures
            final(self).appends(*old(self), simd_pre_bytes(VEX_SIMD_NONE) + rex_for_rr(false, dst.encoding, src.encoding, false, false) + simd_opc_bytes(VEX_OPCODE_0F_38) + seq![0xC8, (0xC0 | rr_bits(dst.encoding, src.encoding))]),
    {
        let encode = self.rex_prefix_and_encode(dst.encoding, src.encoding, VEX_SIMD_NONE, VEX_OPCODE_0F_38, false);
        self.emit_int16(0xC8, (0xC0 | encode));
    }

    /// `sha1msg1 dst, src`
    pub fn sha1msg1(&mut self, dst: XMMRegister, src: XMMRegister)
        requires
            dst.wf(),
            src.wf(),
            ({
                let f = old(self).features;
                (f.supports_sha()) && (dst.encoding < 16 && src.encoding < 16)
            }),
        ensures
            final(self).appends(*old(self), simd_pre_bytes(VEX_SIMD_NONE) + rex_for_rr(false, dst.encoding, src.encoding, false, false) + simd_opc_bytes(VEX_OPCODE_0F_38) + seq![0xC9, (0xC0 | rr_bits(dst.encoding, src.encoding))]),
    {
        let encode = self.rex_prefix_and_encode(dst.encoding, src.encoding, VEX_SIMD_NONE, VEX_OPCODE_0F_38, false);
        self.emit_int16(0xC9, (0xC0 | encode));
    }

    /// `sha1msg2 dst, src`
    pub fn sha1msg2(&mut self, dst: XMMRegister, src: XMMRegister)
        requires
            dst.wf(),
            src.wf(),
            ({
                let f = old(self).features;
                (f.supports_sha()) && (dst.encoding < 16 && src.encoding < 16)
            }),
        ensures
            final(self).appends(*old(self), simd_pre_bytes(VEX_SIMD_NONE) + rex_for_rr(false, dst.encoding, src.encoding, false, false) + simd_opc_bytes(VEX_OPCODE_0F_38) + seq![0xCA, (0xC0 | rr_bits(dst.encoding, src.encoding))]),
    {
        let encode = self.rex_prefix_and_encode(dst.encoding, src.encoding, VEX_SIMD_NONE, VEX_OPCODE_0F_38, false);
        self.emit_int16(0xCA, (0xC0 | encode));
    }

    /// `sha256rnds2 dst, src`
    pub fn sha256rnds2(&mut self, dst: XMMRegister, src: XMMRegister)
        requires
            dst.wf(),
            src.wf(),
            ({
                let f = old(self).features;
                (f.supports_sha()) && (dst.encoding < 16 && src.encoding < 16)
            }),
        ensures
            final(self).appends(*old(self), simd_pre_bytes(VEX_SIMD_NONE) + rex_for_rr(false, dst.encoding, src.encoding, false, false) + simd_opc_bytes(VEX_OPCODE_0F_38) + seq![0xCB, (0xC0 | rr_bits(dst.encoding, src.encoding))]),
    {
        let encode = self.rex_prefix_and_encode(dst.encoding, src.encoding, VEX_SIMD_NONE, VEX_OPCODE_0F_38, false);
        self.emit_int16(0xCB, (0xC0 | encode));
    }

    /// `sha256msg1 dst, src`
    pub fn sha256msg1(&mut self, dst: XMMRegister, src: XMMRegister)
        requires
            dst.wf(),
            src.wf(),
            ({
                let f = old(self).features;
                (f.supports_sha()) && (dst.encoding < 16 && src.encoding < 16)
            }),
        ensures
            final(self).appends(*old(self), simd_pre_bytes(VEX_SIMD_NONE) + rex_for_rr(false, dst.encoding, src.encoding, false, false) + simd_opc_bytes(VEX_OPCODE_0F_38) + seq![0xCC, (0xC0 | rr_bits(dst.encoding, src.encoding))]),
    {
        let encode = self.rex_prefix_and_encode(dst.encoding, src.encoding, VEX_SIMD_NONE, VEX_OPCODE_0F_38, false);
        self.emit_int16(0xCC, (0xC0 | encode));
    }

    /// `sha256msg2 dst, src`
    pub fn sha256msg2(&mut self, dst: XMMRegister, src: XMMRegister)
        requires
            dst.wf(),
            src.wf(),
            ({
                let f = old(self).features;
                (f.supports_sha()) && (dst.encoding < 16 && src.encoding < 16)
            }),
        ensures
            final(self).appends(*old(self), simd_pre_bytes(VEX_SIMD_NONE) + rex_for_rr(false, dst.encoding, src.encoding, false, false) + simd_opc_bytes(VEX_OPCODE_0F_38) + seq![0xCD, (0xC0 | rr_bits(dst.encoding, src.encoding))]),
    {
        let encode = self.rex_prefix_and_encode(dst.encoding, src.encoding, VEX_SIMD_NONE, VEX_OPCODE_0F_38, false);
        self.emit_int16(0xCD, (0xC0 | encode));
    }

    /// `shll dst, imm8`
    pub fn shll_ri(&mut self, dst: Register, imm8: i8)
        requires
            dst.wf(),
            (0 <= imm8 && imm8 < 32),
        ensures
            final(self).appends(*old(self), rex_opt(false, false, false, dst.encoding >= 8, false) + (if (imm8 == 1) { seq![0xD1, (0xE0 | (dst.encoding & 7))] } else { seq![0xC1, (0xE0 | (dst.encoding & 7)), imm_byte(imm8)] })),
    {
        let encode = self.prefix_and_encode(dst.encoding, false);
        if imm8 == 1 {
            self.emit_int16(0xD1, (0xE0 | encode));
        } else {
            self.emit_int24(0xC1, (0xE0 | encode), imm_byte_exec(imm8));
        }
    }

    /// `shll dst`
    pub fn shll(&mut self, dst: Register)
        requires
            dst.wf(),
        ensures
            final(self).appends(*old(self), rex_opt(false, false, false, dst.encoding >= 8, false) + seq![0xD3, (0xE0 | (dst.encoding & 7))]),
    {
        let encode = self.prefix_and_encode(dst.encoding, false);
        self.emit_int16(0xD3, (0xE0 | encode));
    }

    /// `shrl dst, imm8`
    pub fn shrl_ri(&mut self, dst: Register, imm8: i8)
        requires
            dst.wf(),
            (0 <= imm8 && imm8 < 32),
        ensures
            final(self).appends(*old(self), rex_opt(false, false, false, dst.encoding >= 8, false) + (if (imm8 == 1) { seq![0xD1, (0xE8 | (dst.encoding & 7))] } else { seq![0xC1, (0xE8 | (dst.encoding & 7)), imm_byte(imm8)] })),
    {
        let encode = self.prefix_and_encode(dst.encoding, false);
        if imm8 == 1 {
            self.emit_int16(0xD1, (0xE8 | encode));
        } else {
            self.emit_int24(0xC1, (0xE8 | encode), imm_byte_exec(imm8));
        }
    }

    /// `shrl dst`
    pub fn shrl(&mut self, dst: Register)
        requires
            dst.wf(),
        ensures
            final(self).appends(*old(self), rex_opt(false, false, false, dst.encoding >= 8, false) + seq![0xD3, (0xE8 | (dst.encoding & 7))]),
    {
        let encode = self.prefix_and_encode(dst.encoding, false);
        self.emit_int16(0xD3, (0xE8 | encode));
    }

    /// `shrl [dst]`
    pub fn shrl_m(&mut self, dst: Address)
        requires
            dst.wf(),
        ensures
            ({
                let f = old(self).features;
                final(self).appends(*old(self), rex_opt(false, false, dst.spec_index_needs_rex(), dst.spec_base_needs_rex(), false) + seq![0xD3] + address_bytes(f, None, 5, dst, false))
            }),
    {
        self.prefix_adr(&dst);
        self.emit_int8(0xD3);
        self.emit_operand(5, &dst);
    }

    /// `shrl [dst], imm8`
    pub fn shrl_mi(&mut self, dst: Address, imm8: i8)
        requires
            dst.wf(),
            (0 <= imm8 && imm8 < 32),
        ensures
            ({
                let f = old(self).features;
                final(self).appends(*old(self), rex_opt(false, false, dst.spec_index_needs_rex(), dst.spec_base_needs_rex(), false) + (if (imm8 == 1) { seq![0xD1] + address_bytes(f, None, 5, dst, false) } else { seq![0xC1] + address_bytes(f, None, 5, dst, false) + seq![imm_byte(imm8)] }))
            }),
    {
        self.prefix_adr(&dst);
        if imm8 == 1 {
            self.emit_int8(0xD1);
            self.emit_operand(5, &dst);
        } else {
            self.emit_int8(0xC1);
            self.emit_operand(5, &dst);
            self.emit_int8(imm_byte_exec(imm8));
        }
    }

    /// `shldl dst, src`
    pub fn shldl(&mut self, dst: Register, src: Register)
        requires
            dst.wf(),
            src.wf(),
        ensures
            final(self).appends(*old(self), rex_for_rr(false, src.encoding, dst.encoding, false, false) + seq![0x0F, 0xA5, (0xC0 | rr_bits(src.encoding, dst.encoding))]),
    {
        let encode = self.prefix_and_encode_rr(src.encoding, false, dst.encoding, false);
        self.emit_int24(0x0F, 0xA5, (0xC0 | encode));
    }

    /// `shldl dst, src, imm8`
    pub fn shldl_rri(&mut self, dst: Register, src: Register, imm8: i8)
        requires
            dst.wf(),
            src.wf(),
        ensures
            final(self).appends(*old(self), rex_for_rr(false, src.encoding, dst.encoding, false, false) + seq![0x0F, 0xA4, (0xC0 | rr_bits(src.encoding, dst.encoding)), imm_byte(imm8)]),
    {
        let encode = self.prefix_and_encode_rr(src.encoding, false, dst.encoding, false);
        self.emit_int32(0x0F, 0xA4, (0xC0 | encode), imm_byte_exec(imm8));
    }

    /// `shrdl dst, src`
    pub fn shrdl(&mut self, dst: Register, src: Register)
        requires
            dst.wf(),
            src.wf(),
        ensures
            final(self).appends(*old(self), rex_for_rr(false, src.encoding, dst.encoding, false, false) + seq![0x0F, 0xAD, (0xC0 | rr_bits(src.encoding, dst.encoding))]),
    {
        let encode = self.prefix_and_encode_rr(src.encoding, false, dst.encoding, false);
        self.emit_int24(0x0F, 0xAD, (0xC0 | encode));
    }

    /// `shrdl dst, src, imm8`
    pub fn shrdl_rri(&mut self, dst: Register, src: Register, imm8: i8)
        requires
            dst.wf(),
            src.wf(),
        ensures
            final(self).appends(*old(self), rex_for_rr(false, src.encoding, dst.encoding, false, false) + seq![0x0F, 0xAC, (0xC0 | rr_bits(src.encoding, dst.encoding)), imm_byte(imm8)]),
    {
        let encode = self.prefix_and_encode_rr(src.encoding, false, dst.encoding, false);
        self.emit_int32(0x0F, 0xAC, (0xC0 | encode), imm_byte_exec(imm8));
    }

    /// `shldq dst, src, imm8`
    pub fn shldq(&mut self, dst: Register, src: Register, imm8: i8)
        requires
            dst.wf(),
            src.wf(),
        ensures
            final(self).appends(*old(self), rex_for_rr(true, src.encoding, dst.encoding, false, false) + seq![0x0F, 0xA4, (0xC0 | rr_bits(src.encoding, dst.encoding)), imm_byte(imm8)]),
    {
        let encode = self.prefixq_and_encode_rr(src.encoding, dst.encoding);
        self.emit_int32(0x0F, 0xA4, (0xC0 | encode), imm_byte_exec(imm8));
    }

    /// `shrdq dst, src, imm8`
    pub fn shrdq(&mut self, dst: Register, src: Register, imm8: i8)
        requires
            dst.wf(),
            src.wf(),
        ensures
            final(self).appends(*old(self), rex_for_rr(true, src.encoding, dst.encoding, false, false) + seq![0x0F, 0xAC, (0xC0 | rr_bits(src.encoding, dst.encoding)), imm_byte(imm8)]),
    {
        let encode = self.prefixq_and_encode_rr(src.encoding, dst.encoding);
        self.emit_int32(0x0F, 0xAC, (0xC0 | encode), imm_byte_exec(imm8));
    }

    /// `smovl`
    pub fn smovl(&mut self)
        ensures
            final(self).appends(*old(self), seq![0xA5]),
    {
        self.emit_int8(0xA5);
    }

    /// `std`
    pub fn std_(&mut self)
        ensures
            final(self).appends(*old(self), seq![0xFD]),
    {
        self.emit_int8(0xFD);
    }

    /// `subl [dst], imm32`
    pub fn subl_mi(&mut self, dst: Address, imm32: i32)
        requires
            dst.wf(),
        ensures
            ({
                let f = old(self).features;
                final(self).appends(*old(self), rex_opt(false, false, dst.spec_index_needs_rex(), dst.spec_base_needs_rex(), false) + arith_operand_bytes(f, 0x81, 5, dst, imm32))
            }),
    {
        self.prefix_adr(&dst);
        self.emit_arith_operand(0x81, 5, &dst, imm32);
    }

    /// `subl [dst], src`
    pub fn subl_mr(&mut self, dst: Address, src: Register)
        requires
            dst.wf(),
            src.wf(),
        ensures
            ({
                let f = old(self).features;
                final(self).appends(*old(self), rex_for_adr(false, src.encoding, dst, false) + seq![0x29] + address_bytes(f, None, src.encoding, dst, false))
            }),
    {
        self.prefix_adr_reg(&dst, src.encoding, false);
        self.emit_int8(0x29);
        self.emit_operand(src.encoding, &dst);
    }

    /// `subl dst, imm32`
    pub fn subl_ri(&mut self, dst: Register, imm32: i32)
        requires
            dst.wf(),
        ensures
            final(self).appends(*old(self), rex_opt(false, false, false, dst.encoding >= 8, false) + arith_imm_bytes(0x81, 0xE8, dst, imm32)),
    {
        self.prefix_reg(dst);
        self.emit_arith(0x81, 0xE8, dst, imm32);
    }

    /// `subl_imm32 dst, imm32`
    pub fn subl_imm32(&mut self, dst: Register, imm32: i32)
        requires
            dst.wf(),
        ensures
            final(self).appends(*old(self), rex_opt(false, false, false, dst.encoding >= 8, false) + seq![0x81, 0xE8 | encode(dst)] + le32(imm32)),
    {
        self.prefix_reg(dst);
        self.emit_arith_imm32(0x81, 0xE8, dst, imm32);
    }

    /// `subl dst, [src]`
    pub fn subl_rm(&mut self, dst: Register, src: Address)
        requires
            dst.wf(),
            src.wf(),
        ensures
            ({
                let f = old(self).features;
                final(self).appends(*old(self), rex_for_adr(false, dst.encoding, src, false) + seq![0x2B] + address_bytes(f, None, dst.encoding, src, false))
            }),
    {
        self.prefix_adr_reg(&src, dst.encoding, false);
        self.emit_int8(0x2B);
        self.emit_operand(dst.encoding, &src);
    }

    /// `subl dst, src`
    pub fn subl(&mut self, dst: Register, src: Register)
        requires
            dst.wf(),
            src.wf(),
        ensures
            final(self).appends(*old(self), rex_for_rr(false, dst.encoding, src.encoding, false, false) + seq![0x2B, 0xC0 | ((encode(dst) << 3) | encode(src))]),
    {
        let _ = self.prefix_and_encode_rr(dst.encoding, false, src.encoding, false);
        self.emit_arith_rr(0x2B, 0xC0, dst, src);
    }

    /// `testb dst, imm8`
    pub fn testb(&mut self, dst: Register, imm8: i8)
        requires
            dst.wf(),
        ensures
            final(self).appends(*old(self), (if (dst.encoding == 0) { seq![0xA8] + seq![imm_byte(imm8)] } else { rex_opt(false, false, false, dst.encoding >= 8, dst.encoding >= 4) + seq![0xF6, 0xC0 | encode(dst), imm_byte(imm8)] })),
    {
        if dst.encoding == 0 {
            self.emit_int8(0xA8);
            self.emit_int8(imm_byte_exec(imm8));
        } else {
            let _ = self.prefix_and_encode(dst.encoding, true);
            self.emit_arith_b(0xF6, 0xC0, dst, imm_byte_exec(imm8));
        }
    }

    /// `testb [dst], imm8`
    pub fn testb_mi(&mut self, dst: Address, imm8: i8)
        requires
            dst.wf(),
        ensures
            ({
                let f = old(self).features;
                final(self).appends(*old(self), rex_opt(false, false, dst.spec_index_needs_rex(), dst.spec_base_needs_rex(), false) + seq![0xF6] + address_bytes(f, None, 0, dst, false) + seq![imm_byte(imm8)])
            }),
    {
        self.prefix_adr(&dst);
        self.emit_int8(0xF6);
        self.emit_operand(0, &dst);
        self.emit_int8(imm_byte_exec(imm8));
    }

    /// `testl [dst], imm32`
    pub fn testl_mi(&mut self, dst: Address, imm32: i32)
        requires
            dst.wf(),
        ensures
            ({
                let f = old(self).features;
                final(self).appends(*old(self), rex_opt(false, false, dst.spec_index_needs_rex(), dst.spec_base_needs_rex(), false) + seq![0xF7] + address_bytes(f, None, 0, dst, false) + le32(imm32))
            }),
    {
        self.prefix_adr(&dst);
        self.emit_int8(0xF7);
        self.emit_operand(0, &dst);
        self.emit_i32(imm32);
    }

    /// `testl dst, imm32`
    pub fn testl_ri(&mut self, dst: Register, imm32: i32)
        requires
            dst.wf(),
        ensures
            final(self).appends(*old(self), (if (dst.encoding == 0) { seq![0xA9] + le32(imm32) } else { rex_opt(false, false, false, dst.encoding >= 8, false) + seq![0xF7, (0xC0 | (dst.encoding & 7))] + le32(imm32) })),
    {
        if dst.encoding == 0 {
            self.emit_int8(0xA9);
            self.emit_i32(imm32);
        } else {
            let encode: u8 = dst.encoding;
            let encode = self.prefix_and_encode(encode, false);
            self.emit_int16(0xF7, (0xC0 | encode));
            self.emit_i32(imm32);
        }
    }

    /// `testl dst, src`
    pub fn testl(&mut self, dst: Register, src: Register)
        requires
            dst.wf(),
            src.wf(),
        ensures
            final(self).appends(*old(self), rex_for_rr(false, dst.encoding, src.encoding, false, false) + seq![0x85, 0xC0 | ((encode(dst) << 3) | encode(src))]),
    {
        let _ = self.prefix_and_encode_rr(dst.encoding, false, src.encoding, false);
        self.emit_arith_rr(0x85, 0xC0, dst, src);
    }

    /// `testl dst, [src]`
    pub fn testl_rm(&mut self, dst: Register, src: Address)
        requires
            dst.wf(),
            src.wf(),
        ensures
            ({
                let f = old(self).features;
                final(self).appends(*old(self), rex_for_adr(false, dst.encoding, src, false) + seq![0x85] + address_bytes(f, None, dst.encoding, src, false))
            }),
    {
        self.prefix_adr_reg(&src, dst.encoding, false);
        self.emit_int8(0x85);
        self.emit_operand(dst.encoding, &src);
    }

    /// `tzcntl dst, src`
    pub fn tzcntl(&mut self, dst: Register, src: Register)
        requires
            dst.wf(),
            src.wf(),
            ({
                let f = old(self).features;
                (f.supports_bmi1())
            }),
        ensures
            final(self).appends(*old(self), seq![0xF3] + rex_for_rr(false, dst.encoding, src.encoding, false, false) + seq![0x0F, 0xBC, (0xC0 | rr_bits(dst.encoding, src.encoding))]),
    {
        self.emit_int8(0xF3);
        let encode = self.prefix_and_encode_rr(dst.encoding, false, src.encoding, false);
        self.emit_int24(0x0F, 0xBC, (0xC0 | encode));
    }

    /// `tzcntl dst, [src]`
    pub fn tzcntl_rm(&mut self, dst: Register, src: Address)
        requires
            dst.wf(),
            src.wf(),
            ({
                let f = old(self).features;
                (f.supports_bmi1())
            }),
        ensures
            ({
                let f = old(self).features;
                final(self).appends(*old(self), seq![0xF3] + rex_for_adr(false, dst.encoding, src, false) + seq![0x0F, 0xBC] + address_bytes(f, None, dst.encoding, src, false))
            }),
    {
        self.emit_int8(0xF3);
        self.prefix_adr_reg(&src, dst.encoding, false);
        self.emit_int16(0x0F, 0xBC);
        self.emit_operand(dst.encoding, &src);
    }

    /// `tzcntq dst, src`
    pub fn tzcntq(&mut self, dst: Register, src: Register)
        requires
            dst.wf(),
            src.wf(),
            ({
                let f = old(self).features;
                (f.supports_bmi1())
            }),
        ensures
            final(self).appends(*old(self), seq![0xF3] + rex_for_rr(true, dst.encoding, src.encoding, false, false) + seq![0x0F, 0xBC, (0xC0 | rr_bits(dst.encoding, src.encoding))]),
    {
        self.emit_int8(0xF3);
        let encode = self.prefixq_and_encode_rr(dst.encoding, src.encoding);
        self.emit_int24(0x0F, 0xBC, (0xC0 | encode));
    }

    /// `tzcntq dst, [src]`
    pub fn tzcntq_rm(&mut self, dst: Register, src: Address)
        requires
            dst.wf(),
            src.wf(),
            ({
                let f = old(self).features;
                (f.supports_bmi1())
            }),
        ensures
            ({
                let f = old(self).features;
                final(self).appends(*old(self), seq![0xF3] + rex_for_adr(true, dst.encoding, src, false) + seq![0x0F, 0xBC] + address_bytes(f, None, dst.encoding, src, false))
            }),
    {
        self.emit_int8(0xF3);
        self.prefixq(&src, dst.encoding);
        self.emit_int16(0x0F, 0xBC);
        self.emit_operand(dst.encoding, &src);
    }

    /// `xabort imm8`
    pub fn xabort(&mut self, imm8: i8)
        ensures
            final(self).appends(*old(self), seq![0xC6, 0xF8, imm_byte(imm8)]),
    {
        self.emit_int24(0xC6, 0xF8, imm_byte_exec(imm8));
    }

    /// `xaddb [dst], src`
    pub fn xaddb(&mut self, dst: Address, src: Register)
        requires
            dst.wf(),
            src.wf(),
        ensures
            ({
                let f = old(self).features;
                final(self).appends(*old(self), rex_for_adr(false, src.encoding, dst, true) + seq![0x0F, 0xC0] + address_bytes(f, None, src.encoding, dst, false))
            }),
    {
        self.prefix_adr_reg(&dst, src.encoding, true);
        self.emit_int16(0x0F, 0xC0);
        self.emit_operand(src.encoding, &dst);
    }

    /// `xaddw [dst], src`
    pub fn xaddw(&mut self, dst: Address, src: Register)
        requires
            dst.wf(),
            src.wf(),
        ensures
            ({
                let f = old(self).features;
                final(self).appends(*old(self), seq![0x66] + rex_for_adr(false, src.encoding, dst, false) + seq![0x0F, 0xC1] + address_bytes(f, None, src.encoding, dst, false))
            }),
    {
        self.emit_int8(0x66);
        self.prefix_adr_reg(&dst, src.encoding, false);
        self.emit_int16(0x0F, 0xC1);
        self.emit_operand(src.encoding, &dst);
    }

    /// `xaddl [dst], src`
    pub fn xaddl(&mut self, dst: Address, src: Register)
        requires
            dst.wf(),
            src.wf(),
        ensures
            ({
                let f = old(self).features;
                final(self).appends(*old(self), rex_for_adr(false, src.encoding, dst, false) + seq![0x0F, 0xC1] + address_bytes(f, None, src.encoding, dst, false))
            }),
    {
        self.prefix_adr_reg(&dst, src.encoding, false);
        self.emit_int16(0x0F, 0xC1);
        self.emit_operand(src.encoding, &dst);
    }

    /// `xchgb dst, [src]`
    pub fn xchgb(&mut self, dst: Register, src: Address)
        requires
            dst.wf(),
            src.wf(),
        ensures
            ({
                let f = old(self).features;
                final(self).appends(*old(self), rex_for_adr(false, dst.encoding, src, true) + seq![0x86] + address_bytes(f, None, dst.encoding, src, false))
            }),
    {
        self.prefix_adr_reg(&src, dst.encoding, true);
        self.emit_int8(0x86);
        self.emit_operand(dst.encoding, &src);
    }

    /// `xchgw dst, [src]`
    pub fn xchgw(&mut self, dst: Register, src: Address)
        requires
            dst.wf(),
            src.wf(),
        ensures
            ({
                let f = old(self).features;
                final(self).appends(*old(self), seq![0x66] + rex_for_adr(false, dst.encoding, src, false) + seq![0x87] + address_bytes(f, None, dst.encoding, src, false))
            }),
    {
        self.emit_int8(0x66);
        self.prefix_adr_reg(&src, dst.encoding, false);
        self.emit_int8(0x87);
        self.emit_operand(dst.encoding, &src);
    }

    /// `xchgl dst, [src]`
    pub fn xchgl_rm(&mut self, dst: Register, src: Address)
        requires
            dst.wf(),
            src.wf(),
        ensures
            ({
                let f = old(self).features;
                final(self).appends(*old(self), rex_for_adr(false, dst.encoding, src, false) + seq![0x87] + address_bytes(f, None, dst.encoding, src, false))
            }),
    {
        self.prefix_adr_reg(&src, dst.encoding, false);
        self.emit_int8(0x87);
        self.emit_operand(dst.encoding, &src);
    }

    /// `xchgl dst, src`
    pub fn xchgl(&mut self, dst: Register, src: Register)
        requires
            dst.wf(),
            src.wf(),
        ensures
            final(self).appends(*old(self), rex_for_rr(false, dst.encoding, src.encoding, false, false) + seq![0x87, (0xC0 | rr_bits(dst.encoding, src.encoding))]),
    {
        let encode = self.prefix_and_encode_rr(dst.encoding, false, src.encoding, false);
        self.emit_int16(0x87, (0xC0 | encode));
    }

    /// `xend`
    pub fn xend(&mut self)
        ensures
            final(self).appends(*old(self), seq![0x0F, 0x01, 0xD5]),
    {
        self.emit_int24(0x0F, 0x01, 0xD5);
    }

    /// `xgetbv`
    pub fn xgetbv(&mut self)
        ensures
            final(self).appends(*old(self), seq![0x0F, 0x01, 0xD0]),
    {
        self.emit_int24(0x0F, 0x01, 0xD0);
    }

    /// `xorl [dst], imm32`
    pub fn xorl_mi(&mut self, dst: Address, imm32: i32)
        requires
            dst.wf(),
        ensures
            ({
                let f = old(self).features;
                final(self).appends(*old(self), rex_opt(false, false, dst.spec_index_needs_rex(), dst.spec_base_needs_rex(), false) + arith_operand_bytes(f, 0x81, 6, dst, imm32))
            }),
    {
        self.prefix_adr(&dst);
        self.emit_arith_operand(0x81, 6, &dst, imm32);
    }

    /// `xorl dst, imm32`
    pub fn xorl_ri(&mut self, dst: Register, imm32: i32)
        requires
            dst.wf(),
        ensures
            final(self).appends(*old(self), rex_opt(false, false, false, dst.encoding >= 8, false) + arith_imm_bytes(0x81, 0xF0, dst, imm32)),
    {
        self.prefix_reg(dst);
        self.emit_arith(0x81, 0xF0, dst, imm32);
    }

    /// `xorl dst, [src]`
    pub fn xorl_rm(&mut self, dst: Register, src: Address)
        requires
            dst.wf(),
            src.wf(),
        ensures
            ({
                let f = old(self).features;
                final(self).appends(*old(self), rex_for_adr(false, dst.encoding, src, false) + seq![0x33] + address_bytes(f, None, dst.encoding, src, false))
            }),
    {
        self.prefix_adr_reg(&src, dst.encoding, false);
        self.emit_int8(0x33);
        self.emit_operand(dst.encoding, &src);
    }

    /// `xorl dst, src`
    pub fn xorl(&mut self, dst: Register, src: Register)
        requires
            dst.wf(),
            src.wf(),
        ensures
            final(self).appends(*old(self), rex_for_rr(false, dst.encoding, src.encoding, false, false) + seq![0x33, 0xC0 | ((encode(dst) << 3) | encode(src))]),
    {
        let _ = self.prefix_and_encode_rr(dst.encoding, false, src.encoding, false);
        self.emit_arith_rr(0x33, 0xC0, dst, src);
    }

    /// `xorl [dst], src`
    pub fn xorl_mr(&mut self, dst: Address, src: Register)
        requires
            dst.wf(),
            src.wf(),
        ensures
            ({
                let f = old(self).features;
                final(self).appends(*old(self), rex_for_adr(false, src.encoding, dst, false) + seq![0x31] + address_bytes(f, None, src.encoding, dst, false))
            }),
    {
        self.prefix_adr_reg(&dst, src.encoding, false);
        self.emit_int8(0x31);
        self.emit_operand(src.encoding, &dst);
    }

    /// `xorb dst, [src]`
    pub fn xorb(&mut self, dst: Register, src: Address)
        requires
            dst.wf(),
            src.wf(),
        ensures
            ({
                let f = old(self).features;
                final(self).appends(*old(self), rex_for_adr(false, dst.encoding, src, false) + seq![0x32] + address_bytes(f, None, dst.encoding, src, false))
            }),
    {
        self.prefix_adr_reg(&src, dst.encoding, false);
        self.emit_int8(0x32);
        self.emit_operand(dst.encoding, &src);
    }

    /// `xorb [dst], src`
    pub fn xorb_mr(&mut self, dst: Address, src: Register)
        requires
            dst.wf(),
            src.wf(),
        ensures
            ({
                let f = old(self).features;
                final(self).appends(*old(self), rex_for_adr(false, src.encoding, dst, true) + seq![0x30] + address_bytes(f, None, src.encoding, dst, false))
            }),
    {
        self.prefix_adr_reg(&dst, src.encoding, true);
        self.emit_int8(0x30);
        self.emit_operand(src.encoding, &dst);
    }

    /// `xorw dst, src`
    pub fn xorw(&mut self, dst: Register, src: Register)
        requires
            dst.wf(),
            src.wf(),
        ensures
            final(self).appends(*old(self), rex_for_rr(false, dst.encoding, src.encoding, false, false) + seq![0x33, 0xC0 | ((encode(dst) << 3) | encode(src))]),
    {
        let _ = self.prefix_and_encode_rr(dst.encoding, false, src.encoding, false);
        self.emit_arith_rr(0x33, 0xC0, dst, src);
    }

    /// `fld_x [adr]`
    pub fn fld_x(&mut self, adr: Address)
        requires
            adr.wf(),
            (!adr.spec_base_needs_rex() && !adr.spec_index_needs_rex()),
        ensures
            ({
                let f = old(self).features;
                final(self).appends(*old(self), seq![0xDB] + address_bytes(f, None, 5, adr, false))
            }),
    {
        self.emit_int8(0xDB);
        self.emit_operand32(5, &adr);
    }

    /// `fstp_x [adr]`
    pub fn fstp_x(&mut self, adr: Address)
        requires
            adr.wf(),
            (!adr.spec_base_needs_rex() && !adr.spec_index_needs_rex()),
        ensures
            ({
                let f = old(self).features;
                final(self).appends(*old(self), seq![0xDB] + address_bytes(f, None, 7, adr, false))
            }),
    {
        self.emit_int8(0xDB);
        self.emit_operand32(7, &adr);
    }

    /// `emms`
    pub fn emms(&mut self)
        ensures
            final(self).appends(*old(self), seq![0x0F, 0x77]),
    {
        self.emit_int16(0x0F, 0x77);
    }

    /// `cmp_literal32 src1, imm32`
    pub fn cmp_literal32(&mut self, src1: Register, imm32: i32, rspec: RelocType)
        requires
            src1.encoding < 8,
            src1.wf(),
        ensures
            final(self).appends_relocated(*old(self), seq![0x81, (0xF8 | src1.encoding)] + le32(imm32), rspec),
    {
        let mark = self.pc();
        self.emit_int16(0x81, (0xF8 | src1.encoding));
        self.emit_data(imm32, rspec, mark);
    }

    /// `cmp_literal32 [src1], imm32`
    pub fn cmp_literal32_mi(&mut self, src1: Address, imm32: i32, rspec: RelocType)
        requires
            !src1.spec_base_needs_rex(),
            !src1.spec_index_needs_rex(),
            src1.wf(),
        ensures
            ({
                let f = old(self).features;
                final(self).appends_relocated(*old(self), seq![0x81] + address_bytes(f, None, 7, src1, false) + le32(imm32), rspec)
            }),
    {
        let mark = self.pc();
        self.emit_int8(0x81);
        self.emit_operand(7, &src1);
        self.emit_data(imm32, rspec, mark);
    }

    /// `cmpxchg8 [adr]`
    pub fn cmpxchg8(&mut self, adr: Address)
        requires
            !adr.spec_base_needs_rex(),
            !adr.spec_index_needs_rex(),
            adr.wf(),
        ensures
            ({
                let f = old(self).features;
                final(self).appends(*old(self), seq![0x0F, 0xC7] + address_bytes(f, None, 1, adr, false))
            }),
    {
        self.emit_int16(0x0F, 0xC7);
        self.emit_operand(1, &adr);
    }

    /// `mov_literal32 [dst], imm32`
    pub fn mov_literal32(&mut self, dst: Address, imm32: i32, rspec: RelocType)
        requires
            !dst.spec_base_needs_rex(),
            !dst.spec_index_needs_rex(),
            dst.wf(),
        ensures
            ({
                let f = old(self).features;
                final(self).appends_relocated(*old(self), seq![0xC7] + address_bytes(f, None, 0, dst, false) + le32(imm32), rspec)
            }),
    {
        let mark = self.pc();
        self.emit_int8(0xC7);
        self.emit_operand(0, &dst);
        self.emit_data(imm32, rspec, mark);
    }

    /// `mov_literal32 dst, imm32`
    pub fn mov_literal32_ri(&mut self, dst: Register, imm32: i32, rspec: RelocType)
        requires
            dst.wf(),
        ensures
            final(self).appends_relocated(*old(self), rex_opt(false, false, false, dst.encoding >= 8, false) + seq![(0xB8 | (dst.encoding & 7))] + le32(imm32), rspec),
    {
        let mark = self.pc();
        let encode = self.prefix_and_encode(dst.encoding, false);
        self.emit_int8((0xB8 | encode));
        self.emit_data(imm32, rspec, mark);
    }

    /// `push_literal32 imm32`
    pub fn push_literal32(&mut self, imm32: i32, rspec: RelocType)
        ensures
            final(self).appends_relocated(*old(self), seq![0x68] + le32(imm32), rspec),
    {
        let mark = self.pc();
        self.emit_int8(0x68);
        self.emit_data(imm32, rspec, mark);
    }

    /// `adcq dst, imm32`
    pub fn adcq_ri(&mut self, dst: Register, imm32: i32)
        requires
            dst.wf(),
        ensures
            final(self).appends(*old(self), rex_opt(true, false, false, dst.encoding >= 8, false) + arith_imm_bytes(0x81, 0xD0, dst, imm32)),
    {
        let _ = self.prefixq_and_encode(dst.encoding);
        self.emit_arith(0x81, 0xD0, dst, imm32);
    }

    /// `adcq dst, [src]`
    pub fn adcq_rm(&mut self, dst: Register, src: Address)
        requires
            dst.wf(),
            src.wf(),
        ensures
            ({
                let f = old(self).features;
                final(self).appends(*old(self), seq![rex_byte(true, dst.encoding >= 8, src.spec_index_needs_rex(), src.spec_base_needs_rex()), 0x13] + address_bytes(f, None, dst.encoding, src, false))
            }),
    {
        self.emit_int16(get_prefixq(&src, dst.encoding), 0x13);
        self.emit_operand(dst.encoding, &src);
    }

    /// `adcq dst, src`
    pub fn adcq(&mut self, dst: Register, src: Register)
        requires
            dst.wf(),
            src.wf(),
        ensures
            final(self).appends(*old(self), rex_for_rr(true, dst.encoding, src.encoding, false, false) + seq![0x13, 0xC0 | ((encode(dst) << 3) | encode(src))]),
    {
        let _ = self.prefixq_and_encode_rr(dst.encoding, src.encoding);
        self.emit_arith_rr(0x13, 0xC0, dst, src);
    }

    /// `addq [dst], imm32`
    pub fn addq_mi(&mut self, dst: Address, imm32: i32)
        requires
            dst.wf(),
        ensures
            ({
                let f = old(self).features;
                final(self).appends(*old(self), rex_for_adr(true, 0, dst, false) + arith_operand_bytes(f, 0x81, 0, dst, imm32))
            }),
    {
        self.prefixq_adr(&dst);
        self.emit_arith_operand(0x81, 0, &dst, imm32);
    }

    /// `addq [dst], src`
    pub fn addq_mr(&mut self, dst: Address, src: Register)
        requires
            dst.wf(),
            src.wf(),
        ensures
            ({
                let f = old(self).features;
                final(self).appends(*old(self), seq![rex_byte(true, src.encoding >= 8, dst.spec_index_needs_rex(), dst.spec_base_needs_rex()), 0x01] + address_bytes(f, None, src.encoding, dst, false))
            }),
    {
        self.emit_int16(get_prefixq(&dst, src.encoding), 0x01);
        self.emit_operand(src.encoding, &dst);
    }

    /// `addq dst, imm32`
    pub fn addq_ri(&mut self, dst: Register, imm32: i32)
        requires
            dst.wf(),
        ensures
            final(self).appends(*old(self), rex_opt(true, false, false, dst.encoding >= 8, false) + arith_imm_bytes(0x81, 0xC0, dst, imm32)),
    {
        let _ = self.prefixq_and_encode(dst.encoding);
        self.emit_arith(0x81, 0xC0, dst, imm32);
    }

    /// `addq dst, [src]`
    pub fn addq_rm(&mut self, dst: Register, src: Address)
        requires
            dst.wf(),
            src.wf(),
        ensures
            ({
                let f = old(self).features;
                final(self).appends(*old(self), seq![rex_byte(true, dst.encoding >= 8, src.spec_index_needs_rex(), src.spec_base_needs_rex()), 0x03] + address_bytes(f, None, dst.encoding, src, false))
            }),
    {
        self.emit_int16(get_prefixq(&src, dst.encoding), 0x03);
        self.emit_operand(dst.encoding, &src);
    }

    /// `addq dst, src`
    pub fn addq(&mut self, dst: Register, src: Register)
        requires
            dst.wf(),
            src.wf(),
        ensures
            final(self).appends(*old(self), rex_for_rr(true, dst.encoding, src.encoding, false, false) + seq![0x03, 0xC0 | ((encode(dst) << 3) | encode(src))]),
    {
        let _ = self.prefixq_and_encode_rr(dst.encoding, src.encoding);
        self.emit_arith_rr(0x03, 0xC0, dst, src);
    }

    /// `adcxq dst, src`
    pub fn adcxq(&mut self, dst: Register, src: Register)
        requires
            dst.wf(),
            src.wf(),
        ensures
            final(self).appends(*old(self), seq![0x66] + rex_for_rr(true, dst.encoding, src.encoding, false, false) + seq![0x0F, 0x38, 0xF6, (0xC0 | rr_bits(dst.encoding, src.encoding))]),
    {
        self.emit_int8(0x66);
        let encode = self.prefixq_and_encode_rr(dst.encoding, src.encoding);
        self.emit_int32(0x0F, 0x38, 0xF6, (0xC0 | encode));
    }

    /// `adoxq dst, src`
    pub fn adoxq(&mut self, dst: Register, src: Register)
        requires
            dst.wf(),
            src.wf(),
        ensures
            final(self).appends(*old(self), seq![0xF3] + rex_for_rr(true, dst.encoding, src.encoding, false, false) + seq![0x0F, 0x38, 0xF6, (0xC0 | rr_bits(dst.encoding, src.encoding))]),
    {
        self.emit_int8(0xF3);
        let encode = self.prefixq_and_encode_rr(dst.encoding, src.encoding);
        self.emit_int32(0x0F, 0x38, 0xF6, (0xC0 | encode));
    }

    /// `andq [dst], imm32`
    pub fn andq_mi(&mut self, dst: Address, imm32: i32)
        requires
            dst.wf(),
        ensures
            ({
                let f = old(self).features;
                final(self).appends(*old(self), rex_for_adr(true, 0, dst, false) + arith_operand_bytes(f, 0x81, 4, dst, imm32))
            }),
    {
        self.prefixq_adr(&dst);
        self.emit_arith_operand(0x81, 4, &dst, imm32);
    }

    /// `andq dst, imm32`
    pub fn andq_ri(&mut self, dst: Register, imm32: i32)
        requires
            dst.wf(),
        ensures
            final(self).appends(*old(self), rex_opt(true, false, false, dst.encoding >= 8, false) + arith_imm_bytes(0x81, 0xE0, dst, imm32)),
    {
        let _ = self.prefixq_and_encode(dst.encoding);
        self.emit_arith(0x81, 0xE0, dst, imm32);
    }

    /// `andq dst, [src]`
    pub fn andq_rm(&mut self, dst: Register, src: Address)
        requires
            dst.wf(),
            src.wf(),
        ensures
            ({
                let f = old(self).features;
                final(self).appends(*old(self), seq![rex_byte(true, dst.encoding >= 8, src.spec_index_needs_rex(), src.spec_base_needs_rex()), 0x23] + address_bytes(f, None, dst.encoding, src, false))
            }),
    {
        self.emit_int16(get_prefixq(&src, dst.encoding), 0x23);
        self.emit_operand(dst.encoding, &src);
    }

    /// `andq dst, src`
    pub fn andq(&mut self, dst: Register, src: Register)
        requires
            dst.wf(),
            src.wf(),
        ensures
            final(self).appends(*old(self), rex_for_rr(true, dst.encoding, src.encoding, false, false) + seq![0x23, 0xC0 | ((encode(dst) << 3) | encode(src))]),
    {
        let _ = self.prefixq_and_encode_rr(dst.encoding, src.encoding);
        self.emit_arith_rr(0x23, 0xC0, dst, src);
    }

    /// `andq [dst], src`
    pub fn andq_mr(&mut self, dst: Address, src: Register)
        requires
            dst.wf(),
            src.wf(),
        ensures
            ({
                let f = old(self).features;
                final(self).appends(*old(self), seq![rex_byte(true, src.encoding >= 8, dst.spec_index_needs_rex(), dst.spec_base_needs_rex()), 0x21] + address_bytes(f, None, src.encoding, dst, false))
            }),
    {
        self.emit_int16(get_prefixq(&dst, src.encoding), 0x21);
        self.emit_operand(src.encoding, &dst);
    }

    /// `bsfq dst, src`
    pub fn bsfq(&mut self, dst: Register, src: Register)
        requires
            dst.wf(),
            src.wf(),
        ensures
            final(self).appends(*old(self), rex_for_rr(true, dst.encoding, src.encoding, false, false) + seq![0x0F, 0xBC, (0xC0 | rr_bits(dst.encoding, src.encoding))]),
    {
        let encode = self.prefixq_and_encode_rr(dst.encoding, src.encoding);
        self.emit_int24(0x0F, 0xBC, (0xC0 | encode));
    }

    /// `bsrq dst, src`
    pub fn bsrq(&mut self, dst: Register, src: Register)
        requires
            dst.wf(),
            src.wf(),
        ensures
            final(self).appends(*old(self), rex_for_rr(true, dst.encoding, src.encoding, false, false) + seq![0x0F, 0xBD, (0xC0 | rr_bits(dst.encoding, src.encoding))]),
    {
        let encode = self.prefixq_and_encode_rr(dst.encoding, src.encoding);
        self.emit_int24(0x0F, 0xBD, (0xC0 | encode));
    }

    /// `bswapq reg`
    pub fn bswapq(&mut self, reg: Register)
        requires
            reg.wf(),
        ensures
            final(self).appends(*old(self), rex_opt(true, false, false, reg.encoding >= 8, false) + seq![0x0F, (0xC8 | (reg.encoding & 7))]),
    {
        let encode = self.prefixq_and_encode(reg.encoding);
        self.emit_int16(0x0F, (0xC8 | encode));
    }

    /// `cdqq`
    pub fn cdqq(&mut self)
        ensures
            final(self).appends(*old(self), seq![0x48, 0x99]),
    {
        self.emit_int16(0x48, 0x99);
    }

    /// `clflush [adr]`
    pub fn clflush(&mut self, adr: Address)
        requires
            adr.wf(),
            ({
                let f = old(self).features;
                (f.supports_clflush())
            }),
        ensures
            ({
                let f = old(self).features;
                final(self).appends(*old(self), rex_opt(false, false, adr.spec_index_needs_rex(), adr.spec_base_needs_rex(), false) + seq![0x0F, 0xAE] + address_bytes(f, None, 7, adr, false))
            }),
    {
        self.prefix_adr(&adr);
        self.emit_int16(0x0F, 0xAE);
        self.emit_operand(7, &adr);
    }

    /// `clflushopt [adr]`
    pub fn clflushopt(&mut self, adr: Address)
        requires
            adr.wf(),
            ({
                let f = old(self).features;
                (f.supports_clflushopt()) && ((adr.index is None) && ((adr.index is None) && (adr.disp == 0)))
            }),
        ensures
            ({
                let f = old(self).features;
                final(self).appends(*old(self), seq![0x66] + rex_opt(false, false, adr.spec_index_needs_rex(), adr.spec_base_needs_rex(), false) + seq![0x0F, 0xAE] + address_bytes(f, None, 7, adr, false))
            }),
    {
        self.emit_int8(0x66);
        self.prefix_adr(&adr);
        self.emit_int16(0x0F, 0xAE);
        self.emit_operand(7, &adr);
    }

    /// `clwb [adr]`
    pub fn clwb(&mut self, adr: Address)
        requires
            adr.wf(),
            ({
                let f = old(self).features;
                (f.supports_clwb()) && ((adr.index is None) && ((adr.index is None) && (adr.disp == 0)))
            }),
        ensures
            ({
                let f = old(self).features;
                final(self).appends(*old(self), seq![0x66] + rex_opt(false, false, adr.spec_index_needs_rex(), adr.spec_base_needs_rex(), false) + seq![0x0F, 0xAE] + address_bytes(f, None, 6, adr, false))
            }),
    {
        self.emit_int8(0x66);
        self.prefix_adr(&adr);
        self.emit_int16(0x0F, 0xAE);
        self.emit_operand(6, &adr);
    }

    /// `cmovq cc, dst, src`
    pub fn cmovq(&mut self, cc: u8, dst: Register, src: Register)
        requires
            cc < 16,
            dst.wf(),
            src.wf(),
        ensures
            final(self).appends(*old(self), rex_for_rr(true, dst.encoding, src.encoding, false, false) + seq![0x0F, (0x40 | cc), (0xC0 | rr_bits(dst.encoding, src.encoding))]),
    {
        let encode = self.prefixq_and_encode_rr(dst.encoding, src.encoding);
        self.emit_int24(0x0F, (0x40 | cc), (0xC0 | encode));
    }

    /// `cmovq cc, dst, [src]`
    pub fn cmovq_rm(&mut self, cc: u8, dst: Register, src: Address)
        requires
            cc < 16,
            dst.wf(),
            src.wf(),
        ensures
            ({
                let f = old(self).features;
                final(self).appends(*old(self), seq![rex_byte(true, dst.encoding >= 8, src.spec_index_needs_rex(), src.spec_base_needs_rex()), 0x0F, (0x40 | cc)] + address_bytes(f, None, dst.encoding, src, false))
            }),
    {
        self.emit_int24(get_prefixq(&src, dst.encoding), 0x0F, (0x40 | cc));
        self.emit_operand(dst.encoding, &src);
    }

    /// `cmpq [dst], imm32`
    pub fn cmpq_mi(&mut self, dst: Address, imm32: i32)
        requires
            dst.wf(),
        ensures
            ({
                let f = old(self).features;
                final(self).appends(*old(self), rex_for_adr(true, 0, dst, false) + arith_operand_bytes(f, 0x81, 7, dst, imm32))
            }),
    {
        self.prefixq_adr(&dst);
        self.emit_arith_operand(0x81, 7, &dst, imm32);
    }

    /// `cmpq dst, imm32`
    pub fn cmpq_ri(&mut self, dst: Register, imm32: i32)
        requires
            dst.wf(),
        ensures
            final(self).appends(*old(self), rex_opt(true, false, false, dst.encoding >= 8, false) + arith_imm_bytes(0x81, 0xF8, dst, imm32)),
    {
        let _ = self.prefixq_and_encode(dst.encoding);
        self.emit_arith(0x81, 0xF8, dst, imm32);
    }

    /// `cmpq [dst], src`
    pub fn cmpq_mr(&mut self, dst: Address, src: Register)
        requires
            dst.wf(),
            src.wf(),
        ensures
            ({
                let f = old(self).features;
                final(self).appends(*old(self), seq![rex_byte(true, src.encoding >= 8, dst.spec_index_needs_rex(), dst.spec_base_needs_rex()), 0x39] + address_bytes(f, None, src.encoding, dst, false))
            }),
    {
        self.emit_int16(get_prefixq(&dst, src.encoding), 0x39);
        self.emit_operand(src.encoding, &dst);
    }

    /// `cmpq dst, src`
    pub fn cmpq(&mut self, dst: Register, src: Register)
        requires
            dst.wf(),
            src.wf(),
        ensures
            final(self).appends(*old(self), rex_for_rr(true, dst.encoding, src.encoding, false, false) + seq![0x3B, 0xC0 | ((encode(dst) << 3) | encode(src))]),
    {
        let _ = self.prefixq_and_encode_rr(dst.encoding, src.encoding);
        self.emit_arith_rr(0x3B, 0xC0, dst, src);
    }

    /// `cmpq dst, [src]`
    pub fn cmpq_rm(&mut self, dst: Register, src: Address)
        requires
            dst.wf(),
            src.wf(),
        ensures
            ({
                let f = old(self).features;
                final(self).appends(*old(self), seq![rex_byte(true, dst.encoding >= 8, src.spec_index_needs_rex(), src.spec_base_needs_rex()), 0x3B] + address_bytes(f, None, dst.encoding, src, false))
            }),
    {
        self.emit_int16(get_prefixq(&src, dst.encoding), 0x3B);
        self.emit_operand(dst.encoding, &src);
    }

    /// `cmpxchgq reg, [adr]`
    pub fn cmpxchgq(&mut self, reg: Register, adr: Address)
        requires
            reg.wf(),
            adr.wf(),
        ensures
            ({
                let f = old(self).features;
                final(self).appends(*old(self), seq![rex_byte(true, reg.encoding >= 8, adr.spec_index_needs_rex(), adr.spec_base_needs_rex()), 0x0F, 0xB1] + address_bytes(f, None, reg.encoding, adr, false))
            }),
    {
        self.emit_int24(get_prefixq(&adr, reg.encoding), 0x0F, 0xB1);
        self.emit_operand(reg.encoding, &adr);
    }

    /// `cvttsd2siq dst, [src]`
    pub fn cvttsd2siq_rm(&mut self, dst: Register, src: Address)
        requires
            dst.wf(),
            src.wf(),
        ensures
            ({
                let f = old(self).features;
                final(self).appends(*old(self), seq![0xF2, 0x48, 0x0F, 0x2C] + address_bytes(f, None, dst.encoding, src, false))
            }),
    {
        self.emit_int32(0xF2, 0x48, 0x0F, 0x2C);
        self.emit_operand(dst.encoding, &src);
    }

    /// `decl dst`
    pub fn decl(&mut self, dst: Register)
        requires
            dst.wf(),
        ensures
            final(self).appends(*old(self), rex_opt(false, false, false, dst.encoding >= 8, false) + seq![0xFF, (0xC8 | (dst.encoding & 7))]),
    {
        let encode = self.prefix_and_encode(dst.encoding, false);
        self.emit_int16(0xFF, (0xC8 | encode));
    }

    /// `decq dst`
    pub fn decq(&mut self, dst: Register)
        requires
            dst.wf(),
        ensures
            final(self).appends(*old(self), rex_opt(true, false, false, dst.encoding >= 8, false) + seq![0xFF, (0xC8 | (dst.encoding & 7))]),
    {
        let encode = self.prefixq_and_encode(dst.encoding);
        self.emit_int16(0xFF, (0xC8 | encode));
    }

    /// `decq [dst]`
    pub fn decq_m(&mut self, dst: Address)
        requires
            dst.wf(),
        ensures
            ({
                let f = old(self).features;
                final(self).appends(*old(self), seq![rex_byte(true, 0 >= 8, dst.spec_index_needs_rex(), dst.spec_base_needs_rex()), 0xFF] + address_bytes(f, None, 1, dst, false))
            }),
    {
        self.emit_int16(get_prefixq(&dst, 0), 0xFF);
        self.emit_operand(1, &dst);
    }

    /// `fxrstor [src]`
    pub fn fxrstor(&mut self, src: Address)
        requires
            src.wf(),
        ensures
            ({
                let f = old(self).features;
                final(self).appends(*old(self), seq![rex_byte(true, 0 >= 8, src.spec_index_needs_rex(), src.spec_base_needs_rex()), 0x0F, 0xAE] + address_bytes(f, None, 1, src, false))
            }),
    {
        self.emit_int24(get_prefixq(&src, 0), 0x0F, 0xAE);
        self.emit_operand(1, &src);
    }

    /// `xrstor [src]`
    pub fn xrstor(&mut self, src: Address)
        requires
            src.wf(),
        ensures
            ({
                let f = old(self).features;
                final(self).appends(*old(self), seq![rex_byte(true, 0 >= 8, src.spec_index_needs_rex(), src.spec_base_needs_rex()), 0x0F, 0xAE] + address_bytes(f, None, 5, src, false))
            }),
    {
        self.emit_int24(get_prefixq(&src, 0), 0x0F, 0xAE);
        self.emit_operand(5, &src);
    }

    /// `fxsave [dst]`
    pub fn fxsave(&mut self, dst: Address)
        requires
            dst.wf(),
        ensures
            ({
                let f = old(self).features;
                final(self).appends(*old(self), seq![rex_byte(true, 0 >= 8, dst.spec_index_needs_rex(), dst.spec_base_needs_rex()), 0x0F, 0xAE] + address_bytes(f, None, 0, dst, false))
            }),
    {
        self.emit_int24(get_prefixq(&dst, 0), 0x0F, 0xAE);
        self.emit_operand(0, &dst);
    }

    /// `xsave [dst]`
    pub fn xsave(&mut self, dst: Address)
        requires
            dst.wf(),
        ensures
            ({
                let f = old(self).features;
                final(self).appends(*old(self), seq![rex_byte(true, 0 >= 8, dst.spec_index_needs_rex(), dst.spec_base_needs_rex()), 0x0F, 0xAE] + address_bytes(f, None, 4, dst, false))
            }),
    {
        self.emit_int24(get_prefixq(&dst, 0), 0x0F, 0xAE);
        self.emit_operand(4, &dst);
    }

    /// `idivq src`
    pub fn idivq(&mut self, src: Register)
        requires
            src.wf(),
        ensures
            final(self).appends(*old(self), rex_opt(true, false, false, src.encoding >= 8, false) + seq![0xF7, (0xF8 | (src.encoding & 7))]),
    {
        let encode = self.prefixq_and_encode(src.encoding);
        self.emit_int16(0xF7, (0xF8 | encode));
    }

    /// `divq src`
    pub fn divq(&mut self, src: Register)
        requires
            src.wf(),
        ensures
            final(self).appends(*old(self), rex_opt(true, false, false, src.encoding >= 8, false) + seq![0xF7, (0xF0 | (src.encoding & 7))]),
    {
        let encode = self.prefixq_and_encode(src.encoding);
        self.emit_int16(0xF7, (0xF0 | encode));
    }

    /// `imulq dst, src`
    pub fn imulq_rr(&mut self, dst: Register, src: Register)
        requires
            dst.wf(),
            src.wf(),
        ensures
            final(self).appends(*old(self), rex_for_rr(true, dst.encoding, src.encoding, false, false) + seq![0x0F, 0xAF, (0xC0 | rr_bits(dst.encoding, src.encoding))]),
    {
        let encode = self.prefixq_and_encode_rr(dst.encoding, src.encoding);
        self.emit_int24(0x0F, 0xAF, (0xC0 | encode));
    }

    /// `imulq src`
    pub fn imulq(&mut self, src: Register)
        requires
            src.wf(),
        ensures
            final(self).appends(*old(self), rex_opt(true, false, false, src.encoding >= 8, false) + seq![0xF7, (0xE8 | (src.encoding & 7))]),
    {
        let encode = self.prefixq_and_encode(src.encoding);
        self.emit_int16(0xF7, (0xE8 | encode));
    }

    /// `imulq dst, [src], value`
    pub fn imulq_rmi(&mut self, dst: Register, src: Address, value: i32)
        requires
            dst.wf(),
            src.wf(),
        ensures
            ({
                let f = old(self).features;
                final(self).appends(*old(self), rex_for_adr(true, dst.encoding, src, false) + (if (-128 <= value && value < 128) { seq![0x6B] + address_bytes(f, None, dst.encoding, src, false) + seq![low8(value)] } else { seq![0x69] + address_bytes(f, None, dst.encoding, src, false) + le32(value) }))
            }),
    {
        self.prefixq(&src, dst.encoding);
        if -128 <= value && value < 128 {
            self.emit_int8(0x6B);
            self.emit_operand(dst.encoding, &src);
            self.emit_int8(low8_exec(value));
        } else {
            self.emit_int8(0x69);
            self.emit_operand(dst.encoding, &src);
            self.emit_i32(value);
        }
    }

    /// `imulq dst, src, value`
    pub fn imulq_rri(&mut self, dst: Register, src: Register, value: i32)
        requires
            dst.wf(),
            src.wf(),
        ensures
            final(self).appends(*old(self), rex_for_rr(true, dst.encoding, src.encoding, false, false) + (if (-128 <= value && value < 128) { seq![0x6B, (0xC0 | rr_bits(dst.encoding, src.encoding)), low8(value)] } else { seq![0x69, (0xC0 | rr_bits(dst.encoding, src.encoding))] + le32(value) })),
    {
        let encode = self.prefixq_and_encode_rr(dst.encoding, src.encoding);
        if -128 <= value && value < 128 {
            self.emit_int24(0x6B, (0xC0 | encode), low8_exec(value));
        } else {
            self.emit_int16(0x69, (0xC0 | encode));
            self.emit_i32(value);
        }
    }

    /// `imulq dst, [src]`
    pub fn imulq_rm(&mut self, dst: Register, src: Address)
        requires
            dst.wf(),
            src.wf(),
        ensures
            ({
                let f = old(self).features;
                final(self).appends(*old(self), seq![rex_byte(true, dst.encoding >= 8, src.spec_index_needs_rex(), src.spec_base_needs_rex()), 0x0F, 0xAF] + address_bytes(f, None, dst.encoding, src, false))
            }),
    {
        self.emit_int24(get_prefixq(&src, dst.encoding), 0x0F, 0xAF);
        self.emit_operand(dst.encoding, &src);
    }

    /// `incl dst`
    pub fn incl(&mut self, dst: Register)
        requires
            dst.wf(),
        ensures
            final(self).appends(*old(self), rex_opt(false, false, false, dst.encoding >= 8, false) + seq![0xFF, (0xC0 | (dst.encoding & 7))]),
    {
        let encode = self.prefix_and_encode(dst.encoding, false);
        self.emit_int16(0xFF, (0xC0 | encode));
    }

    /// `incq dst`
    pub fn incq(&mut self, dst: Register)
        requires
            dst.wf(),
        ensures
            final(self).appends(*old(self), rex_opt(true, false, false, dst.encoding >= 8, false) + seq![0xFF, (0xC0 | (dst.encoding & 7))]),
    {
        let encode = self.prefixq_and_encode(dst.encoding);
        self.emit_int16(0xFF, (0xC0 | encode));
    }

    /// `incq [dst]`
    pub fn incq_m(&mut self, dst: Address)
        requires
            dst.wf(),
        ensures
            ({
                let f = old(self).features;
                final(self).appends(*old(self), seq![rex_byte(true, 0 >= 8, dst.spec_index_needs_rex(), dst.spec_base_needs_rex()), 0xFF] + address_bytes(f, None, 0, dst, false))
            }),
    {
        self.emit_int16(get_prefixq(&dst, 0), 0xFF);
        self.emit_operand(0, &dst);
    }

    /// `lea dst, [src]`
    pub fn lea(&mut self, dst: Register, src: Address)
        requires
            dst.wf(),
            src.wf(),
        ensures
            ({
                let f = old(self).features;
                final(self).appends(*old(self), seq![rex_byte(true, dst.encoding >= 8, src.spec_index_needs_rex(), src.spec_base_needs_rex()), 0x8D] + address_bytes(f, None, dst.encoding, src, false))
            }),
    {
        self.leaq(dst, src);
    }

    /// `leaq dst, [src]`
    pub fn leaq(&mut self, dst: Register, src: Address)
        requires
            dst.wf(),
            src.wf(),
        ensures
            ({
                let f = old(self).features;
                final(self).appends(*old(self), seq![rex_byte(true, dst.encoding >= 8, src.spec_index_needs_rex(), src.spec_base_needs_rex()), 0x8D] + address_bytes(f, None, dst.encoding, src, false))
            }),
    {
        self.emit_int16(get_prefixq(&src, dst.encoding), 0x8D);
        self.emit_operand(dst.encoding, &src);
    }

    /// `mov64 dst, imm64`
    pub fn mov64(&mut self, dst: Register, imm64: i64, rtype: RelocType)
        requires
            dst.wf(),
        ensures
            final(self).appends_relocated(*old(self), rex_opt(true, false, false, dst.encoding >= 8, false) + seq![(0xB8 | (dst.encoding & 7))] + le64(imm64), rtype),
    {
        let mark = self.pc();
        let encode = self.prefixq_and_encode(dst.encoding);
        self.emit_int8((0xB8 | encode));
        self.emit_data64(imm64, rtype, mark);
    }

    /// `mov_literal64 dst, imm64`
    pub fn mov_literal64(&mut self, dst: Register, imm64: i64, rspec: RelocType)
        requires
            dst.wf(),
        ensures
            final(self).appends_relocated(*old(self), rex_opt(true, false, false, dst.encoding >= 8, false) + seq![(0xB8 | (dst.encoding & 7))] + le64(imm64), rspec),
    {
        let mark = self.pc();
        let encode = self.prefixq_and_encode(dst.encoding);
        self.emit_int8((0xB8 | encode));
        self.emit_data64(imm64, rspec, mark);
    }

    /// `mov_narrow_oop dst, imm32`
    pub fn mov_narrow_oop(&mut self, dst: Register, imm32: i32, rspec: RelocType)
        requires
            dst.wf(),
        ensures
            final(self).appends_relocated(*old(self), rex_opt(false, false, false, dst.encoding >= 8, false) + seq![(0xB8 | (dst.encoding & 7))] + le32(imm32), rspec),
    {
        let mark = self.pc();
        let encode = self.prefix_and_encode(dst.encoding, false);
        self.emit_int8((0xB8 | encode));
        self.emit_data(imm32, rspec, mark);
    }

    /// `mov_narrow_oop [dst], imm32`
    pub fn mov_narrow_oop_mi(&mut self, dst: Address, imm32: i32, rspec: RelocType)
        requires
            dst.wf(),
        ensures
            ({
                let f = old(self).features;
                final(self).appends_relocated(*old(self), rex_opt(false, false, dst.spec_index_needs_rex(), dst.spec_base_needs_rex(), false) + seq![0xC7] + address_bytes(f, None, 0, dst, false) + le32(imm32), rspec)
            }),
    {
        let mark = self.pc();
        self.prefix_adr(&dst);
        self.emit_int8(0xC7);
        self.emit_operand(0, &dst);
        self.emit_data(imm32, rspec, mark);
    }

    /// `cmp_narrow_oop src1, imm32`
    pub fn cmp_narrow_oop(&mut self, src1: Register, imm32: i32, rspec: RelocType)
        requires
            src1.wf(),
        ensures
            final(self).appends_relocated(*old(self), rex_opt(false, false, false, src1.encoding >= 8, false) + seq![0x81, (0xF8 | (src1.encoding & 7))] + le32(imm32), rspec),
    {
        let mark = self.pc();
        let encode = self.prefix_and_encode(src1.encoding, false);
        self.emit_int16(0x81, (0xF8 | encode));
        self.emit_data(imm32, rspec, mark);
    }

    /// `cmp_narrow_oop [src1], imm32`
    pub fn cmp_narrow_oop_mi(&mut self, src1: Address, imm32: i32, rspec: RelocType)
        requires
            src1.wf(),
        ensures
            ({
                let f = old(self).features;
                final(self).appends_relocated(*old(self), rex_opt(false, false, src1.spec_index_needs_rex(), src1.spec_base_needs_rex(), false) + seq![0x81] + address_bytes(f, None, 0, src1, false) + le32(imm32), rspec)
            }),
    {
        let mark = self.pc();
        self.prefix_adr(&src1);
        self.emit_int8(0x81);
        self.emit_operand(0, &src1);
        self.emit_data(imm32, rspec, mark);
    }

    /// `lzcntq dst, src`
    pub fn lzcntq(&mut self, dst: Register, src: Register)
        requires
            dst.wf(),
            src.wf(),
            ({
                let f = old(self).features;
                (f.supports_lzcnt())
            }),
        ensures
            final(self).appends(*old(self), seq![0xF3] + rex_for_rr(true, dst.encoding, src.encoding, false, false) + seq![0x0F, 0xBD, (0xC0 | rr_bits(dst.encoding, src.encoding))]),
    {
        self.emit_int8(0xF3);
        let encode = self.prefixq_and_encode_rr(dst.encoding, src.encoding);
        self.emit_int24(0x0F, 0xBD, (0xC0 | encode));
    }

    /// `lzcntq dst, [src]`
    pub fn lzcntq_rm(&mut self, dst: Register, src: Address)
        requires
            dst.wf(),
            src.wf(),
            ({
                let f = old(self).features;
                (f.supports_lzcnt())
            }),
        ensures
            ({
                let f = old(self).features;
                final(self).appends(*old(self), seq![0xF3] + rex_for_adr(true, dst.encoding, src, false) + seq![0x0F, 0xBD] + address_bytes(f, None, dst.encoding, src, false))
            }),
    {
        self.emit_int8(0xF3);
        self.prefixq(&src, dst.encoding);
        self.emit_int16(0x0F, 0xBD);
        self.emit_operand(dst.encoding, &src);
    }

    /// `movq dst, src`
    pub fn movq_rr(&mut self, dst: Register, src: Register)
        requires
            dst.wf(),
            src.wf(),
        ensures
            final(self).appends(*old(self), rex_for_rr(true, dst.encoding, src.encoding, false, false) + seq![0x8B, (0xC0 | rr_bits(dst.encoding, src.encoding))]),
    {
        let encode = self.prefixq_and_encode_rr(dst.encoding, src.encoding);
        self.emit_int16(0x8B, (0xC0 | encode));
    }

    /// `movq dst, [src]`
    pub fn movq_rm(&mut self, dst: Register, src: Address)
        requires
            dst.wf(),
            src.wf(),
        ensures
            ({
                let f = old(self).features;
                final(self).appends(*old(self), seq![rex_byte(true, dst.encoding >= 8, src.spec_index_needs_rex(), src.spec_base_needs_rex()), 0x8B] + address_bytes(f, None, dst.encoding, src, false))
            }),
    {
        self.emit_int16(get_prefixq(&src, dst.encoding), 0x8B);
        self.emit_operand(dst.encoding, &src);
    }

    /// `movq [dst], src`
    pub fn movq_mr(&mut self, dst: Address, src: Register)
        requires
            dst.wf(),
            src.wf(),
        ensures
            ({
                let f = old(self).features;
                final(self).appends(*old(self), seq![rex_byte(true, src.encoding >= 8, dst.spec_index_needs_rex(), dst.spec_base_needs_rex()), 0x89] + address_bytes(f, None, src.encoding, dst, false))
            }),
    {
        self.emit_int16(get_prefixq(&dst, src.encoding), 0x89);
        self.emit_operand(src.encoding, &dst);
    }

    /// `movq [dst], imm32`
    pub fn movq_mi(&mut self, dst: Address, imm32: i32)
        requires
            dst.wf(),
        ensures
            ({
                let f = old(self).features;
                final(self).appends(*old(self), seq![rex_byte(true, 0 >= 8, dst.spec_index_needs_rex(), dst.spec_base_needs_rex()), 0xC7] + address_bytes(f, None, 0, dst, false) + le32(imm32))
            }),
    {
        self.emit_int16(get_prefixq(&dst, 0), 0xC7);
        self.emit_operand(0, &dst);
        self.emit_i32(imm32);
    }

    /// `movq dst, imm32`
    pub fn movq_ri(&mut self, dst: Register, imm32: i32)
        requires
            dst.wf(),
        ensures
            final(self).appends(*old(self), rex_opt(true, false, false, dst.encoding >= 8, false) + seq![0xC7, (0xC0 | (dst.encoding & 7))] + le32(imm32)),
    {
        let encode = self.prefixq_and_encode(dst.encoding);
        self.emit_int16(0xC7, (0xC0 | encode));
        self.emit_i32(imm32);
    }

    /// `movsbq dst, [src]`
    pub fn movsbq_rm(&mut self, dst: Register, src: Address)
        requires
            dst.wf(),
            src.wf(),
        ensures
            ({
                let f = old(self).features;
                final(self).appends(*old(self), seq![rex_byte(true, dst.encoding >= 8, src.spec_index_needs_rex(), src.spec_base_needs_rex()), 0x0F, 0xBE] + address_bytes(f, None, dst.encoding, src, false))
            }),
    {
        self.emit_int24(get_prefixq(&src, dst.encoding), 0x0F, 0xBE);
        self.emit_operand(dst.encoding, &src);
    }

    /// `movsbq dst, src`
    pub fn movsbq(&mut self, dst: Register, src: Register)
        requires
            dst.wf(),
            src.wf(),
        ensures
            final(self).appends(*old(self), rex_for_rr(true, dst.encoding, src.encoding, false, false) + seq![0x0F, 0xBE, (0xC0 | rr_bits(dst.encoding, src.encoding))]),
    {
        let encode = self.prefixq_and_encode_rr(dst.encoding, src.encoding);
        self.emit_int24(0x0F, 0xBE, (0xC0 | encode));
    }

    /// `movslq [dst], imm32`
    pub fn movslq_mi(&mut self, dst: Address, imm32: i32)
        requires
            dst.wf(),
        ensures
            ({
                let f = old(self).features;
                final(self).appends(*old(self), seq![rex_byte(true, 0 >= 8, dst.spec_index_needs_rex(), dst.spec_base_needs_rex()), 0xC7] + address_bytes(f, None, 0, dst, false) + le32(imm32))
            }),
    {
        self.emit_int16(get_prefixq(&dst, 0), 0xC7);
        self.emit_operand(0, &dst);
        self.emit_i32(imm32);
    }

    /// `movslq dst, [src]`
    pub fn movslq_rm(&mut self, dst: Register, src: Address)
        requires
            dst.wf(),
            src.wf(),
        ensures
            ({
                let f = old(self).features;
                final(self).appends(*old(self), seq![rex_byte(true, dst.encoding >= 8, src.spec_index_needs_rex(), src.spec_base_needs_rex()), 0x63] + address_bytes(f, None, dst.encoding, src, false))
            }),
    {
        self.emit_int16(get_prefixq(&src, dst.encoding), 0x63);
        self.emit_operand(dst.encoding, &src);
    }

    /// `movslq dst, src`
    pub fn movslq(&mut self, dst: Register, src: Register)
        requires
            dst.wf(),
            src.wf(),
        ensures
            final(self).appends(*old(self), rex_for_rr(true, dst.encoding, src.encoding, false, false) + seq![0x63, (0xC0 | rr_bits(dst.encoding, src.encoding))]),
    {
        let encode = self.prefixq_and_encode_rr(dst.encoding, src.encoding);
        self.emit_int16(0x63, (0xC0 | encode));
    }

    /// `movswq dst, [src]`
    pub fn movswq_rm(&mut self, dst: Register, src: Address)
        requires
            dst.wf(),
            src.wf(),
        ensures
            ({
                let f = old(self).features;
                final(self).appends(*old(self), seq![rex_byte(true, dst.encoding >= 8, src.spec_index_needs_rex(), src.spec_base_needs_rex()), 0x0F, 0xBF] + address_bytes(f, None, dst.encoding, src, false))
            }),
    {
        self.emit_int24(get_prefixq(&src, dst.encoding), 0x0F, 0xBF);
        self.emit_operand(dst.encoding, &src);
    }

    /// `movswq dst, src`
    pub fn movswq(&mut self, dst: Register, src: Register)
        requires
            dst.wf(),
            src.wf(),
        ensures
            final(self).appends(*old(self), rex_for_rr(true, dst.encoding, src.encoding, false, false) + seq![0x0F, 0xBF, (0xC0 | rr_bits(dst.encoding, src.encoding))]),
    {
        let encode = self.prefixq_and_encode_rr(dst.encoding, src.encoding);
        self.emit_int24(0x0F, 0xBF, (0xC0 | encode));
    }

    /// `movzbq dst, [src]`
    pub fn movzbq_rm(&mut self, dst: Register, src: Address)
        requires
            dst.wf(),
            src.wf(),
        ensures
            ({
                let f = old(self).features;
                final(self).appends(*old(self), seq![rex_byte(true, dst.encoding >= 8, src.spec_index_needs_rex(), src.spec_base_needs_rex()), 0x0F, 0xB6] + address_bytes(f, None, dst.encoding, src, false))
            }),
    {
        self.emit_int24(get_prefixq(&src, dst.encoding), 0x0F, 0xB6);
        self.emit_operand(dst.encoding, &src);
    }

    /// `movzbq dst, src`
    pub fn movzbq(&mut self, dst: Register, src: Register)
        requires
            dst.wf(),
            src.wf(),
        ensures
            final(self).appends(*old(self), rex_for_rr(true, dst.encoding, src.encoding, false, false) + seq![0x0F, 0xB6, (0xC0 | rr_bits(dst.encoding, src.encoding))]),
    {
        let encode = self.prefixq_and_encode_rr(dst.encoding, src.encoding);
        self.emit_int24(0x0F, 0xB6, (0xC0 | encode));
    }

    /// `movzwq dst, [src]`
    pub fn movzwq_rm(&mut self, dst: Register, src: Address)
        requires
            dst.wf(),
            src.wf(),
        ensures
            ({
                let f = old(self).features;
                final(self).appends(*old(self), seq![rex_byte(true, dst.encoding >= 8, src.spec_index_needs_rex(), src.spec_base_needs_rex()), 0x0F, 0xB7] + address_bytes(f, None, dst.encoding, src, false))
            }),
    {
        self.emit_int24(get_prefixq(&src, dst.encoding), 0x0F, 0xB7);
        self.emit_operand(dst.encoding, &src);
    }

    /// `movzwq dst, src`
    pub fn movzwq(&mut self, dst: Register, src: Register)
        requires
            dst.wf(),
            src.wf(),
        ensures
            final(self).appends(*old(self), rex_for_rr(true, dst.encoding, src.encoding, false, false) + seq![0x0F, 0xB7, (0xC0 | rr_bits(dst.encoding, src.encoding))]),
    {
        let encode = self.prefixq_and_encode_rr(dst.encoding, src.encoding);
        self.emit_int24(0x0F, 0xB7, (0xC0 | encode));
    }

    /// `mulq [src]`
    pub fn mulq_m(&mut self, src: Address)
        requires
            src.wf(),
        ensures
            ({
                let f = old(self).features;
                final(self).appends(*old(self), seq![rex_byte(true, 0 >= 8, src.spec_index_needs_rex(), src.spec_base_needs_rex()), 0xF7] + address_bytes(f, None, 4, src, false))
            }),
    {
        self.emit_int16(get_prefixq(&src, 0), 0xF7);
        self.emit_operand(4, &src);
    }

    /// `mulq src`
    pub fn mulq(&mut self, src: Register)
        requires
            src.wf(),
        ensures
            final(self).appends(*old(self), rex_opt(true, false, false, src.encoding >= 8, false) + seq![0xF7, (0xE0 | (src.encoding & 7))]),
    {
        let encode = self.prefixq_and_encode(src.encoding);
        self.emit_int16(0xF7, (0xE0 | encode));
    }

    /// `negq dst`
    pub fn negq(&mut self, dst: Register)
        requires
            dst.wf(),
        ensures
            final(self).appends(*old(self), rex_opt(true, false, false, dst.encoding >= 8, false) + seq![0xF7, (0xD8 | (dst.encoding & 7))]),
    {
        let encode = self.prefixq_and_encode(dst.encoding);
        self.emit_int16(0xF7, (0xD8 | encode));
    }

    /// `negq [dst]`
    pub fn negq_m(&mut self, dst: Address)
        requires
            dst.wf(),
        ensures
            ({
                let f = old(self).features;
                final(self).appends(*old(self), seq![rex_byte(true, 0 >= 8, dst.spec_index_needs_rex(), dst.spec_base_needs_rex()), 0xF7] + address_bytes(f, None, 3, dst, false))
            }),
    {
        self.emit_int16(get_prefixq(&dst, 0), 0xF7);
        self.emit_operand(3, &dst);
    }

    /// `notq dst`
    pub fn notq(&mut self, dst: Register)
        requires
            dst.wf(),
        ensures
            final(self).appends(*old(self), rex_opt(true, false, false, dst.encoding >= 8, false) + seq![0xF7, (0xD0 | (dst.encoding & 7))]),
    {
        let encode = self.prefixq_and_encode(dst.encoding);
        self.emit_int16(0xF7, (0xD0 | encode));
    }

    /// `btsq [dst], imm8`
    pub fn btsq(&mut self, dst: Address, imm8: i8)
        requires
            dst.wf(),
            (0 <= imm8 && imm8 < 256),
        ensures
            ({
                let f = old(self).features;
                final(self).appends(*old(self), seq![rex_byte(true, 0 >= 8, dst.spec_index_needs_rex(), dst.spec_base_needs_rex()), 0x0F, 0xBA] + address_bytes(f, None, 5, dst, false) + seq![imm_byte(imm8)])
            }),
    {
        self.emit_int24(get_prefixq(&dst, 0), 0x0F, 0xBA);
        self.emit_operand(5, &dst);
        self.emit_int8(imm_byte_exec(imm8));
    }

    /// `btrq [dst], imm8`
    pub fn btrq(&mut self, dst: Address, imm8: i8)
        requires
            dst.wf(),
            (0 <= imm8 && imm8 < 256),
        ensures
            ({
                let f = old(self).features;
                final(self).appends(*old(self), seq![rex_byte(true, 0 >= 8, dst.spec_index_needs_rex(), dst.spec_base_needs_rex()), 0x0F, 0xBA] + address_bytes(f, None, 6, dst, false) + seq![imm_byte(imm8)])
            }),
    {
        self.emit_int24(get_prefixq(&dst, 0), 0x0F, 0xBA);
        self.emit_operand(6, &dst);
        self.emit_int8(imm_byte_exec(imm8));
    }

    /// `orq [dst], imm32`
    pub fn orq_mi(&mut self, dst: Address, imm32: i32)
        requires
            dst.wf(),
        ensures
            ({
                let f = old(self).features;
                final(self).appends(*old(self), rex_for_adr(true, 0, dst, false) + arith_operand_bytes(f, 0x81, 1, dst, imm32))
            }),
    {
        self.prefixq_adr(&dst);
        self.emit_arith_operand(0x81, 1, &dst, imm32);
    }

    /// `orq [dst], src`
    pub fn orq_mr(&mut self, dst: Address, src: Register)
        requires
            dst.wf(),
            src.wf(),
        ensures
            ({
                let f = old(self).features;
                final(self).appends(*old(self), seq![rex_byte(true, src.encoding >= 8, dst.spec_index_needs_rex(), dst.spec_base_needs_rex()), 0x09] + address_bytes(f, None, src.encoding, dst, false))
            }),
    {
        self.emit_int16(get_prefixq(&dst, src.encoding), 0x09);
        self.emit_operand(src.encoding, &dst);
    }

    /// `orq dst, imm32`
    pub fn orq_ri(&mut self, dst: Register, imm32: i32)
        requires
            dst.wf(),
        ensures
            final(self).appends(*old(self), rex_opt(true, false, false, dst.encoding >= 8, false) + arith_imm_bytes(0x81, 0xC8, dst, imm32)),
    {
        let _ = self.prefixq_and_encode(dst.encoding);
        self.emit_arith(0x81, 0xC8, dst, imm32);
    }

    /// `orq_imm32 dst, imm32`
    pub fn orq_imm32(&mut self, dst: Register, imm32: i32)
        requires
            dst.wf(),
        ensures
            final(self).appends(*old(self), rex_opt(true, false, false, dst.encoding >= 8, false) + seq![0x81, 0xC8 | encode(dst)] + le32(imm32)),
    {
        let _ = self.prefixq_and_encode(dst.encoding);
        self.emit_arith_imm32(0x81, 0xC8, dst, imm32);
    }

    /// `orq dst, [src]`
    pub fn orq_rm(&mut self, dst: Register, src: Address)
        requires
            dst.wf(),
            src.wf(),
        ensures
            ({
                let f = old(self).features;
                final(self).appends(*old(self), seq![rex_byte(true, dst.encoding >= 8, src.spec_index_needs_rex(), src.spec_base_needs_rex()), 0x0B] + address_bytes(f, None, dst.encoding, src, false))
            }),
    {
        self.emit_int16(get_prefixq(&src, dst.encoding), 0x0B);
        self.emit_operand(dst.encoding, &src);
    }

    /// `orq dst, src`
    pub fn orq(&mut self, dst: Register, src: Register)
        requires
            dst.wf(),
            src.wf(),
        ensures
            final(self).appends(*old(self), rex_for_rr(true, dst.encoding, src.encoding, false, false) + seq![0x0B, 0xC0 | ((encode(dst) << 3) | encode(src))]),
    {
        let _ = self.prefixq_and_encode_rr(dst.encoding, src.encoding);
        self.emit_arith_rr(0x0B, 0xC0, dst, src);
    }

    /// `popcntq dst, [src]`
    pub fn popcntq_rm(&mut self, dst: Register, src: Address)
        requires
            dst.wf(),
            src.wf(),
            ({
                let f = old(self).features;
                (f.supports_popcnt())
            }),
        ensures
            ({
                let f = old(self).features;
                final(self).appends(*old(self), seq![0xF3, rex_byte(true, dst.encoding >= 8, src.spec_index_needs_rex(), src.spec_base_needs_rex()), 0x0F, 0xB8] + address_bytes(f, None, dst.encoding, src, false))
            }),
    {
        self.emit_int32(0xF3, get_prefixq(&src, dst.encoding), 0x0F, 0xB8);
        self.emit_operand(dst.encoding, &src);
    }

    /// `popcntq dst, src`
    pub fn popcntq(&mut self, dst: Register, src: Register)
        requires
            dst.wf(),
            src.wf(),
            ({
                let f = old(self).features;
                (f.supports_popcnt())
            }),
        ensures
            final(self).appends(*old(self), seq![0xF3] + rex_for_rr(true, dst.encoding, src.encoding, false, false) + seq![0x0F, 0xB8, (0xC0 | rr_bits(dst.encoding, src.encoding))]),
    {
        self.emit_int8(0xF3);
        let encode = self.prefixq_and_encode_rr(dst.encoding, src.encoding);
        self.emit_int24(0x0F, 0xB8, (0xC0 | encode));
    }

    /// `popq [dst]`
    pub fn popq_m(&mut self, dst: Address)
        requires
            dst.wf(),
        ensures
            ({
                let f = old(self).features;
                final(self).appends(*old(self), seq![rex_byte(true, 0 >= 8, dst.spec_index_needs_rex(), dst.spec_base_needs_rex()), 0x8F] + address_bytes(f, None, 0, dst, false))
            }),
    {
        self.emit_int16(get_prefixq(&dst, 0), 0x8F);
        self.emit_operand(0, &dst);
    }

    /// `popq dst`
    pub fn popq(&mut self, dst: Register)
        requires
            dst.wf(),
        ensures
            final(self).appends(*old(self), seq![(0x58 | dst.encoding)]),
    {
        self.emit_int8((0x58 | dst.encoding));
    }

    /// `pushq [src]`
    pub fn pushq(&mut self, src: Address)
        requires
            src.wf(),
        ensures
            ({
                let f = old(self).features;
                final(self).appends(*old(self), seq![rex_byte(true, 0 >= 8, src.spec_index_needs_rex(), src.spec_base_needs_rex()), 0xFF] + address_bytes(f, None, 6, src, false))
            }),
    {
        self.emit_int16(get_prefixq(&src, 0), 0xFF);
        self.emit_operand(6, &src);
    }

    /// `rclq dst, imm8`
    pub fn rclq(&mut self, dst: Register, imm8: i8)
        requires
            dst.wf(),
            (0 <= (imm8 >> 1) && (imm8 >> 1) < 32),
        ensures
            final(self).appends(*old(self), rex_opt(true, false, false, dst.encoding >= 8, false) + (if (imm8 == 1) { seq![0xD1, (0xD0 | (dst.encoding & 7))] } else { seq![0xC1, (0xD0 | (dst.encoding & 7)), imm_byte(imm8)] })),
    {
        let encode = self.prefixq_and_encode(dst.encoding);
        if imm8 == 1 {
            self.emit_int16(0xD1, (0xD0 | encode));
        } else {
            self.emit_int24(0xC1, (0xD0 | encode), imm_byte_exec(imm8));
        }
    }

    /// `rcrq dst, imm8`
    pub fn rcrq(&mut self, dst: Register, imm8: i8)
        requires
            dst.wf(),
            (0 <= (imm8 >> 1) && (imm8 >> 1) < 32),
        ensures
            final(self).appends(*old(self), rex_opt(true, false, false, dst.encoding >= 8, false) + (if (imm8 == 1) { seq![0xD1, (0xD8 | (dst.encoding & 7))] } else { seq![0xC1, (0xD8 | (dst.encoding & 7)), imm_byte(imm8)] })),
    {
        let encode = self.prefixq_and_encode(dst.encoding);
        if imm8 == 1 {
            self.emit_int16(0xD1, (0xD8 | encode));
        } else {
            self.emit_int24(0xC1, (0xD8 | encode), imm_byte_exec(imm8));
        }
    }

    /// `salq [dst], imm8`
    pub fn salq_mi(&mut self, dst: Address, imm8: i8)
        requires
            dst.wf(),
            (0 <= (imm8 >> 1) && (imm8 >> 1) < 32),
        ensures
            ({
                let f = old(self).features;
                final(self).appends(*old(self), (if (imm8 == 1) { seq![rex_byte(true, 0 >= 8, dst.spec_index_needs_rex(), dst.spec_base_needs_rex()), 0xD1] + address_bytes(f, None, 4, dst, false) } else { seq![rex_byte(true, 0 >= 8, dst.spec_index_needs_rex(), dst.spec_base_needs_rex()), 0xC1] + address_bytes(f, None, 4, dst, false) + seq![imm_byte(imm8)] }))
            }),
    {
        if imm8 == 1 {
            self.emit_int16(get_prefixq(&dst, 0), 0xD1);
            self.emit_operand(4, &dst);
        } else {
            self.emit_int16(get_prefixq(&dst, 0), 0xC1);
            self.emit_operand(4, &dst);
            self.emit_int8(imm_byte_exec(imm8));
        }
    }

    /// `salq [dst]`
    pub fn salq_m(&mut self, dst: Address)
        requires
            dst.wf(),
        ensures
            ({
                let f = old(self).features;
                final(self).appends(*old(self), seq![rex_byte(true, 0 >= 8, dst.spec_index_needs_rex(), dst.spec_base_needs_rex()), 0xD3] + address_bytes(f, None, 4, dst, false))
            }),
    {
        self.emit_int16(get_prefixq(&dst, 0), 0xD3);
        self.emit_operand(4, &dst);
    }

    /// `salq dst, imm8`
    pub fn salq_ri(&mut self, dst: Register, imm8: i8)
        requires
            dst.wf(),
            (0 <= (imm8 >> 1) && (imm8 >> 1) < 32),
        ensures
            final(self).appends(*old(self), rex_opt(true, false, false, dst.encoding >= 8, false) + (if (imm8 == 1) { seq![0xD1, (0xE0 | (dst.encoding & 7))] } else { seq![0xC1, (0xE0 | (dst.encoding & 7)), imm_byte(imm8)] })),
    {
        let encode = self.prefixq_and_encode(dst.encoding);
        if imm8 == 1 {
            self.emit_int16(0xD1, (0xE0 | encode));
        } else {
            self.emit_int24(0xC1, (0xE0 | encode), imm_byte_exec(imm8));
        }
    }

    /// `salq dst`
    pub fn salq(&mut self, dst: Register)
        requires
            dst.wf(),
        ensures
            final(self).appends(*old(self), rex_opt(true, false, false, dst.encoding >= 8, false) + seq![0xD3, (0xE0 | (dst.encoding & 7))]),
    {
        let encode = self.prefixq_and_encode(dst.encoding);
        self.emit_int16(0xD3, (0xE0 | encode));
    }

    /// `sarq [dst], imm8`
    pub fn sarq_mi(&mut self, dst: Address, imm8: i8)
        requires
            dst.wf(),
            (0 <= (imm8 >> 1) && (imm8 >> 1) < 32),
        ensures
            ({
                let f = old(self).features;
                final(self).appends(*old(self), (if (imm8 == 1) { seq![rex_byte(true, 0 >= 8, dst.spec_index_needs_rex(), dst.spec_base_needs_rex()), 0xD1] + address_bytes(f, None, 7, dst, false) } else { seq![rex_byte(true, 0 >= 8, dst.spec_index_needs_rex(), dst.spec_base_needs_rex()), 0xC1] + address_bytes(f, None, 7, dst, false) + seq![imm_byte(imm8)] }))
            }),
    {
        if imm8 == 1 {
            self.emit_int16(get_prefixq(&dst, 0), 0xD1);
            self.emit_operand(7, &dst);
        } else {
            self.emit_int16(get_prefixq(&dst, 0), 0xC1);
            self.emit_operand(7, &dst);
            self.emit_int8(imm_byte_exec(imm8));
        }
    }

    /// `sarq [dst]`
    pub fn sarq_m(&mut self, dst: Address)
        requires
            dst.wf(),
        ensures
            ({
                let f = old(self).features;
                final(self).appends(*old(self), seq![rex_byte(true, 0 >= 8, dst.spec_index_needs_rex(), dst.spec_base_needs_rex()), 0xD3] + address_bytes(f, None, 7, dst, false))
            }),
    {
        self.emit_int16(get_prefixq(&dst, 0), 0xD3);
        self.emit_operand(7, &dst);
    }

    /// `sarq dst, imm8`
    pub fn sarq_ri(&mut self, dst: Register, imm8: i8)
        requires
            dst.wf(),
            (0 <= (imm8 >> 1) && (imm8 >> 1) < 32),
        ensures
            final(self).appends(*old(self), rex_opt(true, false, false, dst.encoding >= 8, false) + (if (imm8 == 1) { seq![0xD1, (0xF8 | (dst.encoding & 7))] } else { seq![0xC1, (0xF8 | (dst.encoding & 7)), imm_byte(imm8)] })),
    {
        let encode = self.prefixq_and_encode(dst.encoding);
        if imm8 == 1 {
            self.emit_int16(0xD1, (0xF8 | encode));
        } else {
            self.emit_int24(0xC1, (0xF8 | encode), imm_byte_exec(imm8));
        }
    }

    /// `sarq dst`
    pub fn sarq(&mut self, dst: Register)
        requires
            dst.wf(),
        ensures
            final(self).appends(*old(self), rex_opt(true, false, false, dst.encoding >= 8, false) + seq![0xD3, (0xF8 | (dst.encoding & 7))]),
    {
        let encode = self.prefixq_and_encode(dst.encoding);
        self.emit_int16(0xD3, (0xF8 | encode));
    }

    /// `sbbq [dst], imm32`
    pub fn sbbq_mi(&mut self, dst: Address, imm32: i32)
        requires
            dst.wf(),
        ensures
            ({
                let f = old(self).features;
                final(self).appends(*old(self), rex_for_adr(true, 0, dst, false) + arith_operand_bytes(f, 0x81, 3, dst, imm32))
            }),
    {
        self.prefixq_adr(&dst);
        self.emit_arith_operand(0x81, 3, &dst, imm32);
    }

    /// `sbbq dst, imm32`
    pub fn sbbq_ri(&mut self, dst: Register, imm32: i32)
        requires
            dst.wf(),
        ensures
            final(self).appends(*old(self), rex_opt(true, false, false, dst.encoding >= 8, false) + arith_imm_bytes(0x81, 0xD8, dst, imm32)),
    {
        let _ = self.prefixq_and_encode(dst.encoding);
        self.emit_arith(0x81, 0xD8, dst, imm32);
    }

    /// `sbbq dst, [src]`
    pub fn sbbq_rm(&mut self, dst: Register, src: Address)
        requires
            dst.wf(),
            src.wf(),
        ensures
            ({
                let f = old(self).features;
                final(self).appends(*old(self), seq![rex_byte(true, dst.encoding >= 8, src.spec_index_needs_rex(), src.spec_base_needs_rex()), 0x1B] + address_bytes(f, None, dst.encoding, src, false))
            }),
    {
        self.emit_int16(get_prefixq(&src, dst.encoding), 0x1B);
        self.emit_operand(dst.encoding, &src);
    }

    /// `sbbq dst, src`
    pub fn sbbq(&mut self, dst: Register, src: Register)
        requires
            dst.wf(),
            src.wf(),
        ensures
            final(self).appends(*old(self), rex_for_rr(true, dst.encoding, src.encoding, false, false) + seq![0x1B, 0xC0 | ((encode(dst) << 3) | encode(src))]),
    {
        let _ = self.prefixq_and_encode_rr(dst.encoding, src.encoding);
        self.emit_arith_rr(0x1B, 0xC0, dst, src);
    }

    /// `shlq dst, imm8`
    pub fn shlq_ri(&mut self, dst: Register, imm8: i8)
        requires
            dst.wf(),
            (0 <= (imm8 >> 1) && (imm8 >> 1) < 32),
        ensures
            final(self).appends(*old(self), rex_opt(true, false, false, dst.encoding >= 8, false) + (if (imm8 == 1) { seq![0xD1, (0xE0 | (dst.encoding & 7))] } else { seq![0xC1, (0xE0 | (dst.encoding & 7)), imm_byte(imm8)] })),
    {
        let encode = self.prefixq_and_encode(dst.encoding);
        if imm8 == 1 {
            self.emit_int16(0xD1, (0xE0 | encode));
        } else {
            self.emit_int24(0xC1, (0xE0 | encode), imm_byte_exec(imm8));
        }
    }

    /// `shlq dst`
    pub fn shlq(&mut self, dst: Register)
        requires
            dst.wf(),
        ensures
            final(self).appends(*old(self), rex_opt(true, false, false, dst.encoding >= 8, false) + seq![0xD3, (0xE0 | (dst.encoding & 7))]),
    {
        let encode = self.prefixq_and_encode(dst.encoding);
        self.emit_int16(0xD3, (0xE0 | encode));
    }

    /// `shrq dst, imm8`
    pub fn shrq_ri(&mut self, dst: Register, imm8: i8)
        requires
            dst.wf(),
            (0 <= (imm8 >> 1) && (imm8 >> 1) < 32),
        ensures
            final(self).appends(*old(self), rex_opt(true, false, false, dst.encoding >= 8, false) + (if (imm8 == 1) { seq![0xD1, (0xE8 | (dst.encoding & 7))] } else { seq![0xC1, (0xE8 | (dst.encoding & 7)), imm_byte(imm8)] })),
    {
        let encode = self.prefixq_and_encode(dst.encoding);
        if imm8 == 1 {
            self.emit_int16(0xD1, (0xE8 | encode));
        } else {
            self.emit_int24(0xC1, (0xE8 | encode), imm_byte_exec(imm8));
        }
    }

    /// `shrq dst`
    pub fn shrq(&mut self, dst: Register)
        requires
            dst.wf(),
        ensures
            final(self).appends(*old(self), rex_opt(true, false, false, dst.encoding >= 8, false) + seq![0xD3, (0xE8 | (dst.encoding & 7))]),
    {
        let encode = self.prefixq_and_encode(dst.encoding);
        self.emit_int16(0xD3, (0xE8 | encode));
    }

    /// `shrq [dst]`
    pub fn shrq_m(&mut self, dst: Address)
        requires
            dst.wf(),
        ensures
            ({
                let f = old(self).features;
                final(self).appends(*old(self), seq![rex_byte(true, 0 >= 8, dst.spec_index_needs_rex(), dst.spec_base_needs_rex()), 0xD3] + address_bytes(f, None, 5, dst, false))
            }),
    {
        self.emit_int16(get_prefixq(&dst, 0), 0xD3);
        self.emit_operand(5, &dst);
    }

    /// `shrq [dst], imm8`
    pub fn shrq_mi(&mut self, dst: Address, imm8: i8)
        requires
            dst.wf(),
            (0 <= (imm8 >> 1) && (imm8 >> 1) < 32),
        ensures
            ({
                let f = old(self).features;
                final(self).appends(*old(self), (if (imm8 == 1) { seq![rex_byte(true, 0 >= 8, dst.spec_index_needs_rex(), dst.spec_base_needs_rex()), 0xD1] + address_bytes(f, None, 5, dst, false) } else { seq![rex_byte(true, 0 >= 8, dst.spec_index_needs_rex(), dst.spec_base_needs_rex()), 0xC1] + address_bytes(f, None, 5, dst, false) + seq![imm_byte(imm8)] }))
            }),
    {
        if imm8 == 1 {
            self.emit_int16(get_prefixq(&dst, 0), 0xD1);
            self.emit_operand(5, &dst);
        } else {
            self.emit_int16(get_prefixq(&dst, 0), 0xC1);
            self.emit_operand(5, &dst);
            self.emit_int8(imm_byte_exec(imm8));
        }
    }

    /// `subq [dst], imm32`
    pub fn subq_mi(&mut self, dst: Address, imm32: i32)
        requires
            dst.wf(),
        ensures
            ({
                let f = old(self).features;
                final(self).appends(*old(self), rex_for_adr(true, 0, dst, false) + arith_operand_bytes(f, 0x81, 5, dst, imm32))
            }),
    {
        self.prefixq_adr(&dst);
        self.emit_arith_operand(0x81, 5, &dst, imm32);
    }

    /// `subq [dst], src`
    pub fn subq_mr(&mut self, dst: Address, src: Register)
        requires
            dst.wf(),
            src.wf(),
        ensures
            ({
                let f = old(self).features;
                final(self).appends(*old(self), seq![rex_byte(true, src.encoding >= 8, dst.spec_index_needs_rex(), dst.spec_base_needs_rex()), 0x29] + address_bytes(f, None, src.encoding, dst, false))
            }),
    {
        self.emit_int16(get_prefixq(&dst, src.encoding), 0x29);
        self.emit_operand(src.encoding, &dst);
    }

    /// `subq dst, imm32`
    pub fn subq_ri(&mut self, dst: Register, imm32: i32)
        requires
            dst.wf(),
        ensures
            final(self).appends(*old(self), rex_opt(true, false, false, dst.encoding >= 8, false) + arith_imm_bytes(0x81, 0xE8, dst, imm32)),
    {
        let _ = self.prefixq_and_encode(dst.encoding);
        self.emit_arith(0x81, 0xE8, dst, imm32);
    }

    /// `subq_imm32 dst, imm32`
    pub fn subq_imm32(&mut self, dst: Register, imm32: i32)
        requires
            dst.wf(),
        ensures
            final(self).appends(*old(self), rex_opt(true, false, false, dst.encoding >= 8, false) + seq![0x81, 0xE8 | encode(dst)] + le32(imm32)),
    {
        let _ = self.prefixq_and_encode(dst.encoding);
        self.emit_arith_imm32(0x81, 0xE8, dst, imm32);
    }

    /// `subq dst, [src]`
    pub fn subq_rm(&mut self, dst: Register, src: Address)
        requires
            dst.wf(),
            src.wf(),
        ensures
            ({
                let f = old(self).features;
                final(self).appends(*old(self), seq![rex_byte(true, dst.encoding >= 8, src.spec_index_needs_rex(), src.spec_base_needs_rex()), 0x2B] + address_bytes(f, None, dst.encoding, src, false))
            }),
    {
        self.emit_int16(get_prefixq(&src, dst.encoding), 0x2B);
        self.emit_operand(dst.encoding, &src);
    }

    /// `subq dst, src`
    pub fn subq(&mut self, dst: Register, src: Register)
        requires
            dst.wf(),
            src.wf(),
        ensures
            final(self).appends(*old(self), rex_for_rr(true, dst.encoding, src.encoding, false, false) + seq![0x2B, 0xC0 | ((encode(dst) << 3) | encode(src))]),
    {
        let _ = self.prefixq_and_encode_rr(dst.encoding, src.encoding);
        self.emit_arith_rr(0x2B, 0xC0, dst, src);
    }

    /// `testq [dst], imm32`
    pub fn testq_mi(&mut self, dst: Address, imm32: i32)
        requires
            dst.wf(),
        ensures
            ({
                let f = old(self).features;
                final(self).appends(*old(self), seq![rex_byte(true, 0 >= 8, dst.spec_index_needs_rex(), dst.spec_base_needs_rex()), 0xF7] + address_bytes(f, None, 0, dst, false) + le32(imm32))
            }),
    {
        self.emit_int16(get_prefixq(&dst, 0), 0xF7);
        self.emit_operand(0, &dst);
        self.emit_i32(imm32);
    }

    /// `testq dst, imm32`
    pub fn testq_ri(&mut self, dst: Register, imm32: i32)
        requires
            dst.wf(),
        ensures
            final(self).appends(*old(self), (if (dst.encoding == 0) { seq![0x48] + seq![0xA9] + le32(imm32) } else { rex_opt(true, false, false, dst.encoding >= 8, false) + seq![0xF7, (0xC0 | (dst.encoding & 7))] + le32(imm32) })),
    {
        if dst.encoding == 0 {
            self.prefix(0x48);
            self.emit_int8(0xA9);
            self.emit_i32(imm32);
        } else {
            let encode: u8 = dst.encoding;
            let encode = self.prefixq_and_encode(encode);
            self.emit_int16(0xF7, (0xC0 | encode));
            self.emit_i32(imm32);
        }
    }

    /// `testq dst, src`
    pub fn testq(&mut self, dst: Register, src: Register)
        requires
            dst.wf(),
            src.wf(),
        ensures
            final(self).appends(*old(self), rex_for_rr(true, dst.encoding, src.encoding, false, false) + seq![0x85, 0xC0 | ((encode(dst) << 3) | encode(src))]),
    {
        let _ = self.prefixq_and_encode_rr(dst.encoding, src.encoding);
        self.emit_arith_rr(0x85, 0xC0, dst, src);
    }

    /// `testq dst, [src]`
    pub fn testq_rm(&mut self, dst: Register, src: Address)
        requires
            dst.wf(),
            src.wf(),
        ensures
            ({
                let f = old(self).features;
                final(self).appends(*old(self), seq![rex_byte(true, dst.encoding >= 8, src.spec_index_needs_rex(), src.spec_base_needs_rex()), 0x85] + address_bytes(f, None, dst.encoding, src, false))
            }),
    {
        self.emit_int16(get_prefixq(&src, dst.encoding), 0x85);
        self.emit_operand(dst.encoding, &src);
    }

    /// `xaddq [dst], src`
    pub fn xaddq(&mut self, dst: Address, src: Register)
        requires
            dst.wf(),
            src.wf(),
        ensures
            ({
                let f = old(self).features;
                final(self).appends(*old(self), seq![rex_byte(true, src.encoding >= 8, dst.spec_index_needs_rex(), dst.spec_base_needs_rex()), 0x0F, 0xC1] + address_bytes(f, None, src.encoding, dst, false))
            }),
    {
        self.emit_int24(get_prefixq(&dst, src.encoding), 0x0F, 0xC1);
        self.emit_operand(src.encoding, &dst);
    }

    /// `xchgq dst, [src]`
    pub fn xchgq_rm(&mut self, dst: Register, src: Address)
        requires
            dst.wf(),
            src.wf(),
        ensures
            ({
                let f = old(self).features;
                final(self).appends(*old(self), seq![rex_byte(true, dst.encoding >= 8, src.spec_index_needs_rex(), src.spec_base_needs_rex()), 0x87] + address_bytes(f, None, dst.encoding, src, false))
            }),
    {
        self.emit_int16(get_prefixq(&src, dst.encoding), 0x87);
        self.emit_operand(dst.encoding, &src);
    }

    /// `xchgq dst, src`
    pub fn xchgq(&mut self, dst: Register, src: Register)
        requires
            dst.wf(),
            src.wf(),
        ensures
            final(self).appends(*old(self), rex_for_rr(true, dst.encoding, src.encoding, false, false) + seq![0x87, (0xc0 | rr_bits(dst.encoding, src.encoding))]),
    {
        let encode = self.prefixq_and_encode_rr(dst.encoding, src.encoding);
        self.emit_int16(0x87, (0xc0 | encode));
    }

    /// `xorq dst, src`
    pub fn xorq(&mut self, dst: Register, src: Register)
        requires
            dst.wf(),
            src.wf(),
        ensures
            final(self).appends(*old(self), rex_for_rr(true, dst.encoding, src.encoding, false, false) + seq![0x33, 0xC0 | ((encode(dst) << 3) | encode(src))]),
    {
        let _ = self.prefixq_and_encode_rr(dst.encoding, src.encoding);
        self.emit_arith_rr(0x33, 0xC0, dst, src);
    }

    /// `xorq dst, [src]`
    pub fn xorq_rm(&mut self, dst: Register, src: Address)
        requires
            dst.wf(),
            src.wf(),
        ensures
            ({
                let f = old(self).features;
                final(self).appends(*old(self), seq![rex_byte(true, dst.encoding >= 8, src.spec_index_needs_rex(), src.spec_base_needs_rex()), 0x33] + address_bytes(f, None, dst.encoding, src, false))
            }),
    {
        self.emit_int16(get_prefixq(&src, dst.encoding), 0x33);
        self.emit_operand(dst.encoding, &src);
    }

    /// `xorq dst, imm32`
    pub fn xorq_ri(&mut self, dst: Register, imm32: i32)
        requires
            dst.wf(),
        ensures
            final(self).appends(*old(self), rex_opt(true, false, false, dst.encoding >= 8, false) + arith_imm_bytes(0x81, 0xF0, dst, imm32)),
    {
        let _ = self.prefixq_and_encode(dst.encoding);
        self.emit_arith(0x81, 0xF0, dst, imm32);
    }

    /// `xorq [dst], imm32`
    pub fn xorq_mi(&mut self, dst: Address, imm32: i32)
        requires
            dst.wf(),
        ensures
            ({
                let f = old(self).features;
                final(self).appends(*old(self), rex_for_adr(true, 0, dst, false) + arith_operand_bytes(f, 0x81, 6, dst, imm32))
            }),
    {
        self.prefixq_adr(&dst);
        self.emit_arith_operand(0x81, 6, &dst, imm32);
    }

    /// `xorq [dst], src`
    pub fn xorq_mr(&mut self, dst: Address, src: Register)
        requires
            dst.wf(),
            src.wf(),
        ensures
            ({
                let f = old(self).features;
                final(self).appends(*old(self), seq![rex_byte(true, src.encoding >= 8, dst.spec_index_needs_rex(), dst.spec_base_needs_rex()), 0x31] + address_bytes(f, None, src.encoding, dst, false))
            }),
    {
        self.emit_int16(get_prefixq(&dst, src.encoding), 0x31);
        self.emit_operand(src.encoding, &dst);
    }
}

} // verus!
