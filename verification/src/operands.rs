use vstd::prelude::*;
use crate::address::Address;
use crate::assembler::{Assembler, REX, REX_B, REX_R, REX_RB, REX_RX, REX_RXB, REX_W, REX_WB, REX_WR, REX_WRB, REX_WRX, REX_WRXB, REX_WX, REX_WXB, REX_X, REX_XB};
use crate::attributes::InstructionAttr;
use crate::encoding::{address_bytes, base_enc, compressing, disp8, index_enc, is8bit, le32, low8, modrm, operand_bytes, rex_byte, rex_for_adr, rex_for_rr, rex_opt, rr_bits, sib};
use crate::features::CpuFeatures;
use crate::registers::Register;

verus! {

/// The ModRM reg/r-m bits of a register pair.
pub fn rr_encode(reg: u8, rm: u8) -> (r: u8)
    ensures
        r == rr_bits(reg, rm),
{
    ((reg & 7) << 3) | (rm & 7)
}

/// The register's encoding within the ModRM byte (the REX prefix holds the
/// high bit).
pub open spec fn encode(r: Register) -> u8 {
    r.encoding & 7
}

pub fn encode_exec(r: Register) -> (e: u8)
    ensures
        e == encode(r),
{
    r.encoding & 7
}

/// The opcode of an arithmetic operation on `rax` with a 32-bit immediate,
/// identified by the ModRM byte of its general form.
pub open spec fn rax_imm_opcode(op2: u8) -> u8 {
    if op2 == 0xD0 {
        0x15
    } else if op2 == 0xC0 {
        0x05
    } else if op2 == 0xE0 {
        0x25
    } else if op2 == 0xF8 {
        0x3D
    } else if op2 == 0xC8 {
        0x0D
    } else if op2 == 0xD8 {
        0x1D
    } else if op2 == 0xE8 {
        0x2D
    } else {
        0x35
    }
}

pub open spec fn is_arith_op2(op2: u8) -> bool {
    op2 == 0xD0 || op2 == 0xC0 || op2 == 0xE0 || op2 == 0xF8 || op2 == 0xC8 || op2 == 0xD8 || op2 == 0xE8
        || op2 == 0xF0
}

/// `op r32, imm32` in its shortest form: a sign-extended 8-bit immediate when
/// it fits, the accumulator form for `rax`, else the general form.
pub open spec fn arith_imm_bytes(op1: u8, op2: u8, dst: Register, imm32: i32) -> Seq<u8> {
    if is8bit(imm32 as int) {
        seq![op1 | 0x02, op2 | encode(dst), low8(imm32)]
    } else if dst.encoding == 0 {
        seq![rax_imm_opcode(op2)] + le32(imm32)
    } else {
        seq![op1, op2 | encode(dst)] + le32(imm32)
    }
}

/// `op r/m32, imm32` with a memory destination, using the sign-extended
/// 8-bit immediate form when the immediate fits.
pub open spec fn arith_operand_bytes(f: CpuFeatures, op1: u8, rm: u8, adr: Address, imm32: i32) -> Seq<u8> {
    if is8bit(imm32 as int) {
        seq![op1 | 0x02] + address_bytes(f, None, rm, adr, false) + seq![low8(imm32)]
    } else {
        seq![op1] + address_bytes(f, None, rm, adr, false) + le32(imm32)
    }
}

/// The REX.W prefix of an instruction with a memory operand and `reg` in
/// the ModRM reg field.
pub fn get_prefixq(adr: &Address, reg: u8) -> (p: u8)
    ensures
        p == rex_byte(true, reg >= 8, adr.index_needs_rex(), adr.base_needs_rex()),
{
    REX_W + (if reg >= 8 { 4u8 } else { 0 }) + (if adr.index_needs_rex() { 2u8 } else { 0 }) + (if adr.base_needs_rex() {
        1u8
    } else {
        0
    })
}

/// An x87 instruction on stack register `st(i)`: the second byte is
/// `b2 + i`, truncated to 8 bits.
pub open spec fn farith_bytes(b1: u8, b2: u8, i: i32) -> Seq<u8> {
    seq![b1, (b2 + i) as u8]
}

impl Assembler {
    /// Emits a REX prefix byte.
    pub fn prefix(&mut self, p: u8)
        ensures
            final(self).appends(*old(self), seq![p]),
    {
        self.emit_int8(p);
    }

    /// REX.B for an instruction whose only register operand is in the
    /// r/m or opcode field.
    pub fn prefix_reg(&mut self, reg: Register)
        requires
            reg.wf(),
        ensures
            final(self).appends(*old(self), rex_opt(false, false, false, reg.encoding >= 8, false)),
    {
        if reg.encoding >= 8 {
            self.prefix(REX_B);
        }
    }

    /// The REX prefix, if any, of a register-to-register instruction with an
    /// optional W bit: `dst` in the reg field, `src` in r/m.
    pub fn prefix_rr(&mut self, dst: Register, src: Register, w: bool)
        requires
            dst.wf(),
            src.wf(),
        ensures
            final(self).appends(*old(self), rex_opt(w, dst.encoding >= 8, false, src.encoding >= 8, false)),
    {
        if w || dst.encoding >= 8 || src.encoding >= 8 {
            let p: u8 = REX + (if w { 8u8 } else { 0 }) + (if dst.encoding >= 8 { 4u8 } else { 0 }) + (if src.encoding
                >= 8 { 1u8 } else { 0 });
            self.prefix(p);
        }
    }

    /// The REX prefix for a memory operand without a register operand.
    pub fn prefix_adr(&mut self, adr: &Address)
        ensures
            final(self).appends(*old(self), rex_opt(false, false, adr.index_needs_rex(), adr.base_needs_rex(), false)),
    {
        if adr.base_needs_rex() {
            if adr.index_needs_rex() {
                self.prefix(REX_XB);
            } else {
                self.prefix(REX_B);
            }
        } else {
            if adr.index_needs_rex() {
                self.prefix(REX_X);
            }
        }
    }

    /// The REX prefix for a memory operand and a register operand; byte
    /// instructions on spl, bpl, sil and dil need an otherwise empty REX.
    pub fn prefix_adr_reg(&mut self, adr: &Address, reg: u8, byteinst: bool)
        requires
            reg < 16,
        ensures
            final(self).appends(*old(self), rex_for_adr(false, reg, *adr, byteinst)),
    {
        if reg < 8 {
            if adr.base_needs_rex() {
                if adr.index_needs_rex() {
                    self.prefix(REX_XB);
                } else {
                    self.prefix(REX_B);
                }
            } else {
                if adr.index_needs_rex() {
                    self.prefix(REX_X);
                } else if byteinst && reg >= 4 {
                    self.prefix(REX);
                }
            }
        } else {
            if adr.base_needs_rex() {
                if adr.index_needs_rex() {
                    self.prefix(REX_RXB);
                } else {
                    self.prefix(REX_RB);
                }
            } else {
                if adr.index_needs_rex() {
                    self.prefix(REX_RX);
                } else {
                    self.prefix(REX_R);
                }
            }
        }
    }

    /// The REX prefix for a register and a memory operand where an extended
    /// index register cannot be encoded.
    pub fn prefix_reg_adr(&mut self, dst: Register, adr: &Address, w: bool)
        requires
            dst.wf(),
            !adr.index_needs_rex(),
        ensures
            final(self).appends(*old(self), rex_opt(w, dst.encoding >= 8, false, adr.base_needs_rex(), false)),
    {
        if w {
            if adr.base_needs_rex() {
                if dst.encoding >= 8 {
                    self.prefix(REX_WRB);
                } else {
                    self.prefix(REX_WB);
                }
            } else {
                if dst.encoding >= 8 {
                    self.prefix(REX_WR);
                } else {
                    self.prefix(REX_W);
                }
            }
        } else {
            if adr.base_needs_rex() {
                if dst.encoding >= 8 {
                    self.prefix(REX_RB);
                } else {
                    self.prefix(REX_B);
                }
            } else {
                if dst.encoding >= 8 {
                    self.prefix(REX_R);
                }
            }
        }
    }

    /// REX.W prefix with the X and B bits of a memory operand and the R bit
    /// of a register operand.
    pub fn prefixq(&mut self, adr: &Address, reg: u8)
        requires
            reg < 16,
        ensures
            final(self).appends(*old(self), rex_for_adr(true, reg, *adr, false)),
    {
        if reg < 8 {
            if adr.base_needs_rex() {
                if adr.index_needs_rex() {
                    self.prefix(REX_WXB);
                } else {
                    self.prefix(REX_WB);
                }
            } else {
                if adr.index_needs_rex() {
                    self.prefix(REX_WX);
                } else {
                    self.prefix(REX_W);
                }
            }
        } else {
            if adr.base_needs_rex() {
                if adr.index_needs_rex() {
                    self.prefix(REX_WRXB);
                } else {
                    self.prefix(REX_WRB);
                }
            } else {
                if adr.index_needs_rex() {
                    self.prefix(REX_WRX);
                } else {
                    self.prefix(REX_WR);
                }
            }
        }
    }

    /// REX.W prefix for a memory operand without a register operand.
    pub fn prefixq_adr(&mut self, adr: &Address)
        ensures
            final(self).appends(*old(self), rex_for_adr(true, 0, *adr, false)),
    {
        self.prefixq(adr, 0);
    }

    /// The REX prefix, if any, of an instruction with a single register in
    /// the r/m or opcode field; returns the register's low three bits.
    pub fn prefix_and_encode(&mut self, reg_enc: u8, byteinst: bool) -> (e: u8)
        requires
            reg_enc < 16,
        ensures
            final(self).appends(*old(self), rex_opt(false, false, false, reg_enc >= 8, byteinst && reg_enc >= 4)),
            e == reg_enc & 7,
            e < 8,
    {
        if reg_enc >= 8 {
            self.prefix(REX_B);
            assert(reg_enc - 8 == reg_enc & 7) by (bit_vector)
                requires
                    8 <= reg_enc < 16,
            ;
            reg_enc - 8
        } else {
            if byteinst && reg_enc >= 4 {
                self.prefix(REX);
            }
            assert(reg_enc == reg_enc & 7) by (bit_vector)
                requires
                    reg_enc < 8,
            ;
            reg_enc
        }
    }

    /// The REX prefix, if any, of a register-to-register instruction; returns
    /// the reg and r/m bits of its ModRM byte.
    pub fn prefix_and_encode_rr(&mut self, dst_enc: u8, dst_is_byte: bool, src_enc: u8, src_is_byte: bool) -> (e: u8)
        requires
            dst_enc < 16,
            src_enc < 16,
        ensures
            final(self).appends(*old(self), rex_for_rr(false, dst_enc, src_enc, dst_is_byte, src_is_byte)),
            e == rr_bits(dst_enc, src_enc),
    {
        if dst_enc < 8 {
            if src_enc >= 8 {
                self.prefix(REX_B);
            } else if (src_is_byte && src_enc >= 4) || (dst_is_byte && dst_enc >= 4) {
                self.prefix(REX);
            }
        } else {
            if src_enc < 8 {
                self.prefix(REX_R);
            } else {
                self.prefix(REX_RB);
            }
        }
        rr_encode(dst_enc, src_enc)
    }

    /// REX.W (with B) for an instruction with one register operand.
    pub fn prefixq_and_encode(&mut self, reg_enc: u8) -> (e: u8)
        requires
            reg_enc < 16,
        ensures
            final(self).appends(*old(self), rex_opt(true, false, false, reg_enc >= 8, false)),
            e == reg_enc & 7,
            e < 8,
    {
        if reg_enc < 8 {
            self.prefix(REX_W);
            assert(reg_enc == reg_enc & 7) by (bit_vector)
                requires
                    reg_enc < 8,
            ;
            reg_enc
        } else {
            self.prefix(REX_WB);
            assert(reg_enc - 8 == reg_enc & 7) by (bit_vector)
                requires
                    8 <= reg_enc < 16,
            ;
            reg_enc - 8
        }
    }

    /// REX.W (with R and B) for a register-to-register instruction; returns
    /// the reg and r/m bits of its ModRM byte.
    pub fn prefixq_and_encode_rr(&mut self, dst_enc: u8, src_enc: u8) -> (e: u8)
        requires
            dst_enc < 16,
            src_enc < 16,
        ensures
            final(self).appends(*old(self), rex_for_rr(true, dst_enc, src_enc, false, false)),
            e == rr_bits(dst_enc, src_enc),
    {
        if dst_enc < 8 {
            if src_enc < 8 {
                self.prefix(REX_W);
            } else {
                self.prefix(REX_WB);
            }
        } else {
            if src_enc < 8 {
                self.prefix(REX_WR);
            } else {
                self.prefix(REX_WRB);
            }
        }
        rr_encode(dst_enc, src_enc)
    }

    fn emit_modrm(&mut self, md: u8, reg: u8, rm: u8)
        requires
            md < 4,
        ensures
            final(self).appends(*old(self), seq![modrm(md, reg, rm)]),
    {
        self.emit_int8((md << 6) | ((reg & 7) << 3) | (rm & 7));
    }

    fn emit_modrm_sib(&mut self, md: u8, reg: u8, rm: u8, scale: u8, index: u8, base: u8)
        requires
            md < 4,
            scale < 4,
        ensures
            final(self).appends(*old(self), seq![modrm(md, reg, rm), sib(scale, index, base)]),
    {
        self.emit_int16((md << 6) | ((reg & 7) << 3) | (rm & 7), (scale << 6) | ((index & 7) << 3) | (base & 7));
    }

    /// Whether a displacement has an 8-bit encoding, and its stored value,
    /// applying EVEX displacement compression where the instruction uses it.
    fn compressed_disp(&self, attr: &Option<InstructionAttr>, disp: i32) -> (r: Option<i32>)
        ensures
            match disp8(self.features, *attr, disp) {
                Some(d) => r == Some(d as i32),
                None => r is None,
            },
    {
        let evex = match attr {
            Some(a) => self.features.use_avx >= 3 && a.is_evex_instruction && a.vector_len <= 2,
            None => false,
        };
        if evex {
            let a = attr.unwrap();
            let n: u8 = crate::attributes::tuple_table_exec(a.disp_row_exec(), a.vector_len);
            let m: u64 = if disp >= 0 { disp as u64 } else { (-(disp as i64)) as u64 };
            if n != 0 && m % (n as u64) == 0 {
                let q0: u64 = m / (n as u64);
                let q: i64 = if disp >= 0 { q0 as i64 } else { -(q0 as i64) };
                if -128 <= q && q < 128 {
                    Some(q as i32)
                } else {
                    None
                }
            } else {
                None
            }
        } else if -128 <= disp && disp < 128 {
            Some(disp)
        } else {
            None
        }
    }

    /// Emits the ModRM, SIB and displacement bytes of a memory operand.
    fn emit_operand_helper(
        &mut self,
        reg: u8,
        base: Option<u8>,
        index: Option<u8>,
        scale: u8,
        disp: i32,
        attr: &Option<InstructionAttr>,
    )
        requires
            scale < 4,
        ensures
            final(self).appends(*old(self), operand_bytes(reg, base, index, scale, disp, disp8(old(self).features, *attr, disp))),
    {
        let ghost d8 = disp8(self.features, *attr, disp);
        match base {
            Some(b) => match index {
                Some(i) => {
                    if disp == 0 && b != 5 && b != 13 {
                        self.emit_modrm_sib(0, reg, 4, scale, i, b);
                    } else {
                        match self.compressed_disp(attr, disp) {
                            Some(d) => {
                                self.emit_modrm_sib(1, reg, 4, scale, i, b);
                                self.emit_low_byte(d);
                            },
                            None => {
                                self.emit_modrm_sib(2, reg, 4, scale, i, b);
                                self.emit_i32(disp);
                            },
                        }
                    }
                },
                None => {
                    if b == 4 || b == 12 {
                        if disp == 0 {
                            self.emit_modrm_sib(0, reg, 4, 0, 4, 4);
                        } else {
                            match self.compressed_disp(attr, disp) {
                                Some(d) => {
                                    self.emit_modrm_sib(1, reg, 4, 0, 4, 4);
                                    self.emit_low_byte(d);
                                },
                                None => {
                                    self.emit_modrm_sib(2, reg, 4, 0, 4, 4);
                                    self.emit_i32(disp);
                                },
                            }
                        }
                    } else if disp == 0 && b != 5 && b != 13 {
                        self.emit_modrm(0, reg, b);
                    } else {
                        match self.compressed_disp(attr, disp) {
                            Some(d) => {
                                self.emit_modrm(1, reg, b);
                                self.emit_low_byte(d);
                            },
                            None => {
                                self.emit_modrm(2, reg, b);
                                self.emit_i32(disp);
                            },
                        }
                    }
                },
            },
            None => match index {
                Some(i) => {
                    self.emit_modrm_sib(0, reg, 4, scale, i, 5);
                    self.emit_i32(disp);
                },
                None => {
                    self.emit_modrm_sib(0, reg, 4, 0, 4, 5);
                    self.emit_i32(disp);
                },
            },
        }
    }

    /// Emits the memory operand `adr` with `reg` in the ModRM reg field, for
    /// an instruction without EVEX attributes.
    pub fn emit_operand(&mut self, reg: u8, adr: &Address)
        requires
            adr.wf(),
        ensures
            final(self).appends(*old(self), address_bytes(old(self).features, None, reg, *adr, false)),
    {
        let base: Option<u8> = match adr.base {
            Some(b) => Some(b.encoding),
            None => None,
        };
        let index: Option<u8> = match adr.index {
            Some(i) => Some(i.encoding),
            None => None,
        };
        self.emit_operand_helper(reg, base, index, adr.scale, adr.disp, &None);
    }

    /// Emits the memory operand `adr` of a vector instruction with attributes
    /// `attr`; a vector index is encoded like an index register and the
    /// displacement is compressed when the instruction is EVEX encoded.
    pub fn emit_operand_attr(&mut self, reg: u8, adr: &Address, attr: &InstructionAttr, xmm: bool)
        requires
            adr.wf(),
        ensures
            final(self).appends(*old(self), address_bytes(old(self).features, Some(*attr), reg, *adr, xmm)),
    {
        let base: Option<u8> = match adr.base {
            Some(b) => Some(b.encoding),
            None => None,
        };
        let index: Option<u8> = match adr.index {
            Some(i) => Some(i.encoding),
            None => if xmm {
                match adr.xmmindex {
                    Some(x) => Some(x.encoding),
                    None => None,
                }
            } else {
                None
            },
        };
        self.emit_operand_helper(reg, base, index, adr.scale, adr.disp, &Some(*attr));
    }

    /// Emits the memory operand of an instruction that has no REX prefix:
    /// neither the register nor the address may use r8-r15.
    pub fn emit_operand32(&mut self, reg: u8, adr: &Address)
        requires
            reg < 8,
            adr.wf(),
            !adr.base_needs_rex(),
            !adr.index_needs_rex(),
        ensures
            final(self).appends(*old(self), address_bytes(old(self).features, None, reg, *adr, false)),
    {
        self.emit_operand(reg, adr);
    }

    /// An x87 arithmetic instruction on `st(i)`.
    pub fn emit_farith(&mut self, b1: u8, b2: u8, i: i32)
        requires
            0 <= i < 8,
        ensures
            final(self).appends(*old(self), farith_bytes(b1, b2, i)),
    {
        let sum: u16 = (b2 as u16) + (i as u16);
        self.emit_int16(b1, sum as u8);
    }

    /// The operand size prefix.
    pub fn size_prefix(&mut self)
        ensures
            final(self).appends(*old(self), seq![0x66]),
    {
        self.emit_int8(0x66);
    }

    /// `op dst, src` for two registers: `op1` is the opcode and `op2 | reg
    /// bits` the ModRM byte.
    pub fn emit_arith_rr(&mut self, op1: u8, op2: u8, dst: Register, src: Register)
        ensures
            final(self).appends(*old(self), seq![op1, op2 | ((encode(dst) << 3) | encode(src))]),
    {
        let d = encode_exec(dst);
        let s = encode_exec(src);
        self.emit_int16(op1, op2 | ((d << 3) | s));
    }

    /// `op r32, imm32`, choosing the shortest encoding.
    pub fn emit_arith(&mut self, op1: u8, op2: u8, dst: Register, imm32: i32)
        requires
            op1 == 0x81,
            is_arith_op2(op2),
        ensures
            final(self).appends(*old(self), arith_imm_bytes(op1, op2, dst, imm32)),
    {
        let e = encode_exec(dst);
        if -128 <= imm32 && imm32 < 128 {
            self.emit_int8(op1 | 0x02);
            self.emit_int8(op2 | e);
            self.emit_low_byte(imm32);
        } else if dst.encoding == 0 {
            let op: u8 = if op2 == 0xD0 {
                0x15
            } else if op2 == 0xC0 {
                0x05
            } else if op2 == 0xE0 {
                0x25
            } else if op2 == 0xF8 {
                0x3D
            } else if op2 == 0xC8 {
                0x0D
            } else if op2 == 0xD8 {
                0x1D
            } else if op2 == 0xE8 {
                0x2D
            } else {
                0x35
            };
            self.emit_int8(op);
            self.emit_i32(imm32);
        } else {
            self.emit_int16(op1, op2 | e);
            self.emit_i32(imm32);
        }
    }

    /// `op r8, imm8`.
    pub fn emit_arith_b(&mut self, op1: u8, op2: u8, dst: Register, imm8: u8)
        ensures
            final(self).appends(*old(self), seq![op1, op2 | encode(dst), imm8]),
    {
        let e = encode_exec(dst);
        self.emit_int24(op1, op2 | e, imm8);
    }

    /// `op r32, imm32` always with a 32-bit immediate.
    pub fn emit_arith_imm32(&mut self, op1: u8, op2: u8, dst: Register, imm32: i32)
        ensures
            final(self).appends(*old(self), seq![op1, op2 | encode(dst)] + le32(imm32)),
    {
        let e = encode_exec(dst);
        self.emit_int16(op1, op2 | e);
        self.emit_i32(imm32);
    }

    /// `op m32, imm32` with `rm` as the opcode extension.
    pub fn emit_arith_operand(&mut self, op1: u8, rm: u8, adr: &Address, imm32: i32)
        requires
            adr.wf(),
        ensures
            final(self).appends(*old(self), arith_operand_bytes(old(self).features, op1, rm, *adr, imm32)),
    {
        if -128 <= imm32 && imm32 < 128 {
            self.emit_int8(op1 | 0x02);
            self.emit_operand(rm, adr);
            self.emit_low_byte(imm32);
        } else {
            self.emit_int8(op1);
            self.emit_operand(rm, adr);
            self.emit_i32(imm32);
        }
    }

    /// `op m32, imm32` always with a 32-bit immediate.
    pub fn emit_arith_operand_imm32(&mut self, op1: u8, rm: u8, adr: &Address, imm32: i32)
        requires
            adr.wf(),
        ensures
            final(self).appends(
                *old(self),
                seq![op1] + address_bytes(old(self).features, None, rm, *adr, false) + le32(imm32),
            ),
    {
        self.emit_int8(op1);
        self.emit_operand(rm, adr);
        self.emit_i32(imm32);
    }
}

} // verus!
