//! The CRC32 accumulate instruction (SSE4.2).
use vstd::prelude::*;
use crate::address::Address;
use crate::assembler::Assembler;
use crate::encoding::{address_bytes, rex_opt, rr_bits};
use crate::registers::Register;

verus! {

/// The opcode of `crc32` for an operand of `size` bytes: `F0` for bytes,
/// `F1` otherwise.
pub open spec fn crc32_opcode(size: i8) -> u8 {
    if size == 1 {
        0xF0
    } else {
        0xF1
    }
}

impl Assembler {
    /// `crc32 crc, v`, accumulating the low `size_in_bytes` (1, 2, 4 or 8)
    /// bytes of `v`: `F2 [REX] 0F 38 F0/F1 /r`, with REX.W for 8 bytes.
    pub fn crc32(&mut self, crc: Register, v: Register, size_in_bytes: i8)
        requires
            old(self).features.supports_sse4_2(),
            crc.wf(),
            v.wf(),
            size_in_bytes == 1 || size_in_bytes == 2 || size_in_bytes == 4 || size_in_bytes == 8,
        ensures
            final(self).appends(
                *old(self),
                seq![0xF2] + rex_opt(size_in_bytes == 8, crc.encoding >= 8, false, v.encoding >= 8, false) + seq![
                    0x0F,
                    0x38,
                    crc32_opcode(size_in_bytes),
                    0xC0 | rr_bits(crc.encoding, v.encoding),
                ],
            ),
    {
        let w: u8 = if size_in_bytes == 1 { 0 } else { 1 };
        let rex_w: bool = size_in_bytes == 8;
        self.emit_int8(0xF2);
        self.prefix_rr(crc, v, rex_w);
        let e = crate::operands::rr_encode(crc.encoding, v.encoding);
        assert((0xF0u8 | w) == crc32_opcode(size_in_bytes)) by (bit_vector)
            requires
                w == (if size_in_bytes == 1 { 0u8 } else { 1u8 }),
                crc32_opcode(size_in_bytes) == (if size_in_bytes == 1 { 0xF0u8 } else { 0xF1u8 }),
        ;
        self.emit_int32(0x0F, 0x38, 0xF0 | w, 0xC0 | e);
    }

    /// `crc32 crc, [adr]`; the address may not use an extended index
    /// register.
    pub fn crc32_rm(&mut self, crc: Register, adr: Address, size_in_bytes: i8)
        requires
            old(self).features.supports_sse4_2(),
            crc.wf(),
            adr.wf(),
            !adr.spec_index_needs_rex(),
            size_in_bytes == 1 || size_in_bytes == 2 || size_in_bytes == 4 || size_in_bytes == 8,
        ensures
            final(self).appends(
                *old(self),
                seq![0xF2] + rex_opt(size_in_bytes == 8, crc.encoding >= 8, false, adr.spec_base_needs_rex(), false)
                    + seq![0x0F, 0x38, crc32_opcode(size_in_bytes)] + address_bytes(
                    old(self).features,
                    None,
                    crc.encoding,
                    adr,
                    false,
                ),
            ),
    {
        let w: u8 = if size_in_bytes == 1 { 0 } else { 1 };
        let rex_w: bool = size_in_bytes == 8;
        self.emit_int8(0xF2);
        self.prefix_reg_adr(crc, &adr, rex_w);
        assert((0xF0u8 | w) == crc32_opcode(size_in_bytes)) by (bit_vector)
            requires
                w == (if size_in_bytes == 1 { 0u8 } else { 1u8 }),
                crc32_opcode(size_in_bytes) == (if size_in_bytes == 1 { 0xF0u8 } else { 0xF1u8 }),
        ;
        self.emit_int24(0x0F, 0x38, 0xF0 | w);
        self.emit_operand(crc.encoding, &adr);
    }
}

} // verus!
