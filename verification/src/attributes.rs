use vstd::prelude::*;
use crate::features::CpuFeatures;
use crate::registers::KRegister;

verus! {

/// Vector lengths.
pub const AVX_128BIT: u8 = 0;
pub const AVX_256BIT: u8 = 1;
pub const AVX_512BIT: u8 = 2;

/// Mandatory SIMD prefixes (the `pp` field of VEX and EVEX).
pub const VEX_SIMD_NONE: u8 = 0;
pub const VEX_SIMD_66: u8 = 1;
pub const VEX_SIMD_F3: u8 = 2;
pub const VEX_SIMD_F2: u8 = 3;

/// Opcode maps (the `mmmmm` field of VEX and the `mm` field of EVEX).
pub const VEX_OPCODE_NONE: u8 = 0;
pub const VEX_OPCODE_0F: u8 = 1;
pub const VEX_OPCODE_0F_38: u8 = 2;
pub const VEX_OPCODE_0F_3A: u8 = 3;

/// EVEX tuple types, which select the scaling of compressed 8-bit
/// displacements. Each is the first row of the type in the scaling table.
pub const EVEX_FV: u8 = 0;
pub const EVEX_HV: u8 = 4;
pub const EVEX_FVM: u8 = 6;
pub const EVEX_T1S: u8 = 7;
pub const EVEX_T1F: u8 = 11;
pub const EVEX_T2: u8 = 13;
pub const EVEX_T4: u8 = 15;
pub const EVEX_T8: u8 = 17;
pub const EVEX_HVM: u8 = 18;
pub const EVEX_QVM: u8 = 19;
pub const EVEX_OVM: u8 = 20;
pub const EVEX_M128: u8 = 21;
pub const EVEX_DUP: u8 = 22;
pub const EVEX_ETUP: u8 = 23;

/// Element sizes of EVEX memory operands.
pub const EVEX_8BIT: u8 = 0;
pub const EVEX_16BIT: u8 = 1;
pub const EVEX_32BIT: u8 = 2;
pub const EVEX_64BIT: u8 = 3;
pub const EVEX_NOBIT: u8 = 4;

/// Bits of the EVEX payload.
pub const VEX_W: u8 = 0x80;
pub const EVEX_RB: u8 = 0x10;

/// How one SIMD instruction is to be encoded: its vector length, operand
/// width, whether it may use the EVEX form, its opmask and context, and the
/// memory operand properties that govern displacement compression.
#[derive(Clone, Copy, PartialEq, Eq, Structural, Debug)]
pub struct InstructionAttr {
    pub vector_len: u8,
    pub rex_vex_w: bool,
    pub legacy_mode: bool,
    pub no_reg_mask: bool,
    pub uses_vl: bool,
    pub rex_vex_w_reverted: bool,
    pub is_evex_instruction: bool,
    pub is_clear_context: bool,
    pub is_extended_context: bool,
    pub tuple_type: u8,
    pub input_size_in_bits: u8,
    pub evex_encoding: u8,
    pub embedded_opmask: u8,
}

/// Scaling factor of compressed displacements, by tuple type row and vector
/// length (Intel SDM, tables 2-34 and 2-35). Zero marks combinations that have
/// no compressed form.
pub open spec fn tuple_table(row: u8, vector_len: u8) -> u8 {
    let t: Seq<u8> = seq![
        16, 32, 64,  // FV
        4, 4, 4,  // FV, EVEX.b
        16, 32, 64,  // FV, EVEX.W
        8, 8, 8,  // FV, EVEX.W and EVEX.b
        8, 16, 32,  // HV
        4, 4, 4,  // HV, EVEX.b
        16, 32, 64,  // FVM
        1, 1, 1,  // T1S, 8 bit
        2, 2, 2,  // T1S, 16 bit
        4, 4, 4,  // T1S, 32 bit
        8, 8, 8,  // T1S, 64 bit
        4, 4, 4,  // T1F, 32 bit
        8, 8, 8,  // T1F, 64 bit
        8, 8, 8,  // T2, 32 bit
        0, 16, 16,  // T2, 64 bit
        0, 16, 16,  // T4, 32 bit
        0, 0, 32,  // T4, 64 bit
        0, 0, 32,  // T8
        8, 16, 32,  // HVM
        4, 8, 16,  // QVM
        2, 4, 8,  // OVM
        16, 16, 16,  // M128
        8, 32, 64,  // DUP
        0, 0, 0,  // no tuple
    ];
    if row <= 23 && vector_len <= 2 {
        t[row * 3 + vector_len]
    } else {
        0
    }
}

pub fn tuple_table_exec(row: u8, vector_len: u8) -> (r: u8)
    ensures
        r == tuple_table(row, vector_len),
{
    let t: [u8; 72] = [
        16, 32, 64, 4, 4, 4, 16, 32, 64, 8, 8, 8, 8, 16, 32, 4, 4, 4, 16, 32, 64, 1, 1, 1, 2, 2, 2,
        4, 4, 4, 8, 8, 8, 4, 4, 4, 8, 8, 8, 8, 8, 8, 0, 16, 16, 0, 16, 16, 0, 0, 32, 0, 0, 32, 8, 16,
        32, 4, 8, 16, 2, 4, 8, 16, 16, 16, 8, 32, 64, 0, 0, 0,
    ];
    if row <= 23 && vector_len <= 2 {
        let i: usize = (row as usize) * 3 + (vector_len as usize);
        assert(t@ =~= seq![
            16u8, 32, 64, 4, 4, 4, 16, 32, 64, 8, 8, 8, 8, 16, 32, 4, 4, 4, 16, 32, 64, 1, 1, 1, 2, 2, 2,
            4, 4, 4, 8, 8, 8, 4, 4, 4, 8, 8, 8, 8, 8, 8, 0, 16, 16, 0, 16, 16, 0, 0, 32, 0, 0, 32, 8, 16,
            32, 4, 8, 16, 2, 4, 8, 16, 16, 16, 8, 32, 64, 0, 0, 0,
        ]);
        t[i]
    } else {
        0
    }
}

impl InstructionAttr {
    pub open spec fn spec_new(
        f: CpuFeatures,
        vector_len: u8,
        rex_vex_w: bool,
        legacy_mode: bool,
        no_reg_mask: bool,
        uses_vl: bool,
    ) -> InstructionAttr {
        InstructionAttr {
            vector_len,
            rex_vex_w,
            legacy_mode: legacy_mode || f.use_avx < 3,
            no_reg_mask,
            uses_vl,
            rex_vex_w_reverted: false,
            is_evex_instruction: false,
            is_clear_context: true,
            is_extended_context: false,
            tuple_type: EVEX_ETUP,
            input_size_in_bits: EVEX_NOBIT,
            evex_encoding: 0,
            embedded_opmask: 0,
        }
    }

    /// The attributes of an instruction; without AVX-512 every instruction
    /// is in legacy (non-EVEX) mode.
    pub fn new(
        f: &CpuFeatures,
        vector_len: u8,
        rex_vex_w: bool,
        legacy_mode: bool,
        no_reg_mask: bool,
        uses_vl: bool,
    ) -> (a: InstructionAttr)
        ensures
            a == Self::spec_new(*f, vector_len, rex_vex_w, legacy_mode, no_reg_mask, uses_vl),
    {
        InstructionAttr {
            vector_len,
            rex_vex_w,
            legacy_mode: legacy_mode || f.use_avx < 3,
            no_reg_mask,
            uses_vl,
            rex_vex_w_reverted: false,
            is_evex_instruction: false,
            is_clear_context: true,
            is_extended_context: false,
            tuple_type: EVEX_ETUP,
            input_size_in_bits: EVEX_NOBIT,
            evex_encoding: 0,
            embedded_opmask: 0,
        }
    }

    pub open spec fn reverted(self) -> InstructionAttr {
        InstructionAttr { rex_vex_w_reverted: true, ..self }
    }

    pub open spec fn evex_only(self) -> InstructionAttr {
        InstructionAttr { is_evex_instruction: true, ..self }
    }

    pub open spec fn merging(self) -> InstructionAttr {
        InstructionAttr { is_clear_context: false, ..self }
    }

    pub open spec fn extended(self) -> InstructionAttr {
        InstructionAttr { is_extended_context: true, ..self }
    }

    pub open spec fn with_mask(self, k: KRegister) -> InstructionAttr {
        InstructionAttr { embedded_opmask: k.encoding & 7, ..self }
    }

    pub open spec fn with_address(self, f: CpuFeatures, tuple_type: u8, input_size: u8) -> InstructionAttr {
        if f.use_avx >= 3 {
            InstructionAttr { tuple_type, input_size_in_bits: input_size, ..self }
        } else {
            self
        }
    }

    /// The `W` bit of a VEX/EVEX prefix may be dropped when the instruction
    /// ends up VEX encoded on an AVX-512 target.
    pub fn set_rex_vex_w_reverted(&mut self)
        ensures
            *final(self) == old(self).reverted(),
    {
        self.rex_vex_w_reverted = true;
    }

    /// The instruction exists only in EVEX form.
    pub fn set_is_evex_instruction(&mut self)
        ensures
            *final(self) == old(self).evex_only(),
    {
        self.is_evex_instruction = true;
    }

    /// Masked-off destination elements are merged rather than zeroed.
    pub fn reset_is_clear_context(&mut self)
        ensures
            *final(self) == old(self).merging(),
    {
        self.is_clear_context = false;
    }

    pub fn set_extended_context(&mut self)
        ensures
            *final(self) == old(self).extended(),
    {
        self.is_extended_context = true;
    }

    pub fn set_embedded_opmask_register_specifier(&mut self, k: KRegister)
        ensures
            *final(self) == old(self).with_mask(k),
    {
        self.embedded_opmask = k.encoding & 7;
    }

    /// Records the tuple type and element size of a memory operand; they only
    /// matter (and are only kept) when EVEX encodings are enabled.
    pub fn set_address_attributes(&mut self, f: &CpuFeatures, tuple_type: u8, input_size: u8)
        ensures
            *final(self) == old(self).with_address(*f, tuple_type, input_size),
    {
        if f.use_avx >= 3 {
            self.tuple_type = tuple_type;
            self.input_size_in_bits = input_size;
        }
    }

    /// Index into the displacement scaling table for this instruction.
    pub open spec fn disp_row(self) -> u8 {
        let t = self.tuple_type;
        let wb = self.evex_encoding & VEX_W == VEX_W;
        let b = self.evex_encoding & EVEX_RB == EVEX_RB;
        let mod_idx: u8 = if t == EVEX_FV {
            if wb {
                if b { 3 } else { 2 }
            } else {
                if b { 1 } else { 0 }
            }
        } else if t == EVEX_HV {
            if b { 1 } else { 0 }
        } else if t == EVEX_T1S {
            if self.input_size_in_bits == EVEX_16BIT {
                1
            } else if self.input_size_in_bits == EVEX_32BIT {
                2
            } else if self.input_size_in_bits == EVEX_64BIT {
                3
            } else {
                0
            }
        } else if t == EVEX_T1F || t == EVEX_T2 || t == EVEX_T4 {
            if self.input_size_in_bits == EVEX_64BIT { 1 } else { 0 }
        } else {
            0
        };
        if t <= 23 { (t + mod_idx) as u8 } else { 24 }
    }

    /// The scale `N` of a compressed `disp8 * N` displacement (zero when no
    /// compressed form exists).
    pub open spec fn disp_factor(self) -> u8 {
        tuple_table(self.disp_row(), self.vector_len)
    }

    pub fn disp_row_exec(&self) -> (r: u8)
        ensures
            r == self.disp_row(),
    {
        let t = self.tuple_type;
        let wb = self.evex_encoding & VEX_W == VEX_W;
        let b = self.evex_encoding & EVEX_RB == EVEX_RB;
        let mod_idx: u8 = if t == EVEX_FV {
            if wb {
                if b { 3 } else { 2 }
            } else {
                if b { 1 } else { 0 }
            }
        } else if t == EVEX_HV {
            if b { 1 } else { 0 }
        } else if t == EVEX_T1S {
            if self.input_size_in_bits == EVEX_16BIT {
                1
            } else if self.input_size_in_bits == EVEX_32BIT {
                2
            } else if self.input_size_in_bits == EVEX_64BIT {
                3
            } else {
                0
            }
        } else if t == EVEX_T1F || t == EVEX_T2 || t == EVEX_T4 {
            if self.input_size_in_bits == EVEX_64BIT { 1 } else { 0 }
        } else {
            0
        };
        if t <= 23 { t + mod_idx } else { 24 }
    }
}

} // verus!
