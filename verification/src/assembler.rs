use vstd::prelude::*;
use crate::encoding::{le16, le32, le64, low8};
use crate::features::CpuFeatures;

verus! {

/// REX prefix bytes.
pub const REX: u8 = 0x40;
pub const REX_B: u8 = 0x41;
pub const REX_X: u8 = 0x42;
pub const REX_XB: u8 = 0x43;
pub const REX_R: u8 = 0x44;
pub const REX_RB: u8 = 0x45;
pub const REX_RX: u8 = 0x46;
pub const REX_RXB: u8 = 0x47;
pub const REX_W: u8 = 0x48;
pub const REX_WB: u8 = 0x49;
pub const REX_WX: u8 = 0x4A;
pub const REX_WXB: u8 = 0x4B;
pub const REX_WR: u8 = 0x4C;
pub const REX_WRB: u8 = 0x4D;
pub const REX_WRX: u8 = 0x4E;
pub const REX_WRXB: u8 = 0x4F;

/// The kind of a relocation: what the relocated word of an instruction
/// refers to, so that it can be found and fixed up when code moves.
#[derive(Clone, Copy, PartialEq, Eq, Structural, Debug)]
pub enum RelocType {
    /// No relocation: the word is recorded nowhere.
    NoRelocation,
    Oop,
    VirtualCall,
    OptVirtualCall,
    StaticCall,
    StaticStub,
    RuntimeCall,
    RuntimeCallWithCp,
    ExternalWord,
    InternalWord,
    SectionWord,
    Poll,
    PollReturn,
    Metadata,
    TrampolineStub,
    EntryGuard,
    PostCallNop,
    Barrier,
}

/// A relocation recorded for the instruction that starts at code offset
/// `offset`.
#[derive(Clone, Copy, PartialEq, Eq, Structural, Debug)]
pub struct Relocation {
    pub offset: usize,
    pub kind: RelocType,
}

/// An x86-64 assembler: instructions are appended, as machine code, to
/// `code`, and the relocations of the instructions that need them to
/// `relocs`. The encodings chosen depend on the target configuration in
/// `features`.
pub struct Assembler {
    pub code: Vec<u8>,
    pub relocs: Vec<Relocation>,
    pub features: CpuFeatures,
}

impl View for Assembler {
    type V = Seq<u8>;

    open spec fn view(&self) -> Seq<u8> {
        self.code@
    }
}

impl Assembler {
    /// `self` is `before` with `bytes` appended and the same configuration.
    pub open spec fn appends(self, before: Assembler, bytes: Seq<u8>) -> bool {
        &&& self.code@ =~= before.code@ + bytes
        &&& self.relocs@ == before.relocs@
        &&& self.features == before.features
    }

    /// `before`'s relocations, with one of type `kind` for the instruction
    /// at `before`'s code offset unless `kind` is `NoRelocation`.
    pub open spec fn relocs_after(before: Assembler, kind: RelocType) -> Seq<Relocation> {
        if kind == RelocType::NoRelocation {
            before.relocs@
        } else {
            before.relocs@.push(Relocation { offset: before.code@.len() as usize, kind })
        }
    }

    /// `self` is `before` with `bytes` appended, as one instruction whose
    /// relocation of type `kind` (if any) is recorded at its start.
    pub open spec fn appends_relocated(self, before: Assembler, bytes: Seq<u8>, kind: RelocType) -> bool {
        &&& self.code@ =~= before.code@ + bytes
        &&& self.relocs@ == Self::relocs_after(before, kind)
        &&& self.features == before.features
    }

    /// An assembler with an empty code buffer.
    pub fn new(features: CpuFeatures) -> (a: Assembler)
        ensures
            a@ == Seq::<u8>::empty(),
            a.relocs@ == Seq::<Relocation>::empty(),
            a.features == features,
    {
        Assembler { code: Vec::new(), relocs: Vec::new(), features }
    }

    /// Records a relocation of type `kind` for the instruction at code
    /// offset `mark`; nothing for `NoRelocation`.
    pub fn relocate(&mut self, mark: usize, kind: RelocType)
        ensures
            final(self).code@ == old(self).code@,
            final(self).features == old(self).features,
            final(self).relocs@ == if kind == RelocType::NoRelocation {
                old(self).relocs@
            } else {
                old(self).relocs@.push(Relocation { offset: mark, kind })
            },
    {
        match kind {
            RelocType::NoRelocation => {},
            _ => self.relocs.push(Relocation { offset: mark, kind }),
        }
    }

    /// Emits a 32-bit data word of the instruction that starts at `mark`,
    /// recording its relocation of type `kind`.
    pub fn emit_data(&mut self, data: i32, kind: RelocType, mark: usize)
        ensures
            final(self).code@ =~= old(self).code@ + le32(data),
            final(self).features == old(self).features,
            final(self).relocs@ == if kind == RelocType::NoRelocation {
                old(self).relocs@
            } else {
                old(self).relocs@.push(Relocation { offset: mark, kind })
            },
    {
        self.relocate(mark, kind);
        self.emit_i32(data);
    }

    /// Emits a 64-bit data word of the instruction that starts at `mark`,
    /// recording its relocation of type `kind`.
    pub fn emit_data64(&mut self, data: i64, kind: RelocType, mark: usize)
        ensures
            final(self).code@ =~= old(self).code@ + le64(data),
            final(self).features == old(self).features,
            final(self).relocs@ == if kind == RelocType::NoRelocation {
                old(self).relocs@
            } else {
                old(self).relocs@.push(Relocation { offset: mark, kind })
            },
    {
        self.relocate(mark, kind);
        self.emit_i64(data);
    }

    /// The current code offset.
    pub fn pc(&self) -> (r: usize)
        ensures
            r == self@.len(),
    {
        self.code.len()
    }

    /// Appends one byte to the code.
    pub fn write_byte(&mut self, byte: u8)
        ensures
            final(self).appends(*old(self), seq![byte]),
    {
        self.code.push(byte);
    }

    /// Emits a one byte opcode.
    pub fn opcode(&mut self, code: u8)
        ensures
            final(self).appends(*old(self), seq![code]),
    {
        self.write_byte(code);
    }

    /// Emits a two byte opcode.
    pub fn opcode2(&mut self, code: u8, code2: u8)
        ensures
            final(self).appends(*old(self), seq![code, code2]),
    {
        self.write_byte(code);
        self.write_byte(code2);
    }

    /// Emits a three byte opcode.
    pub fn opcode3(&mut self, code: u8, code2: u8, code3: u8)
        ensures
            final(self).appends(*old(self), seq![code, code2, code3]),
    {
        self.write_byte(code);
        self.write_byte(code2);
        self.write_byte(code3);
    }

    pub fn emit_int8(&mut self, b: u8)
        ensures
            final(self).appends(*old(self), seq![b]),
    {
        self.code.push(b);
    }

    pub fn emit_int16(&mut self, b1: u8, b2: u8)
        ensures
            final(self).appends(*old(self), seq![b1, b2]),
    {
        self.code.push(b1);
        self.code.push(b2);
    }

    pub fn emit_int24(&mut self, b1: u8, b2: u8, b3: u8)
        ensures
            final(self).appends(*old(self), seq![b1, b2, b3]),
    {
        self.code.push(b1);
        self.code.push(b2);
        self.code.push(b3);
    }

    pub fn emit_int32(&mut self, b1: u8, b2: u8, b3: u8, b4: u8)
        ensures
            final(self).appends(*old(self), seq![b1, b2, b3, b4]),
    {
        self.code.push(b1);
        self.code.push(b2);
        self.code.push(b3);
        self.code.push(b4);
    }

    /// Emits the low byte of a signed 8-bit value.
    pub fn emit_imm8(&mut self, v: i8)
        ensures
            final(self).appends(*old(self), seq![low8(v as i32)]),
    {
        let w: i32 = v as i32;
        self.code.push(((w as u32) & 0xff) as u8);
    }

    /// Emits the low byte of a 32-bit value.
    pub fn emit_low_byte(&mut self, v: i32)
        ensures
            final(self).appends(*old(self), seq![low8(v)]),
    {
        self.code.push(((v as u32) & 0xff) as u8);
    }

    /// Emits a 16-bit value, least significant byte first.
    pub fn emit_i16(&mut self, v: i16)
        ensures
            final(self).appends(*old(self), le16(v)),
    {
        let u: u16 = v as u16;
        self.code.push((u & 0xff) as u8);
        self.code.push(((u >> 8) & 0xff) as u8);
    }

    /// Emits a 32-bit value, least significant byte first.
    pub fn emit_i32(&mut self, v: i32)
        ensures
            final(self).appends(*old(self), le32(v)),
    {
        let u: u32 = v as u32;
        self.code.push((u & 0xff) as u8);
        self.code.push(((u >> 8) & 0xff) as u8);
        self.code.push(((u >> 16) & 0xff) as u8);
        self.code.push(((u >> 24) & 0xff) as u8);
    }

    /// Emits a 64-bit value, least significant byte first.
    pub fn emit_i64(&mut self, v: i64)
        ensures
            final(self).appends(*old(self), le64(v)),
    {
        let u: u64 = v as u64;
        self.code.push((u & 0xff) as u8);
        self.code.push(((u >> 8) & 0xff) as u8);
        self.code.push(((u >> 16) & 0xff) as u8);
        self.code.push(((u >> 24) & 0xff) as u8);
        self.code.push(((u >> 32) & 0xff) as u8);
        self.code.push(((u >> 40) & 0xff) as u8);
        self.code.push(((u >> 48) & 0xff) as u8);
        self.code.push(((u >> 56) & 0xff) as u8);
    }
}

} // verus!
