//! Branches, calls and transactions that refer to labels or code offsets.
use vstd::prelude::*;
use crate::assembler::{Assembler, RelocType};
use crate::encoding::{is8bit, le32, low8};
use crate::label::Label;

verus! {

/// Code offsets stay within the signed 32-bit range, so that any two of them
/// are a 32-bit displacement apart at most.
pub open spec fn offset_ok(pos: int) -> bool {
    0 <= pos <= 0x7FFF_FFFF
}

pub open spec fn is32bit(v: int) -> bool {
    -0x8000_0000 <= v <= 0x7FFF_FFFF
}

/// A relative branch with an 8-bit displacement (`short_op rel8`) when
/// `maybe_short` allows it and the target is in reach, else with a 32-bit
/// displacement (`long_op rel32`); displacements are relative to the end of
/// the instruction. Without a target (an unbound label) the long form is
/// emitted with a zero displacement, to be patched later.
pub open spec fn branch_bytes(
    short_op: Seq<u8>,
    long_op: Seq<u8>,
    pc: int,
    target: Option<usize>,
    maybe_short: bool,
) -> Seq<u8> {
    match target {
        Some(t) => {
            let short_size = short_op.len() + 1;
            let long_size = long_op.len() + 4;
            if maybe_short && is8bit(t - pc - short_size) {
                short_op + seq![low8((t - pc - short_size) as i32)]
            } else {
                long_op + le32((t - pc - long_size) as i32)
            }
        },
        None => long_op + le32(0),
    }
}

/// A branch to `target` can be encoded from `pc`: the long form, when it is
/// used, reaches it.
pub open spec fn branch_ok(short_size: int, long_size: int, pc: int, target: Option<usize>, maybe_short: bool) -> bool {
    &&& offset_ok(pc)
    &&& (target matches Some(t) ==> offset_ok(t as int) && ((maybe_short && is8bit(t - pc - short_size)) || is32bit(
        t - pc - long_size,
    )))
}

/// The label after a branch to it: an unbound label records the branch.
pub open spec fn label_after(before: Label, after: Label, pc: int) -> bool {
    &&& after.pos == before.pos
    &&& if before.pos is Some {
        after.patches@ == before.patches@
    } else {
        after.patches@ == before.patches@.push(pc as usize)
    }
}

impl Assembler {
    /// Emits a branch given its opcodes; `short_op` is empty when only the
    /// long form exists.
    fn emit_branch(&mut self, short_op: &Vec<u8>, long_op: &Vec<u8>, l: &mut Label, maybe_short: bool)
        requires
            1 <= long_op.len() <= 2,
            short_op.len() <= 1,
            !maybe_short || short_op.len() == 1,
            branch_ok(short_op.len() + 1, long_op.len() + 4, old(self)@.len() as int, old(l).pos, maybe_short),
        ensures
            final(self).appends(
                *old(self),
                branch_bytes(short_op@, long_op@, old(self)@.len() as int, old(l).pos, maybe_short),
            ),
            label_after(*old(l), *final(l), old(self)@.len() as int),
    {
        let pc: usize = self.pc();
        match l.pos {
            Some(t) => {
                let offs: i64 = (t as i64) - (pc as i64);
                let short_size: i64 = (short_op.len() as i64) + 1;
                let long_size: i64 = (long_op.len() as i64) + 4;
                if maybe_short && -128 <= offs - short_size && offs - short_size < 128 {
                    self.emit_int8(short_op[0]);
                    assert(short_op@ =~= seq![short_op@[0]]);
                    self.emit_low_byte((offs - short_size) as i32);
                } else {
                    if long_op.len() == 1 {
                        self.emit_int8(long_op[0]);
                        assert(long_op@ =~= seq![long_op@[0]]);
                    } else {
                        self.emit_int16(long_op[0], long_op[1]);
                        assert(long_op@ =~= seq![long_op@[0], long_op@[1]]);
                    }
                    self.emit_i32((offs - long_size) as i32);
                }
            },
            None => {
                l.add_patch_at(pc);
                if long_op.len() == 1 {
                    self.emit_int8(long_op[0]);
                    assert(long_op@ =~= seq![long_op@[0]]);
                } else {
                    self.emit_int16(long_op[0], long_op[1]);
                    assert(long_op@ =~= seq![long_op@[0], long_op@[1]]);
                }
                self.emit_i32(0);
            },
        }
    }

    /// `jcc cc, L`: a conditional jump to `l`, short (`0x70 | cc rel8`)
    /// when `maybe_short` allows it and `l` is bound within reach, else
    /// `0F 0x80 | cc rel32`.
    pub fn jcc(&mut self, cc: u8, l: &mut Label, maybe_short: bool)
        requires
            cc < 16,
            branch_ok(2, 6, old(self)@.len() as int, old(l).pos, maybe_short),
        ensures
            final(self).appends(
                *old(self),
                branch_bytes(seq![0x70 | cc], seq![0x0F, 0x80 | cc], old(self)@.len() as int, old(l).pos, maybe_short),
            ),
            label_after(*old(l), *final(l), old(self)@.len() as int),
    {
        let short_op: Vec<u8> = vec![0x70 | cc];
        let long_op: Vec<u8> = vec![0x0F, 0x80 | cc];
        assert(short_op@ =~= seq![0x70 | cc]);
        assert(long_op@ =~= seq![0x0F, 0x80 | cc]);
        self.emit_branch(&short_op, &long_op, l, maybe_short);
    }

    /// `jcc cc, L` in its short form only; the label, when bound, must be
    /// within reach of an 8-bit displacement.
    pub fn jccb_0(&mut self, cc: u8, l: &mut Label, file: &str, line: i32)
        requires
            cc < 16,
            offset_ok(old(self)@.len() as int),
            old(l).pos matches Some(t) ==> offset_ok(t as int) && is8bit(t - old(self)@.len() - 2),
        ensures
            final(self).appends(
                *old(self),
                match old(l).pos {
                    Some(t) => seq![0x70 | cc, low8((t - old(self)@.len() - 2) as i32)],
                    None => seq![0x70 | cc, 0],
                },
            ),
            label_after(*old(l), *final(l), old(self)@.len() as int),
    {
        let pc: usize = self.pc();
        match l.pos {
            Some(t) => {
                let offs: i64 = (t as i64) - (pc as i64);
                self.emit_int8(0x70 | cc);
                self.emit_low_byte((offs - 2) as i32);
            },
            None => {
                l.add_patch_at(pc);
                self.emit_int16(0x70 | cc, 0);
            },
        }
    }

    /// `jmp L`: `EB rel8` when `maybe_short` allows it and `l` is bound
    /// within reach, else `E9 rel32`.
    pub fn jmp_label(&mut self, l: &mut Label, maybe_short: bool)
        requires
            branch_ok(2, 5, old(self)@.len() as int, old(l).pos, maybe_short),
        ensures
            final(self).appends(
                *old(self),
                branch_bytes(seq![0xEB], seq![0xE9], old(self)@.len() as int, old(l).pos, maybe_short),
            ),
            label_after(*old(l), *final(l), old(self)@.len() as int),
    {
        let short_op: Vec<u8> = vec![0xEB];
        let long_op: Vec<u8> = vec![0xE9];
        assert(short_op@ =~= seq![0xEBu8]);
        assert(long_op@ =~= seq![0xE9u8]);
        self.emit_branch(&short_op, &long_op, l, maybe_short);
    }

    /// `jmp L` in its short form only (`EB rel8`).
    pub fn jmpb_0(&mut self, l: &mut Label, file: &str, line: i32)
        requires
            offset_ok(old(self)@.len() as int),
            old(l).pos matches Some(t) ==> offset_ok(t as int) && is8bit(t - old(self)@.len() - 2),
        ensures
            final(self).appends(
                *old(self),
                match old(l).pos {
                    Some(t) => seq![0xEB, low8((t - old(self)@.len() - 2) as i32)],
                    None => seq![0xEB, 0],
                },
            ),
            label_after(*old(l), *final(l), old(self)@.len() as int),
    {
        let pc: usize = self.pc();
        match l.pos {
            Some(t) => {
                let offs: i64 = (t as i64) - (pc as i64);
                self.emit_int8(0xEB);
                self.emit_low_byte((offs - 2) as i32);
            },
            None => {
                l.add_patch_at(pc);
                self.emit_int16(0xEB, 0);
            },
        }
    }

    /// `call L` (`E8 rel32`); a bound label must lie at or before the call.
    /// A relocation of type `rtype` is recorded for the call.
    pub fn call_label(&mut self, l: &mut Label, rtype: RelocType)
        requires
            branch_ok(5, 5, old(self)@.len() as int, old(l).pos, false),
            old(l).pos matches Some(t) ==> t <= old(self)@.len(),
        ensures
            final(self).appends_relocated(
                *old(self),
                branch_bytes(seq![], seq![0xE8], old(self)@.len() as int, old(l).pos, false),
                rtype,
            ),
            label_after(*old(l), *final(l), old(self)@.len() as int),
    {
        let short_op: Vec<u8> = Vec::new();
        let long_op: Vec<u8> = vec![0xE8];
        assert(short_op@ =~= Seq::<u8>::empty());
        assert(long_op@ =~= seq![0xE8u8]);
        let mark = self.pc();
        self.relocate(mark, rtype);
        self.emit_branch(&short_op, &long_op, l, false);
    }

    /// `xbegin L` (`C7 F8 rel32`): starts a transaction that aborts to
    /// `abort`. A relocation of type `rtype` is recorded for it.
    pub fn xbegin(&mut self, abort: &mut Label, rtype: RelocType)
        requires
            branch_ok(6, 6, old(self)@.len() as int, old(abort).pos, false),
        ensures
            final(self).appends_relocated(
                *old(self),
                branch_bytes(seq![], seq![0xC7, 0xF8], old(self)@.len() as int, old(abort).pos, false),
                rtype,
            ),
            label_after(*old(abort), *final(abort), old(self)@.len() as int),
    {
        let short_op: Vec<u8> = Vec::new();
        let long_op: Vec<u8> = vec![0xC7, 0xF8];
        assert(short_op@ =~= Seq::<u8>::empty());
        assert(long_op@ =~= seq![0xC7u8, 0xF8]);
        let mark = self.pc();
        self.relocate(mark, rtype);
        self.emit_branch(&short_op, &long_op, abort, false);
    }

    /// `call entry` (`E8 rel32`) to the code offset `entry`, recording a
    /// relocation of type `rspec` for it.
    pub fn call_literal(&mut self, entry: usize, rspec: RelocType)
        requires
            offset_ok(old(self)@.len() as int),
            offset_ok(entry as int),
            is32bit(entry - old(self)@.len() - 5),
        ensures
            final(self).appends_relocated(*old(self), seq![0xE8] + le32((entry - old(self)@.len() - 5) as i32), rspec),
    {
        let pc: usize = self.pc();
        self.emit_int8(0xE8);
        let disp: i64 = (entry as i64) - ((pc as i64) + 5);
        self.emit_data(disp as i32, rspec, pc);
    }

    /// `jmp dest` (`E9 rel32`) to the code offset `dest`, recording a
    /// relocation of type `rspec` for it.
    pub fn jmp_literal(&mut self, dest: usize, rspec: RelocType)
        requires
            offset_ok(old(self)@.len() as int),
            offset_ok(dest as int),
            is32bit(dest - old(self)@.len() - 5),
        ensures
            final(self).appends_relocated(*old(self), seq![0xE9] + le32((dest - old(self)@.len() - 5) as i32), rspec),
    {
        let pc: usize = self.pc();
        self.emit_int8(0xE9);
        let disp: i64 = (dest as i64) - ((pc as i64) + 5);
        self.emit_data(disp as i32, rspec, pc);
    }
}

} // verus!
