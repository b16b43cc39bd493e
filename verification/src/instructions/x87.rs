//! x87 floating point stack instructions.
use vstd::prelude::*;
use crate::address::Address;
use crate::assembler::Assembler;
use crate::encoding::address_bytes;
use crate::operands::farith_bytes;

verus! {

impl Assembler {
    /// `fabs`
    pub fn fabs(&mut self)
        ensures
            final(self).appends(*old(self), seq![0xD9, 0xE1]),
    {
        self.emit_int16(0xD9, 0xE1);
    }

    /// `fadd i`
    pub fn fadd(&mut self, i: i32)
        requires
            (0 <= i && i < 8),
        ensures
            final(self).appends(*old(self), farith_bytes(0xD8, 0xC0, i)),
    {
        self.emit_farith(0xD8, 0xC0, i);
    }

    /// `fadd_d [src]`
    pub fn fadd_d(&mut self, src: Address)
        requires
            src.wf(),
            (!src.spec_base_needs_rex() && !src.spec_index_needs_rex()),
        ensures
            ({
                let f = old(self).features;
                final(self).appends(*old(self), seq![0xDC] + address_bytes(f, None, 0, src, false))
            }),
    {
        self.emit_int8(0xDC);
        self.emit_operand32(0, &src);
    }

    /// `fadd_s [src]`
    pub fn fadd_s(&mut self, src: Address)
        requires
            src.wf(),
            (!src.spec_base_needs_rex() && !src.spec_index_needs_rex()),
        ensures
            ({
                let f = old(self).features;
                final(self).appends(*old(self), seq![0xD8] + address_bytes(f, None, 0, src, false))
            }),
    {
        self.emit_int8(0xD8);
        self.emit_operand32(0, &src);
    }

    /// `fadda i`
    pub fn fadda(&mut self, i: i32)
        requires
            (0 <= i && i < 8),
        ensures
            final(self).appends(*old(self), farith_bytes(0xDC, 0xC0, i)),
    {
        self.emit_farith(0xDC, 0xC0, i);
    }

    /// `faddp i`
    pub fn faddp(&mut self, i: i32)
        requires
            (0 <= i && i < 8),
        ensures
            final(self).appends(*old(self), farith_bytes(0xDE, 0xC0, i)),
    {
        self.emit_farith(0xDE, 0xC0, i);
    }

    /// `fchs`
    pub fn fchs(&mut self)
        ensures
            final(self).appends(*old(self), seq![0xD9, 0xE0]),
    {
        self.emit_int16(0xD9, 0xE0);
    }

    /// `fcom i`
    pub fn fcom(&mut self, i: i32)
        requires
            (0 <= i && i < 8),
        ensures
            final(self).appends(*old(self), farith_bytes(0xD8, 0xD0, i)),
    {
        self.emit_farith(0xD8, 0xD0, i);
    }

    /// `fcomp i`
    pub fn fcomp(&mut self, i: i32)
        requires
            (0 <= i && i < 8),
        ensures
            final(self).appends(*old(self), farith_bytes(0xD8, 0xD8, i)),
    {
        self.emit_farith(0xD8, 0xD8, i);
    }

    /// `fcomp_d [src]`
    pub fn fcomp_d(&mut self, src: Address)
        requires
            src.wf(),
            (!src.spec_base_needs_rex() && !src.spec_index_needs_rex()),
        ensures
            ({
                let f = old(self).features;
                final(self).appends(*old(self), seq![0xDC] + address_bytes(f, None, 3, src, false))
            }),
    {
        self.emit_int8(0xDC);
        self.emit_operand32(3, &src);
    }

    /// `fcomp_s [src]`
    pub fn fcomp_s(&mut self, src: Address)
        requires
            src.wf(),
            (!src.spec_base_needs_rex() && !src.spec_index_needs_rex()),
        ensures
            ({
                let f = old(self).features;
                final(self).appends(*old(self), seq![0xD8] + address_bytes(f, None, 3, src, false))
            }),
    {
        self.emit_int8(0xD8);
        self.emit_operand32(3, &src);
    }

    /// `fcompp`
    pub fn fcompp(&mut self)
        ensures
            final(self).appends(*old(self), seq![0xDE, 0xD9]),
    {
        self.emit_int16(0xDE, 0xD9);
    }

    /// `fcos`
    pub fn fcos(&mut self)
        ensures
            final(self).appends(*old(self), seq![0xD9, 0xFF]),
    {
        self.emit_int16(0xD9, 0xFF);
    }

    /// `fdecstp`
    pub fn fdecstp(&mut self)
        ensures
            final(self).appends(*old(self), seq![0xD9, 0xF6]),
    {
        self.emit_int16(0xD9, 0xF6);
    }

    /// `fdiv i`
    pub fn fdiv(&mut self, i: i32)
        requires
            (0 <= i && i < 8),
        ensures
            final(self).appends(*old(self), farith_bytes(0xD8, 0xF0, i)),
    {
        self.emit_farith(0xD8, 0xF0, i);
    }

    /// `fdiv_d [src]`
    pub fn fdiv_d(&mut self, src: Address)
        requires
            src.wf(),
            (!src.spec_base_needs_rex() && !src.spec_index_needs_rex()),
        ensures
            ({
                let f = old(self).features;
                final(self).appends(*old(self), seq![0xDC] + address_bytes(f, None, 6, src, false))
            }),
    {
        self.emit_int8(0xDC);
        self.emit_operand32(6, &src);
    }

    /// `fdiv_s [src]`
    pub fn fdiv_s(&mut self, src: Address)
        requires
            src.wf(),
            (!src.spec_base_needs_rex() && !src.spec_index_needs_rex()),
        ensures
            ({
                let f = old(self).features;
                final(self).appends(*old(self), seq![0xD8] + address_bytes(f, None, 6, src, false))
            }),
    {
        self.emit_int8(0xD8);
        self.emit_operand32(6, &src);
    }

    /// `fdiva i`
    pub fn fdiva(&mut self, i: i32)
        requires
            (0 <= i && i < 8),
        ensures
            final(self).appends(*old(self), farith_bytes(0xDC, 0xF8, i)),
    {
        self.emit_farith(0xDC, 0xF8, i);
    }

    /// `fdivp i`
    pub fn fdivp(&mut self, i: i32)
        requires
            (0 <= i && i < 8),
        ensures
            final(self).appends(*old(self), farith_bytes(0xDE, 0xF8, i)),
    {
        self.emit_farith(0xDE, 0xF8, i);
    }

    /// `fdivr i`
    pub fn fdivr(&mut self, i: i32)
        requires
            (0 <= i && i < 8),
        ensures
            final(self).appends(*old(self), farith_bytes(0xD8, 0xF8, i)),
    {
        self.emit_farith(0xD8, 0xF8, i);
    }

    /// `fdivr_d [src]`
    pub fn fdivr_d(&mut self, src: Address)
        requires
            src.wf(),
            (!src.spec_base_needs_rex() && !src.spec_index_needs_rex()),
        ensures
            ({
                let f = old(self).features;
                final(self).appends(*old(self), seq![0xDC] + address_bytes(f, None, 7, src, false))
            }),
    {
        self.emit_int8(0xDC);
        self.emit_operand32(7, &src);
    }

    /// `fdivr_s [src]`
    pub fn fdivr_s(&mut self, src: Address)
        requires
            src.wf(),
            (!src.spec_base_needs_rex() && !src.spec_index_needs_rex()),
        ensures
            ({
                let f = old(self).features;
                final(self).appends(*old(self), seq![0xD8] + address_bytes(f, None, 7, src, false))
            }),
    {
        self.emit_int8(0xD8);
        self.emit_operand32(7, &src);
    }

    /// `fdivra i`
    pub fn fdivra(&mut self, i: i32)
        requires
            (0 <= i && i < 8),
        ensures
            final(self).appends(*old(self), farith_bytes(0xDC, 0xF0, i)),
    {
        self.emit_farith(0xDC, 0xF0, i);
    }

    /// `fdivrp i`
    pub fn fdivrp(&mut self, i: i32)
        requires
            (0 <= i && i < 8),
        ensures
            final(self).appends(*old(self), farith_bytes(0xDE, 0xF0, i)),
    {
        self.emit_farith(0xDE, 0xF0, i);
    }

    /// `ffree i`
    pub fn ffree(&mut self, i: i32)
        requires
            (0 <= i && i < 8),
        ensures
            final(self).appends(*old(self), farith_bytes(0xDD, 0xC0, i)),
    {
        self.emit_farith(0xDD, 0xC0, i);
    }

    /// `fild_d [adr]`
    pub fn fild_d(&mut self, adr: Address)
        requires
            adr.wf(),
            (!adr.spec_base_needs_rex() && !adr.spec_index_needs_rex()),
        ensures
            ({
                let f = old(self).features;
                final(self).appends(*old(self), seq![0xDF] + address_bytes(f, None, 5, adr, false))
            }),
    {
        self.emit_int8(0xDF);
        self.emit_operand32(5, &adr);
    }

    /// `fild_s [adr]`
    pub fn fild_s(&mut self, adr: Address)
        requires
            adr.wf(),
            (!adr.spec_base_needs_rex() && !adr.spec_index_needs_rex()),
        ensures
            ({
                let f = old(self).features;
                final(self).appends(*old(self), seq![0xDB] + address_bytes(f, None, 0, adr, false))
            }),
    {
        self.emit_int8(0xDB);
        self.emit_operand32(0, &adr);
    }

    /// `fincstp`
    pub fn fincstp(&mut self)
        ensures
            final(self).appends(*old(self), seq![0xD9, 0xF7]),
    {
        self.emit_int16(0xD9, 0xF7);
    }

    /// `finit`
    pub fn finit(&mut self)
        ensures
            final(self).appends(*old(self), seq![0x9B, 0xDB, 0xE3]),
    {
        self.emit_int24(0x9B, 0xDB, 0xE3);
    }

    /// `fist_s [adr]`
    pub fn fist_s(&mut self, adr: Address)
        requires
            adr.wf(),
            (!adr.spec_base_needs_rex() && !adr.spec_index_needs_rex()),
        ensures
            ({
                let f = old(self).features;
                final(self).appends(*old(self), seq![0xDB] + address_bytes(f, None, 2, adr, false))
            }),
    {
        self.emit_int8(0xDB);
        self.emit_operand32(2, &adr);
    }

    /// `fistp_d [adr]`
    pub fn fistp_d(&mut self, adr: Address)
        requires
            adr.wf(),
            (!adr.spec_base_needs_rex() && !adr.spec_index_needs_rex()),
        ensures
            ({
                let f = old(self).features;
                final(self).appends(*old(self), seq![0xDF] + address_bytes(f, None, 7, adr, false))
            }),
    {
        self.emit_int8(0xDF);
        self.emit_operand32(7, &adr);
    }

    /// `fistp_s [adr]`
    pub fn fistp_s(&mut self, adr: Address)
        requires
            adr.wf(),
            (!adr.spec_base_needs_rex() && !adr.spec_index_needs_rex()),
        ensures
            ({
                let f = old(self).features;
                final(self).appends(*old(self), seq![0xDB] + address_bytes(f, None, 3, adr, false))
            }),
    {
        self.emit_int8(0xDB);
        self.emit_operand32(3, &adr);
    }

    /// `fld1`
    pub fn fld1(&mut self)
        ensures
            final(self).appends(*old(self), seq![0xD9, 0xE8]),
    {
        self.emit_int16(0xD9, 0xE8);
    }

    /// `fld_d [adr]`
    pub fn fld_d(&mut self, adr: Address)
        requires
            adr.wf(),
            (!adr.spec_base_needs_rex() && !adr.spec_index_needs_rex()),
        ensures
            ({
                let f = old(self).features;
                final(self).appends(*old(self), seq![0xDD] + address_bytes(f, None, 0, adr, false))
            }),
    {
        self.emit_int8(0xDD);
        self.emit_operand32(0, &adr);
    }

    /// `fld_s [adr]`
    pub fn fld_s(&mut self, adr: Address)
        requires
            adr.wf(),
            (!adr.spec_base_needs_rex() && !adr.spec_index_needs_rex()),
        ensures
            ({
                let f = old(self).features;
                final(self).appends(*old(self), seq![0xD9] + address_bytes(f, None, 0, adr, false))
            }),
    {
        self.emit_int8(0xD9);
        self.emit_operand32(0, &adr);
    }

    /// `fld_s index`
    pub fn fld_s_i(&mut self, index: i32)
        requires
            (0 <= index && index < 8),
        ensures
            final(self).appends(*old(self), farith_bytes(0xD9, 0xC0, index)),
    {
        self.emit_farith(0xD9, 0xC0, index);
    }

    /// `fldcw [src]`
    pub fn fldcw(&mut self, src: Address)
        requires
            src.wf(),
            (!src.spec_base_needs_rex() && !src.spec_index_needs_rex()),
        ensures
            ({
                let f = old(self).features;
                final(self).appends(*old(self), seq![0xD9] + address_bytes(f, None, 5, src, false))
            }),
    {
        self.emit_int8(0xD9);
        self.emit_operand32(5, &src);
    }

    /// `fldenv [src]`
    pub fn fldenv(&mut self, src: Address)
        requires
            src.wf(),
            (!src.spec_base_needs_rex() && !src.spec_index_needs_rex()),
        ensures
            ({
                let f = old(self).features;
                final(self).appends(*old(self), seq![0xD9] + address_bytes(f, None, 4, src, false))
            }),
    {
        self.emit_int8(0xD9);
        self.emit_operand32(4, &src);
    }

    /// `fldlg2`
    pub fn fldlg2(&mut self)
        ensures
            final(self).appends(*old(self), seq![0xD9, 0xEC]),
    {
        self.emit_int16(0xD9, 0xEC);
    }

    /// `fldln2`
    pub fn fldln2(&mut self)
        ensures
            final(self).appends(*old(self), seq![0xD9, 0xED]),
    {
        self.emit_int16(0xD9, 0xED);
    }

    /// `fldz`
    pub fn fldz(&mut self)
        ensures
            final(self).appends(*old(self), seq![0xD9, 0xEE]),
    {
        self.emit_int16(0xD9, 0xEE);
    }

    /// `flog`
    pub fn flog(&mut self)
        ensures
            final(self).appends(*old(self), seq![0xD9, 0xED] + farith_bytes(0xD9, 0xC8, (1)) + seq![0xD9, 0xF1]),
    {
        self.fldln2();
        self.fxch(1);
        self.fyl2x();
    }

    /// `flog10`
    pub fn flog10(&mut self)
        ensures
            final(self).appends(*old(self), seq![0xD9, 0xEC] + farith_bytes(0xD9, 0xC8, (1)) + seq![0xD9, 0xF1]),
    {
        self.fldlg2();
        self.fxch(1);
        self.fyl2x();
    }

    /// `fmul i`
    pub fn fmul(&mut self, i: i32)
        requires
            (0 <= i && i < 8),
        ensures
            final(self).appends(*old(self), farith_bytes(0xD8, 0xC8, i)),
    {
        self.emit_farith(0xD8, 0xC8, i);
    }

    /// `fmul_d [src]`
    pub fn fmul_d(&mut self, src: Address)
        requires
            src.wf(),
            (!src.spec_base_needs_rex() && !src.spec_index_needs_rex()),
        ensures
            ({
                let f = old(self).features;
                final(self).appends(*old(self), seq![0xDC] + address_bytes(f, None, 1, src, false))
            }),
    {
        self.emit_int8(0xDC);
        self.emit_operand32(1, &src);
    }

    /// `fmul_s [src]`
    pub fn fmul_s(&mut self, src: Address)
        requires
            src.wf(),
            (!src.spec_base_needs_rex() && !src.spec_index_needs_rex()),
        ensures
            ({
                let f = old(self).features;
                final(self).appends(*old(self), seq![0xD8] + address_bytes(f, None, 1, src, false))
            }),
    {
        self.emit_int8(0xD8);
        self.emit_operand32(1, &src);
    }

    /// `fmula i`
    pub fn fmula(&mut self, i: i32)
        requires
            (0 <= i && i < 8),
        ensures
            final(self).appends(*old(self), farith_bytes(0xDC, 0xC8, i)),
    {
        self.emit_farith(0xDC, 0xC8, i);
    }

    /// `fmulp i`
    pub fn fmulp(&mut self, i: i32)
        requires
            (0 <= i && i < 8),
        ensures
            final(self).appends(*old(self), farith_bytes(0xDE, 0xC8, i)),
    {
        self.emit_farith(0xDE, 0xC8, i);
    }

    /// `fnsave [dst]`
    pub fn fnsave(&mut self, dst: Address)
        requires
            dst.wf(),
            (!dst.spec_base_needs_rex() && !dst.spec_index_needs_rex()),
        ensures
            ({
                let f = old(self).features;
                final(self).appends(*old(self), seq![0xDD] + address_bytes(f, None, 6, dst, false))
            }),
    {
        self.emit_int8(0xDD);
        self.emit_operand32(6, &dst);
    }

    /// `fnstcw [src]`
    pub fn fnstcw(&mut self, src: Address)
        requires
            src.wf(),
            (!src.spec_base_needs_rex() && !src.spec_index_needs_rex()),
        ensures
            ({
                let f = old(self).features;
                final(self).appends(*old(self), seq![0x9B, 0xD9] + address_bytes(f, None, 7, src, false))
            }),
    {
        self.emit_int16(0x9B, 0xD9);
        self.emit_operand32(7, &src);
    }

    /// `fnstsw_ax`
    pub fn fnstsw_ax(&mut self)
        ensures
            final(self).appends(*old(self), seq![0xDF, 0xE0]),
    {
        self.emit_int16(0xDF, 0xE0);
    }

    /// `fprem`
    pub fn fprem(&mut self)
        ensures
            final(self).appends(*old(self), seq![0xD9, 0xF8]),
    {
        self.emit_int16(0xD9, 0xF8);
    }

    /// `fprem1`
    pub fn fprem1(&mut self)
        ensures
            final(self).appends(*old(self), seq![0xD9, 0xF5]),
    {
        self.emit_int16(0xD9, 0xF5);
    }

    /// `frstor [src]`
    pub fn frstor(&mut self, src: Address)
        requires
            src.wf(),
            (!src.spec_base_needs_rex() && !src.spec_index_needs_rex()),
        ensures
            ({
                let f = old(self).features;
                final(self).appends(*old(self), seq![0xDD] + address_bytes(f, None, 4, src, false))
            }),
    {
        self.emit_int8(0xDD);
        self.emit_operand32(4, &src);
    }

    /// `fsin`
    pub fn fsin(&mut self)
        ensures
            final(self).appends(*old(self), seq![0xD9, 0xFE]),
    {
        self.emit_int16(0xD9, 0xFE);
    }

    /// `fsqrt`
    pub fn fsqrt(&mut self)
        ensures
            final(self).appends(*old(self), seq![0xD9, 0xFA]),
    {
        self.emit_int16(0xD9, 0xFA);
    }

    /// `fst_d [adr]`
    pub fn fst_d(&mut self, adr: Address)
        requires
            adr.wf(),
            (!adr.spec_base_needs_rex() && !adr.spec_index_needs_rex()),
        ensures
            ({
                let f = old(self).features;
                final(self).appends(*old(self), seq![0xDD] + address_bytes(f, None, 2, adr, false))
            }),
    {
        self.emit_int8(0xDD);
        self.emit_operand32(2, &adr);
    }

    /// `fst_s [adr]`
    pub fn fst_s(&mut self, adr: Address)
        requires
            adr.wf(),
            (!adr.spec_base_needs_rex() && !adr.spec_index_needs_rex()),
        ensures
            ({
                let f = old(self).features;
                final(self).appends(*old(self), seq![0xD9] + address_bytes(f, None, 2, adr, false))
            }),
    {
        self.emit_int8(0xD9);
        self.emit_operand32(2, &adr);
    }

    /// `fstp_d [adr]`
    pub fn fstp_d(&mut self, adr: Address)
        requires
            adr.wf(),
            (!adr.spec_base_needs_rex() && !adr.spec_index_needs_rex()),
        ensures
            ({
                let f = old(self).features;
                final(self).appends(*old(self), seq![0xDD] + address_bytes(f, None, 3, adr, false))
            }),
    {
        self.emit_int8(0xDD);
        self.emit_operand32(3, &adr);
    }

    /// `fstp_d index`
    pub fn fstp_d_i(&mut self, index: i32)
        requires
            (0 <= index && index < 8),
        ensures
            final(self).appends(*old(self), farith_bytes(0xDD, 0xD8, index)),
    {
        self.emit_farith(0xDD, 0xD8, index);
    }

    /// `fstp_s [adr]`
    pub fn fstp_s(&mut self, adr: Address)
        requires
            adr.wf(),
            (!adr.spec_base_needs_rex() && !adr.spec_index_needs_rex()),
        ensures
            ({
                let f = old(self).features;
                final(self).appends(*old(self), seq![0xD9] + address_bytes(f, None, 3, adr, false))
            }),
    {
        self.emit_int8(0xD9);
        self.emit_operand32(3, &adr);
    }

    /// `fsub i`
    pub fn fsub(&mut self, i: i32)
        requires
            (0 <= i && i < 8),
        ensures
            final(self).appends(*old(self), farith_bytes(0xD8, 0xE0, i)),
    {
        self.emit_farith(0xD8, 0xE0, i);
    }

    /// `fsub_d [src]`
    pub fn fsub_d(&mut self, src: Address)
        requires
            src.wf(),
            (!src.spec_base_needs_rex() && !src.spec_index_needs_rex()),
        ensures
            ({
                let f = old(self).features;
                final(self).appends(*old(self), seq![0xDC] + address_bytes(f, None, 4, src, false))
            }),
    {
        self.emit_int8(0xDC);
        self.emit_operand32(4, &src);
    }

    /// `fsub_s [src]`
    pub fn fsub_s(&mut self, src: Address)
        requires
            src.wf(),
            (!src.spec_base_needs_rex() && !src.spec_index_needs_rex()),
        ensures
            ({
                let f = old(self).features;
                final(self).appends(*old(self), seq![0xD8] + address_bytes(f, None, 4, src, false))
            }),
    {
        self.emit_int8(0xD8);
        self.emit_operand32(4, &src);
    }

    /// `fsuba i`
    pub fn fsuba(&mut self, i: i32)
        requires
            (0 <= i && i < 8),
        ensures
            final(self).appends(*old(self), farith_bytes(0xDC, 0xE8, i)),
    {
        self.emit_farith(0xDC, 0xE8, i);
    }

    /// `fsubp i`
    pub fn fsubp(&mut self, i: i32)
        requires
            (0 <= i && i < 8),
        ensures
            final(self).appends(*old(self), farith_bytes(0xDE, 0xE8, i)),
    {
        self.emit_farith(0xDE, 0xE8, i);
    }

    /// `fsubr i`
    pub fn fsubr(&mut self, i: i32)
        requires
            (0 <= i && i < 8),
        ensures
            final(self).appends(*old(self), farith_bytes(0xD8, 0xE8, i)),
    {
        self.emit_farith(0xD8, 0xE8, i);
    }

    /// `fsubr_d [src]`
    pub fn fsubr_d(&mut self, src: Address)
        requires
            src.wf(),
            (!src.spec_base_needs_rex() && !src.spec_index_needs_rex()),
        ensures
            ({
                let f = old(self).features;
                final(self).appends(*old(self), seq![0xDC] + address_bytes(f, None, 5, src, false))
            }),
    {
        self.emit_int8(0xDC);
        self.emit_operand32(5, &src);
    }

    /// `fsubr_s [src]`
    pub fn fsubr_s(&mut self, src: Address)
        requires
            src.wf(),
            (!src.spec_base_needs_rex() && !src.spec_index_needs_rex()),
        ensures
            ({
                let f = old(self).features;
                final(self).appends(*old(self), seq![0xD8] + address_bytes(f, None, 5, src, false))
            }),
    {
        self.emit_int8(0xD8);
        self.emit_operand32(5, &src);
    }

    /// `fsubra i`
    pub fn fsubra(&mut self, i: i32)
        requires
            (0 <= i && i < 8),
        ensures
            final(self).appends(*old(self), farith_bytes(0xDC, 0xE0, i)),
    {
        self.emit_farith(0xDC, 0xE0, i);
    }

    /// `fsubrp i`
    pub fn fsubrp(&mut self, i: i32)
        requires
            (0 <= i && i < 8),
        ensures
            final(self).appends(*old(self), farith_bytes(0xDE, 0xE0, i)),
    {
        self.emit_farith(0xDE, 0xE0, i);
    }

    /// `ftan`
    pub fn ftan(&mut self)
        ensures
            final(self).appends(*old(self), seq![0xD9, 0xF2, 0xDD, 0xD8]),
    {
        self.emit_int32(0xD9, 0xF2, 0xDD, 0xD8);
    }

    /// `ftst`
    pub fn ftst(&mut self)
        ensures
            final(self).appends(*old(self), seq![0xD9, 0xE4]),
    {
        self.emit_int16(0xD9, 0xE4);
    }

    /// `fucomi i`
    pub fn fucomi(&mut self, i: i32)
        requires
            ({
                let f = old(self).features;
                (f.supports_cmov()) && (0 <= i && i < 8)
            }),
        ensures
            final(self).appends(*old(self), farith_bytes(0xDB, 0xE8, i)),
    {
        self.emit_farith(0xDB, 0xE8, i);
    }

    /// `fucomip i`
    pub fn fucomip(&mut self, i: i32)
        requires
            ({
                let f = old(self).features;
                (f.supports_cmov()) && (0 <= i && i < 8)
            }),
        ensures
            final(self).appends(*old(self), farith_bytes(0xDF, 0xE8, i)),
    {
        self.emit_farith(0xDF, 0xE8, i);
    }

    /// `fwait`
    pub fn fwait(&mut self)
        ensures
            final(self).appends(*old(self), seq![0x9B]),
    {
        self.emit_int8(0x9B);
    }

    /// `fxch i`
    pub fn fxch(&mut self, i: i32)
        requires
            (0 <= i && i < 8),
        ensures
            final(self).appends(*old(self), farith_bytes(0xD9, 0xC8, i)),
    {
        self.emit_farith(0xD9, 0xC8, i);
    }

    /// `fyl2x`
    pub fn fyl2x(&mut self)
        ensures
            final(self).appends(*old(self), seq![0xD9, 0xF1]),
    {
        self.emit_int16(0xD9, 0xF1);
    }

    /// `frndint`
    pub fn frndint(&mut self)
        ensures
            final(self).appends(*old(self), seq![0xD9, 0xFC]),
    {
        self.emit_int16(0xD9, 0xFC);
    }

    /// `f2xm1`
    pub fn f2xm1(&mut self)
        ensures
            final(self).appends(*old(self), seq![0xD9, 0xF0]),
    {
        self.emit_int16(0xD9, 0xF0);
    }

    /// `fldl2e`
    pub fn fldl2e(&mut self)
        ensures
            final(self).appends(*old(self), seq![0xD9, 0xEA]),
    {
        self.emit_int16(0xD9, 0xEA);
    }
}

} // verus!
