//! Saving and restoring all general purpose registers, and clearing the
//! upper halves of the vector registers.
use vstd::prelude::*;
use crate::address::Address;
use crate::assembler::Assembler;
use crate::attributes::{InstructionAttr, AVX_128BIT, VEX_OPCODE_0F, VEX_SIMD_NONE};
use crate::encoding::{address_bytes, rex_byte, rex_opt, vex_rr_bytes};
use crate::features::CpuFeatures;
use crate::operands::arith_imm_bytes;
use crate::registers::{as_register, rsp, Register};

verus! {

/// The stack slot `k` words above `rsp`.
pub open spec fn rsp_slot(k: int) -> Address {
    Address { base: Some(Register { encoding: 4 }), index: None, xmmindex: None, scale: 0, disp: (8 * k) as i32 }
}

/// `movq [rsp + 8k], r`
pub open spec fn store_slot(f: CpuFeatures, k: int, r: u8) -> Seq<u8> {
    seq![rex_byte(true, r >= 8, false, false), 0x89] + address_bytes(f, None, r, rsp_slot(k), false)
}

/// `movq r, [rsp + 8k]`
pub open spec fn load_slot(f: CpuFeatures, k: int, r: u8) -> Seq<u8> {
    seq![rex_byte(true, r >= 8, false, false), 0x8B] + address_bytes(f, None, r, rsp_slot(k), false)
}

/// Stores of registers `0 .. n` (except `rsp`), register `r` to slot `15 - r`.
pub open spec fn pusha_stores(f: CpuFeatures, n: int) -> Seq<u8>
    decreases n,
{
    if n <= 0 {
        seq![]
    } else {
        pusha_stores(f, n - 1) + if n - 1 == 4 {
            seq![]
        } else {
            store_slot(f, 15 - (n - 1), (n - 1) as u8)
        }
    }
}

/// Loads of registers `15` down to `16 - n` (except `rsp`), register `r`
/// from slot `15 - r`.
pub open spec fn popa_loads(f: CpuFeatures, n: int) -> Seq<u8>
    decreases n,
{
    if n <= 0 {
        seq![]
    } else {
        popa_loads(f, n - 1) + if 15 - (n - 1) == 4 {
            seq![]
        } else {
            load_slot(f, n - 1, (15 - (n - 1)) as u8)
        }
    }
}

/// `pusha`: reserves 16 words on the stack and stores every register but
/// `rsp` in the slot of its number counted from the top.
pub open spec fn pusha_bytes(f: CpuFeatures) -> Seq<u8> {
    rex_opt(true, false, false, false, false) + arith_imm_bytes(0x81, 0xE8, Register { encoding: 4 }, 128)
        + pusha_stores(f, 16)
}

/// `vzeroupper` on a target: nothing where the target does not support it.
pub open spec fn vzeroupper_bytes(f: CpuFeatures) -> Seq<u8> {
    if f.supports_vzeroupper() {
        vex_rr_bytes(
            f,
            InstructionAttr::spec_new(f, AVX_128BIT, false, true, true, false),
            0,
            0,
            0,
            VEX_SIMD_NONE,
            VEX_OPCODE_0F,
        ) + seq![0x77]
    } else {
        Seq::<u8>::empty()
    }
}

/// The code of `popa`, `pusha` and `vzeroupper` for one target, captured
/// once so that it can be copied wherever those sequences are needed.
pub struct PrecomputedCode {
    pub popa: Vec<u8>,
    pub pusha: Vec<u8>,
    pub vzeroupper: Vec<u8>,
}

/// The bytes of `v` from offset `from` up to `to`.
fn copy_range(v: &Vec<u8>, from: usize, to: usize) -> (r: Vec<u8>)
    requires
        from <= to <= v.len(),
    ensures
        r@ == v@.subrange(from as int, to as int),
{
    let mut r: Vec<u8> = Vec::new();
    let mut i: usize = from;
    while i < to
        invariant
            from <= i <= to <= v.len(),
            r@ =~= v@.subrange(from as int, i as int),
        decreases to - i,
    {
        r.push(v[i]);
        i = i + 1;
    }
    r
}

/// `popa`: reloads the registers `pusha` stored and releases the 16 words.
pub open spec fn popa_bytes(f: CpuFeatures) -> Seq<u8> {
    popa_loads(f, 16) + rex_opt(true, false, false, false, false) + arith_imm_bytes(
        0x81,
        0xC0,
        Register { encoding: 4 },
        128,
    )
}

impl Assembler {
    /// Saves all general purpose registers (the slot of `rsp` is left
    /// unwritten).
    pub fn pusha(&mut self)
        ensures
            final(self).appends(*old(self), pusha_bytes(old(self).features)),
    {
        self.pusha_uncached();
    }

    pub fn pusha_uncached(&mut self)
        ensures
            final(self).appends(*old(self), pusha_bytes(old(self).features)),
    {
        self.subq_ri(rsp(), 128);
        let ghost start = self.code@;
        let mut r: u8 = 0;
        while r < 16
            invariant
                r <= 16,
                self.features == old(self).features,
                self.relocs@ == old(self).relocs@,
                self.code@ =~= start + pusha_stores(self.features, r as int),
            decreases 16 - r,
        {
            if r != 4 {
                let slot: i32 = 15 - (r as i32);
                let adr = Address::base_disp(rsp(), 8 * slot);
                assert(adr == rsp_slot(15 - r));
                self.movq_mr(adr, as_register(r));
            }
            r = r + 1;
        }
    }

    /// Restores the registers saved by `pusha`.
    pub fn popa(&mut self)
        ensures
            final(self).appends(*old(self), popa_bytes(old(self).features)),
    {
        self.popa_uncached();
    }

    pub fn popa_uncached(&mut self)
        ensures
            final(self).appends(*old(self), popa_bytes(old(self).features)),
    {
        let mut k: u8 = 0;
        while k < 16
            invariant
                k <= 16,
                self.features == old(self).features,
                self.relocs@ == old(self).relocs@,
                self.code@ =~= old(self).code@ + popa_loads(self.features, k as int),
            decreases 16 - k,
        {
            if k != 11 {
                let adr = Address::base_disp(rsp(), 8 * (k as i32));
                assert(adr == rsp_slot(k as int));
                self.movq_rm(as_register(15 - k), adr);
            }
            k = k + 1;
        }
        self.addq_ri(rsp(), 128);
    }

    /// `vzeroupper`, when the target supports it (nothing otherwise).
    pub fn vzeroupper(&mut self)
        ensures
            final(self).appends(*old(self), vzeroupper_bytes(old(self).features)),
    {
        self.vzeroupper_uncached();
    }

    /// Captures the code of `popa`, `pusha` and `vzeroupper` for this
    /// assembler's target by assembling them into a scratch buffer; the
    /// assembler itself is left unchanged.
    pub fn precompute_instructions(&self) -> (p: PrecomputedCode)
        ensures
            p.popa@ == popa_bytes(self.features),
            p.pusha@ == pusha_bytes(self.features),
            p.vzeroupper@ == vzeroupper_bytes(self.features),
    {
        let mut masm = Assembler::new(self.features);
        masm.popa_uncached();
        let end_popa = masm.pc();
        masm.pusha_uncached();
        let end_pusha = masm.pc();
        masm.vzeroupper_uncached();
        let end_vzup = masm.pc();
        let ghost whole = masm.code@;
        assert(whole =~= popa_bytes(self.features) + pusha_bytes(self.features) + vzeroupper_bytes(self.features));
        assert(whole.subrange(0, end_popa as int) =~= popa_bytes(self.features));
        assert(whole.subrange(end_popa as int, end_pusha as int) =~= pusha_bytes(self.features));
        assert(whole.subrange(end_pusha as int, end_vzup as int) =~= vzeroupper_bytes(self.features));
        PrecomputedCode {
            popa: copy_range(&masm.code, 0, end_popa),
            pusha: copy_range(&masm.code, end_popa, end_pusha),
            vzeroupper: copy_range(&masm.code, end_pusha, end_vzup),
        }
    }
}

} // verus!
