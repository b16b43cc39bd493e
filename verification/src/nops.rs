use vstd::prelude::*;
use crate::assembler::Assembler;
use crate::features::CpuFeatures;

verus! {

/// `nop dword ptr [eax + 0]` (4 bytes, 8-bit offset).
pub open spec fn addr_nop_4_bytes() -> Seq<u8> {
    seq![0x0F, 0x1F, 0x40, 0x00]
}

/// `nop dword ptr [eax + eax*1 + 0]` (5 bytes, 8-bit offset).
pub open spec fn addr_nop_5_bytes() -> Seq<u8> {
    seq![0x0F, 0x1F, 0x44, 0x00, 0x00]
}

/// `nop dword ptr [eax + 0]` (7 bytes, 32-bit offset).
pub open spec fn addr_nop_7_bytes() -> Seq<u8> {
    seq![0x0F, 0x1F, 0x80, 0x00, 0x00, 0x00, 0x00]
}

/// `nop dword ptr [eax + eax*1 + 0]` (8 bytes, 32-bit offset).
pub open spec fn addr_nop_8_bytes() -> Seq<u8> {
    seq![0x0F, 0x1F, 0x84, 0x00, 0x00, 0x00, 0x00, 0x00]
}

/// `n` operand size prefixes.
pub open spec fn size_prefixes(n: nat) -> Seq<u8> {
    Seq::new(n, |k: int| 0x66u8)
}

/// Padding of 0 to 11 bytes built from one address nop (or `0x66... 0x90`
/// for up to 3 bytes), shared by the Intel, AMD and ZX sequences.
pub open spec fn address_nop_small(i: int) -> Seq<u8> {
    if i >= 8 && i <= 11 {
        size_prefixes((i - 8) as nat) + addr_nop_8_bytes()
    } else if i == 7 {
        addr_nop_7_bytes()
    } else if i == 6 {
        seq![0x66] + addr_nop_5_bytes()
    } else if i == 5 {
        addr_nop_5_bytes()
    } else if i == 4 {
        addr_nop_4_bytes()
    } else if 1 <= i <= 3 {
        size_prefixes((i - 1) as nat) + seq![0x90]
    } else {
        seq![]
    }
}

/// Intel (and ZX) padding: address nops are never placed back to back; runs
/// of 15 bytes alternate an address nop with a prefixed one-byte nop.
pub open spec fn intel_nops(i: int) -> Seq<u8>
    decreases i,
{
    if i >= 15 {
        size_prefixes(3) + addr_nop_8_bytes() + seq![0x66, 0x66, 0x66, 0x90] + intel_nops(i - 15)
    } else if 12 <= i <= 14 {
        size_prefixes((i - 12) as nat) + addr_nop_8_bytes() + seq![0x66, 0x66, 0x66, 0x90]
    } else {
        address_nop_small(i)
    }
}

/// The first of two address nops of AMD padding for 12 to 21 bytes.
pub open spec fn amd_first(i: int) -> Seq<u8> {
    if i == 21 {
        size_prefixes(3) + addr_nop_8_bytes()
    } else if i == 20 || i == 19 {
        size_prefixes(2) + addr_nop_8_bytes()
    } else if i == 18 || i == 17 {
        size_prefixes(1) + addr_nop_8_bytes()
    } else if i == 16 || i == 15 {
        addr_nop_8_bytes()
    } else if i == 14 || i == 13 {
        addr_nop_7_bytes()
    } else if i == 12 {
        seq![0x66] + addr_nop_5_bytes()
    } else {
        seq![]
    }
}

/// AMD padding: consecutive address nops, each of at most 11 bytes.
pub open spec fn amd_nops(i: int) -> Seq<u8>
    decreases i,
{
    if i >= 22 {
        size_prefixes(3) + addr_nop_8_bytes() + amd_nops(i - 11)
    } else if i >= 12 {
        amd_first(i) + address_nop_small(i - amd_first(i).len())
    } else {
        address_nop_small(i)
    }
}

/// The last 0 to 4 bytes of padding without address nops.
pub open spec fn prefixed_nop(i: int) -> Seq<u8> {
    if 1 <= i <= 4 {
        size_prefixes((i - 1) as nat) + seq![0x90]
    } else {
        seq![]
    }
}

/// Padding of up to 8 bytes without address nops.
pub open spec fn plain_nops_8(i: int) -> Seq<u8> {
    if i > 4 {
        let n: int = if i > 6 { 1 } else { 0 };
        size_prefixes(n as nat) + seq![0x66, 0x66, 0x90] + prefixed_nop(i - n - 3)
    } else {
        prefixed_nop(i)
    }
}

/// Padding without address nops: one-byte nops with operand size prefixes,
/// as recommended by the AMD optimization guide.
pub open spec fn plain_nops(i: int) -> Seq<u8>
    decreases i,
{
    if i > 12 {
        seq![0x66, 0x66, 0x66, 0x90] + plain_nops(i - 4)
    } else if i > 8 {
        let n: int = if i > 9 { 1 } else { 0 };
        size_prefixes(n as nat) + seq![0x66, 0x66, 0x90] + plain_nops_8(i - n - 3)
    } else {
        plain_nops_8(i)
    }
}

/// The padding `nop(i)` emits on a target with features `f`.
pub open spec fn nop_bytes(f: CpuFeatures, i: int) -> Seq<u8> {
    if f.debug_build {
        Seq::new(i as nat, |k: int| 0x90u8)
    } else if f.use_address_nop && f.is_intel {
        intel_nops(i)
    } else if f.use_address_nop && f.is_amd_family {
        amd_nops(i)
    } else if f.use_address_nop && f.is_zx {
        intel_nops(i)
    } else {
        plain_nops(i)
    }
}

proof fn lemma_address_nop_small_len(i: int)
    requires
        0 <= i <= 11,
    ensures
        address_nop_small(i).len() == i,
{
}

proof fn lemma_intel_nops_len(i: int)
    requires
        0 <= i,
    ensures
        intel_nops(i).len() == i,
    decreases i,
{
    if i >= 15 {
        lemma_intel_nops_len(i - 15);
    } else if i < 12 {
        lemma_address_nop_small_len(i);
    }
}

proof fn lemma_amd_nops_len(i: int)
    requires
        0 <= i,
    ensures
        amd_nops(i).len() == i,
    decreases i,
{
    if i >= 22 {
        lemma_amd_nops_len(i - 11);
    } else if i >= 12 {
        lemma_address_nop_small_len(i - amd_first(i).len());
    } else {
        lemma_address_nop_small_len(i);
    }
}

proof fn lemma_plain_nops_len(i: int)
    requires
        0 <= i,
    ensures
        plain_nops(i).len() == i,
    decreases i,
{
    if i > 12 {
        lemma_plain_nops_len(i - 4);
    }
}

/// Padding has exactly the requested length, whatever the target.
pub proof fn lemma_nop_length(f: CpuFeatures, i: int)
    requires
        0 <= i,
    ensures
        nop_bytes(f, i).len() == i,
{
    lemma_intel_nops_len(i);
    lemma_amd_nops_len(i);
    lemma_plain_nops_len(i);
}

impl Assembler {
    /// `nop dword ptr [eax + 0]`
    pub fn addr_nop_4(&mut self)
        requires
            old(self).features.use_address_nop,
        ensures
            final(self).appends(*old(self), addr_nop_4_bytes()),
    {
        self.emit_int32(0x0F, 0x1F, 0x40, 0);
    }

    /// `nop dword ptr [eax + eax*1 + 0]`
    pub fn addr_nop_5(&mut self)
        requires
            old(self).features.use_address_nop,
        ensures
            final(self).appends(*old(self), addr_nop_5_bytes()),
    {
        self.emit_int32(0x0F, 0x1F, 0x44, 0x00);
        self.emit_int8(0);
    }

    /// `nop dword ptr [eax + 0]` with a 32-bit offset
    pub fn addr_nop_7(&mut self)
        requires
            old(self).features.use_address_nop,
        ensures
            final(self).appends(*old(self), addr_nop_7_bytes()),
    {
        self.emit_int24(0x0F, 0x1F, 0x80);
        self.emit_int32(0, 0, 0, 0);
    }

    /// `nop dword ptr [eax + eax*1 + 0]` with a 32-bit offset
    pub fn addr_nop_8(&mut self)
        requires
            old(self).features.use_address_nop,
        ensures
            final(self).appends(*old(self), addr_nop_8_bytes()),
    {
        self.emit_int32(0x0F, 0x1F, 0x84, 0x00);
        self.emit_int32(0, 0, 0, 0);
    }

    fn emit_size_prefixes(&mut self, n: u8)
        requires
            n <= 3,
        ensures
            final(self).appends(*old(self), size_prefixes(n as nat)),
    {
        let mut k: u8 = 0;
        while k < n
            invariant
                k <= n,
                self.appends(*old(self), size_prefixes(k as nat)),
            decreases n - k,
        {
            self.emit_int8(0x66);
            assert(size_prefixes(k as nat) + seq![0x66u8] =~= size_prefixes((k + 1) as nat));
            k = k + 1;
        }
    }

    /// Emits 0 to 11 bytes of padding with at most one address nop.
    fn address_nop_small(&mut self, i: i32)
        requires
            0 <= i <= 11,
            old(self).features.use_address_nop,
        ensures
            final(self).appends(*old(self), address_nop_small(i as int)),
    {
        if i >= 8 {
            self.emit_size_prefixes((i - 8) as u8);
            self.addr_nop_8();
        } else if i == 7 {
            self.addr_nop_7();
        } else if i == 6 {
            self.emit_int8(0x66);
            self.addr_nop_5();
        } else if i == 5 {
            self.addr_nop_5();
        } else if i == 4 {
            self.addr_nop_4();
        } else if i >= 1 {
            self.emit_size_prefixes((i - 1) as u8);
            self.emit_int8(0x90);
        }
    }

    fn intel_nops(&mut self, i0: i32)
        requires
            0 <= i0,
            old(self).features.use_address_nop,
        ensures
            final(self).appends(*old(self), intel_nops(i0 as int)),
    {
        let mut i = i0;
        while i >= 15
            invariant
                0 <= i <= i0,
                self.features == old(self).features,
                self.relocs@ == old(self).relocs@,
                self.features.use_address_nop,
                self.code@ + intel_nops(i as int) =~= old(self).code@ + intel_nops(i0 as int),
            decreases i,
        {
            i = i - 15;
            self.emit_int24(0x66, 0x66, 0x66);
            self.addr_nop_8();
            self.emit_int32(0x66, 0x66, 0x66, 0x90);
            assert(size_prefixes(3) =~= seq![0x66u8, 0x66, 0x66]);
        }
        if i >= 12 {
            self.emit_size_prefixes((i - 12) as u8);
            self.addr_nop_8();
            self.emit_int32(0x66, 0x66, 0x66, 0x90);
        } else {
            self.address_nop_small(i);
        }
    }

    fn amd_nops(&mut self, i0: i32)
        requires
            0 <= i0,
            old(self).features.use_address_nop,
        ensures
            final(self).appends(*old(self), amd_nops(i0 as int)),
    {
        let mut i = i0;
        while i >= 22
            invariant
                0 <= i <= i0,
                self.features == old(self).features,
                self.relocs@ == old(self).relocs@,
                self.features.use_address_nop,
                self.code@ + amd_nops(i as int) =~= old(self).code@ + amd_nops(i0 as int),
            decreases i,
        {
            i = i - 11;
            self.emit_int24(0x66, 0x66, 0x66);
            self.addr_nop_8();
            assert(size_prefixes(3) =~= seq![0x66u8, 0x66, 0x66]);
        }
        if i >= 12 {
            let ghost before = self.code@;
            if i == 21 {
                self.emit_size_prefixes(3);
                self.addr_nop_8();
                i = i - 11;
            } else if i >= 19 {
                self.emit_size_prefixes(2);
                self.addr_nop_8();
                i = i - 10;
            } else if i >= 17 {
                self.emit_size_prefixes(1);
                self.addr_nop_8();
                i = i - 9;
            } else if i >= 15 {
                self.addr_nop_8();
                i = i - 8;
            } else if i >= 13 {
                self.addr_nop_7();
                i = i - 7;
            } else {
                self.emit_int8(0x66);
                self.addr_nop_5();
                i = i - 6;
            }
        }
        self.address_nop_small(i);
    }

    fn plain_nops_8(&mut self, i0: i32)
        requires
            0 <= i0 <= 8,
        ensures
            final(self).appends(*old(self), plain_nops_8(i0 as int)),
    {
        let mut i = i0;
        if i > 4 {
            if i > 6 {
                i = i - 1;
                self.emit_int8(0x66);
            }
            i = i - 3;
            self.emit_int24(0x66, 0x66, 0x90);
        }
        if i >= 1 {
            self.emit_size_prefixes((i - 1) as u8);
            self.emit_int8(0x90);
        }
    }

    fn plain_nops(&mut self, i0: i32)
        requires
            0 <= i0,
        ensures
            final(self).appends(*old(self), plain_nops(i0 as int)),
    {
        let mut i = i0;
        while i > 12
            invariant
                0 <= i <= i0,
                self.features == old(self).features,
                self.relocs@ == old(self).relocs@,
                self.code@ + plain_nops(i as int) =~= old(self).code@ + plain_nops(i0 as int),
            decreases i,
        {
            i = i - 4;
            self.emit_int32(0x66, 0x66, 0x66, 0x90);
        }
        if i > 8 {
            if i > 9 {
                i = i - 1;
                self.emit_int8(0x66);
            }
            i = i - 3;
            self.emit_int24(0x66, 0x66, 0x90);
        }
        self.plain_nops_8(i);
    }

    /// Emits `i` bytes of padding that execute as no-ops, using the longest
    /// nop forms the target handles well; a debug build pads with one-byte
    /// nops only and asks for at least one byte.
    pub fn nop(&mut self, i: i32)
        requires
            0 <= i,
            old(self).features.debug_build ==> i > 0,
        ensures
            final(self).appends(*old(self), nop_bytes(old(self).features, i as int)),
            final(self)@.len() == old(self)@.len() + i,
    {
        proof {
            lemma_nop_length(self.features, i as int);
        }
        if self.features.debug_build {
            let mut k: i32 = 0;
            while k < i
                invariant
                    0 <= k <= i,
                    self.features == old(self).features,
                self.relocs@ == old(self).relocs@,
                    self.relocs@ == old(self).relocs@,
                    self.code@ =~= old(self).code@ + Seq::new(k as nat, |j: int| 0x90u8),
                decreases i - k,
            {
                self.emit_int8(0x90);
                k = k + 1;
            }
        } else if self.features.use_address_nop && self.features.is_intel {
            self.intel_nops(i);
        } else if self.features.use_address_nop && self.features.is_amd_family {
            self.amd_nops(i);
        } else if self.features.use_address_nop && self.features.is_zx {
            self.intel_nops(i);
        } else {
            self.plain_nops(i);
        }
    }
}

} // verus!
