use vstd::prelude::*;

verus! {

/// A 64-bit general purpose register, identified by its hardware encoding
/// (rax = 0 ... r15 = 15).
#[derive(Clone, Copy, PartialEq, Eq, Structural, Debug)]
pub struct Register {
    pub encoding: u8,
}

/// An XMM/YMM/ZMM vector register, identified by its encoding (0 ... 31).
#[derive(Clone, Copy, PartialEq, Eq, Structural, Debug)]
pub struct XMMRegister {
    pub encoding: u8,
}

/// An AVX-512 opmask register k0 ... k7.
#[derive(Clone, Copy, PartialEq, Eq, Structural, Debug)]
pub struct KRegister {
    pub encoding: u8,
}

impl Register {
    pub open spec fn wf(self) -> bool {
        self.encoding < 16
    }

    /// Needs REX.B / REX.R / REX.X to be addressed.
    pub open spec fn needs_rex(self) -> bool {
        self.encoding >= 8
    }

    pub fn new(encoding: u8) -> (r: Register)
        requires
            encoding < 16,
        ensures
            r.encoding == encoding,
            r.wf(),
    {
        Register { encoding }
    }
}

impl XMMRegister {
    pub open spec fn wf(self) -> bool {
        self.encoding < 32
    }

    pub fn new(encoding: u8) -> (r: XMMRegister)
        requires
            encoding < 32,
        ensures
            r.encoding == encoding,
            r.wf(),
    {
        XMMRegister { encoding }
    }

    /// The vector register with the same number as a general purpose register
    /// (used where an instruction moves between the two register files).
    pub fn from_register(r: Register) -> (x: XMMRegister)
        ensures
            x.encoding == r.encoding,
    {
        XMMRegister { encoding: r.encoding }
    }
}

impl KRegister {
    pub open spec fn wf(self) -> bool {
        self.encoding < 8
    }

    pub fn new(encoding: u8) -> (r: KRegister)
        requires
            encoding < 8,
        ensures
            r.encoding == encoding,
            r.wf(),
    {
        KRegister { encoding }
    }
}

pub fn rax() -> (r: Register)
    ensures
        r.encoding == 0,
{
    Register { encoding: 0 }
}

pub fn rcx() -> (r: Register)
    ensures
        r.encoding == 1,
{
    Register { encoding: 1 }
}

pub fn rdx() -> (r: Register)
    ensures
        r.encoding == 2,
{
    Register { encoding: 2 }
}

pub fn rbx() -> (r: Register)
    ensures
        r.encoding == 3,
{
    Register { encoding: 3 }
}

pub fn rsp() -> (r: Register)
    ensures
        r.encoding == 4,
{
    Register { encoding: 4 }
}

pub fn rbp() -> (r: Register)
    ensures
        r.encoding == 5,
{
    Register { encoding: 5 }
}

pub fn rsi() -> (r: Register)
    ensures
        r.encoding == 6,
{
    Register { encoding: 6 }
}

pub fn rdi() -> (r: Register)
    ensures
        r.encoding == 7,
{
    Register { encoding: 7 }
}

/// The register whose encoding is `enc`; used to place an opcode extension
/// (`/digit`) in the reg field of a ModRM byte.
pub fn as_register(enc: u8) -> (r: Register)
    requires
        enc < 16,
    ensures
        r.encoding == enc,
{
    Register { encoding: enc }
}

pub fn k0() -> (k: KRegister)
    ensures
        k.encoding == 0,
{
    KRegister { encoding: 0 }
}

} // verus!
