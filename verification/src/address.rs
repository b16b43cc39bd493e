use vstd::prelude::*;
use crate::registers::{Register, XMMRegister};

verus! {

/// A memory operand `[base + index * 2^scale + disp]`.
///
/// `base` and `index` may each be absent; a vector-indexed (VSIB) operand
/// carries an `xmmindex` in place of `index`. `scale` is the base-2 logarithm
/// of the index multiplier and is ignored when there is no index.
#[derive(Clone, Copy, PartialEq, Eq, Structural, Debug)]
pub struct Address {
    pub base: Option<Register>,
    pub index: Option<Register>,
    pub xmmindex: Option<XMMRegister>,
    pub scale: u8,
    pub disp: i32,
}

impl Address {
    /// The operand can be encoded: registers exist, `rsp` is never an index
    /// (SIB index 100 means "no index"), and at most one index is present.
    pub open spec fn wf(self) -> bool {
        &&& (self.base matches Some(b) ==> b.wf())
        &&& (self.index matches Some(i) ==> i.wf() && i.encoding != 4)
        &&& (self.xmmindex matches Some(x) ==> x.wf())
        &&& !(self.index is Some && self.xmmindex is Some)
        &&& self.scale <= 3
    }

    pub open spec fn spec_base_needs_rex(&self) -> bool {
        self.base matches Some(b) && b.encoding >= 8
    }

    pub open spec fn spec_index_needs_rex(&self) -> bool {
        self.index matches Some(i) && i.encoding >= 8
    }

    pub open spec fn spec_xmmindex_needs_rex(&self) -> bool {
        self.xmmindex matches Some(x) && x.encoding & 8 == 8
    }

    /// `[base + disp]`
    pub fn base_disp(base: Register, disp: i32) -> (a: Address)
        ensures
            a == (Address { base: Some(base), index: None, xmmindex: None, scale: 0, disp }),
    {
        Address { base: Some(base), index: None, xmmindex: None, scale: 0, disp }
    }

    /// `[base + index * 2^scale + disp]`
    pub fn base_index(base: Register, index: Register, scale: u8, disp: i32) -> (a: Address)
        ensures
            a == (Address { base: Some(base), index: Some(index), xmmindex: None, scale, disp }),
    {
        Address { base: Some(base), index: Some(index), xmmindex: None, scale, disp }
    }

    /// `[base + xmmindex * 2^scale + disp]`, the vector-indexed form used by
    /// gathers and scatters.
    pub fn base_xmmindex(base: Register, index: XMMRegister, scale: u8, disp: i32) -> (a: Address)
        ensures
            a == (Address { base: Some(base), index: None, xmmindex: Some(index), scale, disp }),
    {
        Address { base: Some(base), index: None, xmmindex: Some(index), scale, disp }
    }

    /// An absolute `[disp]` operand.
    pub fn absolute(disp: i32) -> (a: Address)
        ensures
            a == (Address { base: None, index: None, xmmindex: None, scale: 0, disp }),
    {
        Address { base: None, index: None, xmmindex: None, scale: 0, disp }
    }

    #[verifier::when_used_as_spec(spec_base_needs_rex)]
    pub fn base_needs_rex(&self) -> (r: bool)
        ensures
            r == self.spec_base_needs_rex(),
    {
        match self.base {
            Some(b) => b.encoding >= 8,
            None => false,
        }
    }

    #[verifier::when_used_as_spec(spec_index_needs_rex)]
    pub fn index_needs_rex(&self) -> (r: bool)
        ensures
            r == self.spec_index_needs_rex(),
    {
        match self.index {
            Some(i) => i.encoding >= 8,
            None => false,
        }
    }

    #[verifier::when_used_as_spec(spec_xmmindex_needs_rex)]
    pub fn xmmindex_needs_rex(&self) -> (r: bool)
        ensures
            r == self.spec_xmmindex_needs_rex(),
    {
        match self.xmmindex {
            Some(x) => x.encoding & 8 == 8,
            None => false,
        }
    }

    pub fn isxmmindex(&self) -> (r: bool)
        ensures
            r == self.xmmindex is Some,
    {
        self.xmmindex.is_some()
    }
}

} // verus!
