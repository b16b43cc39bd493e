use vstd::prelude::*;

verus! {

/// A branch target in the code buffer. A bound label knows its code offset;
/// an unbound one collects the offsets of the instructions that refer to it,
/// so that they can be patched once its offset is known.
pub struct Label {
    pub pos: Option<usize>,
    pub patches: Vec<usize>,
}

impl Label {
    /// A label that is not bound yet.
    pub fn new() -> (l: Label)
        ensures
            l.pos is None,
            l.patches@ == Seq::<usize>::empty(),
    {
        Label { pos: None, patches: Vec::new() }
    }

    /// A label bound to code offset `pos`.
    pub fn bound_at(pos: usize) -> (l: Label)
        ensures
            l.pos == Some(pos),
            l.patches@ == Seq::<usize>::empty(),
    {
        Label { pos: Some(pos), patches: Vec::new() }
    }

    pub fn is_bound(&self) -> (b: bool)
        ensures
            b == self.pos is Some,
    {
        self.pos.is_some()
    }

    /// Records that the instruction at `locator` refers to this label.
    pub fn add_patch_at(&mut self, locator: usize)
        ensures
            final(self).pos == old(self).pos,
            final(self).patches@ == old(self).patches@.push(locator),
    {
        self.patches.push(locator);
    }
}

} // verus!
