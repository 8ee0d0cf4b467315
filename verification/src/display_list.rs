use vstd::prelude::*;

verus! {

/// A block of consecutive display-list names handed out by the renderer, filled one
/// list at a time and then called by offset. The renderer's own calls stay with the
/// caller: this type says which list name each of them targets.
#[derive(Debug)]
pub struct DisplayList {
    idx: u32,
    num: u32,
    enum_idx: u32,
}

impl DisplayList {
    /// The names of the block do not run past the largest `u32`.
    #[verifier::type_invariant]
    spec fn names_fit(&self) -> bool {
        self.idx + self.num <= u32::MAX
    }

    /// The first name of the block.
    pub closed spec fn first(&self) -> u32 {
        self.idx
    }

    /// The number of names in the block.
    pub closed spec fn count(&self) -> u32 {
        self.num
    }

    /// The name that the next list to be compiled will get.
    pub closed spec fn next(&self) -> u32 {
        self.enum_idx
    }

    /// A block of `num` names starting at `first`, none of them compiled yet.
    pub fn new(first: u32, num: u32) -> (list: Self)
        requires
            first + num <= u32::MAX,
        ensures
            list.first() == first,
            list.count() == num,
            list.next() == first,
    {
        DisplayList { idx: first, num, enum_idx: first }
    }

    /// Whether the block still has a name left for a new list.
    pub fn can_compile(&self) -> (r: bool)
        ensures
            r == (self.next() < self.first() + self.count()),
    {
        proof {
            use_type_invariant(self);
        }
        self.enum_idx < self.idx + self.num
    }

    /// The name under which the next list is compiled. The block must have a name left.
    pub fn new_list(&self) -> (name: u32)
        requires
            self.next() < self.first() + self.count(),
        ensures
            name == self.next(),
    {
        self.enum_idx
    }

    /// Closes the list being compiled: the next list takes the following name.
    pub fn end_list(&mut self)
        requires
            old(self).next() < u32::MAX,
        ensures
            final(self).next() == old(self).next() + 1,
            final(self).first() == old(self).first(),
            final(self).count() == old(self).count(),
    {
        proof {
            use_type_invariant(&*self);
        }
        self.enum_idx = self.enum_idx + 1;
    }

    /// The name of the list at offset `i` of the block.
    pub fn call(&self, i: u32) -> (name: u32)
        requires
            i < self.count(),
        ensures
            name == self.first() + i,
    {
        proof {
            use_type_invariant(self);
        }
        self.idx + i
    }
}

} // verus!
