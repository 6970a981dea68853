//! The kernel's allocation state: every construction operator draws the
//! identities of the entities it creates from here.
//!
//! A kernel-side shape object has an identity of its own, distinct from its
//! geometry: two entities built independently are different entities even
//! when their geometry coincides. The verified model carries that identity
//! as a number stamped on each node at construction; this type issues the
//! numbers, each one exactly once.

use vstd::prelude::*;

verus! {

/// The source of entity identities. Construction operators take it
/// exclusively and advance it past every identity they stamp.
pub struct Kernel {
    next: u64,
}

impl Kernel {
    /// How many identities were issued so far; the next entity receives
    /// this number.
    pub closed spec fn issued(self) -> int {
        self.next as int
    }

    /// A kernel that has issued no identity yet.
    pub fn new() -> (k: Kernel)
        ensures
            k.issued() == 0,
    {
        Kernel { next: 0 }
    }

    /// Issue the next identity; never the same one twice.
    pub(crate) fn fresh(&mut self) -> (id: u64)
        requires
            old(self).issued() < 0xffff_ffff_ffff_ffff,
        ensures
            id == old(self).issued(),
            final(self).issued() == old(self).issued() + 1,
    {
        let id = self.next;
        self.next = self.next + 1;
        id
    }
}

} // verus!
