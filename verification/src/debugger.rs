//! Breakpoint bookkeeping for debugging a running program.
use vstd::prelude::*;
use std::collections::HashSet;

verus! {

broadcast use vstd::std_specs::hash::group_hash_axioms;

/// A set of breakpoint addresses.
pub struct Debugger {
    breakpoints: HashSet<u16>,
}

impl View for Debugger {
    type V = Set<u16>;

    closed spec fn view(&self) -> Set<u16> {
        self.breakpoints@
    }
}

impl Debugger {
    pub fn new() -> (r: Self)
        ensures
            r@ == Set::<u16>::empty(),
    {
        Self { breakpoints: HashSet::new() }
    }

    pub fn add_breakpoint(&mut self, addr: u16)
        ensures
            final(self)@ == old(self)@.insert(addr),
    {
        self.breakpoints.insert(addr);
    }

    pub fn remove_breakpoint(&mut self, addr: u16)
        ensures
            final(self)@ == old(self)@.remove(addr),
    {
        self.breakpoints.remove(&addr);
    }

    /// Whether execution at `pc` has reached a breakpoint.
    pub fn check_breakpoint(&self, pc: u16) -> (r: bool)
        ensures
            r == self@.contains(pc),
    {
        self.breakpoints.contains(&pc)
    }
}

/// A breakpoint that was added is reported until it is removed; after its
/// removal it is no longer reported, and other breakpoints are unaffected.
pub proof fn lemma_breakpoint_add_remove(s: Set<u16>, a: u16, b: u16)
    ensures
        s.insert(a).contains(a),
        !s.insert(a).remove(a).contains(a),
        b != a ==> (s.insert(a).contains(b) == s.contains(b) && s.remove(a).contains(b)
            == s.contains(b)),
{
}

} // verus!
