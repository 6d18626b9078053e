//! The set of armed breakpoint addresses.

use vstd::prelude::*;

verus! {

/// A set of 16-bit addresses, kept as one flag per address so that the test
/// made after every executed instruction is a single lookup. Its view is the
/// mathematical set of the armed addresses.
pub struct Breakpoints {
    armed: [bool; 0x10000],
}

impl View for Breakpoints {
    type V = Set<u16>;

    closed spec fn view(&self) -> Set<u16> {
        Set::new(|addr: u16| self.armed[addr as int])
    }
}

/// Whether `s` lists its addresses in strictly ascending order.
pub open spec fn ascending(s: Seq<u16>) -> bool {
    forall|i: int, j: int| 0 <= i < j < s.len() ==> s[i] < s[j]
}

impl Breakpoints {
    /// The empty set.
    pub fn new() -> (b: Breakpoints)
        ensures
            b@ == Set::<u16>::empty(),
    {
        let b = Breakpoints { armed: [false;0x10000] };
        b
    }

    /// Whether `addr` is armed.
    pub fn contains(&self, addr: u16) -> (found: bool)
        ensures
            found == self@.contains(addr),
    {
        self.armed[addr as usize]
    }

    /// Arms `addr`. Returns whether it was newly armed.
    pub fn add(&mut self, addr: u16) -> (added: bool)
        ensures
            final(self)@ == old(self)@.insert(addr),
            added == !old(self)@.contains(addr),
    {
        let added = !self.armed[addr as usize];
        self.armed[addr as usize] = true;
        added
    }

    /// Disarms `addr`. Returns whether it was armed.
    pub fn remove(&mut self, addr: u16) -> (removed: bool)
        ensures
            final(self)@ == old(self)@.remove(addr),
            removed == old(self)@.contains(addr),
    {
        let removed = self.armed[addr as usize];
        self.armed[addr as usize] = false;
        removed
    }

    /// Disarms every address.
    pub fn clear_all(&mut self)
        ensures
            final(self)@ == Set::<u16>::empty(),
    {
        self.armed = [false;0x10000];
    }

    /// The armed addresses, each once, in ascending order.
    pub fn list(&self) -> (addrs: Vec<u16>)
        ensures
            ascending(addrs@),
            addrs@.to_set() == self@,
    {
        let mut out: Vec<u16> = Vec::new();
        let mut next: usize = 0;
        while next < 0x10000
            invariant
                next <= 0x10000,
                ascending(out@),
                forall|j: int| 0 <= j < out@.len() ==> out@[j] < next && self.armed[out@[j] as int],
                forall|a: u16| a < next && self.armed[a as int] ==> #[trigger] out@.contains(a),
            decreases 0x10000 - next,
        {
            if self.armed[next] {
                let ghost before = out@;
                out.push(next as u16);
                assert forall|a: u16| a < next + 1 && self.armed[a as int] implies out@.contains(
                    a,
                ) by {
                    if a < next {
                        assert(before.contains(a));
                        let j = choose|j: int| 0 <= j < before.len() && before[j] == a;
                        assert(out@[j] == a);
                    } else {
                        assert(out@[before.len() as int] == a);
                    }
                }
            }
            next += 1;
        }
        out
    }
}

} // verus!
