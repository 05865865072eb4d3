//! An unordered, duplicate-free collection of capabilities.
use vstd::prelude::*;
use crate::capability::Capability;

verus! {

/// A set of capabilities, kept as a vector without repeated entries.
#[derive(Clone, Debug)]
pub struct CapsHashSet {
    items: Vec<Capability>,
}

impl View for CapsHashSet {
    type V = Set<Capability>;

    closed spec fn view(&self) -> Set<Capability> {
        Set::new(|c: Capability| self.items@.contains(c))
    }
}

impl CapsHashSet {
    /// No capability is held twice.
    pub closed spec fn wf(&self) -> bool {
        self.items@.no_duplicates()
    }

    /// The capabilities in the order in which they are held.
    pub closed spec fn elems(&self) -> Seq<Capability> {
        self.items@
    }

    /// The empty set.
    pub fn new() -> (r: CapsHashSet)
        ensures
            r.wf(),
            r@ == Set::<Capability>::empty(),
    {
        let r = CapsHashSet { items: Vec::new() };
        assert(r@ =~= Set::<Capability>::empty());
        r
    }

    /// The held capabilities, each once, for iteration.
    pub fn as_slice(&self) -> (r: &[Capability])
        requires
            self.wf(),
        ensures
            r@ == self.elems(),
            r@.no_duplicates(),
            forall|c: Capability| self@.contains(c) <==> r@.contains(c),
    {
        self.items.as_slice()
    }

    /// The position of `c`, if it is held.
    fn position(&self, c: Capability) -> (r: Option<usize>)
        ensures
            r is None ==> !self.items@.contains(c),
            r matches Some(i) ==> i < self.items@.len() && self.items@[i as int] == c,
    {
        let mut i: usize = 0;
        while i < self.items.len()
            invariant
                i <= self.items@.len(),
                forall|k: int| 0 <= k < i ==> self.items@[k] != c,
            decreases self.items@.len() - i,
        {
            if self.items[i] == c {
                return Some(i);
            }
            i = i + 1;
        }
        None
    }

    /// Whether `c` is held.
    pub fn contains(&self, c: Capability) -> (r: bool)
        ensures
            r == self@.contains(c),
    {
        match self.position(c) {
            Some(_) => true,
            None => false,
        }
    }

    /// Adds `c`; true when it was not held before.
    pub fn insert(&mut self, c: Capability) -> (r: bool)
        requires
            old(self).wf(),
        ensures
            final(self).wf(),
            r == !old(self)@.contains(c),
            final(self)@ == old(self)@.insert(c),
    {
        if let Some(_) = self.position(c) {
            assert(self@ =~= self@.insert(c));
            false
        } else {
            let ghost before = self.items@;
            self.items.push(c);
            assert forall|x: Capability| self@.contains(x) <==> old(self)@.insert(c).contains(x) by {
                if before.contains(x) {
                    let k = choose|k: int| 0 <= k < before.len() && before[k] == x;
                    assert(self.items@[k] == x);
                }
                if x == c {
                    assert(self.items@[before.len() as int] == c);
                }
            }
            assert(self@ =~= old(self)@.insert(c));
            true
        }
    }

    /// Takes `c` out; true when it was held.
    pub fn remove(&mut self, c: Capability) -> (r: bool)
        requires
            old(self).wf(),
        ensures
            final(self).wf(),
            r == old(self)@.contains(c),
            final(self)@ == old(self)@.remove(c),
    {
        match self.position(c) {
            None => {
                assert(self@ =~= self@.remove(c));
                false
            },
            Some(i) => {
                let ghost before = self.items@;
                self.items.remove(i);
                assert(self.items@ =~= before.subrange(0, i as int) + before.subrange(i + 1, before.len() as int));
                assert forall|x: Capability| self@.contains(x) <==> old(self)@.remove(c).contains(x) by {
                    if self.items@.contains(x) {
                        let k = choose|k: int| 0 <= k < self.items@.len() && self.items@[k] == x;
                        if k < i {
                            assert(before[k] == x);
                        } else {
                            assert(before[k + 1] == x);
                        }
                    }
                    if old(self)@.remove(c).contains(x) {
                        let k = choose|k: int| 0 <= k < before.len() && before[k] == x;
                        if k < i {
                            assert(self.items@[k] == x);
                        } else {
                            assert(self.items@[k - 1] == x);
                        }
                    }
                }
                assert(self@ =~= old(self)@.remove(c));
                true
            },
        }
    }
}

} // verus!
