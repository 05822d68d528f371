//! A set of names, kept as a vector of distinct strings.
use vstd::prelude::*;
use crate::text::str_eq;

verus! {

/// A set of names.
pub struct NameSet {
    names: Vec<String>,
}

impl View for NameSet {
    type V = Set<Seq<char>>;

    closed spec fn view(&self) -> Set<Seq<char>> {
        Set::new(|n: Seq<char>| exists|i: int| 0 <= i < self.names@.len() && self.names@[i]@ == n)
    }
}

impl NameSet {
    /// No name is held twice.
    pub closed spec fn wf(&self) -> bool {
        forall|i: int, j: int|
            0 <= i < j < self.names@.len() ==> self.names@[i]@ != self.names@[j]@
    }

    /// The number of names.
    pub closed spec fn size(&self) -> nat {
        self.names@.len()
    }

    pub fn new() -> (r: NameSet)
        ensures
            r.wf(),
            r@ == Set::<Seq<char>>::empty(),
    {
        let r = NameSet { names: Vec::new() };
        assert(r@ =~= Set::<Seq<char>>::empty());
        r
    }

    fn position(&self, name: &str) -> (r: Option<usize>)
        ensures
            match r {
                Some(i) => i < self.names@.len() && self.names@[i as int]@ == name@,
                None => forall|i: int| 0 <= i < self.names@.len() ==> self.names@[i]@ != name@,
            },
    {
        let mut i: usize = 0;
        while i < self.names.len()
            invariant
                i <= self.names@.len(),
                forall|j: int| 0 <= j < i ==> self.names@[j]@ != name@,
            decreases self.names@.len() - i,
        {
            if str_eq(self.names[i].as_str(), name) {
                return Some(i);
            }
            i = i + 1;
        }
        None
    }

    pub fn contains(&self, name: &str) -> (r: bool)
        ensures
            r == self@.contains(name@),
    {
        match self.position(name) {
            Some(i) => {
                assert(self@.contains(name@));
                true
            },
            None => false,
        }
    }

    pub fn insert(&mut self, name: String)
        requires
            old(self).wf(),
        ensures
            final(self).wf(),
            final(self)@ == old(self)@.insert(name@),
    {
        if self.position(name.as_str()).is_none() {
            let ghost old_names = self.names@;
            self.names.push(name);
            assert forall|n: Seq<char>| #[trigger] self@.contains(n) == old(self)@.insert(name@).contains(n) by {
                if self@.contains(n) {
                    let i = choose|i: int| 0 <= i < self.names@.len() && self.names@[i]@ == n;
                    if i < old_names.len() {
                        assert(old_names[i]@ == n);
                    }
                }
                if old(self)@.contains(n) {
                    let i = choose|i: int| 0 <= i < old_names.len() && old_names[i]@ == n;
                    assert(self.names@[i]@ == n);
                }
                if n == name@ {
                    assert(self.names@[old_names.len() as int]@ == n);
                }
            }
            assert(self@ =~= old(self)@.insert(name@));
        } else {
            assert(self@ =~= old(self)@.insert(name@));
        }
    }

    pub fn remove(&mut self, name: &str)
        requires
            old(self).wf(),
        ensures
            final(self).wf(),
            final(self)@ == old(self)@.remove(name@),
    {
        match self.position(name) {
            Some(i) => {
                let ghost old_names = self.names@;
                self.names.remove(i);
                assert forall|n: Seq<char>| #[trigger] self@.contains(n) == old(self)@.remove(name@).contains(n) by {
                    if self@.contains(n) {
                        let j = choose|j: int| 0 <= j < self.names@.len() && self.names@[j]@ == n;
                        if j < i {
                            assert(old_names[j]@ == n);
                            assert(n != name@);
                        } else {
                            assert(old_names[j + 1]@ == n);
                            assert(n != name@);
                        }
                    }
                    if old(self)@.remove(name@).contains(n) {
                        let j = choose|j: int| 0 <= j < old_names.len() && old_names[j]@ == n;
                        assert(j != i);
                        if j < i {
                            assert(self.names@[j]@ == n);
                        } else {
                            assert(self.names@[j - 1]@ == n);
                        }
                    }
                }
                assert(self@ =~= old(self)@.remove(name@));
            },
            None => {
                assert(self@ =~= old(self)@.remove(name@));
            },
        }
    }

    pub fn clear(&mut self)
        ensures
            final(self).wf(),
            final(self)@ == Set::<Seq<char>>::empty(),
    {
        self.names = Vec::new();
        assert(self@ =~= Set::<Seq<char>>::empty());
    }

    /// The names of the set, each once.
    pub fn to_vec(&self) -> (r: Vec<String>)
        requires
            self.wf(),
        ensures
            forall|n: Seq<char>| self@.contains(n) <==> exists|i: int| 0 <= i < r@.len() && r@[i]@ == n,
            forall|i: int, j: int| 0 <= i < j < r@.len() ==> r@[i]@ != r@[j]@,
    {
        let mut out: Vec<String> = Vec::new();
        let mut i: usize = 0;
        while i < self.names.len()
            invariant
                i <= self.names@.len(),
                out@.len() == i,
                forall|j: int| 0 <= j < i ==> out@[j]@ == self.names@[j]@,
            decreases self.names@.len() - i,
        {
            out.push(self.names[i].clone());
            i = i + 1;
        }
        assert forall|n: Seq<char>| self@.contains(n) <==> exists|i: int| 0 <= i < out@.len() && out@[i]@ == n by {
            if self@.contains(n) {
                let i = choose|i: int| 0 <= i < self.names@.len() && self.names@[i]@ == n;
                assert(out@[i]@ == n);
            }
        }
        out
    }
}

} // verus!
