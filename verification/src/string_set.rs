use vstd::prelude::*;

verus! {

/// An unordered, deduplicating collection of strings with exact-match,
/// case-sensitive membership testing. Insertion order is never observable:
/// the abstract value is the set of character sequences held.
pub struct StringSet {
    elems: Vec<String>,
}

/// Whether some position of `elems` holds the characters `x`.
spec fn seq_holds_string(elems: Seq<String>, x: Seq<char>) -> bool {
    exists|i: int| 0 <= i < elems.len() && elems[i]@ == x
}

/// Whether the set has at least one member.
pub open spec fn has_members(s: Set<Seq<char>>) -> bool {
    exists|x: Seq<char>| s.contains(x)
}

impl View for StringSet {
    type V = Set<Seq<char>>;

    closed spec fn view(&self) -> Set<Seq<char>> {
        Set::new(|x: Seq<char>| seq_holds_string(self.elems@, x))
    }
}

impl DeepView for StringSet {
    type V = Set<Seq<char>>;

    open spec fn deep_view(&self) -> Set<Seq<char>> {
        self.view()
    }
}

impl StringSet {
    /// The empty set.
    pub fn new() -> (s: StringSet)
        ensures
            s@ == Set::<Seq<char>>::empty(),
    {
        let s = StringSet { elems: Vec::new() };
        proof {
            assert(s@ =~= Set::<Seq<char>>::empty());
        }
        s
    }

    /// Exact, case-sensitive membership test.
    pub fn contains(&self, name: &String) -> (r: bool)
        ensures
            r == self@.contains(name@),
    {
        let n = self.elems.len();
        let mut i: usize = 0;
        while i < n
            invariant
                n == self.elems.len(),
                0 <= i <= n,
                forall|j: int| 0 <= j < i ==> self.elems@[j]@ != name@,
            decreases n - i,
        {
            if self.elems[i] == *name {
                proof {
                    assert(self.elems@[i as int]@ == name@);
                    assert(seq_holds_string(self.elems@, name@));
                }
                return true;
            }
            i += 1;
        }
        proof {
            assert(!seq_holds_string(self.elems@, name@));
        }
        false
    }

    /// Adds `v` to the set; a string already present is not stored twice.
    pub fn insert(&mut self, v: String)
        ensures
            final(self)@ == old(self)@.insert(v@),
    {
        let ghost before = self.elems@;
        if self.contains(&v) {
            proof {
                assert(self@ =~= old(self)@.insert(v@));
            }
        } else {
            self.elems.push(v);
            proof {
                assert forall|x: Seq<char>| #[trigger] self@.contains(x)
                    implies old(self)@.insert(v@).contains(x) by {
                    let i = choose|i: int| 0 <= i < self.elems@.len() && self.elems@[i]@ == x;
                    if i < before.len() {
                        assert(before[i]@ == x);
                    }
                };
                assert forall|x: Seq<char>| #[trigger] old(self)@.insert(v@).contains(x)
                    implies self@.contains(x) by {
                    if old(self)@.contains(x) {
                        let i = choose|i: int| 0 <= i < before.len() && before[i]@ == x;
                        assert(self.elems@[i]@ == x);
                    } else {
                        assert(self.elems@[before.len() as int]@ == x);
                    }
                };
                assert(self@ =~= old(self)@.insert(v@));
            }
        }
    }

    /// Whether the set has no members.
    pub fn is_empty(&self) -> (r: bool)
        ensures
            r == !has_members(self@),
    {
        if self.elems.len() == 0 {
            proof {
                assert forall|x: Seq<char>| !(#[trigger] self@.contains(x)) by {}
            }
            true
        } else {
            proof {
                assert(self.elems@[0]@ == self.elems@[0]@);
                assert(self@.contains(self.elems@[0]@));
            }
            false
        }
    }
}

} // verus!
