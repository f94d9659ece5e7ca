use vstd::prelude::*;
use crate::value::Value;

verus! {

/// Whether no name occurs twice among the bindings.
pub open spec fn names_unique(s: Seq<(Seq<char>, Value)>) -> bool {
    forall|i: int, j: int| 0 <= i < j < s.len() ==> s[i].0 != s[j].0
}

/// Whether `k` is bound at some position of `s`.
pub open spec fn is_bound(s: Seq<(Seq<char>, Value)>, k: Seq<char>) -> bool {
    exists|i: int| 0 <= i < s.len() && s[i].0 == k
}

/// The value bound to `k` in `s` (at its first position).
pub open spec fn bound_value(s: Seq<(Seq<char>, Value)>, k: Seq<char>) -> Value {
    s[choose|i: int| 0 <= i < s.len() && s[i].0 == k].1
}

/// The mapping from name to value that the bindings denote.
pub open spec fn bindings_map(s: Seq<(Seq<char>, Value)>) -> Map<Seq<char>, Value> {
    Map::new(|k: Seq<char>| is_bound(s, k), |k: Seq<char>| bound_value(s, k))
}

/// The variables of one connection: names bound to values, in order of first
/// binding, each name at most once.
#[derive(Debug)]
pub struct Variables {
    entries: Vec<(String, Value)>,
}

impl Variables {
    /// The bindings in order of first binding, names as character sequences.
    pub closed spec fn entries_view(&self) -> Seq<(Seq<char>, Value)> {
        self.entries@.map_values(|e: (String, Value)| (e.0@, e.1))
    }

    /// The mapping from name to value.
    pub open spec fn view(&self) -> Map<Seq<char>, Value> {
        bindings_map(self.entries_view())
    }

    /// The names in order of first binding.
    pub open spec fn names(&self) -> Seq<Seq<char>> {
        self.entries_view().map_values(|e: (Seq<char>, Value)| e.0)
    }

    #[verifier::type_invariant]
    spec fn wf(&self) -> bool {
        names_unique(self.entries_view())
    }

    /// A table whose mapping is `m`.
    pub closed spec fn with_view(m: Map<Seq<char>, Value>) -> Variables {
        choose|v: Variables| v@ == m
    }

    /// A table built from a table's mapping has that mapping.
    pub proof fn lemma_with_view(v: Variables)
        ensures
            Variables::with_view(v@)@ == v@,
    {
    }

    /// A table with no bindings.
    pub fn new() -> (r: Variables)
        ensures
            r@ == Map::<Seq<char>, Value>::empty(),
            r.names() == Seq::<Seq<char>>::empty(),
    {
        let r = Variables { entries: Vec::new() };
        assert(r@ =~= Map::<Seq<char>, Value>::empty());
        assert(r.names() =~= Seq::<Seq<char>>::empty());
        r
    }

    /// The number of bound names.
    pub fn len(&self) -> (r: usize)
        ensures
            r == self.names().len(),
    {
        self.entries.len()
    }

    /// The position of `name` among the bindings, if it is bound.
    fn position(&self, name: &String) -> (r: Option<usize>)
        ensures
            match r {
                Some(i) => i < self.entries_view().len() && self.entries_view()[i as int].0 == name@,
                None => !is_bound(self.entries_view(), name@),
            },
    {
        let mut i: usize = 0;
        while i < self.entries.len()
            invariant
                i <= self.entries@.len(),
                forall|j: int| 0 <= j < i ==> self.entries_view()[j].0 != name@,
            decreases self.entries@.len() - i,
        {
            if self.entries[i].0 == *name {
                return Some(i);
            }
            i += 1;
        }
        None
    }

    /// The value bound to `name`, if any.
    pub fn get(&self, name: &String) -> (r: Option<Value>)
        ensures
            r == (if self@.contains_key(name@) { Some(self@[name@]) } else { None::<Value> }),
    {
        proof { use_type_invariant(self); }
        match self.position(name) {
            Some(i) => {
                proof {
                    let s = self.entries_view();
                    assert(is_bound(s, name@));
                    let c = choose|j: int| 0 <= j < s.len() && s[j].0 == name@;
                    assert(c == i as int);
                }
                Some(self.entries[i].1)
            },
            None => None,
        }
    }

    /// Binds `name` to `value`: a bound name keeps its position, a new one goes last.
    pub fn insert(&mut self, name: String, value: Value)
        ensures
            final(self)@ == old(self)@.insert(name@, value),
            old(self)@.contains_key(name@) ==> final(self).names() == old(self).names(),
            !old(self)@.contains_key(name@) ==> final(self).names() == old(self).names().push(name@),
    {
        proof { use_type_invariant(&*self); }
        let ghost s0 = self.entries_view();
        let ghost k = name@;
        let mut entries: Vec<(String, Value)> = Vec::new();
        match self.position(&name) {
            Some(i) => {
                std::mem::swap(&mut entries, &mut self.entries);
                entries.set(i, (name, value));
                let ghost s1 = entries@.map_values(|e: (String, Value)| (e.0@, e.1));
                proof {
                    assert(s1 =~= s0.update(i as int, (k, value)));
                    assert(names_unique(s1));
                }
                self.entries = entries;
                proof {
                    let s1 = self.entries_view();
                    assert(s1 =~= s0.update(i as int, (k, value)));
                    assert forall|a: Seq<char>| #[trigger] is_bound(s1, a) == is_bound(s0, a) by {
                        if is_bound(s0, a) {
                            let j = choose|j: int| 0 <= j < s0.len() && s0[j].0 == a;
                            assert(s1[j].0 == a);
                        }
                        if is_bound(s1, a) {
                            let j = choose|j: int| 0 <= j < s1.len() && s1[j].0 == a;
                            assert(s0[j].0 == a);
                        }
                    }
                    assert forall|a: Seq<char>| is_bound(s1, a) implies
                        #[trigger] bound_value(s1, a) == (if a == k { value } else { bound_value(s0, a) }) by {
                        let j = choose|j: int| 0 <= j < s1.len() && s1[j].0 == a;
                        let j0 = choose|j: int| 0 <= j < s0.len() && s0[j].0 == a;
                        assert(s0[j].0 == a);
                        assert(j == j0);
                        if a == k {
                            assert(j == i as int);
                        }
                    }
                    assert(bindings_map(s1) =~= bindings_map(s0).insert(k, value));
                    assert(self.names() =~= old(self).names());
                }
            },
            None => {
                std::mem::swap(&mut entries, &mut self.entries);
                entries.push((name, value));
                let ghost s1 = entries@.map_values(|e: (String, Value)| (e.0@, e.1));
                proof {
                    assert(s1 =~= s0.push((k, value)));
                    assert forall|a: int, b: int| 0 <= a < b < s1.len() implies s1[a].0 != s1[b].0 by {
                        if b == s0.len() {
                            assert(s0[a].0 == s1[a].0);
                        }
                    }
                }
                self.entries = entries;
                proof {
                    let s1 = self.entries_view();
                    assert(s1 =~= s0.push((k, value)));
                    assert forall|a: Seq<char>| #[trigger] is_bound(s1, a) == (is_bound(s0, a) || a == k) by {
                        if is_bound(s0, a) {
                            let j = choose|j: int| 0 <= j < s0.len() && s0[j].0 == a;
                            assert(s1[j].0 == a);
                        }
                        if a == k {
                            assert(s1[s0.len() as int].0 == a);
                        }
                    }
                    assert forall|a: Seq<char>| is_bound(s1, a) implies
                        #[trigger] bound_value(s1, a) == (if a == k { value } else { bound_value(s0, a) }) by {
                        let j = choose|j: int| 0 <= j < s1.len() && s1[j].0 == a;
                        if a == k {
                            assert(j == s0.len() as int);
                        } else {
                            let j0 = choose|j: int| 0 <= j < s0.len() && s0[j].0 == a;
                            assert(s1[j0].0 == a);
                            assert(j == j0);
                        }
                    }
                    assert(bindings_map(s1) =~= bindings_map(s0).insert(k, value));
                    assert(self.names() =~= old(self).names().push(k));
                }
            },
        }
    }

    /// Removes the binding of `name`, if there is one; the other names keep their order.
    pub fn remove(&mut self, name: &String)
        ensures
            final(self)@ == old(self)@.remove(name@),
            !old(self)@.contains_key(name@) ==> final(self).names() == old(self).names(),
            old(self)@.contains_key(name@) ==> exists|i: int| 0 <= i < old(self).names().len()
                && old(self).names()[i] == name@ && final(self).names() == old(self).names().remove(i),
    {
        proof { use_type_invariant(&*self); }
        let ghost s0 = self.entries_view();
        let ghost k = name@;
        match self.position(name) {
            Some(i) => {
                let mut entries: Vec<(String, Value)> = Vec::new();
                std::mem::swap(&mut entries, &mut self.entries);
                entries.remove(i);
                let ghost s1 = entries@.map_values(|e: (String, Value)| (e.0@, e.1));
                proof {
                    assert(s1 =~= s0.remove(i as int));
                    assert forall|a: int, b: int| 0 <= a < b < s1.len() implies s1[a].0 != s1[b].0 by {
                        let a0 = if a < i { a } else { a + 1 };
                        let b0 = if b < i { b } else { b + 1 };
                        assert(s1[a] == s0[a0]);
                        assert(s1[b] == s0[b0]);
                    }
                }
                self.entries = entries;
                proof {
                    let s1 = self.entries_view();
                    assert(s1 =~= s0.remove(i as int));
                    assert forall|a: Seq<char>| #[trigger] is_bound(s1, a) == (is_bound(s0, a) && a != k) by {
                        if is_bound(s0, a) && a != k {
                            let j = choose|j: int| 0 <= j < s0.len() && s0[j].0 == a;
                            if j < i {
                                assert(s1[j].0 == a);
                            } else {
                                assert(s1[j - 1].0 == a);
                            }
                        }
                        if is_bound(s1, a) {
                            let j = choose|j: int| 0 <= j < s1.len() && s1[j].0 == a;
                            if j < i {
                                assert(s0[j].0 == a);
                            } else {
                                assert(s0[j + 1].0 == a);
                            }
                        }
                    }
                    assert forall|a: Seq<char>| is_bound(s1, a) implies
                        #[trigger] bound_value(s1, a) == bound_value(s0, a) by {
                        let j = choose|j: int| 0 <= j < s1.len() && s1[j].0 == a;
                        let j0 = choose|j: int| 0 <= j < s0.len() && s0[j].0 == a;
                        if j < i {
                            assert(s0[j].0 == a);
                        } else {
                            assert(s0[j + 1].0 == a);
                        }
                    }
                    assert(bindings_map(s1) =~= bindings_map(s0).remove(k));
                    assert(old(self).names()[i as int] == k);
                    assert(self.names() =~= old(self).names().remove(i as int));
                }
            },
            None => {
                assert(bindings_map(s0) =~= bindings_map(s0).remove(k));
            },
        }
    }
}

} // verus!
