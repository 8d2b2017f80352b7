use vstd::prelude::*;

verus! {

/// The contents of a sequence of name/snapshot entries, read as a mapping:
/// a later entry for a name overrides an earlier one.
spec fn map_of(s: Seq<(String, Vec<u32>)>) -> Map<Seq<char>, Seq<u32>>
    decreases s.len(),
{
    if s.len() == 0 {
        Map::empty()
    } else {
        map_of(s.drop_last()).insert(s.last().0@, s.last().1@)
    }
}

proof fn lemma_map_of_push(s: Seq<(String, Vec<u32>)>, e: (String, Vec<u32>))
    ensures
        map_of(s.push(e)) == map_of(s).insert(e.0@, e.1@),
{
    assert(s.push(e).drop_last() =~= s);
    assert(s.push(e).last() == e);
}

proof fn lemma_map_of_index(s: Seq<(String, Vec<u32>)>, i: int)
    requires
        0 <= i < s.len(),
        forall|a: int, b: int| 0 <= a < b < s.len() ==> s[a].0@ != s[b].0@,
    ensures
        map_of(s).contains_key(s[i].0@),
        map_of(s)[s[i].0@] == s[i].1@,
    decreases s.len(),
{
    if i == s.len() - 1 {
    } else {
        let t = s.drop_last();
        lemma_map_of_index(t, i);
        assert(s[i].0@ != s.last().0@);
    }
}

proof fn lemma_map_of_absent(s: Seq<(String, Vec<u32>)>, k: Seq<char>)
    requires
        forall|a: int| 0 <= a < s.len() ==> s[a].0@ != k,
    ensures
        !map_of(s).contains_key(k),
    decreases s.len(),
{
    if s.len() > 0 {
        lemma_map_of_absent(s.drop_last(), k);
    }
}

proof fn lemma_map_of_remove(s: Seq<(String, Vec<u32>)>, i: int)
    requires
        0 <= i < s.len(),
        forall|a: int, b: int| 0 <= a < b < s.len() ==> s[a].0@ != s[b].0@,
    ensures
        map_of(s.remove(i)) == map_of(s).remove(s[i].0@),
    decreases s.len(),
{
    if i == s.len() - 1 {
        assert(s.remove(i) =~= s.drop_last());
        lemma_map_of_absent(s.drop_last(), s[i].0@);
        assert(map_of(s.remove(i)) =~= map_of(s).remove(s[i].0@));
    } else {
        let t = s.drop_last();
        lemma_map_of_remove(t, i);
        assert(s.remove(i) =~= t.remove(i).push(s.last()));
        lemma_map_of_push(t.remove(i), s.last());
        assert(s[i].0@ != s.last().0@);
        assert(map_of(s.remove(i)) =~= map_of(s).remove(s[i].0@));
    }
}

/// The debug capture store: a mapping from tensor name to a snapshot of that
/// tensor's contents at the moment of capture, each element carried as the
/// bit pattern of the full-precision value it stands for. A repeated capture
/// under the same name replaces the earlier snapshot.
pub struct DebugTensors {
    entries: Vec<(String, Vec<u32>)>,
}

impl View for DebugTensors {
    type V = Map<Seq<char>, Seq<u32>>;

    closed spec fn view(&self) -> Map<Seq<char>, Seq<u32>> {
        map_of(self.entries@)
    }
}

impl DebugTensors {
    /// Every name occurs at most once among the entries.
    pub closed spec fn wf(&self) -> bool {
        forall|a: int, b: int|
            0 <= a < b < self.entries@.len() ==> self.entries@[a].0@ != self.entries@[b].0@
    }

    /// Creates an empty store: no name has been captured.
    pub fn new() -> (r: Self)
        ensures
            r.wf(),
            r@ == Map::<Seq<char>, Seq<u32>>::empty(),
    {
        DebugTensors { entries: Vec::new() }
    }

    fn find_index(&self, name: &String) -> (r: Option<usize>)
        ensures
            match r {
                Some(i) => i < self.entries@.len() && self.entries@[i as int].0@ == name@,
                None => forall|j: int|
                    0 <= j < self.entries@.len() ==> self.entries@[j].0@ != name@,
            },
    {
        let n = self.entries.len();
        let mut i: usize = 0;
        while i < n
            invariant
                i <= n,
                n == self.entries@.len(),
                forall|j: int| 0 <= j < i ==> self.entries@[j].0@ != name@,
            decreases n - i,
        {
            if self.entries[i].0 == *name {
                return Some(i);
            }
            i = i + 1;
        }
        None
    }

    /// Captures `values` under `name`: a snapshot already held under `name`
    /// is replaced, snapshots under other names are untouched.
    pub fn insert(&mut self, name: String, values: Vec<u32>)
        requires
            old(self).wf(),
        ensures
            final(self).wf(),
            final(self)@ == old(self)@.insert(name@, values@),
    {
        let ghost s0 = self.entries@;
        let ghost nm = name@;
        let ghost vv = values@;
        match self.find_index(&name) {
            Some(i) => {
                let _replaced = self.entries.remove(i);
                let ghost s1 = self.entries@;
                self.entries.push((name, values));
                proof {
                    lemma_map_of_remove(s0, i as int);
                    lemma_map_of_push(s1, self.entries@.last());
                    assert(self.entries@ =~= s1.push(self.entries@.last()));
                    assert(self.entries@.last().0@ == nm && self.entries@.last().1@ == vv);
                    assert(map_of(s0).remove(nm).insert(nm, vv) =~= map_of(s0).insert(nm, vv));
                    // uniqueness carries over: the removed index held the only
                    // earlier occurrence of `name`
                    assert forall|a: int, b: int|
                        0 <= a < b < self.entries@.len() implies self.entries@[a].0@
                        != self.entries@[b].0@ by {
                        if b < self.entries@.len() - 1 {
                            assert(self.entries@[a] == s1[a] && self.entries@[b] == s1[b]);
                            if a < i {
                                assert(s1[a] == s0[a]);
                            } else {
                                assert(s1[a] == s0[a + 1]);
                            }
                            if b < i {
                                assert(s1[b] == s0[b]);
                            } else {
                                assert(s1[b] == s0[b + 1]);
                            }
                        } else {
                            assert(self.entries@[b].0@ == nm);
                            if a < i {
                                assert(s1[a] == s0[a]);
                            } else {
                                assert(s1[a] == s0[a + 1]);
                            }
                        }
                    }
                }
            },
            None => {
                self.entries.push((name, values));
                proof {
                    lemma_map_of_push(s0, self.entries@.last());
                    assert(self.entries@ =~= s0.push(self.entries@.last()));
                    assert(self.entries@.last().0@ == nm && self.entries@.last().1@ == vv);
                    assert forall|a: int, b: int|
                        0 <= a < b < self.entries@.len() implies self.entries@[a].0@
                        != self.entries@[b].0@ by {
                        if b == self.entries@.len() - 1 {
                            assert(self.entries@[a] == s0[a]);
                        } else {
                            assert(self.entries@[a] == s0[a] && self.entries@[b] == s0[b]);
                        }
                    }
                }
            },
        }
    }

    /// Looks up the snapshot last captured under `name`; `None` when `name`
    /// has never been captured. A captured empty snapshot is `Some` of an
    /// empty sequence, distinct from "never captured".
    pub fn get<'a>(&'a self, name: &str) -> (r: Option<&'a Vec<u32>>)
        requires
            self.wf(),
        ensures
            match r {
                Some(v) => self@.contains_key(name@) && v@ == self@[name@],
                None => !self@.contains_key(name@),
            },
    {
        let key: String = name.to_owned();
        match self.find_index(&key) {
            Some(i) => {
                proof {
                    lemma_map_of_index(self.entries@, i as int);
                }
                Some(&self.entries[i].1)
            },
            None => {
                proof {
                    lemma_map_of_absent(self.entries@, name@);
                }
                None
            },
        }
    }
}

/// Law: a later capture overwrites the earlier one under the same name and
/// leaves every other name unchanged — capturing `v1` then `v2` under one
/// name leaves the store exactly as capturing `v2` alone would have.
pub proof fn lemma_capture_overwrites(
    m: Map<Seq<char>, Seq<u32>>,
    name: Seq<char>,
    v1: Seq<u32>,
    v2: Seq<u32>,
)
    ensures
        m.insert(name, v1).insert(name, v2) == m.insert(name, v2),
        forall|other: Seq<char>|
            other != name && m.contains_key(other) ==> m.insert(name, v2)[other] == m[other],
{
    assert(m.insert(name, v1).insert(name, v2) =~= m.insert(name, v2));
}

} // verus!
