//! Request and response metadata: a map from header names to values.

use vstd::prelude::*;

verus! {

broadcast use vstd::string::group_string_axioms;

/// Whether some entry of `es` has name `k`.
pub open spec fn has_key(es: Seq<(Seq<char>, Seq<char>)>, k: Seq<char>) -> bool {
    exists|i: int| 0 <= i < es.len() && (#[trigger] es[i]).0 == k
}

/// Whether the entries of `es` have pairwise distinct names.
pub open spec fn unique_keys(es: Seq<(Seq<char>, Seq<char>)>) -> bool {
    forall|i: int, j: int|
        0 <= i < es.len() && 0 <= j < es.len() && i != j ==> (#[trigger] es[i]).0 != (#[trigger] es[j]).0
}

/// The map that a list of entries with distinct names denotes.
pub open spec fn map_of(es: Seq<(Seq<char>, Seq<char>)>) -> Map<Seq<char>, Seq<char>> {
    Map::new(
        |k: Seq<char>| has_key(es, k),
        |k: Seq<char>| es[choose|i: int| 0 <= i < es.len() && (#[trigger] es[i]).0 == k].1,
    )
}

/// The entry of `es` named `k` lies at index `i`; with distinct names it
/// is the value `map_of` gives.
pub proof fn lemma_map_of_at(es: Seq<(Seq<char>, Seq<char>)>, i: int)
    requires
        unique_keys(es),
        0 <= i < es.len(),
    ensures
        map_of(es).contains_key(es[i].0),
        map_of(es)[es[i].0] == es[i].1,
{
    let k = es[i].0;
    assert(has_key(es, k));
    let j = choose|j: int| 0 <= j < es.len() && (#[trigger] es[j]).0 == k;
    if j != i {
        assert(es[j].0 != es[i].0);
    }
}

/// Overwriting the entry at `idx` with `(k, v)`, where that entry is named
/// `k`, inserts `k ↦ v` into the denoted map.
proof fn lemma_map_of_update(es: Seq<(Seq<char>, Seq<char>)>, idx: int, k: Seq<char>, v: Seq<char>)
    requires
        unique_keys(es),
        0 <= idx < es.len(),
        es[idx].0 == k,
    ensures
        unique_keys(es.update(idx, (k, v))),
        map_of(es.update(idx, (k, v))) == map_of(es).insert(k, v),
{
    let es2 = es.update(idx, (k, v));
    assert(unique_keys(es2)) by {
        assert forall|i: int, j: int|
            0 <= i < es2.len() && 0 <= j < es2.len() && i != j implies (#[trigger] es2[i]).0 != (#[trigger] es2[j]).0 by {
            assert(es2[i].0 == es[i].0);
            assert(es2[j].0 == es[j].0);
        }
    }
    let m2 = map_of(es2);
    let m1 = map_of(es).insert(k, v);
    assert forall|key: Seq<char>| #[trigger] m2.contains_key(key) <==> m1.contains_key(key) by {
        if has_key(es2, key) {
            let i = choose|i: int| 0 <= i < es2.len() && (#[trigger] es2[i]).0 == key;
            assert(es[i].0 == es2[i].0);
            assert(has_key(es, key));
        }
        if has_key(es, key) {
            let i = choose|i: int| 0 <= i < es.len() && (#[trigger] es[i]).0 == key;
            assert(es2[i].0 == es[i].0);
            assert(has_key(es2, key));
        }
        if key == k {
            assert(es2[idx].0 == k);
        }
    }
    assert forall|key: Seq<char>| #[trigger] m2.contains_key(key) implies m2[key] == m1[key] by {
        let i = choose|i: int| 0 <= i < es2.len() && (#[trigger] es2[i]).0 == key;
        lemma_map_of_at(es2, i);
        if i == idx {
            assert(m2[key] == v);
        } else {
            assert(es2[i] == es[i]);
            lemma_map_of_at(es, i);
        }
    }
    assert(m2 =~= m1);
}

/// Appending an entry whose name is new inserts it into the denoted map.
proof fn lemma_map_of_push(es: Seq<(Seq<char>, Seq<char>)>, k: Seq<char>, v: Seq<char>)
    requires
        unique_keys(es),
        !has_key(es, k),
    ensures
        unique_keys(es.push((k, v))),
        map_of(es.push((k, v))) == map_of(es).insert(k, v),
{
    let es2 = es.push((k, v));
    assert(unique_keys(es2)) by {
        assert forall|i: int, j: int|
            0 <= i < es2.len() && 0 <= j < es2.len() && i != j implies (#[trigger] es2[i]).0 != (#[trigger] es2[j]).0 by {
            if i == es.len() {
                assert(es2[j] == es[j]);
            } else if j == es.len() {
                assert(es2[i] == es[i]);
            } else {
                assert(es2[i] == es[i]);
                assert(es2[j] == es[j]);
            }
        }
    }
    let m2 = map_of(es2);
    let m1 = map_of(es).insert(k, v);
    assert forall|key: Seq<char>| #[trigger] m2.contains_key(key) <==> m1.contains_key(key) by {
        if has_key(es2, key) && key != k {
            let i = choose|i: int| 0 <= i < es2.len() && (#[trigger] es2[i]).0 == key;
            assert(i != es.len());
            assert(es[i] == es2[i]);
            assert(has_key(es, key));
        }
        if has_key(es, key) {
            let i = choose|i: int| 0 <= i < es.len() && (#[trigger] es[i]).0 == key;
            assert(es2[i] == es[i]);
            assert(has_key(es2, key));
        }
        if key == k {
            assert(es2[es.len() as int].0 == k);
        }
    }
    assert forall|key: Seq<char>| #[trigger] m2.contains_key(key) implies m2[key] == m1[key] by {
        let i = choose|i: int| 0 <= i < es2.len() && (#[trigger] es2[i]).0 == key;
        lemma_map_of_at(es2, i);
        if i == es.len() {
            assert(m2[key] == v);
        } else {
            assert(es2[i] == es[i]);
            lemma_map_of_at(es, i);
        }
    }
    assert(m2 =~= m1);
}

/// The names of a list of entries.
pub open spec fn keys_of(es: Seq<(Seq<char>, Seq<char>)>) -> Seq<Seq<char>> {
    es.map_values(|p: (Seq<char>, Seq<char>)| p.0)
}

/// With distinct names, the map has as many entries as the list.
pub proof fn lemma_map_of_len(es: Seq<(Seq<char>, Seq<char>)>)
    requires
        unique_keys(es),
    ensures
        map_of(es).dom().len() == es.len(),
        map_of(es).dom().finite(),
{
    let ks = keys_of(es);
    assert(ks.no_duplicates()) by {
        assert forall|i: int, j: int| 0 <= i < ks.len() && 0 <= j < ks.len() && i != j implies ks[i] != ks[j] by {
            assert(ks[i] == es[i].0);
            assert(ks[j] == es[j].0);
        }
    }
    ks.unique_seq_to_set();
    assert forall|key: Seq<char>| #[trigger] map_of(es).dom().contains(key) <==> ks.to_set().contains(key) by {
        if has_key(es, key) {
            let i = choose|i: int| 0 <= i < es.len() && (#[trigger] es[i]).0 == key;
            assert(ks[i] == key);
        }
        if ks.contains(key) {
            let i = choose|i: int| 0 <= i < ks.len() && ks[i] == key;
            assert(es[i].0 == key);
        }
    }
    assert(map_of(es).dom() =~= ks.to_set());
}

/// gRPC metadata (headers): names mapped to values.  The entries are kept
/// in insertion order with pairwise distinct names.
#[derive(Debug)]
pub struct GrpcMetadata {
    headers: Vec<(String, String)>,
}

impl GrpcMetadata {
    /// The entries in insertion order, as character sequences.
    pub closed spec fn entries(&self) -> Seq<(Seq<char>, Seq<char>)> {
        self.headers@.map_values(|p: (String, String)| (p.0@, p.1@))
    }

    #[verifier::type_invariant]
    closed spec fn wf(self) -> bool {
        unique_keys(self.entries())
    }
}

impl View for GrpcMetadata {
    type V = Map<Seq<char>, Seq<char>>;

    open spec fn view(&self) -> Map<Seq<char>, Seq<char>> {
        map_of(self.entries())
    }
}

impl GrpcMetadata {
    /// Metadata with no entries.
    pub fn new() -> (m: Self)
        ensures
            m@ == Map::<Seq<char>, Seq<char>>::empty(),
            m.entries().len() == 0,
    {
        let m = GrpcMetadata { headers: Vec::new() };
        assert(m.entries() =~= Seq::<(Seq<char>, Seq<char>)>::empty());
        assert(m@ =~= Map::<Seq<char>, Seq<char>>::empty());
        m
    }

    fn index_of(&self, name: &String) -> (r: Option<usize>)
        ensures
            r matches Some(i) ==> i < self.entries().len() && self.entries()[i as int].0 == name@,
            r is None ==> !has_key(self.entries(), name@),
    {
        let mut i: usize = 0;
        while i < self.headers.len()
            invariant
                i <= self.headers@.len(),
                forall|j: int| 0 <= j < i ==> (#[trigger] self.entries()[j]).0 != name@,
            decreases self.headers@.len() - i,
        {
            if self.headers[i].0 == *name {
                return Some(i);
            }
            i = i + 1;
        }
        None
    }

    /// Set `name` to `value`, replacing any earlier value of `name`.
    pub fn insert(&mut self, name: &str, value: &str)
        ensures
            final(self)@ == old(self)@.insert(name@, value@),
            old(self)@.contains_key(name@) ==> final(self).entries().len() == old(self).entries().len(),
            !old(self)@.contains_key(name@) ==> final(self).entries() == old(self).entries().push((name@, value@)),
    {
        proof { use_type_invariant(&*self); }
        let ghost es = self.entries();
        let entry = (name.to_string(), value.to_string());
        let key = name.to_string();
        match self.index_of(&key) {
            Some(i) => {
                proof { lemma_map_of_update(es, i as int, name@, value@); }
                let mut headers: Vec<(String, String)> = Vec::new();
                std::mem::swap(&mut headers, &mut self.headers);
                headers.set(i, entry);
                assert(headers@.map_values(|p: (String, String)| (p.0@, p.1@)) =~= es.update(i as int, (name@, value@)));
                *self = GrpcMetadata { headers };
            },
            None => {
                proof { lemma_map_of_push(es, name@, value@); }
                let mut headers: Vec<(String, String)> = Vec::new();
                std::mem::swap(&mut headers, &mut self.headers);
                headers.push(entry);
                assert(headers@.map_values(|p: (String, String)| (p.0@, p.1@)) =~= es.push((name@, value@)));
                *self = GrpcMetadata { headers };
            },
        }
    }

    /// Add a single header entry, returning the modified metadata.
    pub fn with_header(self, name: &str, value: &str) -> (m: Self)
        ensures
            m@ == self@.insert(name@, value@),
            self@.contains_key(name@) ==> m.entries().len() == self.entries().len(),
            !self@.contains_key(name@) ==> m.entries() == self.entries().push((name@, value@)),
    {
        let mut m = self;
        m.insert(name, value);
        m
    }

    /// The value of `name`, if present.
    pub fn get(&self, name: &str) -> (r: Option<&String>)
        ensures
            r matches Some(v) ==> self@.contains_key(name@) && v@ == self@[name@],
            r is None ==> !self@.contains_key(name@),
    {
        proof { use_type_invariant(self); }
        let key = name.to_string();
        match self.index_of(&key) {
            Some(i) => {
                proof { lemma_map_of_at(self.entries(), i as int); }
                Some(&self.headers[i].1)
            },
            None => None,
        }
    }

    /// Whether `name` is present.
    pub fn contains_key(&self, name: &str) -> (b: bool)
        ensures
            b == self@.contains_key(name@),
    {
        let key = name.to_string();
        self.index_of(&key).is_some()
    }

    /// The number of entries.
    pub fn len(&self) -> (n: usize)
        ensures
            n == self@.dom().len(),
            n == self.entries().len(),
    {
        proof {
            use_type_invariant(self);
            lemma_map_of_len(self.entries());
        }
        self.headers.len()
    }

    /// Whether there are no entries.
    pub fn is_empty(&self) -> (b: bool)
        ensures
            b == (self@.dom().len() == 0),
    {
        self.len() == 0
    }

    /// The entries in insertion order.
    pub fn pairs(&self) -> (r: &Vec<(String, String)>)
        ensures
            r@.map_values(|p: (String, String)| (p.0@, p.1@)) == self.entries(),
    {
        &self.headers
    }
}

impl Clone for GrpcMetadata {
    /// A copy with the same entries in the same order.
    fn clone(&self) -> (m: Self)
        ensures
            m.entries() == self.entries(),
            m@ == self@,
    {
        proof { use_type_invariant(self); }
        let mut headers: Vec<(String, String)> = Vec::new();
        let mut i: usize = 0;
        while i < self.headers.len()
            invariant
                i <= self.headers@.len(),
                headers@.map_values(|p: (String, String)| (p.0@, p.1@)) == self.entries().take(i as int),
            decreases self.headers@.len() - i,
        {
            let entry = (self.headers[i].0.clone(), self.headers[i].1.clone());
            let ghost prev = headers@;
            assert(self.entries()[i as int] == (self.headers@[i as int].0@, self.headers@[i as int].1@));
            headers.push(entry);
            assert(headers@ == prev.push(entry));
            assert(entry.0@ == self.headers@[i as int].0@);
            assert(entry.1@ == self.headers@[i as int].1@);
            assert(headers@.map_values(|p: (String, String)| (p.0@, p.1@))
                =~= prev.map_values(|p: (String, String)| (p.0@, p.1@)).push((entry.0@, entry.1@)));
            assert(self.entries().take(i + 1) =~= self.entries().take(i as int).push(self.entries()[i as int]));
            i = i + 1;
        }
        assert(self.entries().take(self.headers@.len() as int) =~= self.entries());
        GrpcMetadata { headers }
    }
}

impl Default for GrpcMetadata {
    fn default() -> (m: Self)
        ensures
            m@ == Map::<Seq<char>, Seq<char>>::empty(),
            m.entries().len() == 0,
    {
        GrpcMetadata::new()
    }
}

} // verus!
