use vstd::prelude::*;

verus! {

/// A package identity: a name together with a version.  Two identities are
/// the same exactly when both fields agree.
#[derive(Debug, PartialEq, Eq)]
pub struct Package {
    pub name: String,
    pub version: String,
}

impl View for Package {
    type V = (Seq<char>, Seq<char>);

    open spec fn view(&self) -> (Seq<char>, Seq<char>) {
        (self.name@, self.version@)
    }
}

impl Package {
    pub fn new(name: String, version: String) -> (r: Package)
        ensures
            r@ == (name@, version@),
    {
        Package { name, version }
    }

    /// An independent copy of this identity.
    pub fn duplicate(&self) -> (r: Package)
        ensures
            r@ == self@,
    {
        Package { name: self.name.clone(), version: self.version.clone() }
    }

    /// Whether two identities agree on both name and version.
    pub fn same_identity(&self, other: &Package) -> (r: bool)
        ensures
            r == (self@ == other@),
    {
        self.name == other.name && self.version == other.version
    }
}

/// The spec-level content of an optional metadata document: its text.
pub open spec fn doc_view(d: Option<String>) -> Option<Seq<char>> {
    match d {
        Option::None => Option::None,
        Option::Some(t) => Option::Some(t@),
    }
}

/// A mapping from package identity to an optional metadata document,
/// stored as an association list with pairwise-distinct keys.
///
/// An absent key means the package was not seen at all; a key mapped to
/// `None` means the package was seen but declared no metadata.  The two
/// states are deliberately kept apart.
pub struct DependencyMap {
    entries: Vec<(Package, Option<String>)>,
}

/// Whether no two entries of an association list share a package identity.
pub open spec fn keys_distinct(s: Seq<(Package, Option<String>)>) -> bool {
    forall|i: int, j: int| 0 <= i < j < s.len() ==> (#[trigger] s[i]).0@ != (#[trigger] s[j]).0@
}

/// The mapping denoted by an association list; a later entry for the same
/// identity overrides an earlier one.
pub open spec fn map_of(s: Seq<(Package, Option<String>)>) -> Map<
    (Seq<char>, Seq<char>),
    Option<Seq<char>>,
>
    decreases s.len(),
{
    if s.len() == 0 {
        Map::empty()
    } else {
        map_of(s.drop_last()).insert(s.last().0@, doc_view(s.last().1))
    }
}

/// An identity is in the mapping exactly when some entry carries it.
pub proof fn lemma_map_of_contains_key(
    s: Seq<(Package, Option<String>)>,
    k: (Seq<char>, Seq<char>),
)
    ensures
        map_of(s).contains_key(k) <==> exists|i: int|
            0 <= i < s.len() && (#[trigger] s[i]).0@ == k,
    decreases s.len(),
{
    if s.len() > 0 {
        lemma_map_of_contains_key(s.drop_last(), k);
        if s.last().0@ == k {
            assert(s[s.len() - 1].0@ == k);
        } else if map_of(s).contains_key(k) {
            let i = choose|i: int| 0 <= i < s.drop_last().len() && (#[trigger] s.drop_last()[i]).0@
                == k;
            assert(s[i].0@ == k);
        } else {
            assert forall|i: int| 0 <= i < s.len() implies (#[trigger] s[i]).0@ != k by {
                if i < s.len() - 1 {
                    assert(s.drop_last()[i].0@ != k);
                }
            }
        }
    }
}

/// With distinct keys, the mapping sends each entry's identity to that
/// entry's document.
pub proof fn lemma_map_of_index(s: Seq<(Package, Option<String>)>, i: int)
    requires
        keys_distinct(s),
        0 <= i < s.len(),
    ensures
        map_of(s).contains_key(s[i].0@),
        map_of(s)[s[i].0@] == doc_view(s[i].1),
    decreases s.len(),
{
    if i == s.len() - 1 {
    } else {
        assert(keys_distinct(s.drop_last())) by {
            assert forall|a: int, b: int| 0 <= a < b < s.drop_last().len() implies (#[trigger] s
                .drop_last()[a]).0@ != (#[trigger] s.drop_last()[b]).0@ by {
                assert(s[a].0@ != s[b].0@);
            }
        }
        lemma_map_of_index(s.drop_last(), i);
        assert(s.drop_last()[i] == s[i]);
        assert(s[i].0@ != s.last().0@);
    }
}

/// Removing an entry removes exactly its identity from the mapping,
/// provided keys are distinct.
pub proof fn lemma_map_of_remove(s: Seq<(Package, Option<String>)>, i: int)
    requires
        keys_distinct(s),
        0 <= i < s.len(),
    ensures
        map_of(s.remove(i)) == map_of(s).remove(s[i].0@),
    decreases s.len(),
{
    let k = s[i].0@;
    s.remove_ensures(i);
    if i == s.len() - 1 {
        assert(s.remove(i) =~= s.drop_last());
        lemma_map_of_contains_key(s.drop_last(), k);
        assert forall|a: int| 0 <= a < s.drop_last().len() implies (#[trigger] s.drop_last()[a]).0@
            != k by {
            assert(s[a].0@ != s[s.len() - 1].0@);
        }
        assert(!map_of(s.drop_last()).contains_key(k));
        assert(map_of(s.drop_last()) =~= map_of(s).remove(k));
    } else {
        let d = s.drop_last();
        assert(keys_distinct(d)) by {
            assert forall|a: int, b: int| 0 <= a < b < d.len() implies (#[trigger] d[a]).0@
                != (#[trigger] d[b]).0@ by {
                assert(s[a].0@ != s[b].0@);
            }
        }
        lemma_map_of_remove(d, i);
        d.remove_ensures(i);
        assert(s.remove(i).len() == s.len() - 1);
        assert(s.remove(i).last() == s[s.len() - 1]);
        assert(s.remove(i).drop_last() =~= d.remove(i));
        let lk = s.last().0@;
        let lv = doc_view(s.last().1);
        assert(map_of(s.remove(i)) == map_of(d.remove(i)).insert(lk, lv));
        assert(map_of(d.remove(i)) == map_of(d).remove(k));
        assert(lk != k);
        assert(map_of(d).remove(k).insert(lk, lv) =~= map_of(d).insert(lk, lv).remove(k));
    }
}

/// With distinct keys, the mapping has exactly one key per entry.
pub proof fn lemma_map_of_dom_len(s: Seq<(Package, Option<String>)>)
    requires
        keys_distinct(s),
    ensures
        map_of(s).dom().finite(),
        map_of(s).dom().len() == s.len(),
    decreases s.len(),
{
    if s.len() == 0 {
        assert(map_of(s).dom() =~= Set::empty());
    } else {
        let d = s.drop_last();
        assert(keys_distinct(d)) by {
            assert forall|a: int, b: int| 0 <= a < b < d.len() implies (#[trigger] d[a]).0@
                != (#[trigger] d[b]).0@ by {
                assert(s[a].0@ != s[b].0@);
            }
        }
        lemma_map_of_dom_len(d);
        let k = s.last().0@;
        lemma_map_of_contains_key(d, k);
        assert forall|a: int| 0 <= a < d.len() implies (#[trigger] d[a]).0@ != k by {
            assert(s[a].0@ != s[s.len() - 1].0@);
        }
        assert(!map_of(d).contains_key(k));
        assert(map_of(s).dom() =~= map_of(d).dom().insert(k));
    }
}

impl View for DependencyMap {
    type V = Map<(Seq<char>, Seq<char>), Option<Seq<char>>>;

    closed spec fn view(&self) -> Map<(Seq<char>, Seq<char>), Option<Seq<char>>> {
        map_of(self.entries@)
    }
}

impl DependencyMap {
    #[verifier::type_invariant]
    spec fn inv(self) -> bool {
        keys_distinct(self.entries@)
    }

    /// The empty mapping.
    pub fn new() -> (r: DependencyMap)
        ensures
            r@ == Map::<(Seq<char>, Seq<char>), Option<Seq<char>>>::empty(),
    {
        DependencyMap { entries: Vec::new() }
    }

    /// Index of the entry carrying `p`'s identity, if any.
    fn index_of(&self, p: &Package) -> (r: Option<usize>)
        ensures
            match r {
                Option::Some(i) => i < self.entries@.len() && self.entries@[i as int].0@ == p@,
                Option::None => forall|j: int|
                    0 <= j < self.entries@.len() ==> (#[trigger] self.entries@[j]).0@ != p@,
            },
    {
        let mut i: usize = 0;
        while i < self.entries.len()
            invariant
                0 <= i <= self.entries.len(),
                forall|j: int| 0 <= j < i ==> (#[trigger] self.entries@[j]).0@ != p@,
            decreases self.entries.len() - i,
        {
            if self.entries[i].0.same_identity(p) {
                return Some(i);
            }
            i = i + 1;
        }
        None
    }

    /// Whether the mapping has an entry for `p`.
    pub fn contains(&self, p: &Package) -> (r: bool)
        ensures
            r == self@.contains_key(p@),
    {
        proof {
            use_type_invariant(&*self);
            lemma_map_of_contains_key(self.entries@, p@);
        }
        match self.index_of(p) {
            Some(_) => true,
            None => false,
        }
    }

    /// The document recorded for `p`: `None` when `p` is not in the mapping.
    pub fn get(&self, p: &Package) -> (r: Option<&Option<String>>)
        ensures
            match r {
                Option::Some(d) => self@.contains_key(p@) && self@[p@] == doc_view(*d),
                Option::None => !self@.contains_key(p@),
            },
    {
        proof {
            use_type_invariant(&*self);
            lemma_map_of_contains_key(self.entries@, p@);
        }
        match self.index_of(p) {
            Some(i) => {
                proof {
                    lemma_map_of_index(self.entries@, i as int);
                }
                Some(&self.entries[i].1)
            },
            None => None,
        }
    }

    /// Record `doc` for `p`, replacing any earlier record.
    pub fn insert(&mut self, p: Package, doc: Option<String>)
        ensures
            final(self)@ == old(self)@.insert(p@, doc_view(doc)),
    {
        self.remove(&p);
        proof {
            use_type_invariant(&*self);
            lemma_map_of_contains_key(self.entries@, p@);
        }
        let ghost pre = self.entries@;
        let mut entries: Vec<(Package, Option<String>)> = Vec::new();
        std::mem::swap(&mut entries, &mut self.entries);
        entries.push((p, doc));
        proof {
            assert(entries@.drop_last() =~= pre);
            assert forall|a: int, b: int| 0 <= a < b < entries@.len() implies (
            #[trigger] entries@[a]).0@ != (#[trigger] entries@[b]).0@ by {
                if b < entries@.len() - 1 {
                    assert(pre[a].0@ != pre[b].0@);
                } else {
                    assert(!map_of(pre).contains_key(entries@[b].0@));
                    lemma_map_of_contains_key(pre, entries@[b].0@);
                }
            }
            assert(old(self)@.remove(entries@.last().0@).insert(
                entries@.last().0@,
                doc_view(entries@.last().1),
            ) =~= old(self)@.insert(entries@.last().0@, doc_view(entries@.last().1)));
        }
        self.entries = entries;
    }

    /// Drop any record for `p`; other records are untouched.
    pub fn remove(&mut self, p: &Package)
        ensures
            final(self)@ == old(self)@.remove(p@),
    {
        proof {
            use_type_invariant(&*self);
        }
        match self.index_of(p) {
            Some(i) => {
                proof {
                    lemma_map_of_remove(self.entries@, i as int);
                    self.entries@.remove_ensures(i as int);
                }
                let ghost pre = self.entries@;
                let mut entries: Vec<(Package, Option<String>)> = Vec::new();
                std::mem::swap(&mut entries, &mut self.entries);
                entries.remove(i);
                proof {
                    assert forall|a: int, b: int| 0 <= a < b < entries@.len() implies (
                    #[trigger] entries@[a]).0@ != (#[trigger] entries@[b]).0@ by {
                        pre.remove_ensures(i as int);
                        assert(keys_distinct(pre));
                        if b < i {
                            assert(entries@[a] == pre[a] && entries@[b] == pre[b]);
                        } else if a < i {
                            assert(entries@[a] == pre[a] && entries@[b] == pre[b + 1]);
                        } else {
                            assert(entries@[a] == pre[a + 1] && entries@[b] == pre[b + 1]);
                        }
                    }
                }
                self.entries = entries;
            },
            None => {
                proof {
                    lemma_map_of_contains_key(self.entries@, p@);
                    assert(self@ =~= self@.remove(p@));
                }
            },
        }
    }

    /// Number of identities in the mapping.
    pub fn len(&self) -> (r: usize)
        ensures
            r == self@.dom().len(),
    {
        proof {
            use_type_invariant(&*self);
            lemma_map_of_dom_len(self.entries@);
        }
        self.entries.len()
    }

    /// The underlying entries, one per identity in the mapping.
    pub fn items(&self) -> (r: &Vec<(Package, Option<String>)>)
        ensures
            keys_distinct(r@),
            map_of(r@) == self@,
    {
        proof {
            use_type_invariant(&*self);
        }
        &self.entries
    }
}

} // verus!
