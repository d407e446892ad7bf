//! The resolved variables of one run: a mapping from names to text.

use vstd::prelude::*;

verus! {

/// Whether the pair at `i` is the one for `key`.
pub open spec fn binds_at(pairs: Seq<(String, String)>, key: Seq<char>, i: int) -> bool {
    0 <= i < pairs.len() && pairs[i].0@ == key
}

/// The mapping that a list of pairs with distinct names stands for.
pub open spec fn mapping_of(pairs: Seq<(String, String)>) -> Map<Seq<char>, Seq<char>> {
    Map::new(
        |key: Seq<char>| exists|i: int| binds_at(pairs, key, i),
        |key: Seq<char>| pairs[choose|i: int| binds_at(pairs, key, i)].1@,
    )
}

/// Whether no name occurs twice.
pub open spec fn distinct_names(pairs: Seq<(String, String)>) -> bool {
    forall|i: int, j: int| 0 <= i < j < pairs.len() ==> pairs[i].0@ != pairs[j].0@
}

/// A mapping from names to text. Each name is bound once; binding it again
/// replaces the text.
pub struct Bindings {
    pub(crate) entries: Vec<(String, String)>,
}

impl View for Bindings {
    type V = Map<Seq<char>, Seq<char>>;

    closed spec fn view(&self) -> Map<Seq<char>, Seq<char>> {
        mapping_of(self.entries@)
    }
}

impl Bindings {
    #[verifier::type_invariant]
    pub(crate) closed spec fn well_formed(self) -> bool {
        distinct_names(self.entries@)
    }

    /// No bindings.
    pub fn new() -> (r: Bindings)
        ensures
            r@ == Map::<Seq<char>, Seq<char>>::empty(),
    {
        let r = Bindings { entries: Vec::new() };
        assert(r@ =~= Map::<Seq<char>, Seq<char>>::empty());
        r
    }

    /// Binds `key` to `value`, in place of what it was bound to.
    pub fn insert(&mut self, key: String, value: String)
        ensures
            final(self)@ == old(self)@.insert(key@, value@),
    {
        proof {
            use_type_invariant(&*self);
        }
        let ghost before = self.entries@;
        let ghost k = key@;
        let ghost v = value@;
        let mut entries: Vec<(String, String)> = Vec::new();
        std::mem::swap(&mut entries, &mut self.entries);
        let n: usize = entries.len();
        let mut i: usize = 0;
        while i < n && !(entries[i].0 == key)
            invariant
                i <= n,
                n == entries.len(),
                entries@ == before,
                forall|j: int| 0 <= j < i ==> before[j].0@ != key@,
            decreases n - i,
        {
            i += 1;
        }
        if i < n {
            entries.set(i, (key, value));
            proof {
                let after = entries@;
                assert(distinct_names(after)) by {
                    assert forall|a: int, b: int| 0 <= a < b < after.len() implies after[a].0@
                        != after[b].0@ by {
                        assert(after[a].0@ == before[a].0@);
                        assert(after[b].0@ == before[b].0@);
                    }
                }
                lemma_mapping_set(before, after, i as int, k, v);
            }
        } else {
            entries.push((key, value));
            proof {
                lemma_mapping_push(before, entries@, k, v);
            }
        }
        self.entries = entries;
    }

    /// The text that `key` is bound to.
    pub fn get(&self, key: &str) -> (r: Option<&String>)
        ensures
            match r {
                Some(value) => self@.contains_key(key@) && self@[key@] == value@,
                None => !self@.contains_key(key@),
            },
    {
        proof {
            use_type_invariant(self);
        }
        let wanted: String = key.to_owned();
        let n: usize = self.entries.len();
        let mut i: usize = 0;
        while i < n
            invariant
                i <= n,
                n == self.entries.len(),
                wanted@ == key@,
                distinct_names(self.entries@),
                forall|j: int| 0 <= j < i ==> self.entries@[j].0@ != key@,
            decreases n - i,
        {
            if self.entries[i].0 == wanted {
                proof {
                    lemma_mapping_at(self.entries@, i as int);
                }
                return Some(&self.entries[i].1);
            }
            i += 1;
        }
        assert(!self@.contains_key(key@)) by {
            if self@.contains_key(key@) {
                let j = choose|j: int| binds_at(self.entries@, key@, j);
                assert(binds_at(self.entries@, key@, j));
            }
        }
        None
    }

    /// Whether `key` is bound.
    pub fn contains(&self, key: &str) -> (r: bool)
        ensures
            r == self@.contains_key(key@),
    {
        self.get(key).is_some()
    }

    /// The number of names that are bound.
    pub fn len(&self) -> (n: usize)
        ensures
            self@.dom().finite(),
            n == self@.dom().len(),
    {
        proof {
            use_type_invariant(self);
            lemma_mapping_size(self.entries@);
        }
        self.entries.len()
    }

    /// The names that are bound, each once.
    pub fn names(&self) -> (r: Vec<String>)
        ensures
            r@.len() == self@.dom().len(),
            forall|i: int| 0 <= i < r@.len() ==> self@.contains_key(#[trigger] r@[i]@),
            forall|i: int, j: int| 0 <= i < j < r@.len() ==> r@[i]@ != r@[j]@,
    {
        proof {
            use_type_invariant(self);
            lemma_mapping_size(self.entries@);
        }
        let n: usize = self.entries.len();
        let mut r: Vec<String> = Vec::new();
        let mut i: usize = 0;
        while i < n
            invariant
                i <= n,
                n == self.entries.len(),
                r@.len() == i,
                forall|j: int| 0 <= j < i ==> (#[trigger] r@[j])@ == self.entries@[j].0@,
            decreases n - i,
        {
            r.push(self.entries[i].0.clone());
            i += 1;
        }
        proof {
            assert forall|j: int| 0 <= j < r@.len() implies self@.contains_key(
                #[trigger] r@[j]@,
            ) by {
                assert(binds_at(self.entries@, r@[j]@, j));
            }
        }
        r
    }
}

/// In a list with distinct names, the pair at `i` is what its name is bound
/// to.
proof fn lemma_mapping_at(pairs: Seq<(String, String)>, i: int)
    requires
        distinct_names(pairs),
        0 <= i < pairs.len(),
    ensures
        mapping_of(pairs).contains_key(pairs[i].0@),
        mapping_of(pairs)[pairs[i].0@] == pairs[i].1@,
{
    let key = pairs[i].0@;
    assert(binds_at(pairs, key, i));
    let j = choose|j: int| binds_at(pairs, key, j);
    assert(j == i) by {
        if j < i {
            assert(pairs[j].0@ != pairs[i].0@);
        }
        if i < j {
            assert(pairs[i].0@ != pairs[j].0@);
        }
    }
}

/// Replacing the pair at `i` by one of the same name rebinds that name.
proof fn lemma_mapping_set(
    before: Seq<(String, String)>,
    after: Seq<(String, String)>,
    i: int,
    key: Seq<char>,
    value: Seq<char>,
)
    requires
        distinct_names(before),
        distinct_names(after),
        0 <= i < before.len(),
        before[i].0@ == key,
        after.len() == before.len(),
        after[i].0@ == key,
        after[i].1@ == value,
        forall|j: int| 0 <= j < before.len() && j != i ==> after[j] == before[j],
    ensures
        mapping_of(after) == mapping_of(before).insert(key, value),
{
    let m = mapping_of(after);
    let w = mapping_of(before).insert(key, value);
    assert forall|k: Seq<char>| m.contains_key(k) <==> w.contains_key(k) by {
        if m.contains_key(k) {
            let j = choose|j: int| binds_at(after, k, j);
            assert(binds_at(before, k, j));
        }
        if w.contains_key(k) {
            if k == key {
                assert(binds_at(after, k, i));
            } else {
                let j = choose|j: int| binds_at(before, k, j);
                assert(binds_at(after, k, j));
            }
        }
    }
    assert forall|k: Seq<char>| m.contains_key(k) implies m[k] == w[k] by {
        let j = choose|j: int| binds_at(after, k, j);
        lemma_mapping_at(after, j);
        if j != i {
            lemma_mapping_at(before, j);
        }
    }
    assert(m =~= w);
}

/// Appending a pair with a new name binds that name.
proof fn lemma_mapping_push(
    before: Seq<(String, String)>,
    after: Seq<(String, String)>,
    key: Seq<char>,
    value: Seq<char>,
)
    requires
        distinct_names(before),
        forall|j: int| 0 <= j < before.len() ==> before[j].0@ != key,
        after.len() == before.len() + 1,
        forall|j: int| 0 <= j < before.len() ==> after[j] == before[j],
        after[before.len() as int].0@ == key,
        after[before.len() as int].1@ == value,
    ensures
        distinct_names(after),
        mapping_of(after) == mapping_of(before).insert(key, value),
{
    let n = before.len() as int;
    assert(distinct_names(after)) by {
        assert forall|a: int, b: int| 0 <= a < b < after.len() implies after[a].0@ != after[b].0@ by {
            if b < n {
                assert(before[a].0@ != before[b].0@);
            }
        }
    }
    let m = mapping_of(after);
    let w = mapping_of(before).insert(key, value);
    assert forall|k: Seq<char>| m.contains_key(k) <==> w.contains_key(k) by {
        if m.contains_key(k) {
            let j = choose|j: int| binds_at(after, k, j);
            if j < n {
                assert(binds_at(before, k, j));
            }
        }
        if w.contains_key(k) {
            if k == key {
                assert(binds_at(after, k, n));
            } else {
                let j = choose|j: int| binds_at(before, k, j);
                assert(binds_at(after, k, j));
            }
        }
    }
    assert forall|k: Seq<char>| m.contains_key(k) implies m[k] == w[k] by {
        let j = choose|j: int| binds_at(after, k, j);
        lemma_mapping_at(after, j);
        if j < n {
            lemma_mapping_at(before, j);
        }
    }
    assert(m =~= w);
}

/// A list with distinct names binds as many names as it has pairs.
proof fn lemma_mapping_size(pairs: Seq<(String, String)>)
    requires
        distinct_names(pairs),
    ensures
        mapping_of(pairs).dom().finite(),
        mapping_of(pairs).dom().len() == pairs.len(),
    decreases pairs.len(),
{
    if pairs.len() == 0 {
        assert(mapping_of(pairs).dom() =~= Set::<Seq<char>>::empty());
    } else {
        let front = pairs.drop_last();
        let last = pairs.last();
        assert(distinct_names(front)) by {
            assert forall|a: int, b: int| 0 <= a < b < front.len() implies front[a].0@
                != front[b].0@ by {
                assert(pairs[a].0@ != pairs[b].0@);
            }
        }
        lemma_mapping_size(front);
        assert forall|j: int| 0 <= j < front.len() implies front[j].0@ != last.0@ by {
            assert(pairs[j].0@ != pairs[pairs.len() - 1].0@);
        }
        lemma_mapping_push(front, pairs, last.0@, last.1@);
        assert(!mapping_of(front).dom().contains(last.0@)) by {
            if mapping_of(front).contains_key(last.0@) {
                let j = choose|j: int| binds_at(front, last.0@, j);
                assert(binds_at(front, last.0@, j));
            }
        }
        assert(mapping_of(pairs).dom() =~= mapping_of(front).dom().insert(last.0@));
    }
}

} // verus!
