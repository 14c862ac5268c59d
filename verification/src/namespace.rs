//! The path-keyed store of named objects.
//!
//! The ACPI namespace is a tree of named objects; this core models it as an
//! arena keyed by absolute path, with every cross-reference expressed as a
//! path lookup rather than an embedded pointer — AML's own
//! resolve-by-name semantics. The abstract state of a [`Namespace`] is a
//! map from path to value; each entry holds one object and keys are unique.

use vstd::prelude::*;

use crate::value::AmlValue;

verus! {

/// The namespace: named objects keyed by absolute path.
pub struct Namespace {
    objects: Vec<(String, AmlValue)>,
}

/// The map an object list denotes: later entries shadow earlier ones,
/// though a well-formed namespace never holds a key twice.
spec fn as_map(s: Seq<(String, AmlValue)>) -> Map<Seq<char>, AmlValue>
    decreases s.len(),
{
    if s.len() == 0 {
        Map::empty()
    } else {
        as_map(s.drop_last()).insert(s.last().0@, s.last().1)
    }
}

/// Whether `s` holds an entry for key `k`.
spec fn has_key(s: Seq<(String, AmlValue)>, k: Seq<char>) -> bool {
    exists|i: int| 0 <= i < s.len() && s[i].0@ == k
}

/// Whether no key occurs twice.
spec fn distinct_keys(s: Seq<(String, AmlValue)>) -> bool {
    forall|i: int, j: int| 0 <= i < j < s.len() ==> s[i].0@ != s[j].0@
}

impl View for Namespace {
    type V = Map<Seq<char>, AmlValue>;

    closed spec fn view(&self) -> Map<Seq<char>, AmlValue> {
        as_map(self.objects@)
    }
}

impl Namespace {
    /// Each path names at most one object.
    pub closed spec fn wf(&self) -> bool {
        distinct_keys(self.objects@)
    }

    /// The empty namespace.
    pub fn new() -> (r: Namespace)
        ensures
            r.wf(),
            r@ == Map::<Seq<char>, AmlValue>::empty(),
    {
        Namespace { objects: Vec::new() }
    }

    /// The index of the entry for `path`, when one exists.
    fn find_index(&self, path: &String) -> (r: Option<usize>)
        ensures
            match r {
                Some(i) => i < self.objects@.len() && self.objects@[i as int].0@ == path@,
                Option::None => forall|j: int|
                    0 <= j < self.objects@.len() ==> self.objects@[j].0@ != path@,
            },
    {
        let mut i: usize = 0;
        while i < self.objects.len()
            invariant
                i <= self.objects@.len(),
                forall|j: int| 0 <= j < i ==> self.objects@[j].0@ != path@,
            decreases self.objects@.len() - i,
        {
            if self.objects[i].0 == *path {
                return Some(i);
            }
            i = i + 1;
        }
        Option::None
    }

    /// Binds `path` to `value`, replacing any object the path already
    /// named.
    pub fn insert(&mut self, path: String, value: AmlValue)
        requires
            old(self).wf(),
        ensures
            final(self).wf(),
            final(self)@ == old(self)@.insert(path@, value),
    {
        let ghost pre = self.objects@;
        match self.find_index(&path) {
            Some(i) => {
                proof {
                    lemma_remove_index(pre, i as int);
                }
                self.objects.remove(i);
                proof {
                    assert(distinct_keys(self.objects@)) by {
                        assert forall|a: int, b: int|
                            0 <= a < b < self.objects@.len() implies self.objects@[a].0@
                            != self.objects@[b].0@ by {
                            assert(self.objects@[a] == if a < i {
                                pre[a]
                            } else {
                                pre[a + 1]
                            });
                            assert(self.objects@[b] == if b < i {
                                pre[b]
                            } else {
                                pre[b + 1]
                            });
                        }
                    }
                    assert forall|j: int|
                        0 <= j < self.objects@.len() implies self.objects@[j].0@ != path@ by {
                        assert(self.objects@[j] == if j < i {
                            pre[j]
                        } else {
                            pre[j + 1]
                        });
                    }
                }
                let ghost mid = self.objects@;
                self.objects.push((path, value));
                proof {
                    assert(self.objects@.drop_last() =~= mid);
                    assert(final(self)@ =~= old(self)@.insert(path@, value)) by {
                        assert(as_map(mid) =~= as_map(pre).remove(pre[i as int].0@));
                    }
                }
            },
            Option::None => {
                self.objects.push((path, value));
                proof {
                    assert(self.objects@.drop_last() =~= pre);
                }
            },
        }
    }

    /// Unbinds `path`; a path that named nothing leaves the namespace
    /// unchanged.
    pub fn remove(&mut self, path: &String)
        requires
            old(self).wf(),
        ensures
            final(self).wf(),
            final(self)@ == old(self)@.remove(path@),
    {
        let ghost pre = self.objects@;
        match self.find_index(path) {
            Some(i) => {
                proof {
                    lemma_remove_index(pre, i as int);
                }
                self.objects.remove(i);
                proof {
                    assert(distinct_keys(self.objects@)) by {
                        assert forall|a: int, b: int|
                            0 <= a < b < self.objects@.len() implies self.objects@[a].0@
                            != self.objects@[b].0@ by {
                            assert(self.objects@[a] == if a < i {
                                pre[a]
                            } else {
                                pre[a + 1]
                            });
                            assert(self.objects@[b] == if b < i {
                                pre[b]
                            } else {
                                pre[b + 1]
                            });
                        }
                    }
                }
            },
            Option::None => {
                proof {
                    lemma_membership(pre);
                    assert(final(self)@ =~= old(self)@.remove(path@));
                }
            },
        }
    }

    /// The object `path` names, when it names one.
    pub fn get(&self, path: &String) -> (r: Option<&AmlValue>)
        requires
            self.wf(),
        ensures
            match r {
                Some(v) => self@.dom().contains(path@) && *v == self@[path@],
                Option::None => !self@.dom().contains(path@),
            },
    {
        match self.find_index(path) {
            Some(i) => {
                proof {
                    lemma_membership(self.objects@);
                    lemma_values(self.objects@);
                }
                Some(&self.objects[i].1)
            },
            Option::None => {
                proof {
                    lemma_membership(self.objects@);
                }
                Option::None
            },
        }
    }

    /// Whether `path` names an object.
    pub fn contains_path(&self, path: &String) -> (r: bool)
        ensures
            r == self@.dom().contains(path@),
    {
        proof {
            lemma_membership(self.objects@);
        }
        match self.find_index(path) {
            Some(_) => true,
            Option::None => false,
        }
    }

    /// How many objects the namespace holds.
    pub fn len(&self) -> (r: usize)
        requires
            self.wf(),
        ensures
            self@.dom().finite(),
            r == self@.dom().len(),
    {
        proof {
            lemma_dom_len(self.objects@);
        }
        self.objects.len()
    }
}

/// Membership in the denoted map is having an entry.
proof fn lemma_membership(s: Seq<(String, AmlValue)>)
    ensures
        forall|k: Seq<char>| #[trigger] as_map(s).dom().contains(k) <==> has_key(s, k),
    decreases s.len(),
{
    if s.len() > 0 {
        let t = s.drop_last();
        lemma_membership(t);
        assert forall|k: Seq<char>| #[trigger] as_map(s).dom().contains(k) <==> has_key(s, k) by {
            assert(as_map(s) == as_map(t).insert(s.last().0@, s.last().1));
            if as_map(s).dom().contains(k) {
                if k == s.last().0@ {
                    assert(s[s.len() - 1].0@ == k);
                } else {
                    assert(as_map(t).dom().contains(k));
                    assert(has_key(t, k));
                    let i = choose|i: int| 0 <= i < t.len() && t[i].0@ == k;
                    assert(s[i].0@ == k);
                }
            }
            if has_key(s, k) {
                let i = choose|i: int| 0 <= i < s.len() && s[i].0@ == k;
                if i < s.len() - 1 {
                    assert(t[i].0@ == k);
                    assert(has_key(t, k));
                    assert(as_map(t).dom().contains(k));
                } else {
                    assert(k == s.last().0@);
                }
            }
        }
    }
}

/// With distinct keys, the denoted map sends each entry's key to its
/// value.
proof fn lemma_values(s: Seq<(String, AmlValue)>)
    requires
        distinct_keys(s),
    ensures
        forall|i: int| 0 <= i < s.len() ==> as_map(s)[#[trigger] s[i].0@] == s[i].1,
    decreases s.len(),
{
    if s.len() > 0 {
        assert(distinct_keys(s.drop_last()));
        lemma_values(s.drop_last());
        assert forall|i: int| 0 <= i < s.len() implies as_map(s)[s[i].0@] == s[i].1 by {
            if i < s.len() - 1 {
                assert(s[i].0@ != s.last().0@);
                assert(s.drop_last()[i] == s[i]);
            }
        }
    }
}

/// Removing the entry at `i` removes exactly its key from the denoted
/// map.
proof fn lemma_remove_index(s: Seq<(String, AmlValue)>, i: int)
    requires
        distinct_keys(s),
        0 <= i < s.len(),
    ensures
        as_map(s.remove(i)) == as_map(s).remove(s[i].0@),
    decreases s.len(),
{
    lemma_membership(s);
    lemma_membership(s.drop_last());
    if i == s.len() - 1 {
        assert(s.remove(i) =~= s.drop_last());
        assert(!has_key(s.drop_last(), s.last().0@));
        assert(as_map(s.drop_last()) =~= as_map(s.drop_last()).insert(s.last().0@, s.last().1).remove(
            s.last().0@,
        ));
    } else {
        let t = s.remove(i);
        assert(distinct_keys(s.drop_last()));
        lemma_remove_index(s.drop_last(), i);
        assert(t.drop_last() =~= s.drop_last().remove(i));
        assert(t.last() == s.last());
        assert(s[i].0@ != s.last().0@);
        assert(as_map(t) =~= as_map(s).remove(s[i].0@)) by {
            assert(as_map(t) == as_map(s.drop_last().remove(i)).insert(s.last().0@, s.last().1));
            assert(as_map(s.drop_last().remove(i)) == as_map(s.drop_last()).remove(s[i].0@));
        }
    }
}

/// With distinct keys, the denoted map has exactly one entry per object.
proof fn lemma_dom_len(s: Seq<(String, AmlValue)>)
    requires
        distinct_keys(s),
    ensures
        as_map(s).dom().finite(),
        as_map(s).dom().len() == s.len(),
    decreases s.len(),
{
    if s.len() == 0 {
        assert(as_map(s).dom() =~= Set::<Seq<char>>::empty());
    } else {
        assert(distinct_keys(s.drop_last()));
        lemma_dom_len(s.drop_last());
        lemma_membership(s.drop_last());
        assert(!as_map(s.drop_last()).dom().contains(s.last().0@));
        assert(as_map(s).dom() =~= as_map(s.drop_last()).dom().insert(s.last().0@));
    }
}

} // verus!
