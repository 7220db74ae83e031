//! The transaction's key-value environment: a unique-key table of
//! `KEY=VALUE` pairs, the serialization one change hands to the native
//! layer, and the split that iteration applies to each native entry.

use vstd::prelude::*;

use crate::helper::bytes_equal;

verus! {

/// A well-formed environment key: non-empty, no embedded nul, and no `=`,
/// which the serialization reserves as the separator.
pub open spec fn spec_wf_key(k: Seq<u8>) -> bool {
    k.len() > 0 && forall|i: int| 0 <= i < k.len() ==> k[i] != 0 && k[i] != 61
}

/// A well-formed environment value: no embedded nul.
pub open spec fn spec_wf_value(v: Seq<u8>) -> bool {
    forall|i: int| 0 <= i < v.len() ==> v[i] != 0
}

/// Whether the table holds the key.
pub open spec fn spec_env_has(s: Seq<(Seq<u8>, Seq<u8>)>, key: Seq<u8>) -> bool {
    exists|i: int| 0 <= i < s.len() && (#[trigger] s[i]).0 == key
}

/// The position of the key in the table.
pub open spec fn spec_env_index(s: Seq<(Seq<u8>, Seq<u8>)>, key: Seq<u8>) -> int {
    choose|i: int| 0 <= i < s.len() && (#[trigger] s[i]).0 == key
}

/// The value the table holds for the key, if any.
pub open spec fn spec_env_lookup(s: Seq<(Seq<u8>, Seq<u8>)>, key: Seq<u8>) -> Option<Seq<u8>> {
    if spec_env_has(s, key) {
        Some(s[spec_env_index(s, key)].1)
    } else {
        None
    }
}

/// The environment of one transaction: entry order is kept, keys are
/// unique, and every pair is representable as a `KEY=VALUE` string.
#[derive(Debug)]
pub struct PamEnv {
    entries: Vec<(Vec<u8>, Vec<u8>)>,
}

impl PamEnv {
    /// The table as abstract key-value pairs, in entry order.
    pub closed spec fn spec_entries(&self) -> Seq<(Seq<u8>, Seq<u8>)> {
        Seq::new(self.entries@.len(), |i: int| (self.entries@[i].0@, self.entries@[i].1@))
    }

    /// Well-formedness: unique keys and representable pairs. Constructors
    /// establish it and every operation preserves it.
    pub closed spec fn wf(self) -> bool {
        let s = self.spec_entries();
        &&& forall|i: int, j: int|
            0 <= i < j < s.len() ==> (#[trigger] s[i]).0 != (#[trigger] s[j]).0
        &&& forall|i: int| 0 <= i < s.len() ==> spec_wf_key((#[trigger] s[i]).0) && spec_wf_value(
            s[i].1,
        )
    }

    /// An empty environment.
    pub fn new() -> (r: PamEnv)
        ensures
            r.wf(),
            r.spec_entries().len() == 0,
    {
        PamEnv { entries: Vec::new() }
    }

    /// Finds the position of a key, scanning in entry order.
    fn find(&self, key: &Vec<u8>) -> (r: Option<usize>)
        requires
            self.wf(),
        ensures
            r matches Some(i) ==> 0 <= i < self.spec_entries().len()
                && self.spec_entries()[i as int].0 == key@,
            r is None ==> !spec_env_has(self.spec_entries(), key@),
    {
        let n: usize = self.entries.len();
        let mut i: usize = 0;
        while i < n
            invariant
                n == self.entries@.len(),
                0 <= i <= n,
                forall|j: int| 0 <= j < i ==> self.spec_entries()[j].0 != key@,
            decreases n - i,
        {
            let hit = bytes_equal(&self.entries[i].0, key);
            if hit {
                proof {
                    assert(self.spec_entries()[i as int].0 == key@);
                }
                return Some(i);
            }
            proof {
                assert(self.spec_entries()[i as int].0 == self.entries@[i as int].0@);
            }
            i = i + 1;
        }
        proof {
            assert forall|j: int| 0 <= j < self.spec_entries().len() implies (
            #[trigger] self.spec_entries()[j]).0 != key@ by {}
        }
        None
    }

    /// Looks a key up and copies its value out; absence is no value, not an
    /// error.
    pub fn get(&self, key: &Vec<u8>) -> (r: Option<Vec<u8>>)
        requires
            self.wf(),
        ensures
            r is Some <==> spec_env_has(self.spec_entries(), key@),
            r matches Some(v) ==> spec_env_lookup(self.spec_entries(), key@) == Some(v@),
    {
        match self.find(key) {
            Some(i) => {
                let v = self.entries[i].1.clone();
                proof {
                    self.lemma_index_pins(i as int, key@);
                }
                Some(v)
            },
            None => None,
        }
    }

    /// With unique keys, any matching position is the looked-up position.
    proof fn lemma_index_pins(&self, i: int, key: Seq<u8>)
        requires
            self.wf(),
            0 <= i < self.spec_entries().len(),
            self.spec_entries()[i].0 == key,
        ensures
            spec_env_has(self.spec_entries(), key),
            spec_env_index(self.spec_entries(), key) == i,
            spec_env_lookup(self.spec_entries(), key) == Some(self.spec_entries()[i].1),
    {
        let s = self.spec_entries();
        assert(spec_env_has(s, key));
        let j = spec_env_index(s, key);
        assert(0 <= j < s.len() && s[j].0 == key);
        if j < i {
            assert(false);
        } else if i < j {
            assert(false);
        }
    }

    /// Sets a key to a value, keeping every other entry as it was, and
    /// reports the prior value if the key was present. The change is what
    /// the native layer is asked to apply as one serialized `KEY=VALUE`
    /// string.
    pub fn insert(&mut self, key: &Vec<u8>, value: &Vec<u8>) -> (prior: Option<Vec<u8>>)
        requires
            old(self).wf(),
            spec_wf_key(key@),
            spec_wf_value(value@),
        ensures
            final(self).wf(),
            prior is Some <==> spec_env_has(old(self).spec_entries(), key@),
            prior matches Some(v) ==> spec_env_lookup(old(self).spec_entries(), key@) == Some(
                v@,
            ),
            spec_env_lookup(final(self).spec_entries(), key@) == Some(value@),
            forall|k: Seq<u8>|
                k != key@ ==> spec_env_lookup(final(self).spec_entries(), k) == spec_env_lookup(
                    old(self).spec_entries(),
                    k,
                ),
    {
        let ghost s0 = self.spec_entries();
        match self.find(key) {
            Some(i) => {
                let prior_value = self.entries[i].1.clone();
                proof {
                    self.lemma_index_pins(i as int, key@);
                }
                let e = &mut self.entries[i];
                e.1 = value.clone();
                proof {
                    let s1 = self.spec_entries();
                    assert(s1.len() == s0.len());
                    assert(forall|j: int|
                        0 <= j < s1.len() ==> (#[trigger] s1[j]).0 == s0[j].0 && (j != i
                            ==> s1[j].1 == s0[j].1));
                    assert(s1[i as int].0 == key@ && s1[i as int].1 == value@);
                    assert(self.wf());
                    self.lemma_index_pins(i as int, key@);
                    assert forall|k: Seq<u8>| k != key@ implies spec_env_lookup(s1, k)
                        == spec_env_lookup(s0, k) by {
                        Self::lemma_lookup_same_keys(s0, s1, i as int, k);
                    }
                }
                Some(prior_value)
            },
            None => {
                self.entries.push((key.clone(), value.clone()));
                proof {
                    let s1 = self.spec_entries();
                    assert(s1.len() == s0.len() + 1);
                    assert(forall|j: int| 0 <= j < s0.len() ==> s1[j] == s0[j]);
                    assert(s1[s0.len() as int].0 == key@ && s1[s0.len() as int].1 == value@);
                    assert(self.wf());
                    self.lemma_index_pins(s0.len() as int, key@);
                    assert forall|k: Seq<u8>| k != key@ implies spec_env_lookup(s1, k)
                        == spec_env_lookup(s0, k) by {
                        if spec_env_has(s0, k) {
                            let j0 = spec_env_index(s0, k);
                            assert(s1[j0].0 == k);
                            assert(spec_env_has(s1, k));
                            let j1 = spec_env_index(s1, k);
                            assert(s1[j1].0 == k);
                            assert(j1 != s0.len());
                            assert(s0[j1].0 == k);
                            if j0 != j1 {
                                assert(false);
                            }
                        } else {
                            if spec_env_has(s1, k) {
                                let j1 = spec_env_index(s1, k);
                                assert(s1[j1].0 == k);
                                assert(j1 != s0.len());
                                assert(s0[j1].0 == k);
                                assert(false);
                            }
                        }
                    }
                }
                None
            },
        }
    }

    /// When two tables agree on every key and on every value except at one
    /// position, lookups for any other key agree.
    proof fn lemma_lookup_same_keys(
        s0: Seq<(Seq<u8>, Seq<u8>)>,
        s1: Seq<(Seq<u8>, Seq<u8>)>,
        i: int,
        k: Seq<u8>,
    )
        requires
            s0.len() == s1.len(),
            0 <= i < s0.len(),
            forall|j: int|
                0 <= j < s0.len() ==> (#[trigger] s1[j]).0 == s0[j].0 && (j != i ==> s1[j].1
                    == s0[j].1),
            forall|p: int, q: int|
                0 <= p < q < s0.len() ==> (#[trigger] s0[p]).0 != (#[trigger] s0[q]).0,
            s0[i].0 != k,
        ensures
            spec_env_lookup(s1, k) == spec_env_lookup(s0, k),
    {
        if spec_env_has(s0, k) {
            let j0 = spec_env_index(s0, k);
            assert(s0[j0].0 == k);
            assert(s1[j0].0 == k);
            assert(spec_env_has(s1, k));
            let j1 = spec_env_index(s1, k);
            assert(s1[j1].0 == k);
            assert(s0[j1].0 == k);
            if j0 != j1 {
                assert(false);
            }
            assert(j0 != i);
        } else {
            if spec_env_has(s1, k) {
                let j1 = spec_env_index(s1, k);
                assert(s0[j1].0 == k);
                assert(false);
            }
        }
    }

    /// Removes a key, keeping every other entry in order, and reports the
    /// prior value if the key was present.
    pub fn remove(&mut self, key: &Vec<u8>) -> (prior: Option<Vec<u8>>)
        requires
            old(self).wf(),
        ensures
            final(self).wf(),
            prior is Some <==> spec_env_has(old(self).spec_entries(), key@),
            prior matches Some(v) ==> spec_env_lookup(old(self).spec_entries(), key@) == Some(
                v@,
            ),
            spec_env_lookup(final(self).spec_entries(), key@) is None,
            forall|k: Seq<u8>|
                k != key@ ==> spec_env_lookup(final(self).spec_entries(), k) == spec_env_lookup(
                    old(self).spec_entries(),
                    k,
                ),
    {
        let ghost s0 = self.spec_entries();
        match self.find(key) {
            Some(i) => {
                proof {
                    self.lemma_index_pins(i as int, key@);
                }
                let removed = self.entries.remove(i);
                proof {
                    let s1 = self.spec_entries();
                    assert(s1.len() == s0.len() - 1);
                    assert(forall|j: int| 0 <= j < i ==> s1[j] == s0[j]);
                    assert(forall|j: int| i <= j < s1.len() ==> s1[j] == s0[j + 1]);
                    assert(self.wf());
                    if spec_env_has(s1, key@) {
                        let j1 = spec_env_index(s1, key@);
                        assert(s1[j1].0 == key@);
                        if j1 < i {
                            assert(s0[j1].0 == key@);
                            assert(false);
                        } else {
                            assert(s0[j1 + 1].0 == key@);
                            assert(false);
                        }
                    }
                    assert forall|k: Seq<u8>| k != key@ implies spec_env_lookup(s1, k)
                        == spec_env_lookup(s0, k) by {
                        Self::lemma_lookup_remove(s0, s1, i as int, k);
                    }
                }
                Some(removed.1)
            },
            None => {
                proof {
                    assert(*final(self) == *old(self));
                }
                None
            },
        }
    }

    /// When one position is cut out of a unique-key table, lookups for any
    /// key other than the cut one agree.
    proof fn lemma_lookup_remove(
        s0: Seq<(Seq<u8>, Seq<u8>)>,
        s1: Seq<(Seq<u8>, Seq<u8>)>,
        i: int,
        k: Seq<u8>,
    )
        requires
            0 <= i < s0.len(),
            s1.len() == s0.len() - 1,
            forall|j: int| 0 <= j < i ==> #[trigger] s1[j] == s0[j],
            forall|j: int| i <= j < s1.len() ==> #[trigger] s1[j] == s0[j + 1],
            forall|p: int, q: int|
                0 <= p < q < s0.len() ==> (#[trigger] s0[p]).0 != (#[trigger] s0[q]).0,
            s0[i].0 != k,
        ensures
            spec_env_lookup(s1, k) == spec_env_lookup(s0, k),
    {
        if spec_env_has(s0, k) {
            let j0 = spec_env_index(s0, k);
            assert(s0[j0].0 == k);
            assert(j0 != i);
            if j0 < i {
                assert(s1[j0].0 == k);
            } else {
                assert(s1[j0 - 1].0 == k);
            }
            assert(spec_env_has(s1, k));
            let j1 = spec_env_index(s1, k);
            assert(s1[j1].0 == k);
            let o1 = if j1 < i { j1 } else { j1 + 1 };
            assert(s0[o1].0 == k);
            if o1 != j0 {
                assert(false);
            }
        } else {
            if spec_env_has(s1, k) {
                let j1 = spec_env_index(s1, k);
                assert(s1[j1].0 == k);
                let o1 = if j1 < i { j1 } else { j1 + 1 };
                assert(s0[o1].0 == k);
                assert(false);
            }
        }
    }

    /// The entries in order, for iteration: each pair is handed out as a
    /// copy, keys first.
    pub fn iter(&self) -> (r: Vec<(Vec<u8>, Vec<u8>)>)
        ensures
            r@.len() == self.spec_entries().len(),
            forall|i: int|
                0 <= i < r@.len() ==> ((#[trigger] r@[i]).0@, r@[i].1@) == self.spec_entries()[i],
    {
        let n: usize = self.entries.len();
        let mut out: Vec<(Vec<u8>, Vec<u8>)> = Vec::new();
        let mut i: usize = 0;
        while i < n
            invariant
                n == self.entries@.len(),
                0 <= i <= n,
                out@.len() == i,
                forall|j: int|
                    0 <= j < i ==> ((#[trigger] out@[j]).0@, out@[j].1@)
                        == self.spec_entries()[j],
            decreases n - i,
        {
            let k = self.entries[i].0.clone();
            let v = self.entries[i].1.clone();
            out.push((k, v));
            i = i + 1;
        }
        out
    }
}

/// Serializes one change as the `KEY[=VALUE]` string the native layer is
/// asked to apply: with a value the pair joined by `=`, without one the bare
/// key (which asks for removal).
pub fn serialize_entry(key: &Vec<u8>, value: Option<&Vec<u8>>) -> (r: Vec<u8>)
    ensures
        value matches Some(v) ==> r@ == key@ + seq![61u8] + v@,
        value is None ==> r@ == key@,
{
    let mut out = key.clone();
    match value {
        Some(v) => {
            out.push(61);
            out.extend_from_slice(v.as_slice());
            proof {
                assert(out@ =~= key@ + seq![61u8] + v@);
            }
        },
        None => {},
    }
    out
}

/// Splits one native `KEY=VALUE` string at its first `=`: everything before
/// it is the key, everything after it the value; a string without `=` is
/// all key with an empty value.
pub fn split_entry(s: &Vec<u8>) -> (kv: (Vec<u8>, Vec<u8>))
    ensures
        (forall|j: int| 0 <= j < s@.len() ==> s@[j] != 61) ==> kv.0@ == s@ && kv.1@.len() == 0,
        (exists|j: int| 0 <= j < s@.len() && s@[j] == 61) ==> exists|p: int|
            0 <= p < s@.len() && #[trigger] s@[p] == 61 && (forall|j: int|
                0 <= j < p ==> s@[j] != 61) && kv.0@ == s@.subrange(0, p) && kv.1@
                == s@.subrange(p + 1, s@.len() as int),
{
    let n: usize = s.len();
    let mut i: usize = 0;
    while i < n
        invariant
            n == s@.len(),
            0 <= i <= n,
            forall|j: int| 0 <= j < i ==> s@[j] != 61,
        decreases n - i,
    {
        if *vstd::slice::slice_index_get(s.as_slice(), i) == 61 {
            let key = vstd::slice::slice_to_vec(vstd::slice::slice_subrange(s.as_slice(), 0, i));
            let value = vstd::slice::slice_to_vec(
                vstd::slice::slice_subrange(s.as_slice(), i + 1, n),
            );
            return (key, value);
        }
        i = i + 1;
    }
    let key = s.clone();
    let value: Vec<u8> = Vec::new();
    (key, value)
}

} // verus!
