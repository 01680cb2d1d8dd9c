//! A string-keyed attribute store.
//!
//! `AttrMap2` carries the named parameters of formats and format parts
//! (for example `"number:decimal-places"`). Its view is a
//! `Map<Seq<char>, Seq<char>>`; all operations are total, and a store with no
//! entries behaves exactly like a freshly created one. The entries are held as
//! an association list with pairwise distinct keys, so no allocation happens
//! before the first write.

use vstd::prelude::*;

use crate::textfmt::str_eq;

verus! {

/// Container type for attributes.
#[derive(Debug)]
pub struct AttrMap2 {
    entries: Vec<(String, String)>,
}

impl Clone for AttrMap2 {
    fn clone(&self) -> (r: Self)
        ensures
            r@ == self@,
            r.kv() == self.kv(),
    {
        let mut entries: Vec<(String, String)> = Vec::new();
        let mut i: usize = 0;
        while i < self.entries.len()
            invariant
                i <= self.entries@.len(),
                entries@.len() == i,
                forall|j: int|
                    0 <= j < i ==> entries@[j].0@ == self.entries@[j].0@ && entries@[j].1@
                        == self.entries@[j].1@,
            decreases self.entries@.len() - i,
        {
            let e = &self.entries[i];
            entries.push((e.0.clone(), e.1.clone()));
            i = i + 1;
        }
        proof {
            use_type_invariant(self);
            assert(kv_seq(entries@) =~= kv_seq(self.entries@));
        }
        AttrMap2 { entries }
    }
}

/// The key/value pairs of an association list, as character sequences.
pub open spec fn kv_seq(entries: Seq<(String, String)>) -> Seq<(Seq<char>, Seq<char>)> {
    entries.map_values(|e: (String, String)| (e.0@, e.1@))
}

/// True when the keys of `s` are pairwise distinct.
pub open spec fn unique_keys(s: Seq<(Seq<char>, Seq<char>)>) -> bool {
    forall|i: int, j: int| 0 <= i < j < s.len() ==> (#[trigger] s[i]).0 != (#[trigger] s[j]).0
}

/// The map an association list denotes (a later entry would win).
pub open spec fn map_of(s: Seq<(Seq<char>, Seq<char>)>) -> Map<Seq<char>, Seq<char>>
    decreases s.len(),
{
    if s.len() == 0 {
        Map::empty()
    } else {
        map_of(s.drop_last()).insert(s.last().0, s.last().1)
    }
}

/// The value under `k` in `m`, or `d` when `k` is absent.
pub open spec fn spec_attr_def(m: Map<Seq<char>, Seq<char>>, k: Seq<char>, d: Seq<char>) -> Seq<
    char,
> {
    if m.contains_key(k) {
        m[k]
    } else {
        d
    }
}

/// A key is in the denoted map exactly when some entry holds it.
pub proof fn lemma_map_of_contains(s: Seq<(Seq<char>, Seq<char>)>, k: Seq<char>)
    ensures
        map_of(s).contains_key(k) <==> exists|i: int| 0 <= i < s.len() && (#[trigger] s[i]).0 == k,
    decreases s.len(),
{
    if s.len() > 0 {
        lemma_map_of_contains(s.drop_last(), k);
        if map_of(s).contains_key(k) {
            if s.last().0 == k {
                assert(s[s.len() - 1].0 == k);
            } else {
                let i = choose|i: int| 0 <= i < s.drop_last().len() && (#[trigger] s.drop_last()[i]).0 == k;
                assert(s[i].0 == k);
            }
        }
        if exists|i: int| 0 <= i < s.len() && (#[trigger] s[i]).0 == k {
            let i = choose|i: int| 0 <= i < s.len() && (#[trigger] s[i]).0 == k;
            if i == s.len() - 1 {
                assert(map_of(s).contains_key(k));
            } else {
                assert(s.drop_last()[i].0 == k);
            }
        }
    }
}

/// With distinct keys, the entry holding a key gives its value in the map.
pub proof fn lemma_map_of_index(s: Seq<(Seq<char>, Seq<char>)>, i: int)
    requires
        unique_keys(s),
        0 <= i < s.len(),
    ensures
        map_of(s).contains_key(s[i].0),
        map_of(s)[s[i].0] == s[i].1,
    decreases s.len(),
{
    if i == s.len() - 1 {
    } else {
        assert(unique_keys(s.drop_last()));
        assert(s.drop_last()[i] == s[i]);
        lemma_map_of_index(s.drop_last(), i);
        assert(s[s.len() - 1].0 != s[i].0);
    }
}

/// With distinct keys, removing an entry removes exactly its key from the map.
pub proof fn lemma_map_of_remove(s: Seq<(Seq<char>, Seq<char>)>, i: int)
    requires
        unique_keys(s),
        0 <= i < s.len(),
    ensures
        map_of(s.remove(i)) == map_of(s).remove(s[i].0),
    decreases s.len(),
{
    let k = s[i].0;
    if i == s.len() - 1 {
        assert(s.remove(i) =~= s.drop_last());
        lemma_map_of_contains(s.drop_last(), k);
        assert(forall|j: int|
            0 <= j < s.drop_last().len() ==> (#[trigger] s.drop_last()[j]).0 == s[j].0);
        assert(!map_of(s.drop_last()).contains_key(k));
        assert(map_of(s.drop_last()).insert(k, s[i].1).remove(k) =~= map_of(s.drop_last()));
    } else {
        let dl = s.drop_last();
        assert(unique_keys(dl));
        lemma_map_of_remove(dl, i);
        assert(s.remove(i).drop_last() =~= dl.remove(i));
        assert(s.remove(i).last() == s.last());
        assert(s.last().0 != k);
        assert(map_of(dl).remove(k).insert(s.last().0, s.last().1) =~= map_of(dl).insert(
            s.last().0,
            s.last().1,
        ).remove(k));
    }
}

/// An association list denotes the empty map only when it has no entries.
pub proof fn lemma_map_of_empty(s: Seq<(Seq<char>, Seq<char>)>)
    ensures
        (map_of(s) == Map::<Seq<char>, Seq<char>>::empty()) <==> s.len() == 0,
{
    if s.len() > 0 {
        assert(map_of(s).contains_key(s.last().0));
    }
    if s.len() == 0 {
        assert(map_of(s) =~= Map::<Seq<char>, Seq<char>>::empty());
    }
}

impl View for AttrMap2 {
    type V = Map<Seq<char>, Seq<char>>;

    closed spec fn view(&self) -> Map<Seq<char>, Seq<char>> {
        map_of(kv_seq(self.entries@))
    }
}

impl AttrMap2 {
    /// The entries as key/value character sequences, in storage order.
    pub closed spec fn kv(&self) -> Seq<(Seq<char>, Seq<char>)> {
        kv_seq(self.entries@)
    }

    #[verifier::type_invariant]
    spec fn wf(&self) -> bool {
        unique_keys(kv_seq(self.entries@))
    }

    /// New, empty.
    pub fn new() -> (r: Self)
        ensures
            r@ == Map::<Seq<char>, Seq<char>>::empty(),
    {
        let r = AttrMap2 { entries: Vec::new() };
        proof {
            lemma_map_of_empty(r.kv());
        }
        r
    }

    /// Are there any attributes?
    pub fn is_empty(&self) -> (r: bool)
        ensures
            r <==> self@ == Map::<Seq<char>, Seq<char>>::empty(),
    {
        proof {
            lemma_map_of_empty(self.kv());
        }
        self.entries.len() == 0
    }

    /// The index of the entry holding `name`, if any.
    fn find(&self, name: &str) -> (r: Option<usize>)
        ensures
            match r {
                Some(i) => i < self.kv().len() && self.kv()[i as int].0 == name@,
                None => forall|j: int| 0 <= j < self.kv().len() ==> (#[trigger] self.kv()[j]).0 != name@,
            },
    {
        let mut i: usize = 0;
        while i < self.entries.len()
            invariant
                i <= self.kv().len(),
                self.kv().len() == self.entries@.len(),
                forall|j: int| 0 <= j < i ==> (#[trigger] self.kv()[j]).0 != name@,
            decreases self.entries@.len() - i,
        {
            let e = &self.entries[i];
            if str_eq(e.0.as_str(), name) {
                return Some(i);
            }
            i = i + 1;
        }
        None
    }

    /// Adds an attribute: afterwards `name` maps to `value`.
    pub fn set_attr(&mut self, name: &str, value: String)
        ensures
            final(self)@ == old(self)@.insert(name@, value@),
    {
        proof {
            use_type_invariant(&*self);
        }
        let ghost old_kv = self.kv();
        let found = self.find(name);
        let mut entries: Vec<(String, String)> = Vec::new();
        core::mem::swap(&mut self.entries, &mut entries);
        match found {
            Some(i) => {
                entries.remove(i);
                proof {
                    assert(kv_seq(entries@) =~= old_kv.remove(i as int));
                    lemma_map_of_remove(old_kv, i as int);
                    let mid_kv = kv_seq(entries@);
                    assert forall|a: int, b: int| 0 <= a < b < mid_kv.len() implies (
                    #[trigger] mid_kv[a]).0 != (#[trigger] mid_kv[b]).0 by {
                        let oa: int = if a < i { a } else { a + 1 };
                        let ob: int = if b < i { b } else { b + 1 };
                        assert(mid_kv[a] == old_kv[oa]);
                        assert(mid_kv[b] == old_kv[ob]);
                    }
                    lemma_map_of_contains(mid_kv, name@);
                }
            },
            None => {
                proof {
                    lemma_map_of_contains(kv_seq(entries@), name@);
                }
            },
        }
        let ghost mid_kv = kv_seq(entries@);
        proof {
            assert(!map_of(mid_kv).contains_key(name@));
            assert(unique_keys(mid_kv));
            assert forall|j: int| 0 <= j < mid_kv.len() implies (#[trigger] mid_kv[j]).0
                != name@ by {
                if mid_kv[j].0 == name@ {
                    assert(exists|x: int| 0 <= x < mid_kv.len() && (#[trigger] mid_kv[x]).0 == name@);
                    assert(map_of(mid_kv).contains_key(name@));
                }
            }
        }
        entries.push((name.to_owned(), value));
        proof {
            let new_kv = kv_seq(entries@);
            assert(new_kv.drop_last() =~= mid_kv);
            assert(new_kv.last() == (name@, value@));
            assert(map_of(new_kv) == map_of(mid_kv).insert(name@, value@));
            assert(map_of(mid_kv).insert(name@, value@) =~= map_of(old_kv).insert(name@, value@));
            assert forall|a: int, b: int| 0 <= a < b < new_kv.len() implies (
            #[trigger] new_kv[a]).0 != (#[trigger] new_kv[b]).0 by {
                assert(new_kv[a] == mid_kv[a]);
                if b == new_kv.len() - 1 {
                    assert(new_kv[b].0 == name@);
                    assert(mid_kv[a].0 != name@);
                } else {
                    assert(new_kv[b] == mid_kv[b]);
                }
            }
        }
        self.entries = entries;
    }

    /// Adds every pair of the slice, first to last.
    pub fn add_all(&mut self, data: &[(&str, String)])
        ensures
            final(self)@ == spec_add_all(old(self)@, kv_seq_ref(data@)),
    {
        let mut i: usize = 0;
        while i < data.len()
            invariant
                i <= data@.len(),
                self@ == spec_add_all(old(self)@, kv_seq_ref(data@).take(i as int)),
            decreases data@.len() - i,
        {
            let e = &data[i];
            self.set_attr(e.0, e.1.clone());
            proof {
                let s = kv_seq_ref(data@);
                assert(s.take(i + 1).drop_last() =~= s.take(i as int));
                assert(s.take(i + 1).last() == s[i as int]);
            }
            i = i + 1;
        }
        proof {
            assert(kv_seq_ref(data@).take(data@.len() as int) =~= kv_seq_ref(data@));
        }
    }

    /// Removes an attribute and hands back the value it had.
    pub fn clear_attr(&mut self, name: &str) -> (r: Option<String>)
        ensures
            final(self)@ == old(self)@.remove(name@),
            match r {
                Some(v) => old(self)@.contains_key(name@) && v@ == old(self)@[name@],
                None => !old(self)@.contains_key(name@),
            },
    {
        proof {
            use_type_invariant(&*self);
        }
        let ghost old_kv = self.kv();
        let found = self.find(name);
        match found {
            Some(i) => {
                proof {
                    lemma_map_of_index(old_kv, i as int);
                    lemma_map_of_remove(old_kv, i as int);
                }
                let mut entries: Vec<(String, String)> = Vec::new();
                core::mem::swap(&mut self.entries, &mut entries);
                let e = entries.remove(i);
                proof {
                    assert(kv_seq(entries@) =~= old_kv.remove(i as int));
                    let mid_kv = kv_seq(entries@);
                    assert forall|a: int, b: int| 0 <= a < b < mid_kv.len() implies (
                    #[trigger] mid_kv[a]).0 != (#[trigger] mid_kv[b]).0 by {
                        let oa: int = if a < i { a } else { a + 1 };
                        let ob: int = if b < i { b } else { b + 1 };
                        assert(mid_kv[a] == old_kv[oa]);
                        assert(mid_kv[b] == old_kv[ob]);
                    }
                }
                self.entries = entries;
                Some(e.1)
            },
            None => {
                proof {
                    lemma_map_of_contains(old_kv, name@);
                    assert(map_of(old_kv).remove(name@) =~= map_of(old_kv));
                }
                None
            },
        }
    }

    /// The value under `name`, if any.
    pub fn attr(&self, name: &str) -> (r: Option<&String>)
        ensures
            match r {
                Some(v) => self@.contains_key(name@) && v@ == self@[name@],
                None => !self@.contains_key(name@),
            },
    {
        proof {
            use_type_invariant(self);
        }
        match self.find(name) {
            Some(i) => {
                proof {
                    lemma_map_of_index(self.kv(), i as int);
                }
                Some(&self.entries[i].1)
            },
            None => {
                proof {
                    lemma_map_of_contains(self.kv(), name@);
                }
                None
            },
        }
    }

    /// The value under `name`, or `default` when absent.
    pub fn attr_def<'a>(&'a self, name: &str, default: &'a str) -> (r: &'a str)
        ensures
            r@ == spec_attr_def(self@, name@, default@),
    {
        match self.attr(name) {
            Some(v) => v.as_str(),
            None => default,
        }
    }

    /// The entries as owned pairs, in storage order.
    pub fn entries(&self) -> (r: Vec<(String, String)>)
        ensures
            kv_seq(r@) == self.kv(),
            forall|i: int|
                0 <= i < r@.len() ==> self@.contains_key((#[trigger] r@[i]).0@) && self@[r@[i].0@]
                    == r@[i].1@,
            forall|k: Seq<char>| self@.contains_key(k) ==> exists|i: int|
                0 <= i < r@.len() && (#[trigger] r@[i]).0@ == k,
    {
        proof {
            use_type_invariant(self);
        }
        let r = self.clone();
        proof {
            assert(kv_seq(r.entries@) =~= self.kv());
            assert forall|i: int|
                0 <= i < r.entries@.len() implies self@.contains_key(
                (#[trigger] r.entries@[i]).0@) && self@[r.entries@[i].0@] == r.entries@[i].1@ by {
                lemma_map_of_index(self.kv(), i);
            }
            assert forall|k: Seq<char>| self@.contains_key(k) implies exists|i: int|
                0 <= i < r.entries@.len() && (#[trigger] r.entries@[i]).0@ == k by {
                lemma_map_of_contains(self.kv(), k);
                let i = choose|i: int| 0 <= i < self.kv().len() && (#[trigger] self.kv()[i]).0 == k;
                assert(r.entries@[i].0@ == k);
            }
        }
        r.entries
    }
}

/// The key/value pairs of a borrowed slice, as character sequences.
pub open spec fn kv_seq_ref(entries: Seq<(&str, String)>) -> Seq<(Seq<char>, Seq<char>)> {
    entries.map_values(|e: (&str, String)| (e.0@, e.1@))
}

/// The map after inserting every pair of `s` into `m`, first to last.
pub open spec fn spec_add_all(
    m: Map<Seq<char>, Seq<char>>,
    s: Seq<(Seq<char>, Seq<char>)>,
) -> Map<Seq<char>, Seq<char>>
    decreases s.len(),
{
    if s.len() == 0 {
        m
    } else {
        spec_add_all(m, s.drop_last()).insert(s.last().0, s.last().1)
    }
}

} // verus!
