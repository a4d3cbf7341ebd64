//! A string-to-string map with last-wins insertion, used for the header
//! block of requests and responses and for URL query parameters.
//!
//! The map is held as a vector of key/value pairs with pairwise distinct
//! keys, so that serializing walks the entries in a fixed order while the
//! view is an ordinary `Map`.

use vstd::prelude::*;
use crate::text::str_eq;

verus! {

/// The map that a sequence of key/value pairs denotes, later pairs
/// overwriting earlier ones.
pub open spec fn map_of_pairs(ps: Seq<(Seq<char>, Seq<char>)>) -> Map<Seq<char>, Seq<char>>
    decreases ps.len(),
{
    if ps.len() == 0 {
        Map::empty()
    } else {
        map_of_pairs(ps.drop_last()).insert(ps.last().0, ps.last().1)
    }
}

/// Whether the keys of `ps` are pairwise distinct.
pub open spec fn keys_distinct(ps: Seq<(Seq<char>, Seq<char>)>) -> bool {
    forall|i: int, j: int| 0 <= i < j < ps.len() ==> ps[i].0 != ps[j].0
}

/// A key of the map denoted by `ps` is exactly a key of some pair.
pub proof fn lemma_map_of_pairs_dom(ps: Seq<(Seq<char>, Seq<char>)>, k: Seq<char>)
    ensures
        map_of_pairs(ps).dom().contains(k) <==> exists|i: int| 0 <= i < ps.len() && ps[i].0 == k,
    decreases ps.len(),
{
    if ps.len() > 0 {
        lemma_map_of_pairs_dom(ps.drop_last(), k);
        if ps.last().0 == k {
            assert(ps[ps.len() - 1].0 == k);
        } else if map_of_pairs(ps.drop_last()).dom().contains(k) {
            let i = choose|i: int| 0 <= i < ps.drop_last().len() && ps.drop_last()[i].0 == k;
            assert(ps[i].0 == k);
        } else if exists|i: int| 0 <= i < ps.len() && ps[i].0 == k {
            let i = choose|i: int| 0 <= i < ps.len() && ps[i].0 == k;
            assert(0 <= i < ps.len() - 1);
            assert(ps.drop_last()[i].0 == k);
        }
    }
}

/// With distinct keys, each pair is in the denoted map.
pub proof fn lemma_map_of_pairs_get(ps: Seq<(Seq<char>, Seq<char>)>, i: int)
    requires
        keys_distinct(ps),
        0 <= i < ps.len(),
    ensures
        map_of_pairs(ps).contains_pair(ps[i].0, ps[i].1),
    decreases ps.len(),
{
    if i == ps.len() - 1 {
    } else {
        lemma_map_of_pairs_get(ps.drop_last(), i);
        assert(ps.drop_last()[i] == ps[i]);
        assert(ps[i].0 != ps.last().0);
    }
}

/// With distinct keys, the denoted map has as many entries as there are
/// pairs, and its domain is finite.
pub proof fn lemma_map_of_pairs_len(ps: Seq<(Seq<char>, Seq<char>)>)
    requires
        keys_distinct(ps),
    ensures
        map_of_pairs(ps).dom().finite(),
        map_of_pairs(ps).dom().len() == ps.len(),
    decreases ps.len(),
{
    if ps.len() > 0 {
        lemma_map_of_pairs_len(ps.drop_last());
        lemma_map_of_pairs_dom(ps.drop_last(), ps.last().0);
        assert(forall|i: int| 0 <= i < ps.len() - 1 ==> ps.drop_last()[i] == ps[i]);
        assert(!map_of_pairs(ps.drop_last()).dom().contains(ps.last().0));
    }
}

/// Removing the pair at `i` removes its key from the denoted map.
proof fn lemma_map_of_pairs_remove(ps: Seq<(Seq<char>, Seq<char>)>, i: int)
    requires
        keys_distinct(ps),
        0 <= i < ps.len(),
    ensures
        map_of_pairs(ps.remove(i)) =~= map_of_pairs(ps).remove(ps[i].0),
    decreases ps.len(),
{
    lemma_map_of_pairs_dom(ps.drop_last(), ps[i].0);
    if i == ps.len() - 1 {
        assert(ps.remove(i) =~= ps.drop_last());
        assert(!map_of_pairs(ps.drop_last()).dom().contains(ps.last().0));
        assert(map_of_pairs(ps.drop_last()).remove(ps.last().0) =~= map_of_pairs(ps.drop_last()));
    } else {
        assert(forall|j: int| 0 <= j < ps.len() - 1 ==> ps.drop_last()[j] == ps[j]);
        lemma_map_of_pairs_remove(ps.drop_last(), i);
        assert(ps.remove(i).drop_last() =~= ps.drop_last().remove(i));
        assert(ps.remove(i).last() == ps.last());
        assert(ps[i].0 != ps.last().0);
    }
}

/// Inserting under a key a map already holds overwrites rather than
/// duplicates: an earlier insertion of the same key leaves no trace,
/// neither in the entries nor in any lookup.
pub proof fn lemma_insert_overwrites(
    m: Map<Seq<char>, Seq<char>>,
    k: Seq<char>,
    v1: Seq<char>,
    v2: Seq<char>,
)
    ensures
        m.insert(k, v1).insert(k, v2) == m.insert(k, v2),
        m.insert(k, v1).insert(k, v2).dom() == m.insert(k, v2).dom(),
        m.insert(k, v1).insert(k, v2)[k] == v2,
{
    assert(m.insert(k, v1).insert(k, v2) =~= m.insert(k, v2));
    assert(m.insert(k, v1).insert(k, v2).dom() =~= m.insert(k, v2).dom());
}

/// A header map: string keys to string values, a repeated insertion
/// overwriting the earlier value.
#[derive(Debug)]
pub struct Headers {
    entries: Vec<(String, String)>,
}

impl View for Headers {
    type V = Map<Seq<char>, Seq<char>>;

    closed spec fn view(&self) -> Map<Seq<char>, Seq<char>> {
        map_of_pairs(self.pairs())
    }
}

impl Headers {
    /// The keys held are pairwise distinct.
    #[verifier::type_invariant]
    spec fn wf(self) -> bool {
        keys_distinct(self.pairs())
    }

    /// The key/value pairs, in the order serialization walks them.
    pub closed spec fn pairs(self) -> Seq<(Seq<char>, Seq<char>)> {
        self.entries@.map_values(|e: (String, String)| (e.0@, e.1@))
    }

    /// The map is the one the pairs denote.
    pub proof fn lemma_pairs(self)
        ensures
            self@ == map_of_pairs(self.pairs()),
    {
    }

    /// Creates an empty map.
    pub fn new() -> (r: Headers)
        ensures
            r@ == Map::<Seq<char>, Seq<char>>::empty(),
            r.pairs() == Seq::<(Seq<char>, Seq<char>)>::empty(),
    {
        let r = Headers { entries: Vec::new() };
        proof {
            assert(r.pairs() =~= Seq::<(Seq<char>, Seq<char>)>::empty());
        }
        r
    }

    /// The position of `key` among the entries, if it is present.
    fn position_of(&self, key: &str) -> (r: Option<usize>)
        ensures
            match r {
                Some(i) => i < self.pairs().len() && self.pairs()[i as int].0 == key@,
                None => forall|j: int| 0 <= j < self.pairs().len() ==> self.pairs()[j].0 != key@,
            },
    {
        let n = self.entries.len();
        let mut i: usize = 0;
        while i < n
            invariant
                n == self.entries@.len(),
                n == self.pairs().len(),
                0 <= i <= n,
                forall|j: int| 0 <= j < i ==> self.pairs()[j].0 != key@,
            decreases n - i,
        {
            let e = &self.entries[i];
            if str_eq(e.0.as_str(), key) {
                assert(self.pairs()[i as int].0 == key@);
                return Some(i);
            }
            assert(self.pairs()[i as int].0 != key@);
            i += 1;
        }
        None
    }

    /// Looks a key up.
    pub fn get(&self, key: &str) -> (r: Option<&String>)
        ensures
            match r {
                Some(v) => self@.dom().contains(key@) && v@ == self@[key@],
                None => !self@.dom().contains(key@),
            },
    {
        proof {
            use_type_invariant(&*self);
        }
        match self.position_of(key) {
            Some(i) => {
                proof {
                    lemma_map_of_pairs_get(self.pairs(), i as int);
                }
                Some(&self.entries[i].1)
            },
            None => {
                proof {
                    lemma_map_of_pairs_dom(self.pairs(), key@);
                }
                None
            },
        }
    }

    /// Whether a key is present.
    pub fn contains_key(&self, key: &str) -> (r: bool)
        ensures
            r == self@.dom().contains(key@),
    {
        self.get(key).is_some()
    }

    /// Inserts a key/value pair, overwriting any earlier value of the key.
    pub fn insert(&mut self, key: String, value: String)
        ensures
            final(self)@ == old(self)@.insert(key@, value@),
    {
        proof {
            use_type_invariant(&*self);
        }
        let ghost ps = self.pairs();
        let ghost pview = |e: (String, String)| (e.0@, e.1@);
        let pos = self.position_of(key.as_str());
        let mut es: Vec<(String, String)> = Vec::new();
        core::mem::swap(&mut es, &mut self.entries);
        let ghost qs = ps;
        match pos {
            Some(i) => {
                proof {
                    lemma_map_of_pairs_remove(ps, i as int);
                }
                es.remove(i);
                proof {
                    qs = ps.remove(i as int);
                    assert(es@.map_values(pview) =~= qs);
                    assert(forall|j: int| 0 <= j < qs.len() ==> qs[j].0 != key@);
                }
            },
            None => {},
        }
        es.push((key, value));
        proof {
            assert(es@.map_values(pview) =~= qs.push((key@, value@)));
            assert(keys_distinct(qs.push((key@, value@))));
        }
        self.entries = es;
        proof {
            assert(self.pairs() =~= qs.push((key@, value@)));
            assert(self.pairs().drop_last() =~= qs);
            assert(map_of_pairs(self.pairs()) == map_of_pairs(qs).insert(key@, value@));
            assert(map_of_pairs(qs).insert(key@, value@) =~= map_of_pairs(ps).insert(key@, value@));
        }
    }

    /// The number of entries.
    pub fn num_entries(&self) -> (r: usize)
        ensures
            r == self.pairs().len(),
    {
        self.entries.len()
    }

    /// The entry at a position, for walking the map in serialization order.
    pub fn entry_at(&self, i: usize) -> (r: (&String, &String))
        requires
            i < self.pairs().len(),
        ensures
            r.0@ == self.pairs()[i as int].0,
            r.1@ == self.pairs()[i as int].1,
    {
        let e = &self.entries[i];
        (&e.0, &e.1)
    }
}

impl Clone for Headers {
    fn clone(&self) -> (r: Headers)
        ensures
            r@ == self@,
            r.pairs() == self.pairs(),
    {
        proof {
            use_type_invariant(&*self);
        }
        let n = self.entries.len();
        let mut es: Vec<(String, String)> = Vec::new();
        let ghost pview = |e: (String, String)| (e.0@, e.1@);
        let mut i: usize = 0;
        while i < n
            invariant
                n == self.entries@.len(),
                0 <= i <= n,
                es@.len() == i,
                forall|j: int| 0 <= j < i ==> (#[trigger] es@[j].0@, es@[j].1@) == self.pairs()[j],
            decreases n - i,
        {
            let e = &self.entries[i];
            es.push((e.0.clone(), e.1.clone()));
            proof {
                assert((es@[i as int].0@, es@[i as int].1@) == self.pairs()[i as int]);
            }
            i += 1;
        }
        proof {
            assert(es@.map_values(pview) =~= self.pairs());
            assert(keys_distinct(es@.map_values(pview)));
        }
        let r = Headers { entries: es };
        proof {
            assert(r.pairs() =~= self.pairs());
        }
        r
    }
}

impl PartialEq for Headers {
    fn eq(&self, other: &Headers) -> (r: bool) {
        proof {
            use_type_invariant(&*self);
            use_type_invariant(&*other);
        }
        let n = self.entries.len();
        if n != other.entries.len() {
            proof {
                lemma_map_of_pairs_len(self.pairs());
                lemma_map_of_pairs_len(other.pairs());
            }
            return false;
        }
        let mut i: usize = 0;
        while i < n
            invariant
                n == self.entries@.len(),
                n == self.pairs().len(),
                n == other.pairs().len(),
                keys_distinct(self.pairs()),
                keys_distinct(other.pairs()),
                self@ == map_of_pairs(self.pairs()),
                other@ == map_of_pairs(other.pairs()),
                0 <= i <= n,
                forall|j: int|
                    0 <= j < i ==> other@.contains_pair(
                        #[trigger] self.pairs()[j].0,
                        self.pairs()[j].1,
                    ),
            decreases n - i,
        {
            let e = &self.entries[i];
            proof {
                lemma_map_of_pairs_get(self.pairs(), i as int);
            }
            match other.get(e.0.as_str()) {
                Some(w) => {
                    if !str_eq(e.1.as_str(), w.as_str()) {
                        proof {
                            assert(self@[self.pairs()[i as int].0] == self.pairs()[i as int].1);
                            assert(other@[self.pairs()[i as int].0] == w@);
                        }
                        return false;
                    }
                },
                None => {
                    proof {
                        assert(self@.dom().contains(self.pairs()[i as int].0));
                    }
                    return false;
                },
            }
            i += 1;
        }
        proof {
            lemma_map_of_pairs_len(self.pairs());
            lemma_map_of_pairs_len(other.pairs());
            assert forall|k: Seq<char>| self@.dom().contains(k) implies other@.dom().contains(k) by {
                lemma_map_of_pairs_dom(self.pairs(), k);
                let j = choose|j: int| 0 <= j < self.pairs().len() && self.pairs()[j].0 == k;
                lemma_map_of_pairs_get(self.pairs(), j);
                assert(other@.contains_pair(self.pairs()[j].0, self.pairs()[j].1));
            }
            assert forall|k: Seq<char>| self@.dom().contains(k) implies other@[k] == self@[k] by {
                lemma_map_of_pairs_dom(self.pairs(), k);
                let j = choose|j: int| 0 <= j < self.pairs().len() && self.pairs()[j].0 == k;
                lemma_map_of_pairs_get(self.pairs(), j);
                assert(other@.contains_pair(self.pairs()[j].0, self.pairs()[j].1));
            }
            assert(self@.dom().subset_of(other@.dom()));
            if !other@.dom().subset_of(self@.dom()) {
                assert(exists|k: Seq<char>| other@.dom().contains(k) && !self@.dom().contains(k));
                let k = choose|k: Seq<char>| other@.dom().contains(k) && !self@.dom().contains(k);
                self@.dom().lemma_subset_not_in_lt(other@.dom(), k);
                assert(false);
            }
            assert(self@.dom() =~= other@.dom());
            assert(self@ =~= other@);
        }
        true
    }
}

impl vstd::std_specs::cmp::PartialEqSpecImpl for Headers {
    open spec fn obeys_eq_spec() -> bool {
        true
    }

    open spec fn eq_spec(&self, other: &Headers) -> bool {
        self@ == other@
    }
}

} // verus!
