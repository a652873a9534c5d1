//! The flat, string-valued metadata record derived from a decoded payload.
//!
//! A record is a list of `(field name, value)` pairs with pairwise-distinct
//! names; its specification view is the map from field names to values.

use vstd::prelude::*;

verus! {

/// The pairs of a record, as sequences of characters.
pub type Entries = Seq<(Seq<char>, Seq<char>)>;

/// Whether the field names of `s` are pairwise distinct.
pub open spec fn distinct_keys(s: Entries) -> bool {
    forall|i: int, j: int|
        0 <= i < j < s.len() ==> (#[trigger] s[i]).0 != (#[trigger] s[j]).0
}

/// The map that a list of pairs denotes; a later pair for the same name
/// overrides an earlier one.
pub open spec fn entries_map(s: Entries) -> Map<Seq<char>, Seq<char>>
    decreases s.len(),
{
    if s.len() == 0 {
        Map::empty()
    } else {
        entries_map(s.drop_last()).insert(s.last().0, s.last().1)
    }
}

/// A name is in the denoted map exactly when some pair carries it.
pub proof fn lemma_entries_map_contains(s: Entries, k: Seq<char>)
    ensures
        entries_map(s).dom().contains(k) <==> (exists|i: int|
            0 <= i < s.len() && (#[trigger] s[i]).0 == k),
    decreases s.len(),
{
    if s.len() > 0 {
        lemma_entries_map_contains(s.drop_last(), k);
        if s.last().0 == k {
            assert(s[s.len() - 1].0 == k);
        } else if exists|i: int| 0 <= i < s.len() && (#[trigger] s[i]).0 == k {
            let i = choose|i: int| 0 <= i < s.len() && (#[trigger] s[i]).0 == k;
            assert(s.drop_last()[i].0 == k);
        }
    }
}

/// Under distinct names, the pair at any index gives the map's value.
pub proof fn lemma_entries_map_at(s: Entries, i: int)
    requires
        distinct_keys(s),
        0 <= i < s.len(),
    ensures
        entries_map(s).dom().contains(s[i].0),
        entries_map(s)[s[i].0] == s[i].1,
    decreases s.len(),
{
    lemma_entries_map_contains(s, s[i].0);
    if i < s.len() - 1 {
        assert(s.drop_last()[i] == s[i]);
        lemma_entries_map_at(s.drop_last(), i);
    }
}

/// Appending a pair inserts it into the denoted map.
pub proof fn lemma_entries_map_push(s: Entries, p: (Seq<char>, Seq<char>))
    ensures
        entries_map(s.push(p)) == entries_map(s).insert(p.0, p.1),
{
    assert(s.push(p).drop_last() =~= s);
    assert(s.push(p).last() == p);
}

/// The sequence `s` with the pair at `i` cut out.
pub open spec fn splice_out(s: Entries, i: int) -> Entries {
    s.subrange(0, i) + s.subrange(i + 1, s.len() as int)
}

/// Cutting out the one pair named `k` removes `k` from the denoted map.
pub proof fn lemma_entries_map_splice_out(s: Entries, i: int)
    requires
        distinct_keys(s),
        0 <= i < s.len(),
    ensures
        entries_map(splice_out(s, i)) == entries_map(s).remove(s[i].0),
        distinct_keys(splice_out(s, i)),
    decreases s.len(),
{
    let k = s[i].0;
    assert(forall|m: int|
        0 <= m < splice_out(s, i).len() ==> #[trigger] splice_out(s, i)[m] == (
        if m < i {
            s[m]
        } else {
            s[m + 1]
        }));
    if i == s.len() - 1 {
        assert(splice_out(s, i) =~= s.drop_last());
        lemma_entries_map_contains(s.drop_last(), k);
        assert(entries_map(s.drop_last()) =~= entries_map(s.drop_last()).remove(k));
        assert(entries_map(splice_out(s, i)) =~= entries_map(s).remove(k));
    } else {
        let t = s.drop_last();
        let p = s.last();
        assert(t[i] == s[i]);
        lemma_entries_map_splice_out(t, i);
        assert(splice_out(s, i) =~= splice_out(t, i).push(p));
        lemma_entries_map_push(splice_out(t, i), p);
        assert(p.0 != k);
        assert(entries_map(t).remove(k).insert(p.0, p.1) =~= entries_map(t).insert(
            p.0,
            p.1,
        ).remove(k));
        assert(entries_map(splice_out(s, i)) =~= entries_map(s).remove(k));
    }
}

/// A record: field names mapped to string values, names pairwise distinct.
#[derive(Debug)]
pub struct MetadataRecord {
    fields: Vec<(String, String)>,
}

impl View for MetadataRecord {
    type V = Map<Seq<char>, Seq<char>>;

    closed spec fn view(&self) -> Map<Seq<char>, Seq<char>> {
        entries_map(self.entries())
    }
}

impl MetadataRecord {
    /// The underlying pairs, as character sequences.
    pub closed spec fn entries(self) -> Entries {
        self.fields@.map_values(|p: (String, String)| (p.0@, p.1@))
    }

    /// Well-formed: no two pairs carry the same field name.
    pub closed spec fn wf(self) -> bool {
        distinct_keys(self.entries())
    }

    /// An empty record.
    pub fn new() -> (r: MetadataRecord)
        ensures
            r.wf(),
            r@ == Map::<Seq<char>, Seq<char>>::empty(),
            r@.dom() == Set::<Seq<char>>::empty(),
    {
        let r = MetadataRecord { fields: Vec::new() };
        proof {
            assert(r.entries() =~= Seq::empty());
            assert(r@.dom() =~= Set::empty());
        }
        r
    }

    /// Whether the record has no fields at all.
    pub fn is_empty(&self) -> (r: bool)
        ensures
            r <==> (self@.dom() == Set::<Seq<char>>::empty()),
    {
        let r = self.fields.len() == 0;
        proof {
            if self.entries().len() == 0 {
                assert(self.entries() =~= Seq::empty());
                assert(self@.dom() =~= Set::empty());
            } else {
                let s = self.entries();
                assert(entries_map(s).dom().contains(s.last().0));
            }
        }
        r
    }

    /// The value stored under `k`, if any.
    pub fn get(&self, k: &String) -> (r: Option<String>)
        requires
            self.wf(),
        ensures
            match r {
                Some(v) => self@.dom().contains(k@) && v@ == self@[k@],
                None => !self@.dom().contains(k@),
            },
    {
        let s = Ghost(self.entries());
        let n = self.fields.len();
        for i in 0..n
            invariant
                n == self.fields.len(),
                s@ == self.entries(),
                self.wf(),
                forall|m: int| 0 <= m < i ==> (#[trigger] s@[m]).0 != k@,
        {
            if self.fields[i].0 == *k {
                let v = self.fields[i].1.clone();
                proof {
                    lemma_entries_map_at(s@, i as int);
                }
                return Some(v);
            }
        }
        proof {
            lemma_entries_map_contains(s@, k@);
        }
        None
    }

    /// Removes the field named `k`, returning its value if it was present.
    pub fn remove(&mut self, k: &String) -> (r: Option<String>)
        requires
            old(self).wf(),
        ensures
            final (self).wf(),
            final (self)@ == old(self)@.remove(k@),
            match r {
                Some(v) => old(self)@.dom().contains(k@) && v@ == old(self)@[k@],
                None => !old(self)@.dom().contains(k@),
            },
    {
        let s = Ghost(self.entries());
        let n = self.fields.len();
        for i in 0..n
            invariant
                n == self.fields.len(),
                s@ == self.entries(),
                self.wf(),
                self == old(self),
                forall|m: int| 0 <= m < i ==> (#[trigger] s@[m]).0 != k@,
        {
            if self.fields[i].0 == *k {
                let v = self.fields.remove(i);
                proof {
                    lemma_entries_map_at(s@, i as int);
                    lemma_entries_map_splice_out(s@, i as int);
                    assert(self.entries() =~= splice_out(s@, i as int));
                }
                return Some(v.1);
            }
        }
        proof {
            lemma_entries_map_contains(s@, k@);
            assert(self@ =~= self@.remove(k@));
        }
        None
    }

    /// Stores `v` under the name `k`, replacing any earlier value.
    pub fn insert(&mut self, k: String, v: String)
        requires
            old(self).wf(),
        ensures
            final (self).wf(),
            final (self)@ == old(self)@.insert(k@, v@),
    {
        self.remove(&k);
        let ghost mid = self.entries();
        proof {
            lemma_entries_map_contains(mid, k@);
        }
        self.fields.push((k, v));
        proof {
            assert(self.entries() =~= mid.push((k@, v@)));
            lemma_entries_map_push(mid, (k@, v@));
            assert(entries_map(mid).insert(k@, v@) =~= old(self)@.insert(k@, v@));
            assert forall|i: int, j: int|
                0 <= i < j < self.entries().len() implies (#[trigger] self.entries()[i]).0 != (
            #[trigger] self.entries()[j]).0 by {
                if j == self.entries().len() - 1 {
                    assert(self.entries()[i] == mid[i]);
                }
            }
        }
    }
}

} // verus!
