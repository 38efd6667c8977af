//! The secondary index of the project store: slug to project identifier,
//! backed by a vector of pairs with pairwise distinct slugs and viewed as a
//! map from character sequences to identifiers.

use vstd::prelude::*;

verus! {

/// The map a sequence of (slug, id) pairs stands for. A later pair with the
/// same slug would shadow an earlier one, but a well-formed index holds each
/// slug at most once.
pub open spec fn entries_map(s: Seq<(String, u128)>) -> Map<Seq<char>, u128>
    decreases s.len(),
{
    if s.len() == 0 {
        Map::empty()
    } else {
        entries_map(s.drop_last()).insert(s.last().0@, s.last().1)
    }
}

/// Slug-to-identifier index.
pub struct SlugIndex {
    /// The (slug, id) pairs, each slug held at most once.
    pub entries: Vec<(String, u128)>,
}

impl View for SlugIndex {
    type V = Map<Seq<char>, u128>;

    open spec fn view(&self) -> Map<Seq<char>, u128> {
        entries_map(self.entries@)
    }
}

/// In an index with pairwise distinct slugs, the entry at `i` decides
/// membership and value of its slug in the map.
pub proof fn lemma_entry_in_map(s: Seq<(String, u128)>, i: int)
    requires
        forall|a: int, b: int| 0 <= a < b < s.len() ==> (#[trigger] s[a]).0@ != (#[trigger] s[b]).0@,
        0 <= i < s.len(),
    ensures
        entries_map(s).contains_key(s[i].0@),
        entries_map(s)[s[i].0@] == s[i].1,
    decreases s.len(),
{
    if i == s.len() - 1 {
    } else {
        lemma_entry_in_map(s.drop_last(), i);
        assert(s.drop_last()[i] == s[i]);
        assert(s.last().0@ != s[i].0@);
    }
}

/// A slug that no entry holds is not in the map.
proof fn lemma_absent_key(s: Seq<(String, u128)>, k: Seq<char>)
    requires
        forall|i: int| 0 <= i < s.len() ==> (#[trigger] s[i]).0@ != k,
    ensures
        !entries_map(s).contains_key(k),
    decreases s.len(),
{
    if s.len() > 0 {
        assert(forall|i: int|
            0 <= i < s.drop_last().len() ==> (#[trigger] s.drop_last()[i]).0@ != k);
        lemma_absent_key(s.drop_last(), k);
    }
}

/// A slug in the map is held by some entry.
pub proof fn lemma_present_key(s: Seq<(String, u128)>, k: Seq<char>)
    requires
        entries_map(s).contains_key(k),
    ensures
        exists|i: int| 0 <= i < s.len() && (#[trigger] s[i]).0@ == k,
{
    if forall|i: int| 0 <= i < s.len() ==> (#[trigger] s[i]).0@ != k {
        lemma_absent_key(s, k);
    }
}

/// Removing the entry at `i` removes exactly its slug from the map.
proof fn lemma_remove_entry(s: Seq<(String, u128)>, i: int)
    requires
        forall|a: int, b: int| 0 <= a < b < s.len() ==> (#[trigger] s[a]).0@ != (#[trigger] s[b]).0@,
        0 <= i < s.len(),
    ensures
        entries_map(s.remove(i)) =~= entries_map(s).remove(s[i].0@),
    decreases s.len(),
{
    let k = s[i].0@;
    if i == s.len() - 1 {
        assert(s.remove(i) =~= s.drop_last());
        assert(forall|a: int| 0 <= a < s.drop_last().len() ==> (#[trigger] s.drop_last()[a]).0@ != k);
        lemma_absent_key(s.drop_last(), k);
        assert(entries_map(s.drop_last()).insert(k, s[i].1).remove(k) =~= entries_map(
            s.drop_last(),
        ));
    } else {
        assert(forall|a: int, b: int|
            0 <= a < b < s.drop_last().len() ==> (#[trigger] s.drop_last()[a]).0@ != (
            #[trigger] s.drop_last()[b]).0@);
        lemma_remove_entry(s.drop_last(), i);
        assert(s.remove(i).drop_last() =~= s.drop_last().remove(i));
        assert(s.remove(i).last() == s.last());
        assert(s.drop_last()[i] == s[i]);
        assert(s.last().0@ != k);
    }
}

impl SlugIndex {
    /// Each slug occurs in at most one entry.
    pub open spec fn wf(&self) -> bool {
        forall|a: int, b: int|
            0 <= a < b < self.entries@.len() ==> (#[trigger] self.entries@[a]).0@ != (
            #[trigger] self.entries@[b]).0@
    }

    /// An empty index.
    pub fn new() -> (r: Self)
        ensures
            r.wf(),
            r@ == Map::<Seq<char>, u128>::empty(),
    {
        SlugIndex { entries: Vec::new() }
    }

    /// The identifier a slug maps to, if any.
    pub fn get(&self, slug: &String) -> (r: Option<u128>)
        requires
            self.wf(),
        ensures
            match r {
                Some(id) => self@.contains_key(slug@) && self@[slug@] == id,
                None => !self@.contains_key(slug@),
            },
    {
        let n = self.entries.len();
        let mut i: usize = 0;
        while i < n
            invariant
                self.wf(),
                n == self.entries@.len(),
                0 <= i <= n,
                forall|j: int| 0 <= j < i ==> (#[trigger] self.entries@[j]).0@ != slug@,
            decreases n - i,
        {
            if self.entries[i].0 == *slug {
                proof {
                    lemma_entry_in_map(self.entries@, i as int);
                }
                return Some(self.entries[i].1);
            }
            i = i + 1;
        }
        proof {
            lemma_absent_key(self.entries@, slug@);
        }
        None
    }

    /// Adds a mapping for a slug that is not yet in the index.
    pub fn insert(&mut self, slug: String, id: u128)
        requires
            old(self).wf(),
            !old(self)@.contains_key(slug@),
        ensures
            final(self).wf(),
            final(self)@ == old(self)@.insert(slug@, id),
    {
        proof {
            assert forall|j: int| 0 <= j < self.entries@.len() implies (
            #[trigger] self.entries@[j]).0@ != slug@ by {
                if self.entries@[j].0@ == slug@ {
                    lemma_entry_in_map(self.entries@, j);
                }
            }
        }
        self.entries.push((slug, id));
        proof {
            assert(self.entries@.drop_last() =~= old(self).entries@);
        }
    }

    /// Removes the mapping for a slug, if there is one.
    pub fn remove(&mut self, slug: &String)
        requires
            old(self).wf(),
        ensures
            final(self).wf(),
            final(self)@ =~= old(self)@.remove(slug@),
    {
        let n = self.entries.len();
        let mut i: usize = 0;
        while i < n
            invariant
                self.wf(),
                self == old(self),
                n == self.entries@.len(),
                0 <= i <= n,
                forall|j: int| 0 <= j < i ==> (#[trigger] self.entries@[j]).0@ != slug@,
            decreases n - i,
        {
            if self.entries[i].0 == *slug {
                proof {
                    lemma_remove_entry(self.entries@, i as int);
                }
                let ghost pre = self.entries@;
                self.entries.remove(i);
                proof {
                    assert forall|a: int, b: int|
                        0 <= a < b < self.entries@.len() implies (#[trigger] self.entries@[a]).0@
                        != (#[trigger] self.entries@[b]).0@ by {
                        assert(self.entries@[a] == if a < i { pre[a] } else { pre[a + 1] });
                        assert(self.entries@[b] == if b < i { pre[b] } else { pre[b + 1] });
                    }
                }
                return ;
            }
            i = i + 1;
        }
        proof {
            lemma_absent_key(self.entries@, slug@);
            assert(self@ =~= old(self)@.remove(slug@));
        }
    }
}

} // verus!
