//! The label mapping of a product: text keys to text values, each key once.

use vstd::prelude::*;

verus! {

/// The mapping that a list of pairs stands for, a later pair replacing an
/// earlier one with the same key.
pub open spec fn pairs_map(pairs: Seq<(Seq<char>, Seq<char>)>) -> Map<Seq<char>, Seq<char>>
    decreases pairs.len(),
{
    if pairs.len() == 0 {
        Map::empty()
    } else {
        pairs_map(pairs.drop_last()).insert(pairs.last().0, pairs.last().1)
    }
}

/// Whether no key occurs twice in a list of pairs.
pub open spec fn distinct_keys(pairs: Seq<(Seq<char>, Seq<char>)>) -> bool {
    forall|i: int, j: int|
        0 <= i < pairs.len() && 0 <= j < pairs.len() && i != j ==> pairs[i].0 != pairs[j].0
}

/// Whether some pair of the list has the key `key`.
pub open spec fn has_key(pairs: Seq<(Seq<char>, Seq<char>)>, key: Seq<char>) -> bool {
    exists|i: int| 0 <= i < pairs.len() && #[trigger] pairs[i].0 == key
}

/// The keys of the mapping are the keys of the pairs, and with distinct keys
/// each pair's value is the one the mapping holds.
pub proof fn lemma_pairs_map(pairs: Seq<(Seq<char>, Seq<char>)>)
    ensures
        forall|k: Seq<char>| pairs_map(pairs).dom().contains(k) <==> has_key(pairs, k),
        distinct_keys(pairs) ==> forall|i: int|
            0 <= i < pairs.len() ==> pairs_map(pairs)[#[trigger] pairs[i].0] == pairs[i].1,
        pairs_map(pairs).dom().finite(),
        distinct_keys(pairs) ==> pairs_map(pairs).dom().len() == pairs.len(),
    decreases pairs.len(),
{
    if pairs.len() > 0 {
        let head = pairs.drop_last();
        let last = pairs.last();
        lemma_pairs_map(head);
        assert forall|k: Seq<char>| pairs_map(pairs).dom().contains(k) <==> has_key(
            pairs,
            k,
        ) by {
            if has_key(head, k) {
                let i = choose|i: int| 0 <= i < head.len() && #[trigger] head[i].0 == k;
                assert(pairs[i].0 == k);
            }
            if k == last.0 {
                assert(pairs[pairs.len() - 1].0 == k);
            }
            if has_key(pairs, k) {
                let i = choose|i: int| 0 <= i < pairs.len() && #[trigger] pairs[i].0 == k;
                if i < head.len() {
                    assert(head[i].0 == k);
                }
            }
        }
        if distinct_keys(pairs) {
            assert(distinct_keys(head)) by {
                assert forall|i: int, j: int|
                    0 <= i < head.len() && 0 <= j < head.len() && i != j implies head[i].0
                    != head[j].0 by {
                    assert(pairs[i].0 != pairs[j].0);
                }
            }
            assert forall|i: int| 0 <= i < pairs.len() implies pairs_map(
                pairs,
            )[#[trigger] pairs[i].0] == pairs[i].1 by {
                if i < head.len() {
                    assert(head[i] == pairs[i]);
                    assert(pairs[i].0 != pairs[pairs.len() - 1].0);
                }
            }
            assert(!pairs_map(head).dom().contains(last.0)) by {
                if has_key(head, last.0) {
                    let i = choose|i: int| 0 <= i < head.len() && #[trigger] head[i].0 == last.0;
                    assert(pairs[i].0 != pairs[pairs.len() - 1].0);
                }
            }
        }
    }
}

/// A label mapping. Its entries are kept in the order in which their keys
/// were first inserted.
#[derive(Debug)]
pub struct Labels {
    entries: Vec<(String, String)>,
}

impl View for Labels {
    type V = Map<Seq<char>, Seq<char>>;

    closed spec fn view(&self) -> Map<Seq<char>, Seq<char>> {
        pairs_map(self.pairs())
    }
}

impl Labels {
    /// The entries as pairs of texts, in order.
    pub closed spec fn pairs(&self) -> Seq<(Seq<char>, Seq<char>)> {
        Seq::new(self.entries@.len(), |i: int| (self.entries@[i].0@, self.entries@[i].1@))
    }

    /// The invariant of the type: no key is held twice.
    pub closed spec fn wf(&self) -> bool {
        distinct_keys(self.pairs())
    }

    /// The view is the mapping of the pairs.
    pub proof fn lemma_view(&self)
        ensures
            self@ == pairs_map(self.pairs()),
            self.wf() == distinct_keys(self.pairs()),
    {
    }

    /// The empty mapping.
    pub fn new() -> (r: Labels)
        ensures
            r.wf(),
            r@ == Map::<Seq<char>, Seq<char>>::empty(),
            r.pairs() == Seq::<(Seq<char>, Seq<char>)>::empty(),
    {
        let r = Labels { entries: Vec::new() };
        assert(r.pairs() =~= Seq::empty());
        r
    }

    /// The position of `key` among the entries, if it is there.
    fn position(&self, key: &String) -> (r: Option<usize>)
        ensures
            match r {
                Some(i) => i < self.pairs().len() && self.pairs()[i as int].0 == key@,
                None => !has_key(self.pairs(), key@),
            },
    {
        let mut i: usize = 0;
        while i < self.entries.len()
            invariant
                i <= self.entries@.len(),
                forall|j: int| 0 <= j < i ==> self.pairs()[j].0 != key@,
            decreases self.entries@.len() - i,
        {
            if self.entries[i].0 == *key {
                return Some(i);
            }
            i = i + 1;
        }
        None
    }

    /// Sets the value of `key`, replacing the value it had.
    pub fn insert(&mut self, key: String, value: String)
        requires
            old(self).wf(),
        ensures
            final(self).wf(),
            final(self)@ == old(self)@.insert(key@, value@),
    {
        let ghost before = self.pairs();
        proof {
            lemma_pairs_map(before);
        }
        match self.position(&key) {
            Some(i) => {
                self.entries.set(i, (key, value));
                proof {
                    let after = self.pairs();
                    assert(after =~= before.update(i as int, (key@, value@)));
                    assert(distinct_keys(after)) by {
                        assert forall|a: int, b: int|
                            0 <= a < after.len() && 0 <= b < after.len() && a != b implies after[a].0
                            != after[b].0 by {
                            assert(before[a].0 != before[b].0);
                        }
                    }
                    lemma_pairs_map(after);
                    assert forall|k: Seq<char>| has_key(after, k) <==> has_key(before, k) by {
                        if has_key(after, k) {
                            let j = choose|j: int| 0 <= j < after.len() && #[trigger] after[j].0 == k;
                            assert(before[j].0 == k);
                        }
                        if has_key(before, k) {
                            let j = choose|j: int|
                                0 <= j < before.len() && #[trigger] before[j].0 == k;
                            assert(after[j].0 == k);
                        }
                    }
                    assert(has_key(before, key@)) by {
                        assert(before[i as int].0 == key@);
                    }
                    assert(pairs_map(after)[after[i as int].0] == value@);
                    assert forall|k: Seq<char>|
                        k != key@ && pairs_map(before).dom().contains(k) implies #[trigger] pairs_map(
                        after,
                    )[k] == pairs_map(before)[k] by {
                        assert(has_key(before, k));
                        let j = choose|j: int| 0 <= j < before.len() && #[trigger] before[j].0 == k;
                        assert(after[j] == before[j]);
                        assert(pairs_map(after)[after[j].0] == after[j].1);
                        assert(pairs_map(before)[before[j].0] == before[j].1);
                    }
                    assert forall|k: Seq<char>|
                        pairs_map(after).dom().contains(k) == pairs_map(before).insert(
                            key@,
                            value@,
                        ).dom().contains(k) by {
                        assert(pairs_map(after).dom().contains(k) <==> has_key(after, k));
                        assert(pairs_map(before).dom().contains(k) <==> has_key(before, k));
                    }
                    assert(pairs_map(after) =~= pairs_map(before).insert(key@, value@));
                }
            },
            None => {
                self.entries.push((key, value));
                proof {
                    let after = self.pairs();
                    assert(after =~= before.push((key@, value@)));
                    assert(after.drop_last() =~= before);
                    assert(distinct_keys(after)) by {
                        assert forall|a: int, b: int|
                            0 <= a < after.len() && 0 <= b < after.len() && a != b implies after[a].0
                            != after[b].0 by {
                            if a < before.len() && b < before.len() {
                                assert(before[a].0 != before[b].0);
                            } else if a < before.len() {
                                assert(before[a].0 == after[a].0);
                            } else {
                                assert(before[b].0 == after[b].0);
                            }
                        }
                    }
                }
            },
        }
    }

    /// The value of `key`, if the mapping has one.
    pub fn get(&self, key: &String) -> (r: Option<&String>)
        requires
            self.wf(),
        ensures
            match r {
                Some(v) => self@.dom().contains(key@) && self@[key@] == v@,
                None => !self@.dom().contains(key@),
            },
    {
        proof {
            lemma_pairs_map(self.pairs());
        }
        match self.position(key) {
            Some(i) => {
                assert(self.pairs()[i as int] == (self.entries@[i as int].0@, self.entries@[i as int].1@));
                assert(pairs_map(self.pairs())[self.pairs()[i as int].0] == self.pairs()[i as int].1);
                assert(has_key(self.pairs(), key@));
                Some(&self.entries[i].1)
            },
            None => None,
        }
    }

    /// The number of keys.
    pub fn len(&self) -> (n: usize)
        requires
            self.wf(),
        ensures
            self@.dom().finite(),
            n == self@.dom().len(),
    {
        proof {
            lemma_pairs_map(self.pairs());
        }
        self.entries.len()
    }

    /// The entries, each key once, in the order of first insertion.
    pub fn entries(&self) -> (r: &Vec<(String, String)>)
        ensures
            r@.len() == self.pairs().len(),
            forall|i: int|
                0 <= i < r@.len() ==> (#[trigger] r@[i]).0@ == self.pairs()[i].0 && r@[i].1@
                    == self.pairs()[i].1,
    {
        &self.entries
    }
}

} // verus!
