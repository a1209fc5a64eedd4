use vstd::prelude::*;
use crate::stat::Stat;

verus! {

/// The quality tier of one substat roll: a multiplier on the roll's base
/// value, not a probability.
#[derive(Debug, Clone, Copy, PartialEq, Eq, Hash, Structural)]
pub enum RollQuality {
    MAX,
    HIGH,
    MID,
    LOW,
    AVG,
}

impl RollQuality {
    /// The quality with the given code (LOW 0, MID 1, HIGH 2, MAX 3, AVG 4).
    pub fn from_id(id: u32) -> (r: Option<RollQuality>)
        ensures
            r == (if id == 0 {
                Some(RollQuality::LOW)
            } else if id == 1 {
                Some(RollQuality::MID)
            } else if id == 2 {
                Some(RollQuality::HIGH)
            } else if id == 3 {
                Some(RollQuality::MAX)
            } else if id == 4 {
                Some(RollQuality::AVG)
            } else {
                None
            }),
    {
        match id {
            0 => Some(RollQuality::LOW),
            1 => Some(RollQuality::MID),
            2 => Some(RollQuality::HIGH),
            3 => Some(RollQuality::MAX),
            4 => Some(RollQuality::AVG),
            _ => None,
        }
    }
}

/// A roll counter's key: the stat rolled, the quality of the rolls and the
/// rarity of the artifacts they were rolled on.
pub type RollKey = (Stat, RollQuality, i8);

/// The counters as a map from key to count.
pub open spec fn entries_map(s: Seq<(RollKey, i8)>) -> Map<RollKey, int>
    decreases s.len(),
{
    if s.len() == 0 {
        Map::empty()
    } else {
        entries_map(s.drop_last()).insert(s.last().0, s.last().1 as int)
    }
}

/// The sum of all counts.
pub open spec fn entries_total(s: Seq<(RollKey, i8)>) -> int
    decreases s.len(),
{
    if s.len() == 0 {
        0
    } else {
        entries_total(s.drop_last()) + s.last().1
    }
}

pub open spec fn keys_unique(s: Seq<(RollKey, i8)>) -> bool {
    forall|i: int, j: int| 0 <= i < j < s.len() ==> s[i].0 != s[j].0
}

pub open spec fn counts_positive(s: Seq<(RollKey, i8)>) -> bool {
    forall|i: int| 0 <= i < s.len() ==> s[i].1 > 0
}

proof fn lemma_map_lookup(s: Seq<(RollKey, i8)>)
    requires
        keys_unique(s),
    ensures
        forall|i: int| #![auto] 0 <= i < s.len() ==> entries_map(s).contains_key(s[i].0)
            && entries_map(s)[s[i].0] == s[i].1 as int,
        forall|k: RollKey| #![auto] entries_map(s).contains_key(k) ==> exists|i: int|
            0 <= i < s.len() && s[i].0 == k,
        entries_map(s).dom().finite(),
        entries_map(s).dom().len() == s.len(),
    decreases s.len(),
{
    if s.len() > 0 {
        let p = s.drop_last();
        lemma_map_lookup(p);
        let m = entries_map(p);
        assert(!m.contains_key(s.last().0)) by {
            if m.contains_key(s.last().0) {
                let i = choose|i: int| 0 <= i < p.len() && p[i].0 == s.last().0;
                assert(s[i].0 == s[s.len() - 1].0);
            }
        }
        assert forall|k: RollKey| #![auto] entries_map(s).contains_key(k) implies exists|i: int|
            0 <= i < s.len() && s[i].0 == k by {
            if k != s.last().0 {
                let i = choose|i: int| 0 <= i < p.len() && p[i].0 == k;
                assert(s[i].0 == k);
            } else {
                assert(s[s.len() - 1].0 == k);
            }
        }
        assert forall|i: int| #![auto] 0 <= i < s.len() implies entries_map(s).contains_key(s[i].0)
            && entries_map(s)[s[i].0] == s[i].1 as int by {
            if i < s.len() - 1 {
                assert(p[i] == s[i]);
                assert(s[i].0 != s[s.len() - 1].0);
            }
        }
    }
}

proof fn lemma_total_update(s: Seq<(RollKey, i8)>, i: int, c: i8)
    requires
        0 <= i < s.len(),
    ensures
        entries_total(s.update(i, (s[i].0, c))) == entries_total(s) - s[i].1 + c,
    decreases s.len(),
{
    let t = s.update(i, (s[i].0, c));
    if i < s.len() - 1 {
        assert(t.drop_last() == s.drop_last().update(i, (s[i].0, c)));
        lemma_total_update(s.drop_last(), i, c);
    } else {
        assert(t.drop_last() == s.drop_last());
    }
}

proof fn lemma_map_update(s: Seq<(RollKey, i8)>, i: int, c: i8)
    requires
        0 <= i < s.len(),
        keys_unique(s),
    ensures
        entries_map(s.update(i, (s[i].0, c))) == entries_map(s).insert(s[i].0, c as int),
    decreases s.len(),
{
    let t = s.update(i, (s[i].0, c));
    if i < s.len() - 1 {
        let p = s.drop_last();
        assert(t.drop_last() == p.update(i, (p[i].0, c)));
        lemma_map_update(p, i, c);
        assert(s[i].0 != s[s.len() - 1].0);
        assert(entries_map(t) =~= entries_map(s).insert(s[i].0, c as int));
    } else {
        assert(t.drop_last() == s.drop_last());
        assert(entries_map(t) =~= entries_map(s).insert(s[i].0, c as int));
    }
}

proof fn lemma_remove(s: Seq<(RollKey, i8)>, i: int)
    requires
        0 <= i < s.len(),
        keys_unique(s),
    ensures
        entries_map(s.remove(i)) == entries_map(s).remove(s[i].0),
        entries_total(s.remove(i)) == entries_total(s) - s[i].1,
    decreases s.len(),
{
    let t = s.remove(i);
    let p = s.drop_last();
    if i < s.len() - 1 {
        assert(t.drop_last() == p.remove(i));
        assert(t.last() == s.last());
        lemma_remove(p, i);
        assert(s[i].0 != s[s.len() - 1].0);
        assert(entries_map(t) =~= entries_map(s).remove(s[i].0));
    } else {
        assert(t == p);
        lemma_map_lookup(p);
        assert(!entries_map(p).contains_key(s[i].0)) by {
            if entries_map(p).contains_key(s[i].0) {
                let j = choose|j: int| 0 <= j < p.len() && p[j].0 == s[i].0;
                assert(s[j].0 == s[i].0);
            }
        }
        assert(entries_map(t) =~= entries_map(s).remove(s[i].0));
    }
}

proof fn lemma_count_le_total(s: Seq<(RollKey, i8)>, i: int)
    requires
        0 <= i < s.len(),
        counts_positive(s),
    ensures
        s[i].1 <= entries_total(s),
        entries_total(s) >= 0,
    decreases s.len(),
{
    lemma_total_nonneg(s.drop_last());
    if i < s.len() - 1 {
        lemma_count_le_total(s.drop_last(), i);
    }
}

proof fn lemma_total_nonneg(s: Seq<(RollKey, i8)>)
    requires
        counts_positive(s),
    ensures
        entries_total(s) >= 0,
    decreases s.len(),
{
    if s.len() > 0 {
        lemma_total_nonneg(s.drop_last());
    }
}

/// A multiset of substat rolls: how many rolls were made for each stat,
/// quality and rarity. Keys whose count falls to zero are dropped.
pub struct RollCounts {
    entries: Vec<(RollKey, i8)>,
    total: i8,
}

impl View for RollCounts {
    type V = Map<RollKey, int>;

    closed spec fn view(&self) -> Map<RollKey, int> {
        entries_map(self.entries@)
    }
}

impl RollCounts {
    pub closed spec fn wf(&self) -> bool {
        &&& keys_unique(self.entries@)
        &&& counts_positive(self.entries@)
        &&& self.total == entries_total(self.entries@)
    }

    /// The number of rolls over all keys.
    pub closed spec fn total_spec(&self) -> int {
        entries_total(self.entries@)
    }

    /// The count for a key; zero where the key holds no rolls.
    pub open spec fn count(&self, k: RollKey) -> int {
        if self@.contains_key(k) {
            self@[k]
        } else {
            0
        }
    }

    pub proof fn lemma_wf(&self)
        requires
            self.wf(),
        ensures
            forall|k: RollKey| #[trigger] self@.contains_key(k) ==> self@[k] > 0,
            forall|k: RollKey| #[trigger] self.count(k) >= 0,
            self.total_spec() >= 0,
            self@.dom().finite(),
    {
        lemma_map_lookup(self.entries@);
        lemma_total_nonneg(self.entries@);
        assert forall|k: RollKey| #[trigger] self@.contains_key(k) implies self@[k] > 0 by {
            let i = choose|i: int| 0 <= i < self.entries@.len() && self.entries@[i].0 == k;
        }
        assert forall|k: RollKey| #[trigger] self.count(k) >= 0 by {
            if self@.contains_key(k) {
                let i = choose|i: int| 0 <= i < self.entries@.len() && self.entries@[i].0 == k;
            }
        }
    }

    /// The number of rolls over all keys is at least the count of any one
    /// key, and is zero exactly where no key holds rolls.
    pub proof fn lemma_total(&self)
        requires
            self.wf(),
        ensures
            forall|k: RollKey| #[trigger] self.count(k) <= self.total_spec(),
            self.total_spec() == 0 <==> self@.dom().len() == 0,
    {
        lemma_map_lookup(self.entries@);
        lemma_total_nonneg(self.entries@);
        assert forall|k: RollKey| #[trigger] self.count(k) <= self.total_spec() by {
            if self@.contains_key(k) {
                let i = choose|i: int| 0 <= i < self.entries@.len() && self.entries@[i].0 == k;
                lemma_count_le_total(self.entries@, i);
            }
        }
        if self.entries@.len() > 0 {
            lemma_count_le_total(self.entries@, 0);
        }
    }

    /// No rolls at all.
    pub fn new() -> (r: RollCounts)
        ensures
            r.wf(),
            r@ == Map::<RollKey, int>::empty(),
            r.total_spec() == 0,
    {
        RollCounts { entries: Vec::new(), total: 0 }
    }

    fn find(&self, k: &RollKey) -> (r: Option<usize>)
        requires
            self.wf(),
        ensures
            r.is_some() ==> r.unwrap() < self.entries@.len() && self.entries@[r.unwrap() as int].0
                == *k,
            r.is_none() ==> !self@.contains_key(*k),
    {
        let mut i: usize = 0;
        while i < self.entries.len()
            invariant
                i <= self.entries@.len(),
                forall|j: int| 0 <= j < i ==> self.entries@[j].0 != *k,
            decreases self.entries@.len() - i,
        {
            let e = &self.entries[i];
            if e.0.0 == k.0 && e.0.1 == k.1 && e.0.2 == k.2 {
                return Some(i);
            }
            i = i + 1;
        }
        proof {
            lemma_map_lookup(self.entries@);
        }
        None
    }

    /// The number of keys that hold rolls.
    pub fn len(&self) -> (r: usize)
        requires
            self.wf(),
        ensures
            r == self@.dom().len(),
    {
        proof {
            lemma_map_lookup(self.entries@);
        }
        self.entries.len()
    }

    /// Whether the key holds rolls.
    pub fn contains_key(&self, k: &RollKey) -> (r: bool)
        requires
            self.wf(),
        ensures
            r == self@.contains_key(*k),
    {
        proof {
            lemma_map_lookup(self.entries@);
        }
        self.find(k).is_some()
    }

    /// The count for the key, if it holds rolls.
    pub fn get(&self, k: &RollKey) -> (r: Option<&i8>)
        requires
            self.wf(),
        ensures
            r.is_some() == self@.contains_key(*k),
            r.is_some() ==> *r.unwrap() as int == self@[*k],
    {
        proof {
            lemma_map_lookup(self.entries@);
        }
        match self.find(k) {
            Some(i) => Some(&self.entries[i].1),
            None => None,
        }
    }

    /// The count for the key; zero where it holds no rolls.
    pub fn count_of(&self, k: &RollKey) -> (r: i8)
        requires
            self.wf(),
        ensures
            r as int == self.count(*k),
    {
        proof {
            lemma_map_lookup(self.entries@);
        }
        match self.find(k) {
            Some(i) => self.entries[i].1,
            None => 0,
        }
    }

    /// The number of rolls over all keys.
    pub fn total(&self) -> (r: i8)
        requires
            self.wf(),
        ensures
            r as int == self.total_spec(),
    {
        self.total
    }

    /// Every key with its count, each key once.
    pub fn entries(&self) -> (r: &Vec<(RollKey, i8)>)
        requires
            self.wf(),
        ensures
            entries_map(r@) == self@,
            keys_unique(r@),
            counts_positive(r@),
    {
        &self.entries
    }

    /// Adds `num` rolls to the key.
    pub(crate) fn add(&mut self, k: RollKey, num: i8)
        requires
            old(self).wf(),
            num > 0,
            old(self).total_spec() + num <= 127,
        ensures
            final(self).wf(),
            final(self)@ == old(self)@.insert(k, old(self).count(k) + num),
            final(self).total_spec() == old(self).total_spec() + num,
    {
        proof {
            lemma_map_lookup(self.entries@);
            lemma_total_nonneg(self.entries@);
        }
        match self.find(&k) {
            Some(i) => {
                proof {
                    lemma_count_le_total(self.entries@, i as int);
                    lemma_map_update(self.entries@, i as int, (self.entries@[i as int].1 + num) as i8);
                    lemma_total_update(self.entries@, i as int, (self.entries@[i as int].1 + num) as i8);
                }
                let c = self.entries[i].1;
                self.entries.set(i, (k, c + num));
            },
            None => {
                let ghost s = self.entries@;
                self.entries.push((k, num));
                proof {
                    assert(self.entries@.drop_last() == s);
                    assert forall|i: int, j: int| 0 <= i < j < self.entries@.len() implies
                        self.entries@[i].0 != self.entries@[j].0 by {
                        if j == s.len() {
                            assert(entries_map(s).contains_key(s[i].0));
                        }
                    }
                }
            },
        }
        self.total = self.total + num;
    }

    /// Takes `num` rolls from the key, dropping the key where none are left;
    /// nothing changes where the key holds no rolls.
    pub(crate) fn take(&mut self, k: RollKey, num: i8)
        requires
            old(self).wf(),
            num >= 0,
        ensures
            final(self).wf(),
            final(self)@ == (if !old(self)@.contains_key(k) {
                old(self)@
            } else if old(self)@[k] > num {
                old(self)@.insert(k, old(self)@[k] - num)
            } else {
                old(self)@.remove(k)
            }),
            final(self).total_spec() == old(self).total_spec() - (if !old(self)@.contains_key(k) {
                0
            } else if old(self)@[k] > num {
                num as int
            } else {
                old(self)@[k]
            }),
    {
        proof {
            lemma_map_lookup(self.entries@);
            lemma_total_nonneg(self.entries@);
        }
        match self.find(&k) {
            Some(i) => {
                let c = self.entries[i].1;
                proof {
                    lemma_count_le_total(self.entries@, i as int);
                }
                if c > num {
                    proof {
                        lemma_map_update(self.entries@, i as int, (c - num) as i8);
                        lemma_total_update(self.entries@, i as int, (c - num) as i8);
                    }
                    self.entries.set(i, (k, c - num));
                    self.total = self.total - num;
                } else {
                    proof {
                        lemma_remove(self.entries@, i as int);
                        lemma_map_lookup(self.entries@);
                    }
                    self.entries.remove(i);
                    self.total = self.total - c;
                    proof {
                        assert forall|a: int, b: int| 0 <= a < b < self.entries@.len() implies
                            self.entries@[a].0 != self.entries@[b].0 by {
                            let s = old(self).entries@;
                            if a >= i {
                                assert(self.entries@[a] == s[a + 1]);
                            }
                            if b >= i {
                                assert(self.entries@[b] == s[b + 1]);
                            }
                        }
                    }
                }
            },
            None => {},
        }
    }
}

} // verus!
