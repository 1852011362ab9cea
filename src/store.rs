//! The correlation store: which experiment was last started for an issue.
//! Entries are keyed by `project#issue`; a later entry for the same issue
//! replaces the earlier one.
use vstd::prelude::*;
use crate::text::{all_digits, decimal, is_digit, lemma_decimal_digits, push_char, push_decimal};

verus! {

/// The key under which the experiment of an issue is kept.
pub open spec fn mapping_key_of(project: Seq<char>, issue_id: u64) -> Seq<char> {
    project + seq!['#'] + decimal(issue_id as nat)
}

/// The index of the last `#` in `s`, or -1 when there is none.
pub open spec fn last_hash(s: Seq<char>) -> int
    decreases s.len(),
{
    if s.len() == 0 {
        -1
    } else if s.last() == '#' {
        s.len() - 1
    } else {
        last_hash(s.drop_last())
    }
}

proof fn lemma_last_hash_before_digits(a: Seq<char>, d: Seq<char>)
    requires
        all_digits(d),
    ensures
        last_hash(a + seq!['#'] + d) == a.len(),
    decreases d.len(),
{
    let s = a + seq!['#'] + d;
    if d.len() == 0 {
        assert(s.last() == '#');
    } else {
        assert(is_digit(d[d.len() - 1]));
        assert(s.drop_last() =~= a + seq!['#'] + d.drop_last());
        lemma_last_hash_before_digits(a, d.drop_last());
    }
}

/// Two issues share a key only if they are the same issue: the number has no
/// `#`, so the last `#` of a key ends the project path.
pub proof fn lemma_mapping_key_injective(p1: Seq<char>, i1: u64, p2: Seq<char>, i2: u64)
    requires
        mapping_key_of(p1, i1) == mapping_key_of(p2, i2),
    ensures
        p1 == p2 && i1 == i2,
{
    let k = mapping_key_of(p1, i1);
    lemma_decimal_digits(i1 as nat);
    lemma_decimal_digits(i2 as nat);
    lemma_last_hash_before_digits(p1, decimal(i1 as nat));
    lemma_last_hash_before_digits(p2, decimal(i2 as nat));
    assert(p1 =~= k.take(p1.len() as int));
    assert(p2 =~= k.take(p2.len() as int));
    assert(decimal(i1 as nat) =~= k.skip(p1.len() as int + 1));
    assert(decimal(i2 as nat) =~= k.skip(p2.len() as int + 1));
}

/// Builds the key of an issue: the project path, `#`, the issue number.
pub fn make_mapping_key(project: &str, issue_id: u64) -> (r: String)
    ensures
        r@ == mapping_key_of(project@, issue_id),
{
    let mut r = String::from_str(project);
    push_char(&mut r, '#');
    push_decimal(&mut r, issue_id);
    r
}

/// Experiment names by key, each key held once.
pub struct MappingStore {
    entries: Vec<(String, String)>,
    contents: Ghost<Map<Seq<char>, Seq<char>>>,
}

impl MappingStore {
    /// Each key held once, and the contents are what the entries hold.
    pub closed spec fn wf(&self) -> bool {
        &&& forall|i: int|
            #![trigger self.entries@[i]]
            0 <= i < self.entries@.len() ==> self.contents@.contains_key(self.entries@[i].0@)
                && self.contents@[self.entries@[i].0@] == self.entries@[i].1@
        &&& forall|k: Seq<char>|
            #[trigger] self.contents@.contains_key(k) ==> exists|i: int|
                0 <= i < self.entries@.len() && #[trigger] self.entries@[i].0@ == k
        &&& forall|i: int, j: int|
            #![trigger self.entries@[i], self.entries@[j]]
            0 <= i < j < self.entries@.len() ==> self.entries@[i].0@ != self.entries@[j].0@
    }

    /// The experiment name kept under each key.
    pub closed spec fn view(&self) -> Map<Seq<char>, Seq<char>> {
        self.contents@
    }

    /// An empty store.
    pub fn new() -> (r: MappingStore)
        ensures
            r.wf(),
            r.view() == Map::<Seq<char>, Seq<char>>::empty(),
    {
        MappingStore { entries: Vec::new(), contents: Ghost(Map::empty()) }
    }

    /// The index of the entry under `key`, if there is one.
    fn position(&self, key: &String) -> (r: Option<usize>)
        requires
            self.wf(),
        ensures
            match r {
                Some(i) => i < self.entries@.len() && self.entries@[i as int].0@ == key@,
                None => !self.view().contains_key(key@),
            },
    {
        let mut i: usize = 0;
        while i < self.entries.len()
            invariant
                0 <= i <= self.entries@.len(),
                forall|j: int| 0 <= j < i ==> self.entries@[j].0@ != key@,
            decreases self.entries@.len() - i,
        {
            if self.entries[i].0 == *key {
                return Some(i);
            }
            i = i + 1;
        }
        None
    }

    /// The experiment name kept under `key`.
    pub fn get(&self, key: &String) -> (r: Option<String>)
        requires
            self.wf(),
        ensures
            match r {
                Some(name) => self.view().contains_key(key@) && name@ == self.view()[key@],
                None => !self.view().contains_key(key@),
            },
    {
        match self.position(key) {
            Some(i) => {
                assert(self.entries@[i as int].0@ == key@);
                Some(self.entries[i].1.clone())
            },
            None => None,
        }
    }

    /// Keeps `name` under `key`, replacing what was kept there.
    pub fn put(&mut self, key: String, name: String)
        requires
            old(self).wf(),
        ensures
            final(self).wf(),
            final(self).view() == old(self).view().insert(key@, name@),
    {
        let ghost k = key@;
        let ghost v = name@;
        let ghost old_entries = self.entries@;
        let ghost old_contents = self.contents@;
        match self.position(&key) {
            Some(i) => {
                self.entries.set(i, (key, name));
                self.contents = Ghost(self.contents@.insert(k, v));
                proof {
                    assert forall|j: int| 0 <= j < self.entries@.len() implies #[trigger] self.entries@[j].0@
                        == old_entries[j].0@ by {
                    }
                    assert forall|q: Seq<char>| #[trigger] self.contents@.contains_key(q) implies exists|j: int|
                        0 <= j < self.entries@.len() && #[trigger] self.entries@[j].0@ == q by {
                        if q != k {
                            assert(old_contents.contains_key(q));
                            let j = choose|j: int|
                                0 <= j < old_entries.len() && #[trigger] old_entries[j].0@ == q;
                            assert(self.entries@[j].0@ == q);
                        } else {
                            assert(self.entries@[i as int].0@ == q);
                        }
                    }
                }
            },
            None => {
                self.entries.push((key, name));
                self.contents = Ghost(self.contents@.insert(k, v));
                proof {
                    let n = old_entries.len() as int;
                    assert forall|j: int| 0 <= j < n implies #[trigger] old_entries[j].0@ != k by {
                        assert(old_contents.contains_key(old_entries[j].0@));
                    }
                    assert forall|j: int| 0 <= j < n implies #[trigger] self.entries@[j] == old_entries[j] by {
                    }
                    assert(self.entries@[n].0@ == k);
                    assert forall|q: Seq<char>| #[trigger] self.contents@.contains_key(q) implies exists|j: int|
                        0 <= j < self.entries@.len() && #[trigger] self.entries@[j].0@ == q by {
                        if q != k {
                            assert(old_contents.contains_key(q));
                            let j = choose|j: int|
                                0 <= j < old_entries.len() && #[trigger] old_entries[j].0@ == q;
                            assert(self.entries@[j].0@ == q);
                        } else {
                            assert(self.entries@[n].0@ == q);
                        }
                    }
                }
            },
        }
    }
}

} // verus!
