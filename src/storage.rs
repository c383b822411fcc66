//! The artifact store: a map from globally unique names to values, each
//! name set at most once.

use vstd::prelude::*;

use crate::types::ArtifactValue;

verus! {

/// Artifacts of one scenario.
pub struct Storage {
    stor: Vec<(String, ArtifactValue)>,
    contents: Ghost<Map<Seq<char>, Seq<Seq<char>>>>,
}

impl View for Storage {
    type V = Map<Seq<char>, Seq<Seq<char>>>;

    closed spec fn view(&self) -> Map<Seq<char>, Seq<Seq<char>>> {
        self.contents@
    }
}

impl Storage {
    /// Names are unique and the entries are exactly the map's contents.
    pub closed spec fn wf(&self) -> bool {
        &&& forall|i: int, j: int|
            0 <= i < j < self.stor@.len() ==> (#[trigger] self.stor@[i]).0@
                != (#[trigger] self.stor@[j]).0@
        &&& forall|i: int|
            0 <= i < self.stor@.len() ==> self.contents@.contains_key((#[trigger] self.stor@[i]).0@)
                && self.contents@[self.stor@[i].0@] == self.stor@[i].1@
        &&& forall|k: Seq<char>|
            #[trigger] self.contents@.contains_key(k) ==> exists|i: int|
                0 <= i < self.stor@.len() && (#[trigger] self.stor@[i]).0@ == k
    }

    pub fn new() -> (r: Storage)
        ensures
            r.wf(),
            r@ == Map::<Seq<char>, Seq<Seq<char>>>::empty(),
    {
        Storage { stor: Vec::new(), contents: Ghost(Map::empty()) }
    }

    fn find(&self, key: &str) -> (r: Option<usize>)
        requires
            self.wf(),
        ensures
            match r {
                Some(i) => i < self.stor@.len() && self.stor@[i as int].0@ == key@,
                None => !self@.contains_key(key@),
            },
    {
        let k = String::from_str(key);
        let mut i: usize = 0;
        while i < self.stor.len()
            invariant
                i <= self.stor@.len(),
                k@ == key@,
                forall|j: int| 0 <= j < i ==> (#[trigger] self.stor@[j]).0@ != key@,
            decreases self.stor@.len() - i,
        {
            if self.stor[i].0 == k {
                return Some(i);
            }
            i += 1;
        }
        None
    }

    /// Sets `key` to `val`. A key that is already set is an error, and the
    /// store is left as it was.
    pub fn set(&mut self, key: &str, val: ArtifactValue) -> (r: Result<(), String>)
        requires
            old(self).wf(),
        ensures
            final(self).wf(),
            old(self)@.contains_key(key@) ==> r is Err && final(self)@ == old(self)@,
            !old(self)@.contains_key(key@) ==> r is Ok && final(self)@ == old(self)@.insert(
                key@,
                val@,
            ),
    {
        match self.find(key) {
            Some(_) => {
                let mut msg = String::from_str("artifact with key '");
                msg.append(key);
                msg.append("' already exists");
                Err(msg)
            },
            None => {
                let ghost old_stor = self.stor@;
                let ghost old_map = self.contents@;
                self.stor.push((String::from_str(key), val));
                self.contents = Ghost(self.contents@.insert(key@, val@));
                assert forall|k: Seq<char>| #[trigger] self.contents@.contains_key(k) implies exists|
                    i: int,
                | 0 <= i < self.stor@.len() && (#[trigger] self.stor@[i]).0@ == k by {
                    if k == key@ {
                        assert(self.stor@[old_stor.len() as int].0@ == k);
                    } else {
                        assert(old_map.contains_key(k));
                        let i = choose|i: int| 0 <= i < old_stor.len() && (#[trigger] old_stor[i]).0@ == k;
                        assert(self.stor@[i] == old_stor[i]);
                    }
                }
                assert forall|i: int, j: int|
                    0 <= i < j < self.stor@.len() implies (#[trigger] self.stor@[i]).0@
                    != (#[trigger] self.stor@[j]).0@ by {
                    if j == old_stor.len() {
                        assert(self.stor@[i] == old_stor[i]);
                        assert(old_map.contains_key(old_stor[i].0@));
                    }
                }
                assert forall|i: int| 0 <= i < self.stor@.len() implies self.contents@.contains_key(
                    (#[trigger] self.stor@[i]).0@,
                ) && self.contents@[self.stor@[i].0@] == self.stor@[i].1@ by {
                    if i < old_stor.len() {
                        assert(self.stor@[i] == old_stor[i]);
                        assert(old_map.contains_key(old_stor[i].0@));
                    }
                }
                Ok(())
            },
        }
    }

    /// A copy of the value of `key`; a missing key is an error.
    pub fn get(&self, key: &str) -> (r: Result<ArtifactValue, String>)
        requires
            self.wf(),
        ensures
            self@.contains_key(key@) ==> r is Ok && r->Ok_0@ == self@[key@],
            !self@.contains_key(key@) ==> r is Err,
    {
        match self.find(key) {
            Some(i) => Ok(self.stor[i].1.duplicate()),
            None => {
                let mut msg = String::from_str("failed to get artifact by key '");
                msg.append(key);
                msg.append("'");
                Err(msg)
            },
        }
    }
}

/// Single assignment: once `set(key, first)` has succeeded on a store whose
/// contents were `before`, the key is present, so by the contract of `set`
/// a second `set` of it fails and leaves the store as it was, and by that
/// of `get` reading it returns `first`.
pub proof fn lemma_single_assignment(
    before: Map<Seq<char>, Seq<Seq<char>>>,
    key: Seq<char>,
    first: Seq<Seq<char>>,
)
    requires
        !before.contains_key(key),
    ensures
        before.insert(key, first).contains_key(key),
        before.insert(key, first)[key] == first,
        before.insert(key, first).remove(key) == before,
{
    assert(before.insert(key, first).remove(key) =~= before);
}

} // verus!
