use vstd::prelude::*;

verus! {

/// The string-valued members of a JSON object: what `json[key].as_str()`
/// gives back for each key. Members whose value is not a string, and every
/// member of a value that is not an object, read as absent.
#[derive(Debug)]
pub struct JsonStrings {
    entries: Vec<(String, String)>,
}

impl JsonStrings {
    /// No two entries share a key.
    pub closed spec fn wf(&self) -> bool {
        forall|i: int, j: int|
            0 <= i < j < self.entries@.len() ==> #[trigger] self.entries@[i].0@
                != #[trigger] self.entries@[j].0@
    }

    /// Whether `key` is a member.
    pub closed spec fn has(&self, key: Seq<char>) -> bool {
        exists|i: int| 0 <= i < self.entries@.len() && #[trigger] self.entries@[i].0@ == key
    }

    /// The value of member `key`, where it is one.
    pub closed spec fn value_of(&self, key: Seq<char>) -> Seq<char> {
        let i = choose|i: int| 0 <= i < self.entries@.len() && #[trigger] self.entries@[i].0@ == key;
        self.entries@[i].1@
    }

    /// What `json[key].as_str()` gives for this object.
    pub open spec fn lookup(&self, key: Seq<char>) -> Option<Seq<char>> {
        if self.has(key) {
            Some(self.value_of(key))
        } else {
            None
        }
    }

    /// An object with no string member.
    pub fn new() -> (res: JsonStrings)
        ensures
            res.wf(),
            forall|k: Seq<char>| #[trigger] res.lookup(k) is None,
    {
        JsonStrings { entries: Vec::new() }
    }

    proof fn lemma_entry_lookup(&self, i: int)
        requires
            self.wf(),
            0 <= i < self.entries@.len(),
        ensures
            self.lookup(self.entries@[i].0@) == Some(self.entries@[i].1@),
    {
        let k = self.entries@[i].0@;
        assert(self.has(k));
        let w = choose|w: int| 0 <= w < self.entries@.len() && #[trigger] self.entries@[w].0@ == k;
        if w != i {
            if w < i {
                assert(self.entries@[w].0@ != self.entries@[i].0@);
            } else {
                assert(self.entries@[i].0@ != self.entries@[w].0@);
            }
        }
    }

    /// Records member `key` with string value `value`, replacing an earlier
    /// value of the same key, as a JSON object keeps one value per key.
    pub fn insert(&mut self, key: String, value: String)
        requires
            old(self).wf(),
        ensures
            final(self).wf(),
            final(self).lookup(key@) == Some(value@),
            forall|k: Seq<char>| k != key@ ==> #[trigger] final(self).lookup(k) == old(self).lookup(k),
    {
        let n = self.entries.len();
        let mut i: usize = 0;
        while i < n
            invariant
                n == self.entries@.len(),
                0 <= i <= n,
                self.wf(),
                *self == *old(self),
                forall|j: int| 0 <= j < i ==> #[trigger] self.entries@[j].0@ != key@,
            decreases n - i,
        {
            if self.entries[i].0 == key {
                let ghost pre = *self;
                self.entries.set(i, (key, value));
                proof {
                    assert(self.wf()) by {
                        assert forall|a: int, b: int| 0 <= a < b < self.entries@.len()
                            implies #[trigger] self.entries@[a].0@ != #[trigger] self.entries@[b].0@ by {
                            assert(pre.entries@[a].0@ != pre.entries@[b].0@);
                        }
                    }
                    self.lemma_entry_lookup(i as int);
                    assert forall|k: Seq<char>| k != key@ implies #[trigger] self.lookup(k)
                        == pre.lookup(k) by {
                        if self.has(k) {
                            let w = choose|w: int| 0 <= w < self.entries@.len() && #[trigger] self.entries@[w].0@ == k;
                            self.lemma_entry_lookup(w);
                            pre.lemma_entry_lookup(w);
                        } else if pre.has(k) {
                            let w = choose|w: int| 0 <= w < pre.entries@.len() && #[trigger] pre.entries@[w].0@ == k;
                            assert(self.entries@[w].0@ == k);
                        }
                    }
                }
                return;
            }
            i = i + 1;
        }
        let ghost pre = *self;
        self.entries.push((key, value));
        proof {
            assert(self.wf()) by {
                assert forall|a: int, b: int| 0 <= a < b < self.entries@.len()
                    implies #[trigger] self.entries@[a].0@ != #[trigger] self.entries@[b].0@ by {
                    if b < n {
                        assert(pre.entries@[a].0@ != pre.entries@[b].0@);
                    }
                }
            }
            self.lemma_entry_lookup(n as int);
            assert forall|k: Seq<char>| k != key@ implies #[trigger] self.lookup(k) == pre.lookup(k) by {
                if self.has(k) {
                    let w = choose|w: int| 0 <= w < self.entries@.len() && #[trigger] self.entries@[w].0@ == k;
                    self.lemma_entry_lookup(w);
                    pre.lemma_entry_lookup(w);
                } else if pre.has(k) {
                    let w = choose|w: int| 0 <= w < pre.entries@.len() && #[trigger] pre.entries@[w].0@ == k;
                    assert(self.entries@[w].0@ == k);
                }
            }
        }
    }

    /// The string value of member `key`, as `json[key].as_str()` gives it.
    pub fn get_str(&self, key: &str) -> (res: Option<String>)
        requires
            self.wf(),
        ensures
            match res {
                Some(v) => self.lookup(key@) == Some(v@),
                None => self.lookup(key@) is None,
            },
    {
        let wanted = key.to_owned();
        let n = self.entries.len();
        let mut i: usize = 0;
        while i < n
            invariant
                n == self.entries@.len(),
                0 <= i <= n,
                wanted@ == key@,
                self.wf(),
                forall|j: int| 0 <= j < i ==> #[trigger] self.entries@[j].0@ != key@,
            decreases n - i,
        {
            if self.entries[i].0 == wanted {
                proof { self.lemma_entry_lookup(i as int); }
                return Some(self.entries[i].1.clone());
            }
            i = i + 1;
        }
        None
    }
}

} // verus!
