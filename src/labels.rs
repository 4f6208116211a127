use vstd::prelude::*;
use crate::text::same_text;

verus! {

/// A string-to-string map kept as a list of entries with distinct keys; the order of
/// the entries carries no meaning.
#[derive(Debug, Clone)]
pub struct StringMap {
    pub entries: Vec<(String, String)>,
}

/// `s` with the value of every entry whose key is `k` set to `v`.
pub open spec fn replaced(s: Seq<(Seq<char>, Seq<char>)>, k: Seq<char>, v: Seq<char>) -> Seq<
    (Seq<char>, Seq<char>),
> {
    s.map_values(|e: (Seq<char>, Seq<char>)| if e.0 == k { (k, v) } else { e })
}

pub open spec fn has_key(s: Seq<(Seq<char>, Seq<char>)>, k: Seq<char>) -> bool {
    exists|i: int| 0 <= i < s.len() && s[i].0 == k
}

impl View for StringMap {
    type V = Seq<(Seq<char>, Seq<char>)>;

    open spec fn view(&self) -> Seq<(Seq<char>, Seq<char>)> {
        self.entries@.map_values(|e: (String, String)| (e.0@, e.1@))
    }
}

impl StringMap {
    /// No key occurs twice.
    pub open spec fn wf(&self) -> bool {
        forall|i: int, j: int|
            0 <= i < self@.len() && 0 <= j < self@.len() && i != j ==> self@[i].0 != self@[j].0
    }

    pub fn new() -> (r: StringMap)
        ensures
            r.wf(),
            r@.len() == 0,
    {
        StringMap { entries: Vec::new() }
    }

    pub fn len(&self) -> (r: usize)
        ensures
            r == self@.len(),
    {
        self.entries.len()
    }

    /// Position of the entry with key `key`, if any.
    pub fn position(&self, key: &str) -> (r: Option<usize>)
        ensures
            match r {
                Some(i) => i < self@.len() && self@[i as int].0 == key@,
                None => !has_key(self@, key@),
            },
    {
        let mut i: usize = 0;
        while i < self.entries.len()
            invariant
                i <= self@.len(),
                forall|j: int| 0 <= j < i ==> self@[j].0 != key@,
            decreases self@.len() - i,
        {
            if same_text(self.entries[i].0.as_str(), key) {
                return Some(i);
            }
            i = i + 1;
        }
        None
    }

    /// The value stored under `key`, if any.
    pub fn get(&self, key: &str) -> (r: Option<String>)
        requires
            self.wf(),
        ensures
            match r {
                Some(v) => exists|i: int| 0 <= i < self@.len() && self@[i] == (key@, v@),
                None => !has_key(self@, key@),
            },
    {
        match self.position(key) {
            Some(i) => Some(self.entries[i].1.clone()),
            None => None,
        }
    }

    /// Sets the value of `key` where the key is already present; changes nothing otherwise.
    pub fn set_existing(&mut self, key: &str, value: &str)
        ensures
            final(self)@ == replaced(old(self)@, key@, value@),
            old(self).wf() ==> final(self).wf(),
    {
        let ghost start = self@;
        let mut i: usize = 0;
        while i < self.entries.len()
            invariant
                i <= self@.len(),
                self@.len() == start.len(),
                forall|j: int| 0 <= j < i ==> self@[j] == replaced(start, key@, value@)[j],
                forall|j: int| i <= j < self@.len() ==> self@[j] == start[j],
            decreases self@.len() - i,
        {
            let ghost prev = self@;
            if same_text(self.entries[i].0.as_str(), key) {
                let k = key.to_owned();
                let v = value.to_owned();
                self.entries.set(i, (k, v));
            }
            assert(self@[i as int] == replaced(start, key@, value@)[i as int]);
            assert forall|j: int| 0 <= j <= i implies self@[j] == replaced(start, key@, value@)[j] by {
                if j < i {
                    assert(self@[j] == prev[j]);
                }
            }
            i = i + 1;
        }
        assert(self@ =~= replaced(start, key@, value@));
    }

    /// Stores `value` under `key`, replacing the value already there.
    pub fn insert(&mut self, key: &str, value: &str)
        requires
            old(self).wf(),
        ensures
            final(self).wf(),
            final(self)@ == if has_key(old(self)@, key@) {
                replaced(old(self)@, key@, value@)
            } else {
                old(self)@.push((key@, value@))
            },
    {
        if self.position(key).is_some() {
            self.set_existing(key, value);
        } else {
            let ghost start = self@;
            self.entries.push((key.to_owned(), value.to_owned()));
            assert(self@ =~= start.push((key@, value@)));
        }
    }
}

} // verus!
