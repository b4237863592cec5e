use vstd::prelude::*;

verus! {

/// A stored file: its unique name, its content and the identity that owns it.
#[derive(Clone, Debug, PartialEq, Eq)]
pub struct FileEntry {
    pub name: String,
    pub content: String,
    pub owner: String,
}

impl FileEntry {
    /// A field-for-field copy.
    pub fn duplicate(&self) -> (r: FileEntry)
        ensures
            r == *self,
    {
        FileEntry { name: self.name.clone(), content: self.content.clone(), owner: self.owner.clone() }
    }
}

/// Some entry of `s` is named `n`.
pub open spec fn has_name(s: Seq<FileEntry>, n: Seq<char>) -> bool {
    exists|i: int| 0 <= i < s.len() && (#[trigger] s[i]).name@ == n
}

/// No two entries of `s` share a name.
pub open spec fn names_unique(s: Seq<FileEntry>) -> bool {
    forall|i: int, j: int|
        0 <= i < s.len() && 0 <= j < s.len() && i != j ==> (#[trigger] s[i]).name@ != (#[trigger] s[j]).name@
}

/// The position of the entry named `n`.
pub open spec fn position_of(s: Seq<FileEntry>, n: Seq<char>) -> int {
    choose|i: int| 0 <= i < s.len() && (#[trigger] s[i]).name@ == n
}

/// The entries of `s` keyed by name.
pub open spec fn entries_by_name(s: Seq<FileEntry>) -> Map<Seq<char>, FileEntry> {
    Map::new(|n: Seq<char>| has_name(s, n), |n: Seq<char>| s[position_of(s, n)])
}

proof fn lemma_position(s: Seq<FileEntry>, i: int)
    requires
        names_unique(s),
        0 <= i < s.len(),
    ensures
        has_name(s, s[i].name@),
        position_of(s, s[i].name@) == i,
        entries_by_name(s).contains_key(s[i].name@),
        entries_by_name(s)[s[i].name@] == s[i],
{
    assert(has_name(s, s[i].name@));
}

/// A keyed store of files: a name maps to at most one entry.
pub struct FileRegistry {
    entries: Vec<FileEntry>,
}

impl View for FileRegistry {
    type V = Map<Seq<char>, FileEntry>;

    closed spec fn view(&self) -> Map<Seq<char>, FileEntry> {
        entries_by_name(self.entries@)
    }
}

impl FileRegistry {
    /// Every entry is stored under its own name, and names are unique.
    pub closed spec fn wf(&self) -> bool {
        names_unique(self.entries@)
    }

    pub fn new() -> (r: FileRegistry)
        ensures
            r.wf(),
            r@ == Map::<Seq<char>, FileEntry>::empty(),
    {
        let r = FileRegistry { entries: Vec::new() };
        assert(r@ =~= Map::<Seq<char>, FileEntry>::empty());
        r
    }

    fn position(&self, name: &String) -> (r: Option<usize>)
        requires
            self.wf(),
        ensures
            match r {
                Some(i) => i < self.entries@.len() && self.entries@[i as int].name@ == name@,
                None => !has_name(self.entries@, name@),
            },
    {
        let mut i: usize = 0;
        while i < self.entries.len()
            invariant
                i <= self.entries@.len(),
                forall|k: int| 0 <= k < i ==> (#[trigger] self.entries@[k]).name@ != name@,
            decreases self.entries.len() - i,
        {
            if self.entries[i].name == *name {
                return Some(i);
            }
            i = i + 1;
        }
        None
    }

    /// The entry stored under `name`, if any.
    pub fn get(&self, name: &String) -> (r: Option<&FileEntry>)
        requires
            self.wf(),
        ensures
            r is Some == self@.contains_key(name@),
            r is Some ==> *r->Some_0 == self@[name@],
    {
        match self.position(name) {
            Some(i) => {
                proof {
                    lemma_position(self.entries@, i as int);
                }
                Some(&self.entries[i])
            },
            None => None,
        }
    }

    /// Stores `entry` under its name, which must be free.
    pub fn insert(&mut self, entry: FileEntry)
        requires
            old(self).wf(),
            !old(self)@.contains_key(entry.name@),
        ensures
            final(self).wf(),
            final(self)@ == old(self)@.insert(entry.name@, entry),
    {
        let ghost s = self.entries@;
        let ghost e = entry;
        self.entries.push(entry);
        let ghost t = self.entries@;
        assert(names_unique(t)) by {
            assert forall|i: int, j: int|
                0 <= i < t.len() && 0 <= j < t.len() && i != j implies (#[trigger] t[i]).name@ != (#[trigger] t[j]).name@ by {
                if i < s.len() && j < s.len() {
                    assert(t[i] == s[i] && t[j] == s[j]);
                } else if i < s.len() {
                    assert(t[i] == s[i]);
                    assert(!has_name(s, e.name@));
                } else {
                    assert(t[j] == s[j]);
                    assert(!has_name(s, e.name@));
                }
            }
        }
        assert(entries_by_name(t) =~= entries_by_name(s).insert(e.name@, e)) by {
            assert forall|n: Seq<char>| has_name(t, n) <==> (has_name(s, n) || n == e.name@) by {
                if has_name(t, n) {
                    let i = choose|i: int| 0 <= i < t.len() && (#[trigger] t[i]).name@ == n;
                    if i < s.len() {
                        assert(s[i] == t[i]);
                    }
                }
                if has_name(s, n) {
                    let i = choose|i: int| 0 <= i < s.len() && (#[trigger] s[i]).name@ == n;
                    assert(t[i] == s[i]);
                }
                if n == e.name@ {
                    assert(t[s.len() as int] == e);
                }
            }
            assert forall|n: Seq<char>| #[trigger] has_name(t, n) implies t[position_of(t, n)] == (
            if n == e.name@ {
                e
            } else {
                s[position_of(s, n)]
            }) by {
                let i = position_of(t, n);
                lemma_position(t, i);
                if i < s.len() {
                    assert(s[i] == t[i]);
                    lemma_position(s, i);
                } else {
                    assert(t[i] == e);
                }
            }
        }
    }

    /// Removes the entry stored under `name`, which must be present.
    pub fn remove(&mut self, name: &String)
        requires
            old(self).wf(),
            old(self)@.contains_key(name@),
        ensures
            final(self).wf(),
            final(self)@ == old(self)@.remove(name@),
    {
        let ghost s = self.entries@;
        let k = self.position(name);
        if let Some(k) = k {
            self.entries.remove(k);
            let ghost t = self.entries@;
            assert forall|i: int| 0 <= i < t.len() implies #[trigger] t[i] == s[if i < k {
                i
            } else {
                i + 1
            }] by {}
            assert(names_unique(t)) by {
                assert forall|i: int, j: int|
                    0 <= i < t.len() && 0 <= j < t.len() && i != j implies (#[trigger] t[i]).name@ != (#[trigger] t[j]).name@ by {
                    let a = if i < k { i } else { i + 1 };
                    let b = if j < k { j } else { j + 1 };
                    assert(t[i] == s[a] && t[j] == s[b]);
                }
            }
            assert(entries_by_name(t) =~= entries_by_name(s).remove(name@)) by {
                assert forall|n: Seq<char>| has_name(t, n) <==> (has_name(s, n) && n != name@) by {
                    if has_name(t, n) {
                        let i = choose|i: int| 0 <= i < t.len() && (#[trigger] t[i]).name@ == n;
                        let a = if i < k { i } else { i + 1 };
                        assert(t[i] == s[a]);
                        assert(s[k as int].name@ == name@);
                    }
                    if has_name(s, n) && n != name@ {
                        let i = choose|i: int| 0 <= i < s.len() && (#[trigger] s[i]).name@ == n;
                        if i < k {
                            assert(t[i] == s[i]);
                        } else {
                            assert(i != k);
                            assert(t[i - 1] == s[i]);
                        }
                    }
                }
                assert forall|n: Seq<char>| #[trigger] has_name(t, n) implies t[position_of(t, n)] == s[position_of(s, n)] by {
                    let i = position_of(t, n);
                    lemma_position(t, i);
                    let a = if i < k { i } else { i + 1 };
                    assert(t[i] == s[a]);
                    lemma_position(s, a);
                }
            }
        }
    }

    /// The names of all stored files, each once, in storage order.
    pub fn names(&self) -> (r: Vec<String>)
        requires
            self.wf(),
        ensures
            forall|i: int, j: int| 0 <= i < r@.len() && 0 <= j < r@.len() && i != j ==> (#[trigger] r@[i])@ != (#[trigger] r@[j])@,
            forall|i: int| 0 <= i < r@.len() ==> self@.contains_key((#[trigger] r@[i])@),
            forall|n: Seq<char>| #[trigger] self@.contains_key(n) ==> exists|i: int| 0 <= i < r@.len() && (#[trigger] r@[i])@ == n,
    {
        let mut r: Vec<String> = Vec::new();
        let mut i: usize = 0;
        while i < self.entries.len()
            invariant
                i <= self.entries@.len(),
                self.wf(),
                r@.len() == i,
                forall|k: int| 0 <= k < i ==> (#[trigger] r@[k])@ == self.entries@[k].name@,
            decreases self.entries.len() - i,
        {
            r.push(self.entries[i].name.clone());
            i = i + 1;
        }
        assert forall|k: int| 0 <= k < r@.len() implies self@.contains_key((#[trigger] r@[k])@) by {
            lemma_position(self.entries@, k);
        }
        assert forall|n: Seq<char>| #[trigger] self@.contains_key(n) implies exists|k: int| 0 <= k < r@.len() && (#[trigger] r@[k])@ == n by {
            let k = position_of(self.entries@, n);
            assert(r@[k]@ == n);
        }
        r
    }
}

} // verus!
