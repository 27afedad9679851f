use vstd::prelude::*;

verus! {

/// A hint value, as it came over the wire, in a closed set of shapes.
/// `Other` stands for any shape that decoding never reads.
#[derive(Debug, PartialEq, Eq)]
pub enum HintValue {
    Bool(bool),
    Byte(u8),
    Int16(i16),
    UInt16(u16),
    Int32(i32),
    UInt32(u32),
    Int64(i64),
    UInt64(u64),
    Text(String),
    /// An array of bytes.
    Bytes(Vec<u8>),
    /// A structure, its fields in order.
    Struct(Vec<HintValue>),
    /// A value wrapped in a variant.
    Variant(Box<HintValue>),
    Other,
}

/// The value of the first entry whose key is `k`, if any.
pub open spec fn find(s: Seq<(String, HintValue)>, k: Seq<char>) -> Option<HintValue>
    decreases s.len(),
{
    if s.len() == 0 {
        None
    } else {
        match find(s.drop_last(), k) {
            Some(v) => Some(v),
            None => if s.last().0@ == k {
                Some(s.last().1)
            } else {
                None
            },
        }
    }
}

/// The entries whose key is not `k`, in their order.
pub open spec fn without(s: Seq<(String, HintValue)>, k: Seq<char>) -> Seq<(String, HintValue)>
    decreases s.len(),
{
    if s.len() == 0 {
        s
    } else if s.last().0@ == k {
        without(s.drop_last(), k)
    } else {
        without(s.drop_last(), k).push(s.last())
    }
}

/// No two entries share a key.
pub open spec fn keys_distinct(s: Seq<(String, HintValue)>) -> bool {
    forall|i: int, j: int| 0 <= i < j < s.len() ==> s[i].0@ != s[j].0@
}

/// What is left after taking out `k` holds no entry under `k`, and only
/// keys that were there before.
pub proof fn lemma_without_members(s: Seq<(String, HintValue)>, k: Seq<char>)
    ensures
        forall|m: int|
            0 <= m < without(s, k).len() ==> #[trigger] without(s, k)[m].0@ != k && exists|j: int|
                0 <= j < s.len() && s[j].0@ == without(s, k)[m].0@,
    decreases s.len(),
{
    if s.len() > 0 {
        let t = s.drop_last();
        lemma_without_members(t, k);
        assert forall|m: int| 0 <= m < without(s, k).len() implies #[trigger] without(s, k)[m].0@ != k
            && exists|j: int| 0 <= j < s.len() && s[j].0@ == without(s, k)[m].0@ by {
            if s.last().0@ != k && m == without(s, k).len() - 1 {
                assert(s[s.len() - 1].0@ == without(s, k)[m].0@);
            } else {
                assert(without(s, k)[m] == without(t, k)[m]);
                let j = choose|j: int| 0 <= j < t.len() && t[j].0@ == without(t, k)[m].0@;
                assert(s[j] == t[j]);
            }
        }
    }
}

/// Taking out a key keeps keys distinct.
pub proof fn lemma_without_distinct(s: Seq<(String, HintValue)>, k: Seq<char>)
    requires
        keys_distinct(s),
    ensures
        keys_distinct(without(s, k)),
    decreases s.len(),
{
    if s.len() > 0 {
        let t = s.drop_last();
        assert(keys_distinct(t));
        lemma_without_distinct(t, k);
        if s.last().0@ != k {
            lemma_without_members(t, k);
            let d = without(t, k);
            assert forall|i: int, j: int| 0 <= i < j < without(s, k).len() implies without(s, k)[i].0@
                != without(s, k)[j].0@ by {
                if j == d.len() {
                    assert(without(s, k)[i] == d[i]);
                    let m = choose|m: int| 0 <= m < t.len() && t[m].0@ == d[i].0@;
                    assert(s[m] == t[m]);
                } else {
                    assert(without(s, k)[i] == d[i]);
                    assert(without(s, k)[j] == d[j]);
                }
            }
        }
    }
}

/// Taking out one key leaves what is found under another key as it was.
pub proof fn lemma_find_without(s: Seq<(String, HintValue)>, k1: Seq<char>, k2: Seq<char>)
    requires
        k1 != k2,
    ensures
        find(without(s, k1), k2) == find(s, k2),
    decreases s.len(),
{
    if s.len() > 0 {
        lemma_find_without(s.drop_last(), k1, k2);
        if s.last().0@ != k1 {
            assert(without(s, k1).drop_last() == without(s.drop_last(), k1));
        }
    }
}

/// After a key is taken out, nothing is found under it.
pub proof fn lemma_find_without_same(s: Seq<(String, HintValue)>, k: Seq<char>)
    ensures
        find(without(s, k), k) is None,
    decreases s.len(),
{
    if s.len() > 0 {
        lemma_find_without_same(s.drop_last(), k);
        if s.last().0@ != k {
            assert(without(s, k).drop_last() == without(s.drop_last(), k));
        }
    }
}

/// The hint mapping of a request: keys with values, in the order given,
/// each key at most once (`wf`). A key entered twice keeps only its later
/// value.
#[derive(Debug)]
pub struct Hints {
    entries: Vec<(String, HintValue)>,
}

impl View for Hints {
    type V = Seq<(String, HintValue)>;

    closed spec fn view(&self) -> Seq<(String, HintValue)> {
        self.entries@
    }
}

impl Hints {
    /// Each key at most once.
    pub open spec fn wf(&self) -> bool {
        keys_distinct(self@)
    }

    /// A mapping with no entries.
    pub fn new() -> (r: Hints)
        ensures
            r@.len() == 0,
            r.wf(),
    {
        Hints { entries: Vec::new() }
    }

    /// Number of entries.
    pub fn len(&self) -> (r: usize)
        ensures
            r == self@.len(),
    {
        self.entries.len()
    }

    /// The entries, in order.
    pub fn entries(&self) -> (r: &Vec<(String, HintValue)>)
        ensures
            r@ == self@,
    {
        &self.entries
    }

    /// The value under `key`, if there is one.
    pub fn get(&self, key: &String) -> (r: Option<&HintValue>)
        ensures
            r matches Some(v) ==> find(self@, key@) == Some(*v),
            r is None <==> find(self@, key@) is None,
    {
        let mut i: usize = 0;
        while i < self.entries.len()
            invariant
                0 <= i <= self@.len(),
                find(self@.take(i as int), key@) is None,
            decreases self@.len() - i,
        {
            assert(self@.take(i + 1).drop_last() == self@.take(i as int));
            if self.entries[i].0 == *key {
                proof {
                    lemma_find_prefix(self@, i + 1, key@);
                }
                return Some(&self.entries[i].1);
            }
            i = i + 1;
        }
        assert(self@.take(i as int) == self@);
        None
    }

    /// Takes every entry under `key` out of the mapping, and hands back
    /// the value that was found under it.
    pub fn remove(&mut self, key: &String) -> (r: Option<HintValue>)
        requires
            old(self).wf(),
        ensures
            final(self).wf(),
            r == find(old(self)@, key@),
            final(self)@ == without(old(self)@, key@),
            find(final(self)@, key@) is None,
    {
        let mut rest: Vec<(String, HintValue)> = Vec::new();
        std::mem::swap(&mut rest, &mut self.entries);
        let ghost all = rest@;
        let mut found: Option<HintValue> = None;
        let ghost mut i: int = 0;
        while rest.len() > 0
            invariant
                0 <= i <= all.len(),
                rest@ == all.skip(i),
                self@ == without(all.take(i), key@),
                found == find(all.take(i), key@),
            decreases rest@.len(),
        {
            let e = rest.remove(0);
            proof {
                assert(all.take(i + 1).drop_last() == all.take(i));
                assert(all.take(i + 1).last() == e);
                i = i + 1;
                assert(rest@ == all.skip(i));
            }
            if e.0 == *key {
                if found.is_none() {
                    found = Some(e.1);
                }
            } else {
                self.entries.push(e);
            }
        }
        assert(all.take(i) == all);
        proof {
            lemma_find_without_same(all, key@);
            lemma_without_distinct(all, key@);
        }
        found
    }

    /// Sets `key` to `value`, replacing any value it had.
    pub fn insert(&mut self, key: String, value: HintValue)
        requires
            old(self).wf(),
        ensures
            final(self).wf(),
            final(self)@ == without(old(self)@, key@).push((key, value)),
            find(final(self)@, key@) == Some(value),
    {
        let _ = self.remove(&key);
        let ghost rest = self@;
        self.entries.push((key, value));
        assert(self@.drop_last() == rest);
        proof {
            lemma_without_members(old(self)@, key@);
            assert forall|i: int, j: int| 0 <= i < j < self@.len() implies self@[i].0@
                != self@[j].0@ by {
                if j == rest.len() {
                    assert(self@[i] == rest[i]);
                }
            }
        }
    }
}

/// What is found in a prefix is what is found in the whole.
pub proof fn lemma_find_prefix(s: Seq<(String, HintValue)>, n: int, k: Seq<char>)
    requires
        0 <= n <= s.len(),
        find(s.take(n), k) is Some,
    ensures
        find(s, k) == find(s.take(n), k),
    decreases s.len(),
{
    if n < s.len() {
        assert(s.drop_last().take(n) == s.take(n));
        lemma_find_prefix(s.drop_last(), n, k);
    } else {
        assert(s.take(n) == s);
    }
}

} // verus!
