//! The `data-*` attribute namespace of an element: a map from key to value
//! whose entries keep the order in which their keys were first set.

use vstd::prelude::*;
use crate::markup::{escape, push_str, write_escaped};

verus! {

/// Whether no key occurs twice among the entries.
pub open spec fn keys_unique(s: Seq<(Seq<char>, Seq<char>)>) -> bool {
    forall|i: int, j: int| 0 <= i < j < s.len() ==> s[i].0 != s[j].0
}

/// Whether some entry has the key `k`.
pub open spec fn has_key(s: Seq<(Seq<char>, Seq<char>)>, k: Seq<char>) -> bool {
    exists|i: int| 0 <= i < s.len() && s[i].0 == k
}

/// The entries after setting `k` to `v`: the value of an existing key is
/// replaced in place, a new key is appended.
pub open spec fn set_entry(s: Seq<(Seq<char>, Seq<char>)>, k: Seq<char>, v: Seq<char>) -> Seq<(Seq<char>, Seq<char>)> {
    if has_key(s, k) {
        s.update(first_key_index(s, k), (k, v))
    } else {
        s.push((k, v))
    }
}

/// The first index whose entry has the key `k`.
pub open spec fn first_key_index(s: Seq<(Seq<char>, Seq<char>)>, k: Seq<char>) -> int {
    choose|i: int| 0 <= i < s.len() && s[i].0 == k && forall|j: int| 0 <= j < i ==> s[j].0 != k
}

proof fn lemma_first_key_index(s: Seq<(Seq<char>, Seq<char>)>, k: Seq<char>, i: int)
    requires
        0 <= i < s.len(),
        s[i].0 == k,
        forall|j: int| 0 <= j < i ==> s[j].0 != k,
    ensures
        first_key_index(s, k) == i,
{
    let f = first_key_index(s, k);
    assert(0 <= f < s.len() && s[f].0 == k && forall|j: int| 0 <= j < f ==> s[j].0 != k);
    if f < i {
        assert(s[f].0 != k);
    } else if f > i {
        assert(s[i].0 != k);
    }
}

/// ` data-key="value"`, the markup of one entry.
pub open spec fn entry_markup(e: (Seq<char>, Seq<char>)) -> Seq<char> {
    " data-"@ + e.0 + "=\""@ + escape(e.1) + "\""@
}

/// The markup of all entries, in order.
pub open spec fn entries_markup(s: Seq<(Seq<char>, Seq<char>)>) -> Seq<char>
    decreases s.len(),
{
    if s.len() == 0 {
        Seq::empty()
    } else {
        entries_markup(s.drop_last()) + entry_markup(s.last())
    }
}

/// The markup of two entry lists one after the other is the markup of
/// their concatenation.
pub proof fn lemma_entries_markup_concat(a: Seq<(Seq<char>, Seq<char>)>, b: Seq<(Seq<char>, Seq<char>)>)
    ensures
        entries_markup(a + b) == entries_markup(a) + entries_markup(b),
    decreases b.len(),
{
    if b.len() == 0 {
        assert(a + b =~= a);
        assert(entries_markup(a) + Seq::<char>::empty() =~= entries_markup(a));
    } else {
        lemma_entries_markup_concat(a, b.drop_last());
        assert((a + b).drop_last() =~= a + b.drop_last());
        assert((a + b).last() == b.last());
        assert(entries_markup(a + b) =~= entries_markup(a) + entries_markup(b));
    }
}

/// After setting `k` to `v`, the dataset's markup holds ` data-k="v"`,
/// the value escaped, between the markup of the other entries.
pub proof fn lemma_set_entry_rendered(s: Seq<(Seq<char>, Seq<char>)>, k: Seq<char>, v: Seq<char>)
    ensures
        exists|pre: Seq<char>, post: Seq<char>|
            entries_markup(set_entry(s, k, v)) == pre + (" data-"@ + k + "=\""@ + escape(v) + "\""@) + post,
{
    let t = set_entry(s, k, v);
    let i = if has_key(s, k) {
        first_key_index(s, k)
    } else {
        s.len() as int
    };
    if has_key(s, k) {
        let w = choose|w: int| 0 <= w < s.len() && s[w].0 == k;
        lemma_first_key_exists(s, k, w);
    }
    assert(0 <= i < t.len() && t[i] == (k, v));
    let head = t.take(i);
    let tail = t.skip(i + 1);
    assert(t =~= head.push(t[i]) + tail);
    lemma_entries_markup_concat(head.push(t[i]), tail);
    assert(head.push(t[i]).drop_last() =~= head);
    assert(entries_markup(t) == entries_markup(head) + entry_markup((k, v)) + entries_markup(tail));
}

proof fn lemma_first_key_exists(s: Seq<(Seq<char>, Seq<char>)>, k: Seq<char>, w: int)
    requires
        0 <= w < s.len(),
        s[w].0 == k,
    ensures
        ({
            let f = first_key_index(s, k);
            0 <= f < s.len() && s[f].0 == k && forall|j: int| 0 <= j < f ==> s[j].0 != k
        }),
    decreases w,
{
    if exists|j: int| 0 <= j < w && s[j].0 == k {
        let j = choose|j: int| 0 <= j < w && s[j].0 == k;
        lemma_first_key_exists(s, k, j);
    } else {
        assert(forall|j: int| 0 <= j < w ==> s[j].0 != k);
    }
}

/// The dataset of an element.
#[derive(Debug, Clone, PartialEq)]
pub struct DataMap {
    entries: Vec<(String, String)>,
}

impl View for DataMap {
    type V = Seq<(Seq<char>, Seq<char>)>;

    closed spec fn view(&self) -> Seq<(Seq<char>, Seq<char>)> {
        self.entries.deep_view()
    }
}

impl DataMap {
    /// Well-formedness: no key occurs twice. Every dataset built through
    /// `new` and `insert` has it.
    pub open spec fn wf(&self) -> bool {
        keys_unique(self@)
    }

    /// An empty dataset.
    pub fn new() -> (r: DataMap)
        ensures
            r@ == Seq::<(Seq<char>, Seq<char>)>::empty(),
            r.wf(),
    {
        let r = DataMap { entries: Vec::new() };
        assert(r.entries.deep_view() =~= Seq::<(Seq<char>, Seq<char>)>::empty());
        r
    }

    /// The number of entries.
    pub fn len(&self) -> (r: usize)
        ensures
            r == self@.len(),
    {
        self.entries.len()
    }

    /// The entries, in order.
    pub fn entries(&self) -> (r: &Vec<(String, String)>)
        ensures
            r.deep_view() == self@,
    {
        &self.entries
    }

    fn position(&self, key: &String) -> (r: Option<usize>)
        ensures
            r.is_some() <==> has_key(self@, key@),
            r.is_some() ==> r.unwrap() == first_key_index(self@, key@) && r.unwrap() < self@.len(),
    {
        let mut i: usize = 0;
        while i < self.entries.len()
            invariant
                i <= self@.len(),
                self@ == self.entries.deep_view(),
                forall|j: int| 0 <= j < i ==> self@[j].0 != key@,
            decreases self@.len() - i,
        {
            if self.entries[i].0 == *key {
                proof {
                    lemma_first_key_index(self@, key@, i as int);
                }
                return Some(i);
            }
            i = i + 1;
        }
        None
    }

    /// The value stored under `key`.
    pub fn get(&self, key: &String) -> (r: Option<&String>)
        ensures
            r.is_some() <==> has_key(self@, key@),
            r.is_some() ==> r.unwrap()@ == self@[first_key_index(self@, key@)].1,
    {
        match self.position(key) {
            Some(i) => {
                assert(self@[i as int] == self.entries@[i as int].deep_view());
                Some(&self.entries[i].1)
            },
            None => None,
        }
    }

    /// Sets `key` to `value`, replacing the value of an existing key in place.
    pub fn insert(&mut self, key: String, value: String)
        ensures
            final(self)@ == set_entry(old(self)@, key@, value@),
            old(self).wf() ==> final(self).wf(),
    {
        let ghost s = self@;
        match self.position(&key) {
            Some(i) => {
                let ghost kv = (key@, value@);
                self.entries.set(i, (key, value));
                assert(self.entries.deep_view() =~= s.update(i as int, kv));
            },
            None => {
                let ghost kv = (key@, value@);
                self.entries.push((key, value));
                assert(self.entries.deep_view() =~= s.push(kv));
            },
        }
    }

    /// Appends the markup of every entry, in order.
    pub fn write(&self, out: &mut String)
        ensures
            final(out)@ == old(out)@ + entries_markup(self@),
    {
        let mut i: usize = 0;
        assert(self@.take(0) =~= Seq::<(Seq<char>, Seq<char>)>::empty());
        assert(out@ =~= old(out)@ + entries_markup(self@.take(0)));
        while i < self.entries.len()
            invariant
                i <= self@.len(),
                self@ == self.entries.deep_view(),
                out@ == old(out)@ + entries_markup(self@.take(i as int)),
            decreases self@.len() - i,
        {
            let e = &self.entries[i];
            push_str(out, " data-");
            push_str(out, e.0.as_str());
            push_str(out, "=\"");
            write_escaped(out, e.1.as_str());
            push_str(out, "\"");
            assert(self@.take(i + 1).drop_last() =~= self@.take(i as int));
            assert(out@ =~= old(out)@ + entries_markup(self@.take(i + 1)));
            i = i + 1;
        }
        assert(self@.take(i as int) =~= self@);
    }
}

impl Default for DataMap {
    fn default() -> (r: DataMap)
        ensures
            r@ == Seq::<(Seq<char>, Seq<char>)>::empty(),
    {
        DataMap::new()
    }
}

} // verus!
