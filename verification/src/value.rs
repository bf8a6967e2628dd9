//! Values stored in blocks, and the field maps that hold them.
//!
//! A `BlockData` maps field names to values, as the service's documents
//! store them. Each key occurs at most once (a type invariant), so its
//! view is a finite map from key text to the value's model.

use vstd::prelude::*;
use crate::record::{RecordId, RecordKeyView};

verus! {

broadcast use vstd::std_specs::vec::group_vec_axioms;

/// A value held in a block's data. A number is held by the bits of its
/// IEEE-754 double representation.
#[derive(Debug)]
pub enum BlockValue {
    Null,
    Absent,
    Vec(Vec<BlockValue>),
    Boolean(bool),
    String(String),
    Number(u64),
    Thing(RecordId),
    Object(BlockData),
}

/// A map from field names to block values; no name occurs twice.
#[derive(Debug)]
pub struct BlockData {
    entries: Vec<(String, BlockValue)>,
}

/// The mathematical model of a `BlockValue`.
pub enum ValueView {
    Null,
    Absent,
    List(Seq<ValueView>),
    Boolean(bool),
    Text(Seq<char>),
    Number(u64),
    Thing(Seq<char>, RecordKeyView),
    Object(Map<Seq<char>, ValueView>),
}

/// No key occurs twice in `s`.
pub open spec fn distinct_keys<V>(s: Seq<(Seq<char>, V)>) -> bool {
    forall|i: int, j: int| 0 <= i < s.len() && 0 <= j < s.len() && i != j ==> s[i].0 != s[j].0
}

/// Some entry of `s` has key `k`.
pub open spec fn has_key<V>(s: Seq<(Seq<char>, V)>, k: Seq<char>) -> bool {
    exists|i: int| 0 <= i < s.len() && s[i].0 == k
}

/// The map that a sequence of entries with distinct keys stands for.
pub open spec fn pairs_to_map<V>(s: Seq<(Seq<char>, V)>) -> Map<Seq<char>, V> {
    Map::new(
        |k: Seq<char>| has_key(s, k),
        |k: Seq<char>| s[choose|i: int| 0 <= i < s.len() && s[i].0 == k].1,
    )
}

/// The entry at `i` is found in the map under its key.
pub proof fn lemma_pairs_to_map_at<V>(s: Seq<(Seq<char>, V)>, i: int)
    requires
        distinct_keys(s),
        0 <= i < s.len(),
    ensures
        pairs_to_map(s).contains_key(s[i].0),
        pairs_to_map(s)[s[i].0] == s[i].1,
{
    let k = s[i].0;
    assert(has_key(s, k));
    let j = choose|j: int| 0 <= j < s.len() && s[j].0 == k;
    assert(j == i);
}

/// Replacing the value of the entry at `i` replaces the value under its key.
pub proof fn lemma_pairs_to_map_update<V>(s: Seq<(Seq<char>, V)>, i: int, v: V)
    requires
        distinct_keys(s),
        0 <= i < s.len(),
    ensures
        distinct_keys(s.update(i, (s[i].0, v))),
        pairs_to_map(s.update(i, (s[i].0, v))) =~= pairs_to_map(s).insert(s[i].0, v),
{
    let t = s.update(i, (s[i].0, v));
    assert(distinct_keys(t));
    let m = pairs_to_map(s).insert(s[i].0, v);
    assert forall|k: Seq<char>| #[trigger] pairs_to_map(t).contains_key(k) == m.contains_key(k) by {
        if has_key(t, k) {
            let j = choose|j: int| 0 <= j < t.len() && t[j].0 == k;
            if j != i {
                assert(s[j].0 == k);
            }
        }
        if has_key(s, k) {
            let j = choose|j: int| 0 <= j < s.len() && s[j].0 == k;
            assert(t[j].0 == k);
        }
    }
    assert forall|k: Seq<char>| #[trigger] m.contains_key(k) implies pairs_to_map(t)[k] == m[k] by {
        assert(pairs_to_map(t).contains_key(k));
        assert(has_key(t, k));
        let j = choose|j: int| 0 <= j < t.len() && t[j].0 == k;
        lemma_pairs_to_map_at(t, j);
        if j != i {
            lemma_pairs_to_map_at(s, j);
        }
    }
}

/// Appending an entry with a new key adds that key to the map.
pub proof fn lemma_pairs_to_map_push<V>(s: Seq<(Seq<char>, V)>, k: Seq<char>, v: V)
    requires
        distinct_keys(s),
        !has_key(s, k),
    ensures
        distinct_keys(s.push((k, v))),
        pairs_to_map(s.push((k, v))) =~= pairs_to_map(s).insert(k, v),
{
    let t = s.push((k, v));
    assert(distinct_keys(t));
    let m = pairs_to_map(s).insert(k, v);
    assert forall|q: Seq<char>| #[trigger] pairs_to_map(t).contains_key(q) == m.contains_key(q) by {
        if has_key(t, q) {
            let j = choose|j: int| 0 <= j < t.len() && t[j].0 == q;
            if j < s.len() {
                assert(s[j].0 == q);
            }
        }
        if has_key(s, q) {
            let j = choose|j: int| 0 <= j < s.len() && s[j].0 == q;
            assert(t[j].0 == q);
        }
        if q == k {
            assert(t[s.len() as int].0 == q);
        }
    }
    assert forall|q: Seq<char>| #[trigger] m.contains_key(q) implies pairs_to_map(t)[q] == m[q] by {
        assert(pairs_to_map(t).contains_key(q));
        assert(has_key(t, q));
        let j = choose|j: int| 0 <= j < t.len() && t[j].0 == q;
        lemma_pairs_to_map_at(t, j);
        if j < s.len() {
            lemma_pairs_to_map_at(s, j);
        }
    }
}

/// The position of the first entry with the key `key`, or the number of
/// entries where no entry has it.
pub(crate) fn position_of_key<V>(entries: &Vec<(String, V)>, key: &String) -> (i: usize)
    ensures
        i <= entries@.len(),
        i < entries@.len() ==> entries@[i as int].0@ == key@,
        forall|j: int| 0 <= j < i ==> entries@[j].0@ != key@,
{
    let mut i: usize = 0;
    while i < entries.len()
        invariant
            i <= entries@.len(),
            forall|j: int| 0 <= j < i ==> entries@[j].0@ != key@,
        ensures
            i <= entries@.len(),
            i < entries@.len() ==> entries@[i as int].0@ == key@,
            forall|j: int| 0 <= j < i ==> entries@[j].0@ != key@,
        decreases entries@.len() - i,
    {
        if entries[i].0 == *key {
            break;
        }
        i = i + 1;
    }
    i
}

impl BlockValue {
    /// The mathematical model of this value.
    pub closed spec fn model(self) -> ValueView
        decreases self,
    {
        match self {
            BlockValue::Null => ValueView::Null,
            BlockValue::Absent => ValueView::Absent,
            BlockValue::Vec(items) => ValueView::List(
                Seq::new(
                    items@.len(),
                    |i: int|
                        if 0 <= i < items@.len() {
                            items@[i].model()
                        } else {
                            ValueView::Null
                        },
                ),
            ),
            BlockValue::Boolean(b) => ValueView::Boolean(b),
            BlockValue::String(s) => ValueView::Text(s@),
            BlockValue::Number(n) => ValueView::Number(n),
            BlockValue::Thing(r) => ValueView::Thing(r.tb@, r.id@),
            BlockValue::Object(d) => ValueView::Object(pairs_to_map(d.entry_models())),
        }
    }

    /// An independent copy of this value, with the same model.
    pub fn copy(&self) -> (r: BlockValue)
        ensures
            r.model() == self.model(),
        decreases self,
    {
        match self {
            BlockValue::Null => BlockValue::Null,
            BlockValue::Absent => BlockValue::Absent,
            BlockValue::Vec(items) => {
                let mut out: Vec<BlockValue> = Vec::new();
                let mut i: usize = 0;
                while i < items.len()
                    invariant
                        i <= items@.len(),
                        out@.len() == i,
                        forall|j: int| 0 <= j < i ==> #[trigger] out@[j].model() == items@[j].model(),
                        decreases_to!(*self => *items),
                    decreases items@.len() - i,
                {
                    proof {
                        assert(decreases_to!(*items => items[i as int]));
                    }
                    let c = items[i].copy();
                    out.push(c);
                    i = i + 1;
                }
                let r = BlockValue::Vec(out);
                proof {
                    let a = r.model()->List_0;
                    let b = self.model()->List_0;
                    assert(a.len() == b.len());
                    assert forall|j: int| 0 <= j < a.len() implies a[j] == b[j] by {
                        assert(a[j] == out@[j].model());
                        assert(b[j] == items@[j].model());
                    }
                    assert(a =~= b);
                }
                assert(r.model() == self.model());
                r
            },
            BlockValue::Boolean(b) => BlockValue::Boolean(*b),
            BlockValue::String(s) => {
                let r = BlockValue::String(s.clone());
                assert(r.model() == self.model());
                r
            },
            BlockValue::Number(n) => BlockValue::Number(*n),
            BlockValue::Thing(t) => {
                let r = BlockValue::Thing(t.copy());
                assert(r.model() == self.model());
                r
            },
            BlockValue::Object(d) => {
                let r = BlockValue::Object(d.copy());
                assert(r.model() == self.model());
                r
            },
        }
    }
}

/// The model of a value that holds no further block value (or holds a
/// map, by its view).
pub proof fn lemma_model_shallow(v: BlockValue)
    ensures
        match v {
            BlockValue::Null => v.model() == ValueView::Null,
            BlockValue::Absent => v.model() == ValueView::Absent,
            BlockValue::Vec(_) => v.model() is List,
            BlockValue::Boolean(b) => v.model() == ValueView::Boolean(b),
            BlockValue::String(s) => v.model() == ValueView::Text(s@),
            BlockValue::Number(n) => v.model() == ValueView::Number(n),
            BlockValue::Thing(r) => v.model() == ValueView::Thing(r.tb@, r.id@),
            BlockValue::Object(d) => v.model() == ValueView::Object(d@),
        },
{
}

impl BlockData {
    #[verifier::type_invariant]
    closed spec fn keys_distinct(self) -> bool {
        forall|i: int, j: int|
            0 <= i < self.entries@.len() && 0 <= j < self.entries@.len() && i != j
                ==> self.entries@[i].0@ != self.entries@[j].0@
    }

    /// The entries in order: each key's text with its value's model.
    pub closed spec fn entry_models(self) -> Seq<(Seq<char>, ValueView)>
        decreases self,
    {
        Seq::new(
            self.entries@.len(),
            |i: int|
                if 0 <= i < self.entries@.len() {
                    (self.entries@[i].0@, self.entries@[i].1.model())
                } else {
                    (Seq::empty(), ValueView::Null)
                },
        )
    }

    /// A map with no entry.
    pub fn new() -> (r: BlockData)
        ensures
            r@ == Map::<Seq<char>, ValueView>::empty(),
            r.entry_models() == Seq::<(Seq<char>, ValueView)>::empty(),
    {
        let r = BlockData { entries: Vec::new() };
        assert(r.entry_models() =~= Seq::<(Seq<char>, ValueView)>::empty());
        assert(r@ =~= Map::<Seq<char>, ValueView>::empty());
        r
    }

    /// The number of entries.
    pub fn len(&self) -> (n: usize)
        ensures
            n == self.entry_models().len(),
            n == self@.len(),
    {
        proof {
            use_type_invariant(self);
            self.lemma_view_len();
        }
        self.entries.len()
    }

    proof fn lemma_view_len(&self)
        requires
            distinct_keys(self.entry_models()),
        ensures
            self@.len() == self.entry_models().len(),
        decreases self.entries@.len(),
    {
        let s = self.entry_models();
        let dom = self@.dom();
        let f = |i: int| s[i].0;
        let idx = vstd::set_lib::set_int_range(0, s.len() as int);
        vstd::set_lib::lemma_int_range(0, s.len() as int);
        assert(vstd::relations::injective_on(f, idx));
        assert(dom =~= idx.map(f)) by {
            assert forall|k: Seq<char>| dom.contains(k) implies idx.map(f).contains(k) by {
                let i = choose|i: int| 0 <= i < s.len() && s[i].0 == k;
                assert(idx.contains(i) && f(i) == k);
            }
        }
        vstd::set_lib::lemma_map_size(idx, dom, f);
    }

    /// Sets the value under `key` to `value`. Returns the value that was
    /// there before, if any.
    pub fn insert(&mut self, key: String, value: BlockValue) -> (r: Option<BlockValue>)
        ensures
            final(self)@ == old(self)@.insert(key@, value.model()),
            match r {
                Some(v) => old(self)@.contains_key(key@) && v.model() == old(self)@[key@],
                None => !old(self)@.contains_key(key@),
            },
    {
        proof {
            use_type_invariant(&*self);
        }
        let ghost before = self.entry_models();
        let mut entries: Vec<(String, BlockValue)> = Vec::new();
        std::mem::swap(&mut entries, &mut self.entries);
        let i = position_of_key(&entries, &key);
        assert forall|j: int| 0 <= j < entries@.len() implies #[trigger] before[j] == (
            entries@[j].0@,
            entries@[j].1.model(),
        ) by {}
        proof {
            assert(distinct_keys(before));
        }
        if i < entries.len() {
            let ghost k = before[i as int].0;
            assert(k == key@);
            proof {
                lemma_pairs_to_map_at(before, i as int);
                lemma_pairs_to_map_update(before, i as int, value.model());
            }
            let ghost model_v = value.model();
            let (_, old_value) = entries.remove(i);
            entries.insert(i, (key, value));
            let ghost after = before.update(i as int, (k, model_v));
            self.entries = entries;
            assert(self.entry_models() =~= after);
            Some(old_value)
        } else {
            proof {
                assert(!has_key(before, key@));
                lemma_pairs_to_map_push(before, key@, value.model());
            }
            let ghost kv = (key@, value.model());
            entries.push((key, value));
            proof {
                assert forall|a: int, b: int|
                    0 <= a < entries@.len() && 0 <= b < entries@.len() && a != b
                    implies entries@[a].0@ != entries@[b].0@ by {
                    if a < before.len() && b < before.len() {
                        assert(before[a].0 != before[b].0);
                    }
                }
            }
            self.entries = entries;
            assert(self.entry_models() =~= before.push(kv));
            None
        }
    }

    /// The entries in order, for reading.
    pub fn entries(&self) -> (r: &Vec<(String, BlockValue)>)
        ensures
            distinct_keys(self.entry_models()),
            r@.len() == self.entry_models().len(),
            forall|i: int|
                0 <= i < r@.len() ==> #[trigger] self.entry_models()[i] == (
                    r@[i].0@,
                    r@[i].1.model(),
                ),
    {
        proof {
            use_type_invariant(self);
        }
        &self.entries
    }

    /// An independent copy of this map, with the same entries.
    pub fn copy(&self) -> (r: BlockData)
        ensures
            r.entry_models() == self.entry_models(),
            r@ == self@,
        decreases self,
    {
        proof {
            use_type_invariant(self);
        }
        let mut out: Vec<(String, BlockValue)> = Vec::new();
        let mut i: usize = 0;
        while i < self.entries.len()
            invariant
                i <= self.entries@.len(),
                out@.len() == i,
                forall|j: int|
                    0 <= j < i ==> #[trigger] out@[j].0@ == self.entries@[j].0@
                        && out@[j].1.model() == self.entries@[j].1.model(),
                forall|a: int, b: int|
                    0 <= a < self.entries@.len() && 0 <= b < self.entries@.len() && a != b
                        ==> self.entries@[a].0@ != self.entries@[b].0@,
            decreases self.entries@.len() - i,
        {
            proof {
                assert(decreases_to!(self.entries => self.entries[i as int]));
            }
            let k = self.entries[i].0.clone();
            let v = self.entries[i].1.copy();
            out.push((k, v));
            i = i + 1;
        }
        proof {
            assert forall|a: int, b: int|
                0 <= a < out@.len() && 0 <= b < out@.len() && a != b
                implies out@[a].0@ != out@[b].0@ by {
                assert(out@[a].0@ == self.entries@[a].0@);
                assert(out@[b].0@ == self.entries@[b].0@);
            }
        }
        let r = BlockData { entries: out };
        assert(r.entry_models() =~= self.entry_models());
        r
    }
}

impl View for BlockData {
    type V = Map<Seq<char>, ValueView>;

    closed spec fn view(&self) -> Map<Seq<char>, ValueView> {
        pairs_to_map(self.entry_models())
    }
}

} // verus!
