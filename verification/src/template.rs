//! Component templates: named default data for blocks, with the fields
//! that are shown by default.

use vstd::prelude::*;
use crate::record::RecordId;
use crate::value::{
    BlockData,
    ValueView,
    distinct_keys,
    has_key,
    pairs_to_map,
    lemma_pairs_to_map_at,
    lemma_pairs_to_map_update,
    lemma_pairs_to_map_push,
    position_of_key,
};

verus! {

broadcast use vstd::std_specs::vec::group_vec_axioms;

/// A map from field names to whether the field is shown; no name occurs
/// twice.
#[derive(Debug)]
pub struct DisplayConfig {
    entries: Vec<(String, bool)>,
}

impl DisplayConfig {
    #[verifier::type_invariant]
    closed spec fn keys_distinct(self) -> bool {
        forall|i: int, j: int|
            0 <= i < self.entries@.len() && 0 <= j < self.entries@.len() && i != j
                ==> self.entries@[i].0@ != self.entries@[j].0@
    }

    /// The entries in order, by their keys' text.
    pub closed spec fn entry_models(self) -> Seq<(Seq<char>, bool)> {
        self.entries@.map_values(|e: (String, bool)| (e.0@, e.1))
    }

    /// A map with no entry.
    pub fn new() -> (r: DisplayConfig)
        ensures
            r@ == Map::<Seq<char>, bool>::empty(),
    {
        let r = DisplayConfig { entries: Vec::new() };
        assert(r@ =~= Map::<Seq<char>, bool>::empty());
        r
    }

    /// Sets whether the field `key` is shown. Returns the setting that was
    /// there before, if any.
    pub fn insert(&mut self, key: String, shown: bool) -> (r: Option<bool>)
        ensures
            final(self)@ == old(self)@.insert(key@, shown),
            match r {
                Some(b) => old(self)@.contains_key(key@) && b == old(self)@[key@],
                None => !old(self)@.contains_key(key@),
            },
    {
        proof {
            use_type_invariant(&*self);
        }
        let ghost before = self.entry_models();
        let mut entries: Vec<(String, bool)> = Vec::new();
        std::mem::swap(&mut entries, &mut self.entries);
        let i = position_of_key(&entries, &key);
        assert(distinct_keys(before));
        if i < entries.len() {
            proof {
                lemma_pairs_to_map_at(before, i as int);
                lemma_pairs_to_map_update(before, i as int, shown);
            }
            let ghost k = before[i as int].0;
            let old_shown = entries[i].1;
            entries.set(i, (key, shown));
            self.entries = entries;
            assert(self.entry_models() =~= before.update(i as int, (k, shown)));
            Some(old_shown)
        } else {
            proof {
                assert(!has_key(before, key@));
                lemma_pairs_to_map_push(before, key@, shown);
            }
            let ghost kv = (key@, shown);
            entries.push((key, shown));
            proof {
                assert forall|a: int, b: int|
                    0 <= a < entries@.len() && 0 <= b < entries@.len() && a != b
                    implies entries@[a].0@ != entries@[b].0@ by {
                    if a < before.len() && b < before.len() {
                        assert(before[a].0 != before[b].0);
                    }
                }
            }
            self.entries = entries;
            assert(self.entry_models() =~= before.push(kv));
            None
        }
    }

    /// The entries in order, for reading.
    pub fn entries(&self) -> (r: &Vec<(String, bool)>)
        ensures
            distinct_keys(self.entry_models()),
            r@.len() == self.entry_models().len(),
            forall|i: int|
                0 <= i < r@.len() ==> #[trigger] self.entry_models()[i] == (r@[i].0@, r@[i].1),
    {
        proof {
            use_type_invariant(self);
        }
        &self.entries
    }
}

impl View for DisplayConfig {
    type V = Map<Seq<char>, bool>;

    closed spec fn view(&self) -> Map<Seq<char>, bool> {
        pairs_to_map(self.entry_models())
    }
}

/// A component template: its record id (none before it is stored), its
/// name, the default data of blocks made from it, and which fields are
/// shown by default.
#[derive(Debug)]
pub struct BlockComponentTemplate {
    pub id: Option<RecordId>,
    pub name: String,
    pub default_data: BlockData,
    pub default_display_config: DisplayConfig,
}

impl BlockComponentTemplate {
    /// A new template named `name`, with no id, no default data and no
    /// display setting.
    pub fn new(name: &str) -> (t: BlockComponentTemplate)
        ensures
            t.id is None,
            t.name@ == name@,
            t.default_data@ == Map::<Seq<char>, ValueView>::empty(),
            t.default_display_config@ == Map::<Seq<char>, bool>::empty(),
    {
        BlockComponentTemplate {
            id: None,
            name: name.to_string(),
            default_data: BlockData::new(),
            default_display_config: DisplayConfig::new(),
        }
    }
}

} // verus!
