//! The feature table of the application's build manifest.

use vstd::hash_map::StringHashMap;
use vstd::prelude::*;
use crate::text::Texts;

verus! {

/// The model of a feature table: each declared feature with the list of
/// features and dependency features that it enables.
pub type FeatureTable = Map<Seq<char>, Texts>;

/// The `[features]` table of a build manifest.
pub struct FeatureMap {
    entries: StringHashMap<Vec<String>>,
}

impl View for FeatureMap {
    type V = FeatureTable;

    closed spec fn view(&self) -> FeatureTable {
        self.entries@.map_values(|enables: Vec<String>| enables.deep_view())
    }
}

impl FeatureMap {
    /// A table that declares no feature.
    pub fn new() -> (table: FeatureMap)
        ensures
            table@ == FeatureTable::empty(),
    {
        let table = FeatureMap { entries: StringHashMap::new() };
        assert(table@ =~= FeatureTable::empty());
        table
    }

    /// Declares `name`, replacing an earlier declaration of it.
    pub fn insert(&mut self, name: String, enables: Vec<String>)
        ensures
            final(self)@ == old(self)@.insert(name@, enables.deep_view()),
    {
        self.entries.insert(name, enables);
        assert(self@ =~= old(self)@.insert(name@, enables.deep_view()));
    }

    /// Whether the table declares `name`.
    pub fn contains(&self, name: &str) -> (declared: bool)
        ensures
            declared == self@.contains_key(name@),
    {
        self.entries.contains_key(name)
    }

    /// What `name` enables, if the table declares it.
    pub fn get(&self, name: &str) -> (enables: Option<&Vec<String>>)
        ensures
            enables is Some == self@.contains_key(name@),
            enables matches Some(list) ==> list.deep_view() == self@[name@],
    {
        self.entries.get(name)
    }
}

} // verus!
