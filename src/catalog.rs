//! The filter catalog: filter schemas looked up by id. Where two entries
//! share an id, the one added first wins, so a project's own filters are
//! added before the built-in ones to take precedence over them.
use vstd::prelude::*;

use crate::model::{DataHolder, FilterMode};

verus! {

/// A variable that a filter declares, with its default value.
#[derive(Debug, PartialEq, Eq)]
pub struct VariableDecl {
    pub name: String,
    pub default: DataHolder,
}

/// What a filter declares: its geometry, the uniform names of its inputs
/// and its variables.
#[derive(Debug, PartialEq, Eq)]
pub struct FilterSchema {
    pub mode: FilterMode,
    pub inputs: Vec<String>,
    pub variables: Vec<VariableDecl>,
}

impl FilterSchema {
    /// Whether no input name and no variable name is declared twice.
    pub open spec fn spec_valid(&self) -> bool {
        &&& forall|a: int, b: int|
            0 <= a < b < self.inputs@.len() ==> #[trigger] self.inputs@[a]@
                != #[trigger] self.inputs@[b]@
        &&& forall|a: int, b: int|
            0 <= a < b < self.variables@.len() ==> #[trigger] self.variables@[a].name@
                != #[trigger] self.variables@[b].name@
    }

    /// Tells whether no input name and no variable name is declared twice.
    pub fn is_valid(&self) -> (r: bool)
        ensures
            r == self.spec_valid(),
    {
        let mut i: usize = 0;
        while i < self.inputs.len()
            invariant
                i <= self.inputs.len(),
                forall|a: int, b: int|
                    0 <= a < i && a < b < self.inputs@.len() ==> #[trigger] self.inputs@[a]@
                        != #[trigger] self.inputs@[b]@,
            decreases self.inputs.len() - i,
        {
            let mut j: usize = i + 1;
            while j < self.inputs.len()
                invariant
                    i < self.inputs.len(),
                    i < j <= self.inputs.len(),
                    forall|a: int, b: int|
                        0 <= a < i && a < b < self.inputs@.len() ==> #[trigger] self.inputs@[a]@
                            != #[trigger] self.inputs@[b]@,
                    forall|b: int| i < b < j ==> self.inputs@[i as int]@ != #[trigger] self.inputs@[b]@,
                decreases self.inputs.len() - j,
            {
                if self.inputs[i] == self.inputs[j] {
                    return false;
                }
                j = j + 1;
            }
            i = i + 1;
        }
        let mut i: usize = 0;
        while i < self.variables.len()
            invariant
                forall|a: int, b: int|
                    0 <= a < b < self.inputs@.len() ==> #[trigger] self.inputs@[a]@
                        != #[trigger] self.inputs@[b]@,
                i <= self.variables.len(),
                forall|a: int, b: int|
                    0 <= a < i && a < b < self.variables@.len() ==> #[trigger] self.variables@[a].name@
                        != #[trigger] self.variables@[b].name@,
            decreases self.variables.len() - i,
        {
            let mut j: usize = i + 1;
            while j < self.variables.len()
                invariant
                    i < self.variables.len(),
                    i < j <= self.variables.len(),
                    forall|a: int, b: int|
                        0 <= a < i && a < b < self.variables@.len() ==> #[trigger] self.variables@[a].name@
                            != #[trigger] self.variables@[b].name@,
                    forall|b: int|
                        i < b < j ==> self.variables@[i as int].name@ != #[trigger] self.variables@[b].name@,
                decreases self.variables.len() - j,
            {
                if self.variables[i].name == self.variables[j].name {
                    return false;
                }
                j = j + 1;
            }
            i = i + 1;
        }
        true
    }
}

/// One filter of the catalog.
#[derive(Debug, PartialEq, Eq)]
pub struct CatalogEntry {
    pub id: String,
    pub schema: FilterSchema,
}

/// The filters that stages may use, in order of precedence.
#[derive(Debug, PartialEq, Eq)]
pub struct FilterCatalog {
    pub entries: Vec<CatalogEntry>,
}

/// Whether `k` is the first entry of `entries` with the id `id`.
pub open spec fn is_first_entry(entries: Seq<CatalogEntry>, id: Seq<char>, k: int) -> bool {
    &&& 0 <= k < entries.len()
    &&& entries[k].id@ == id
    &&& forall|i: int| 0 <= i < k ==> (#[trigger] entries[i]).id@ != id
}

/// The entry that `id` resolves to, if any.
pub open spec fn resolved_index(entries: Seq<CatalogEntry>, id: Seq<char>) -> Option<int> {
    if exists|k: int| 0 <= k < entries.len() && (#[trigger] entries[k]).id@ == id {
        Some(choose|k: int| is_first_entry(entries, id, k))
    } else {
        None
    }
}

pub proof fn lemma_first_entry_unique(entries: Seq<CatalogEntry>, id: Seq<char>, a: int, b: int)
    requires
        is_first_entry(entries, id, a),
        is_first_entry(entries, id, b),
    ensures
        a == b,
{
    if a < b {
        assert(entries[a].id@ != id);
    } else if b < a {
        assert(entries[b].id@ != id);
    }
}

impl FilterCatalog {
    /// Every schema of the catalog is valid.
    pub open spec fn wf(&self) -> bool {
        forall|k: int| 0 <= k < self.entries@.len() ==> (#[trigger] self.entries@[k]).schema.spec_valid()
    }

    /// An empty catalog.
    pub fn new() -> (r: Self)
        ensures
            r.entries@.len() == 0,
            r.wf(),
    {
        FilterCatalog { entries: Vec::new() }
    }

    /// Adds a filter after the ones already there, unless its schema
    /// declares a name twice; tells whether it was added.
    pub fn add(&mut self, id: String, schema: FilterSchema) -> (r: bool)
        requires
            old(self).wf(),
        ensures
            final(self).wf(),
            r == schema.spec_valid(),
            r ==> final(self).entries@ == old(self).entries@.push(CatalogEntry { id, schema }),
            !r ==> final(self).entries@ == old(self).entries@,
    {
        if !schema.is_valid() {
            return false;
        }
        self.entries.push(CatalogEntry { id, schema });
        true
    }

    /// The schema of the filter `id`: the first entry that has that id.
    pub fn resolve(&self, id: &String) -> (r: Option<&FilterSchema>)
        ensures
            r is Some <==> resolved_index(self.entries@, id@) is Some,
            r is Some ==> *r.unwrap() == self.entries@[resolved_index(
                self.entries@,
                id@,
            ).unwrap()].schema,
            self.wf() && r is Some ==> r.unwrap().spec_valid(),
    {
        let mut i: usize = 0;
        while i < self.entries.len()
            invariant
                i <= self.entries.len(),
                forall|j: int| 0 <= j < i ==> (#[trigger] self.entries@[j]).id@ != id@,
            decreases self.entries.len() - i,
        {
            if self.entries[i].id == *id {
                proof {
                    assert(is_first_entry(self.entries@, id@, i as int));
                    let k = choose|k: int| is_first_entry(self.entries@, id@, k);
                    lemma_first_entry_unique(self.entries@, id@, i as int, k);
                }
                return Some(&self.entries[i].schema);
            }
            i = i + 1;
        }
        None
    }
}

} // verus!
