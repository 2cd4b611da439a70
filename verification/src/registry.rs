//! The schema registry: named `SchemaDefinition` records, registered once at
//! startup and looked up by name while queries are served.
//!
//! The registry is an explicitly owned value, constructed by the startup
//! routine and passed by reference into the resolver. Its mathematical model
//! is a map from schema name to schema definition; `register` inserts or
//! replaces whole definitions, and `lookup` hands out a copy of a whole
//! stored definition, never a reference into registry-owned state. A caller
//! that needs concurrent access wraps the registry in a reader-writer lock;
//! because `lookup` copies one complete stored record, a reader can only ever
//! observe a definition exactly as some single `register` call supplied it.

use vstd::prelude::*;

verus! {

/// The mathematical model of a schema definition: the name it is registered
/// under, the canonical schema document, and the ordered extension fragments.
pub struct SchemaDefinitionView {
    pub name: Seq<char>,
    pub document: Seq<char>,
    pub extension_documents: Seq<Seq<char>>,
}

/// One named schema: a base document plus an ordered list of extension
/// fragments (order matters: later fragments may depend on types declared
/// earlier). The fragments are free-form text, treated opaquely here.
pub struct SchemaDefinition {
    pub name: String,
    pub document: String,
    pub extension_documents: Vec<String>,
}

impl View for SchemaDefinition {
    type V = SchemaDefinitionView;

    open spec fn view(&self) -> SchemaDefinitionView {
        SchemaDefinitionView {
            name: self.name@,
            document: self.document@,
            extension_documents: self.extension_documents.deep_view(),
        }
    }
}

impl DeepView for SchemaDefinition {
    type V = SchemaDefinitionView;

    open spec fn deep_view(&self) -> SchemaDefinitionView {
        self.view()
    }
}

impl SchemaDefinition {
    /// Returns a copy of this definition, equal to it in every field.
    pub fn duplicate(&self) -> (r: SchemaDefinition)
        ensures
            r@ == self@,
    {
        let mut extension_documents: Vec<String> = Vec::new();
        let mut i: usize = 0;
        while i < self.extension_documents.len()
            invariant
                i <= self.extension_documents@.len(),
                extension_documents@.len() == i,
                extension_documents.deep_view() =~= self.extension_documents.deep_view().take(
                    i as int,
                ),
            decreases self.extension_documents@.len() - i,
        {
            extension_documents.push(self.extension_documents[i].clone());
            proof {
                assert(extension_documents.deep_view() =~= self.extension_documents.deep_view()
                    .take(i as int + 1));
            }
            i = i + 1;
        }
        proof {
            assert(extension_documents.deep_view() =~= self.extension_documents.deep_view());
        }
        SchemaDefinition {
            name: self.name.clone(),
            document: self.document.clone(),
            extension_documents,
        }
    }
}

/// The map described by a sequence of (name, definition) entries, where a
/// later entry for the same name overrides an earlier one.
pub open spec fn map_of(entries: Seq<(String, SchemaDefinition)>) -> Map<
    Seq<char>,
    SchemaDefinitionView,
>
    decreases entries.len(),
{
    if entries.len() == 0 {
        Map::empty()
    } else {
        map_of(entries.drop_last()).insert(entries.last().0@, entries.last().1@)
    }
}

/// What a lookup returns, as a function of the registry's map model: the
/// definition the model holds under `name`, or an absent result when the
/// model holds none.
pub open spec fn lookup_spec(m: Map<Seq<char>, SchemaDefinitionView>, name: Seq<char>) -> Option<
    SchemaDefinitionView,
> {
    if m.contains_key(name) {
        Some(m[name])
    } else {
        None
    }
}

/// Storage and retrieval of named schema definitions. Registrations are kept
/// as an append-only list of entries; the newest entry for a name is the one
/// in force, so a re-registration replaces the prior definition in the map
/// model (last writer wins).
pub struct SchemaRegistry {
    entries: Vec<(String, SchemaDefinition)>,
}

impl View for SchemaRegistry {
    type V = Map<Seq<char>, SchemaDefinitionView>;

    closed spec fn view(&self) -> Map<Seq<char>, SchemaDefinitionView> {
        map_of(self.entries@)
    }
}

/// If no entry carries the key `k`, then `k` is absent from the map model.
proof fn lemma_map_of_absent(entries: Seq<(String, SchemaDefinition)>, k: Seq<char>)
    requires
        forall|j: int| 0 <= j < entries.len() ==> entries[j].0@ != k,
    ensures
        !map_of(entries).contains_key(k),
    decreases entries.len(),
{
    if entries.len() > 0 {
        lemma_map_of_absent(entries.drop_last(), k);
    }
}

/// If the entry at index `i` carries the key `k` and no later entry does,
/// then the map model sends `k` to that entry's definition.
proof fn lemma_map_of_found(entries: Seq<(String, SchemaDefinition)>, k: Seq<char>, i: int)
    requires
        0 <= i < entries.len(),
        entries[i].0@ == k,
        forall|j: int| i < j < entries.len() ==> entries[j].0@ != k,
    ensures
        map_of(entries).contains_key(k),
        map_of(entries)[k] == entries[i].1@,
    decreases entries.len(),
{
    if i < entries.len() - 1 {
        lemma_map_of_found(entries.drop_last(), k, i);
    }
}

impl SchemaRegistry {
    /// Creates an empty registry.
    pub fn new() -> (r: SchemaRegistry)
        ensures
            r@ == Map::<Seq<char>, SchemaDefinitionView>::empty(),
    {
        SchemaRegistry { entries: Vec::new() }
    }

    /// Inserts or replaces the entry for `name`. Overwriting an existing
    /// name is permitted and silently replaces the prior definition; every
    /// other name keeps its prior binding.
    pub fn register(&mut self, name: String, definition: SchemaDefinition)
        ensures
            final(self)@ == old(self)@.insert(name@, definition@),
    {
        let ghost prior = self.entries@;
        self.entries.push((name, definition));
        proof {
            assert(self.entries@.drop_last() =~= prior);
        }
    }

    /// Returns a copy of the definition stored under `name`, or `None` if no
    /// definition was ever registered under `name`. A miss is a normal
    /// outcome, not an error. The copy equals the stored definition in every
    /// field: all of its fields come from the same `register` call.
    pub fn lookup(&self, name: &String) -> (r: Option<SchemaDefinition>)
        ensures
            r.deep_view() == lookup_spec(self@, name@),
            match r {
                Some(d) => self@.contains_key(name@) && d@ == self@[name@],
                None => !self@.contains_key(name@),
            },
    {
        let mut i: usize = self.entries.len();
        while i > 0
            invariant
                i <= self.entries@.len(),
                forall|j: int| i <= j < self.entries@.len() ==> self.entries@[j].0@ != name@,
            decreases i,
        {
            i = i - 1;
            if self.entries[i].0 == *name {
                let d = self.entries[i].1.duplicate();
                proof {
                    lemma_map_of_found(self.entries@, name@, i as int);
                }
                return Some(d);
            }
        }
        proof {
            lemma_map_of_absent(self.entries@, name@);
        }
        None
    }
}

/// Law (round trip): after registering `d` under `name`, a lookup of `name`
/// returns exactly `d`. `register` ensures the registry's model becomes
/// `old(self)@.insert(name@, definition@)`, and `lookup` returns
/// `lookup_spec` of the model, so the two contracts compose to this fact.
pub proof fn lemma_register_lookup_roundtrip(
    m: Map<Seq<char>, SchemaDefinitionView>,
    name: Seq<char>,
    d: SchemaDefinitionView,
)
    ensures
        lookup_spec(m.insert(name, d), name) == Some(d),
{
}

/// Law: a name never registered is looked up as absent, and stays absent
/// under a registration of any other name.
pub proof fn lemma_lookup_of_unregistered_name(
    m: Map<Seq<char>, SchemaDefinitionView>,
    name: Seq<char>,
    other: Seq<char>,
    d: SchemaDefinitionView,
)
    requires
        !m.contains_key(name),
        other != name,
    ensures
        lookup_spec(m, name) is None,
        lookup_spec(m.insert(other, d), name) is None,
{
}

/// Law (no torn reads): a lookup that runs against either the state before
/// or the state after one `register` call observes either the prior answer
/// or the complete newly registered definition — never a value mixing fields
/// from the two. Within one state this is immediate from the model: a whole
/// `SchemaDefinitionView` is bound to each name, so `document` and
/// `extension_documents` always come from the same insertion.
pub proof fn lemma_lookup_never_torn(
    m: Map<Seq<char>, SchemaDefinitionView>,
    name: Seq<char>,
    registered: Seq<char>,
    d: SchemaDefinitionView,
    observed: Option<SchemaDefinitionView>,
)
    requires
        observed == lookup_spec(m, name) || observed == lookup_spec(
            m.insert(registered, d),
            name,
        ),
    ensures
        observed == lookup_spec(m, name) || observed == Some(d),
{
}

} // verus!
