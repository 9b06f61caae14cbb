//! The catalog: the streams a tap can produce, each with its replication
//! policy and the flag that says whether it is synchronised.

use crate::string_map::{text_equal, StringMap};
use crate::time::{current_time, Timestamp};
use std::sync::Arc;
use vstd::prelude::*;
use vstd::string::StringExecFns;

verus! {

/// How the data of a stream is extracted again on a later run.
#[derive(Debug, Clone, Copy, PartialEq, Eq, Structural)]
pub enum ReplicationMethod {
    /// The whole stream is read on every run.
    FullTable,
    /// Only rows past the replication key's bookmark are read.
    Incremental,
    /// Changes are read from the source's change log.
    LogBased,
}

impl ReplicationMethod {
    /// The name of the method.
    pub open spec fn label(self) -> Seq<char> {
        match self {
            ReplicationMethod::FullTable => "FullTable"@,
            ReplicationMethod::Incremental => "Incremental"@,
            ReplicationMethod::LogBased => "LogBased"@,
        }
    }

    /// The name of the method, as listings show it.
    pub fn name(&self) -> (name: &'static str)
        ensures
            name@ == self.label(),
    {
        match self {
            ReplicationMethod::FullTable => "FullTable",
            ReplicationMethod::Incremental => "Incremental",
            ReplicationMethod::LogBased => "LogBased",
        }
    }
}

/// What is known of a stream besides its schema.
#[derive(Debug, Clone)]
pub struct StreamMetadata {
    pub row_count: Option<u64>,
    pub database_name: Option<String>,
    pub table_name: Option<String>,
    pub is_view: bool,
    pub properties: StringMap<serde_json::Value>,
}

/// When and by what a catalog was generated.
#[derive(Debug, Clone)]
pub struct CatalogMetadata {
    pub generated_at: Timestamp,
    pub tap_version: Option<String>,
    pub properties: StringMap<serde_json::Value>,
}

/// One stream of a catalog.
#[derive(Debug, Clone)]
pub struct CatalogEntry {
    /// The name by which the stream is found in its catalog.
    pub stream: String,
    /// A name for people to read.
    pub tap_stream_id: Option<String>,
    pub schema: Option<Arc<arrow::datatypes::Schema>>,
    /// The schema as a JSON document, which is what a stored catalog keeps.
    pub schema_json: Option<serde_json::Value>,
    pub metadata: StreamMetadata,
    pub key_properties: Vec<String>,
    pub replication_key: Option<String>,
    pub replication_method: ReplicationMethod,
    pub selected: bool,
}

/// The streams of a tap, in the order in which they were added.
#[derive(Debug, Clone)]
pub struct Catalog {
    pub streams: Vec<CatalogEntry>,
    pub metadata: Option<CatalogMetadata>,
}

/// The selection flag of an entry that a stored catalog does not mention.
pub fn default_true() -> (selected: bool)
    ensures
        selected,
{
    true
}

/// Some entry of `streams` is named `name`.
pub open spec fn has_stream(streams: Seq<CatalogEntry>, name: Seq<char>) -> bool {
    exists|i: int| 0 <= i < streams.len() && (#[trigger] streams[i]).stream@ == name
}

/// The entry at `i` is the first of `streams` that is named `name`.
pub open spec fn is_first_named(streams: Seq<CatalogEntry>, name: Seq<char>, i: int) -> bool {
    &&& 0 <= i < streams.len()
    &&& streams[i].stream@ == name
    &&& forall|j: int| 0 <= j < i ==> (#[trigger] streams[j]).stream@ != name
}

/// No two entries of `streams` share a name.
pub open spec fn streams_unique(streams: Seq<CatalogEntry>) -> bool {
    forall|i: int, j: int|
        0 <= i < j < streams.len() ==> (#[trigger] streams[i]).stream@ != (
        #[trigger] streams[j]).stream@
}

/// The test that `selected_streams` applies to an entry.
pub open spec fn is_selected() -> spec_fn(CatalogEntry) -> bool {
    |entry: CatalogEntry| entry.selected
}

/// The selected entries of `streams`, in their order.
pub open spec fn selected_of(streams: Seq<CatalogEntry>) -> Seq<CatalogEntry> {
    streams.filter(is_selected())
}

/// `text` is one of `names`.
pub open spec fn is_named(names: Seq<String>, text: Seq<char>) -> bool {
    exists|k: int| 0 <= k < names.len() && (#[trigger] names[k])@ == text
}

/// A request that lists `names` reaches the entry at `i`: the entry is the
/// first of its name, and its name is listed.
pub open spec fn is_reached(streams: Seq<CatalogEntry>, names: Seq<String>, i: int) -> bool {
    is_first_named(streams, streams[i].stream@, i) && is_named(names, streams[i].stream@)
}

/// `entry` with its selection flag set to `selected` and nothing else changed.
pub open spec fn with_flag(entry: CatalogEntry, selected: bool) -> CatalogEntry {
    CatalogEntry { selected, ..entry }
}

/// The streams after a request to set the flag of every stream in `names` to
/// `selected`.
pub open spec fn selection_applied(
    streams: Seq<CatalogEntry>,
    names: Seq<String>,
    selected: bool,
) -> Seq<CatalogEntry> {
    Seq::new(
        streams.len(),
        |i: int|
            if is_reached(streams, names, i) {
                with_flag(streams[i], selected)
            } else {
                streams[i]
            },
    )
}

/// The test for a requested name that no stream of `streams` carries.
pub open spec fn is_unknown(streams: Seq<CatalogEntry>) -> spec_fn(String) -> bool {
    |name: String| !has_stream(streams, name@)
}

/// The names of `names` that no stream of `streams` carries, in their order.
pub open spec fn unknown_names(streams: Seq<CatalogEntry>, names: Seq<String>) -> Seq<String> {
    names.filter(is_unknown(streams))
}

/// The position of the first entry named `name`, if there is one.
fn find_stream(streams: &Vec<CatalogEntry>, name: &str) -> (found: Option<usize>)
    ensures
        match found {
            Some(i) => is_first_named(streams@, name@, i as int),
            None => !has_stream(streams@, name@),
        },
{
    let mut i: usize = 0;
    while i < streams.len()
        invariant
            i <= streams@.len(),
            forall|j: int| 0 <= j < i ==> (#[trigger] streams@[j]).stream@ != name@,
        decreases streams@.len() - i,
    {
        if text_equal(streams[i].stream.as_str(), name) {
            return Some(i);
        }
        i += 1;
    }
    None
}

impl Default for StreamMetadata {
    /// Metadata that says nothing: no counts, no names, not a view.
    fn default() -> (metadata: StreamMetadata)
        ensures
            metadata.is_blank(),
    {
        StreamMetadata {
            row_count: None,
            database_name: None,
            table_name: None,
            is_view: false,
            properties: StringMap::new(),
        }
    }
}

impl Default for Catalog {
    /// An empty catalog stamped with the current time.
    fn default() -> (catalog: Catalog)
        ensures
            exists|generated_at: Timestamp| catalog.is_fresh(generated_at),
            catalog.well_formed(),
    {
        Catalog::new()
    }
}

impl StreamMetadata {
    /// The metadata says nothing: no counts, no names, not a view.
    pub open spec fn is_blank(self) -> bool {
        &&& self.row_count is None
        &&& self.database_name is None
        &&& self.table_name is None
        &&& !self.is_view
        &&& self.properties@ == Map::<Seq<char>, serde_json::Value>::empty()
    }
}

impl CatalogEntry {
    /// An entry for `stream`, selected, with nothing known of it but how it
    /// is replicated.
    pub fn new(stream: String, replication_method: ReplicationMethod) -> (entry: CatalogEntry)
        ensures
            entry.stream == stream,
            entry.replication_method == replication_method,
            entry.selected,
            entry.tap_stream_id is None,
            entry.schema is None,
            entry.schema_json is None,
            entry.metadata.is_blank(),
            entry.key_properties@.len() == 0,
            entry.replication_key is None,
    {
        CatalogEntry {
            stream,
            tap_stream_id: None,
            schema: None,
            schema_json: None,
            metadata: StreamMetadata::default(),
            key_properties: Vec::new(),
            replication_key: None,
            replication_method,
            selected: true,
        }
    }

    /// The line that lists the entry: a mark for the selection flag, the
    /// name of the stream and how it is replicated.
    pub open spec fn listing(self) -> Seq<char> {
        "  ["@ + (if self.selected {
            "\u{2713}"@
        } else {
            " "@
        }) + "] "@ + self.stream@ + " ("@ + self.replication_method.label() + ")"@
    }

    /// The line that lists the entry.
    pub fn listing_line(&self) -> (line: String)
        ensures
            line@ == self.listing(),
    {
        let mark = if self.selected {
            "\u{2713}"
        } else {
            " "
        };
        String::from_str("  [").concat(mark).concat("] ").concat(self.stream.as_str()).concat(
            " (",
        ).concat(self.replication_method.name()).concat(")")
    }

    /// The entry with `schema` as its schema.
    pub fn with_schema(self, schema: Arc<arrow::datatypes::Schema>) -> (entry: CatalogEntry)
        ensures
            entry == (CatalogEntry { schema: Some(schema), ..self }),
    {
        let mut entry = self;
        entry.schema = Some(schema);
        entry
    }

    /// The entry with `keys` as its key properties.
    pub fn with_key_properties(self, keys: Vec<String>) -> (entry: CatalogEntry)
        ensures
            entry == (CatalogEntry { key_properties: keys, ..self }),
    {
        let mut entry = self;
        entry.key_properties = keys;
        entry
    }

    /// The entry with `key` as its replication key.
    pub fn with_replication_key(self, key: String) -> (entry: CatalogEntry)
        ensures
            entry == (CatalogEntry { replication_key: Some(key), ..self }),
    {
        let mut entry = self;
        entry.replication_key = Some(key);
        entry
    }

    /// The entry with `metadata` in place of its metadata.
    pub fn with_metadata(self, metadata: StreamMetadata) -> (entry: CatalogEntry)
        ensures
            entry == (CatalogEntry { metadata, ..self }),
    {
        let mut entry = self;
        entry.metadata = metadata;
        entry
    }

    /// The entry with its selection flag set to `selected`.
    pub fn with_selected(self, selected: bool) -> (entry: CatalogEntry)
        ensures
            entry == with_flag(self, selected),
    {
        let mut entry = self;
        entry.selected = selected;
        entry
    }
}

impl Catalog {
    /// `self` is an empty catalog whose metadata names `generated_at` as the
    /// time of generation and nothing else.
    pub open spec fn is_fresh(self, generated_at: Timestamp) -> bool {
        &&& self.streams@.len() == 0
        &&& self.metadata matches Some(metadata)
        &&& metadata.generated_at == generated_at
        &&& metadata.tap_version is None
        &&& metadata.properties@ == Map::<Seq<char>, serde_json::Value>::empty()
    }

    /// No two streams of the catalog share a name.
    pub open spec fn well_formed(self) -> bool {
        streams_unique(self.streams@)
    }

    /// An empty catalog generated at `generated_at`.
    pub fn new_at(generated_at: Timestamp) -> (catalog: Catalog)
        ensures
            catalog.is_fresh(generated_at),
            catalog.well_formed(),
    {
        Catalog {
            streams: Vec::new(),
            metadata: Some(
                CatalogMetadata { generated_at, tap_version: None, properties: StringMap::new() },
            ),
        }
    }

    /// An empty catalog stamped with the current time.
    pub fn new() -> (catalog: Catalog)
        ensures
            exists|generated_at: Timestamp| catalog.is_fresh(generated_at),
            catalog.well_formed(),
    {
        let now = current_time();
        let catalog = Catalog::new_at(now);
        assert(catalog.is_fresh(now));
        catalog
    }

    /// Appends `entry` to the catalog. The catalog stays well formed exactly
    /// where it was and the name of the entry was not yet taken.
    pub fn add_stream(&mut self, entry: CatalogEntry)
        ensures
            final(self).streams@ == old(self).streams@.push(entry),
            final(self).metadata == old(self).metadata,
            final(self).well_formed() == (old(self).well_formed() && !has_stream(
                old(self).streams@,
                entry.stream@,
            )),
    {
        proof {
            lemma_push_keeps_uniqueness(self.streams@, entry);
        }
        self.streams.push(entry);
    }

    /// The first stream named `name`.
    pub fn get_stream(&self, name: &str) -> (found: Option<&CatalogEntry>)
        ensures
            match found {
                Some(entry) => exists|i: int|
                    is_first_named(self.streams@, name@, i) && *entry == self.streams@[i],
                None => !has_stream(self.streams@, name@),
            },
    {
        match find_stream(&self.streams, name) {
            Some(i) => Some(&self.streams[i]),
            None => None,
        }
    }

    /// The streams whose selection flag is set, in catalog order.
    pub fn selected_streams(&self) -> (selected: Vec<&CatalogEntry>)
        ensures
            selected@.map_values(|entry: &CatalogEntry| *entry) == selected_of(self.streams@),
    {
        let mut selected: Vec<&CatalogEntry> = Vec::new();
        let mut i: usize = 0;
        proof {
            assert(self.streams@.take(0) =~= Seq::<CatalogEntry>::empty());
            assert(selected@.map_values(|entry: &CatalogEntry| *entry) =~= selected_of(
                self.streams@.take(0),
            ));
        }
        while i < self.streams.len()
            invariant
                i <= self.streams@.len(),
                selected@.map_values(|entry: &CatalogEntry| *entry) == selected_of(
                    self.streams@.take(i as int),
                ),
            decreases self.streams@.len() - i,
        {
            let ghost before = selected@;
            let entry = &self.streams[i];
            proof {
                assert(self.streams@.take(i + 1) =~= self.streams@.take(i as int).push(*entry));
                self.streams@.take(i as int).lemma_filter_push(*entry, is_selected());
            }
            if entry.selected {
                selected.push(entry);
                assert(selected@.map_values(|entry: &CatalogEntry| *entry) =~= before.map_values(
                    |entry: &CatalogEntry| *entry,
                ).push(*entry));
            }
            i += 1;
        }
        proof {
            assert(self.streams@.take(i as int) =~= self.streams@);
        }
        selected
    }

    /// Sets the selection flag of each stream named in `names` to `selected`
    /// and returns the names that the catalog does not hold.
    fn set_selection(&mut self, names: &Vec<String>, selected: bool) -> (missing: Vec<String>)
        ensures
            final(self).streams@ == selection_applied(old(self).streams@, names@, selected),
            final(self).metadata == old(self).metadata,
            missing@ == unknown_names(old(self).streams@, names@),
    {
        let ghost before = self.streams@;
        let mut missing: Vec<String> = Vec::new();
        let mut k: usize = 0;
        proof {
            assert(names@.take(0) =~= Seq::<String>::empty());
            assert(missing@ =~= unknown_names(before, names@.take(0)));
            assert(self.streams@ =~= selection_applied(before, names@.take(0), selected));
        }
        while k < names.len()
            invariant
                k <= names@.len(),
                before == old(self).streams@,
                self.streams@ == selection_applied(before, names@.take(k as int), selected),
                self.metadata == old(self).metadata,
                missing@ == unknown_names(before, names@.take(k as int)),
            decreases names@.len() - k,
        {
            let ghost current = self.streams@;
            let ghost done = names@.take(k as int);
            let ghost next = names@.take(k + 1);
            proof {
                assert(next =~= done.push(names@[k as int]));
                done.lemma_filter_push(names@[k as int], is_unknown(before));
                assert forall|i: int| 0 <= i < before.len() implies (#[trigger] current[i]).stream
                    == before[i].stream by {}
            }
            match find_stream(&self.streams, names[k].as_str()) {
                Some(j) => {
                    self.streams[j].selected = selected;
                    proof {
                        assert(is_first_named(before, names@[k as int]@, j as int)) by {
                            assert forall|i: int| 0 <= i < j implies (#[trigger] before[i]).stream@
                                != names@[k as int]@ by {
                                assert(current[i].stream@ != names@[k as int]@);
                            }
                        }
                        assert(has_stream(before, names@[k as int]@));
                        assert(is_named(next, before[j as int].stream@)) by {
                            assert(next[k as int]@ == before[j as int].stream@);
                        }
                        assert forall|i: int| 0 <= i < before.len() implies (
                        #[trigger] self.streams@[i]) == selection_applied(before, next, selected)[i] by {
                            if i == j {
                                assert(is_reached(before, next, i));
                            } else {
                                lemma_reach_grows(before, done, names@[k as int], i);
                                if is_reached(before, next, i) && !is_reached(before, done, i) {
                                    assert(before[i].stream@ == names@[k as int]@);
                                    assert(is_first_named(before, names@[k as int]@, i));
                                    if i < j {
                                        assert(before[i].stream@ != names@[k as int]@);
                                    } else {
                                        assert(before[j as int].stream@ != names@[k as int]@);
                                    }
                                }
                            }
                        }
                        assert(self.streams@ =~= selection_applied(before, next, selected));
                    }
                },
                None => {
                    missing.push(names[k].clone());
                    proof {
                        assert(!has_stream(before, names@[k as int]@)) by {
                            if has_stream(before, names@[k as int]@) {
                                let i = choose|i: int|
                                    0 <= i < before.len() && (#[trigger] before[i]).stream@
                                        == names@[k as int]@;
                                assert(current[i].stream@ == names@[k as int]@);
                            }
                        }
                        assert forall|i: int| 0 <= i < before.len() implies (
                        #[trigger] self.streams@[i]) == selection_applied(before, next, selected)[i] by {
                            lemma_reach_grows(before, done, names@[k as int], i);
                        }
                        assert(self.streams@ =~= selection_applied(before, next, selected));
                    }
                },
            }
            k += 1;
        }
        proof {
            assert(names@.take(k as int) =~= names@);
        }
        missing
    }

    /// Marks each stream named in `names` as selected. A name that the
    /// catalog does not hold changes nothing and is handed back.
    pub fn select(&mut self, names: &Vec<String>) -> (missing: Vec<String>)
        ensures
            final(self).streams@ == selection_applied(old(self).streams@, names@, true),
            final(self).metadata == old(self).metadata,
            final(self).well_formed() == old(self).well_formed(),
            missing@ == unknown_names(old(self).streams@, names@),
    {
        proof {
            lemma_selection_keeps_uniqueness(self.streams@, names@, true);
        }
        self.set_selection(names, true)
    }

    /// Marks each stream named in `names` as not selected. A name that the
    /// catalog does not hold changes nothing and is handed back.
    pub fn deselect(&mut self, names: &Vec<String>) -> (missing: Vec<String>)
        ensures
            final(self).streams@ == selection_applied(old(self).streams@, names@, false),
            final(self).metadata == old(self).metadata,
            final(self).well_formed() == old(self).well_formed(),
            missing@ == unknown_names(old(self).streams@, names@),
    {
        proof {
            lemma_selection_keeps_uniqueness(self.streams@, names@, false);
        }
        self.set_selection(names, false)
    }
}

/// Appending an entry keeps the names unique exactly where they were unique
/// and the new name is none of them.
pub proof fn lemma_push_keeps_uniqueness(streams: Seq<CatalogEntry>, entry: CatalogEntry)
    ensures
        streams_unique(streams.push(entry)) == (streams_unique(streams) && !has_stream(
            streams,
            entry.stream@,
        )),
{
    let grown = streams.push(entry);
    if streams_unique(grown) {
        assert forall|i: int, j: int| 0 <= i < j < streams.len() implies (#[trigger] streams[i]).stream@
            != (#[trigger] streams[j]).stream@ by {
            assert(grown[i].stream@ != grown[j].stream@);
        }
        if has_stream(streams, entry.stream@) {
            let i = choose|i: int| 0 <= i < streams.len() && (#[trigger] streams[i]).stream@
                == entry.stream@;
            assert(grown[i].stream@ != grown[streams.len() as int].stream@);
        }
    }
    if streams_unique(streams) && !has_stream(streams, entry.stream@) {
        assert forall|i: int, j: int| 0 <= i < j < grown.len() implies (#[trigger] grown[i]).stream@
            != (#[trigger] grown[j]).stream@ by {
            if j < streams.len() {
                assert(streams[i].stream@ != streams[j].stream@);
            } else {
                assert(streams[i].stream@ != entry.stream@);
            }
        }
    }
}

/// A request changes no name, so the names are unique after it exactly
/// where they were before.
pub proof fn lemma_selection_keeps_uniqueness(
    streams: Seq<CatalogEntry>,
    names: Seq<String>,
    selected: bool,
)
    ensures
        streams_unique(selection_applied(streams, names, selected)) == streams_unique(streams),
{
    let after = selection_applied(streams, names, selected);
    assert forall|i: int| 0 <= i < streams.len() implies (#[trigger] after[i]).stream
        == streams[i].stream by {}
    if streams_unique(streams) {
        assert forall|i: int, j: int| 0 <= i < j < after.len() implies (#[trigger] after[i]).stream@
            != (#[trigger] after[j]).stream@ by {
            assert(streams[i].stream@ != streams[j].stream@);
        }
    }
    if streams_unique(after) {
        assert forall|i: int, j: int| 0 <= i < j < streams.len() implies (#[trigger] streams[i]).stream@
            != (#[trigger] streams[j]).stream@ by {
            assert(after[i].stream@ != after[j].stream@);
        }
    }
}

/// A request leaves every stream in its place and changes nothing of it but
/// the selection flag.
pub proof fn lemma_selection_keeps_streams(
    streams: Seq<CatalogEntry>,
    names: Seq<String>,
    selected: bool,
    i: int,
)
    requires
        0 <= i < streams.len(),
    ensures
        selection_applied(streams, names, selected).len() == streams.len(),
        with_flag(selection_applied(streams, names, selected)[i], selected) == with_flag(
            streams[i],
            selected,
        ),
        selection_applied(streams, names, selected)[i].selected == if is_reached(
            streams,
            names,
            i,
        ) {
            selected
        } else {
            streams[i].selected
        },
{
}

/// A request that names only streams the catalog does not hold leaves the
/// catalog as it was.
pub proof fn lemma_unknown_names_change_nothing(
    streams: Seq<CatalogEntry>,
    names: Seq<String>,
    selected: bool,
)
    requires
        forall|k: int| 0 <= k < names.len() ==> !has_stream(streams, (#[trigger] names[k])@),
    ensures
        selection_applied(streams, names, selected) == streams,
{
    assert forall|i: int| 0 <= i < streams.len() implies !is_reached(streams, names, i) by {
        if is_named(names, streams[i].stream@) {
            let k = choose|k: int| 0 <= k < names.len() && (#[trigger] names[k])@ == streams[i].stream@;
            assert(has_stream(streams, names[k]@));
        }
    }
    assert(selection_applied(streams, names, selected) =~= streams);
}

/// A name that the catalog does not hold stops nothing: the request does to
/// the catalog what it does without that name, and the name is among those
/// handed back.
pub proof fn lemma_unknown_name_is_skipped(
    streams: Seq<CatalogEntry>,
    names: Seq<String>,
    at: int,
    selected: bool,
)
    requires
        0 <= at < names.len(),
        !has_stream(streams, names[at]@),
    ensures
        selection_applied(streams, names, selected) == selection_applied(
            streams,
            names.remove(at),
            selected,
        ),
        unknown_names(streams, names).contains(names[at]),
{
    let others = names.remove(at);
    assert forall|i: int| 0 <= i < streams.len() implies is_reached(streams, names, i)
        == is_reached(streams, others, i) by {
        if is_named(names, streams[i].stream@) {
            let k = choose|k: int| 0 <= k < names.len() && (#[trigger] names[k])@ == streams[i].stream@;
            assert(k != at);
            if k < at {
                assert(others[k]@ == streams[i].stream@);
            } else {
                assert(others[k - 1]@ == streams[i].stream@);
            }
        }
        if is_named(others, streams[i].stream@) {
            let k = choose|k: int|
                0 <= k < others.len() && (#[trigger] others[k])@ == streams[i].stream@;
            if k < at {
                assert(names[k]@ == streams[i].stream@);
            } else {
                assert(names[k + 1]@ == streams[i].stream@);
            }
        }
    }
    assert(selection_applied(streams, names, selected) =~= selection_applied(
        streams,
        others,
        selected,
    ));
    names.lemma_filter_contains_rev(is_unknown(streams), names[at]);
}

/// The names handed back are names of the request that the catalog does not
/// hold. Where the catalog holds every name, none is handed back; where it
/// holds none, all are.
pub proof fn lemma_unknown_names(streams: Seq<CatalogEntry>, names: Seq<String>)
    ensures
        unknown_names(streams, names).len() <= names.len(),
        forall|i: int|
            0 <= i < unknown_names(streams, names).len() ==> !has_stream(
                streams,
                (#[trigger] unknown_names(streams, names)[i])@,
            ) && names.contains(unknown_names(streams, names)[i]),
        (forall|k: int| 0 <= k < names.len() ==> has_stream(streams, (#[trigger] names[k])@))
            ==> unknown_names(streams, names).len() == 0,
        (forall|k: int| 0 <= k < names.len() ==> !has_stream(streams, (#[trigger] names[k])@))
            ==> unknown_names(streams, names) == names,
    decreases names.len(),
{
    reveal(Seq::filter);
    let unknown = is_unknown(streams);
    if names.len() > 0 {
        let front = names.drop_last();
        lemma_unknown_names(streams, front);
        assert(names =~= front.push(names.last()));
        front.lemma_filter_push(names.last(), unknown);
        assert forall|i: int| 0 <= i < unknown_names(streams, names).len() implies !has_stream(
            streams,
            (#[trigger] unknown_names(streams, names)[i])@,
        ) && names.contains(unknown_names(streams, names)[i]) by {
            if i < unknown_names(streams, front).len() {
                let name = unknown_names(streams, front)[i];
                assert(front.contains(name));
                let k = choose|k: int| 0 <= k < front.len() && front[k] == name;
                assert(names[k] == name);
            } else {
                assert(names[names.len() - 1] == names.last());
            }
        }
        if forall|k: int| 0 <= k < names.len() ==> has_stream(streams, (#[trigger] names[k])@) {
            assert forall|k: int| 0 <= k < front.len() implies has_stream(
                streams,
                (#[trigger] front[k])@,
            ) by {
                assert(names[k] == front[k]);
            }
            assert(has_stream(streams, names[names.len() - 1]@));
        }
        if forall|k: int| 0 <= k < names.len() ==> !has_stream(streams, (#[trigger] names[k])@) {
            assert forall|k: int| 0 <= k < front.len() implies !has_stream(
                streams,
                (#[trigger] front[k])@,
            ) by {
                assert(names[k] == front[k]);
            }
            assert(!has_stream(streams, names[names.len() - 1]@));
        }
    }
}

/// A request with one more name reaches what it reached before, and besides
/// that only the first stream that carries the new name.
proof fn lemma_reach_grows(streams: Seq<CatalogEntry>, names: Seq<String>, name: String, i: int)
    requires
        0 <= i < streams.len(),
    ensures
        is_reached(streams, names.push(name), i) <==> is_reached(streams, names, i) || (
        is_first_named(streams, name@, i)),
{
    let grown = names.push(name);
    if is_named(names, streams[i].stream@) {
        let k = choose|k: int| 0 <= k < names.len() && (#[trigger] names[k])@ == streams[i].stream@;
        assert(grown[k]@ == streams[i].stream@);
    }
    if is_named(grown, streams[i].stream@) {
        let k = choose|k: int| 0 <= k < grown.len() && (#[trigger] grown[k])@ == streams[i].stream@;
        if k < names.len() {
            assert(names[k]@ == streams[i].stream@);
        }
    }
    if is_first_named(streams, name@, i) {
        assert(grown[names.len() as int]@ == streams[i].stream@);
    }
}

} // verus!
