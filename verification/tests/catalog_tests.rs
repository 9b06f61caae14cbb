use std::sync::Arc;

use arrow::datatypes::{DataType, Field, Schema};
use dstreams::catalog::{
    default_true, Catalog, CatalogEntry, ReplicationMethod, StreamMetadata,
};
use dstreams::string_map::StringMap;
use dstreams::time::Timestamp;

fn entry(name: &str, selected: bool) -> CatalogEntry {
    CatalogEntry::new(name.to_string(), ReplicationMethod::FullTable).with_selected(selected)
}

fn three_streams() -> Catalog {
    let mut catalog = Catalog::new();
    catalog.add_stream(entry("users", true));
    catalog.add_stream(entry("orders", false));
    catalog.add_stream(entry("events", true));
    catalog
}

fn flags(catalog: &Catalog) -> Vec<bool> {
    catalog.streams.iter().map(|e| e.selected).collect()
}

fn names(catalog: &Catalog) -> Vec<String> {
    catalog.streams.iter().map(|e| e.stream.clone()).collect()
}

#[test]
fn default_true_is_true() {
    assert!(default_true());
}

#[test]
fn new_catalog_is_empty_and_stamped() {
    let catalog = Catalog::new();
    assert!(catalog.streams.is_empty());
    let metadata = catalog.metadata.expect("a new catalog carries metadata");
    assert!(metadata.tap_version.is_none());
    assert!(metadata.properties.is_empty());
    assert!(metadata.generated_at.secs > 1_600_000_000);
}

#[test]
fn new_at_takes_the_given_time() {
    let catalog = Catalog::new_at(Timestamp::new(42, 7));
    assert!(catalog.streams.is_empty());
    let metadata = catalog.metadata.unwrap();
    assert_eq!(metadata.generated_at, Timestamp::new(42, 7));
    assert!(metadata.tap_version.is_none());
    assert!(metadata.properties.is_empty());
}

#[test]
fn default_catalog_is_a_new_catalog() {
    let catalog = Catalog::default();
    assert!(catalog.streams.is_empty());
    assert!(catalog.metadata.is_some());
}

#[test]
fn entry_new_sets_the_defaults() {
    let entry = CatalogEntry::new("users".to_string(), ReplicationMethod::Incremental);
    assert_eq!(entry.stream, "users");
    assert_eq!(entry.replication_method, ReplicationMethod::Incremental);
    assert!(entry.selected);
    assert!(entry.tap_stream_id.is_none());
    assert!(entry.schema.is_none());
    assert!(entry.schema_json.is_none());
    assert!(entry.key_properties.is_empty());
    assert!(entry.replication_key.is_none());
    assert!(entry.metadata.row_count.is_none());
    assert!(entry.metadata.database_name.is_none());
    assert!(entry.metadata.table_name.is_none());
    assert!(!entry.metadata.is_view);
    assert!(entry.metadata.properties.is_empty());
}

#[test]
fn stream_metadata_default_is_blank() {
    let metadata = StreamMetadata::default();
    assert!(metadata.row_count.is_none());
    assert!(metadata.database_name.is_none());
    assert!(metadata.table_name.is_none());
    assert!(!metadata.is_view);
    assert_eq!(metadata.properties.len(), 0);
}

#[test]
fn entry_builders_set_one_field_each() {
    let schema = Arc::new(Schema::new(vec![Field::new("id", DataType::Int64, false)]));
    let mut properties = StringMap::new();
    properties.insert("owner".to_string(), serde_json::Value::String("ops".to_string()));
    let metadata = StreamMetadata {
        row_count: Some(12),
        database_name: Some("shop".to_string()),
        table_name: Some("users".to_string()),
        is_view: true,
        properties,
    };
    let entry = CatalogEntry::new("users".to_string(), ReplicationMethod::LogBased)
        .with_schema(schema.clone())
        .with_key_properties(vec!["id".to_string(), "tenant".to_string()])
        .with_replication_key("updated_at".to_string())
        .with_metadata(metadata)
        .with_selected(false);
    assert_eq!(entry.stream, "users");
    assert_eq!(entry.replication_method, ReplicationMethod::LogBased);
    assert_eq!(entry.schema, Some(schema));
    assert_eq!(entry.key_properties, vec!["id".to_string(), "tenant".to_string()]);
    assert_eq!(entry.replication_key, Some("updated_at".to_string()));
    assert_eq!(entry.metadata.row_count, Some(12));
    assert_eq!(entry.metadata.database_name, Some("shop".to_string()));
    assert_eq!(entry.metadata.table_name, Some("users".to_string()));
    assert!(entry.metadata.is_view);
    assert_eq!(
        entry.metadata.properties.get("owner"),
        Some(&serde_json::Value::String("ops".to_string()))
    );
    assert!(!entry.selected);
    assert!(entry.tap_stream_id.is_none());
    assert!(entry.schema_json.is_none());
}

#[test]
fn add_stream_appends_in_order() {
    let catalog = three_streams();
    assert_eq!(names(&catalog), vec!["users", "orders", "events"]);
    assert!(catalog.metadata.is_some());
}

#[test]
fn get_stream_finds_by_name() {
    let catalog = three_streams();
    let found = catalog.get_stream("orders").unwrap();
    assert_eq!(found.stream, "orders");
    assert!(!found.selected);
    assert!(catalog.get_stream("ghost").is_none());
    assert!(catalog.get_stream("Orders").is_none());
    assert!(catalog.get_stream("").is_none());
}

#[test]
fn get_stream_returns_the_first_of_two_with_one_name() {
    let mut catalog = Catalog::new();
    catalog.add_stream(
        CatalogEntry::new("users".to_string(), ReplicationMethod::FullTable)
            .with_replication_key("first".to_string()),
    );
    catalog.add_stream(
        CatalogEntry::new("users".to_string(), ReplicationMethod::Incremental)
            .with_replication_key("second".to_string()),
    );
    let found = catalog.get_stream("users").unwrap();
    assert_eq!(found.replication_key, Some("first".to_string()));
    assert_eq!(found.replication_method, ReplicationMethod::FullTable);
}

#[test]
fn selected_streams_keeps_exactly_the_selected_in_order() {
    let catalog = three_streams();
    let selected = catalog.selected_streams();
    let selected_names: Vec<&str> = selected.iter().map(|e| e.stream.as_str()).collect();
    assert_eq!(selected_names, vec!["users", "events"]);
    assert!(selected.iter().all(|e| e.selected));
}

#[test]
fn selected_streams_of_an_empty_catalog_is_empty() {
    let catalog = Catalog::new();
    assert!(catalog.selected_streams().is_empty());
}

#[test]
fn selected_streams_when_none_is_selected_is_empty() {
    let mut catalog = Catalog::new();
    catalog.add_stream(entry("a", false));
    catalog.add_stream(entry("b", false));
    assert!(catalog.selected_streams().is_empty());
}

#[test]
fn catalog_scenario_three_streams() {
    let mut catalog = three_streams();
    assert_eq!(flags(&catalog), vec![true, false, true]);
    assert_eq!(catalog.selected_streams().len(), 2);

    let missing = catalog.deselect(&vec!["orders".to_string()]);
    assert!(missing.is_empty());
    assert_eq!(flags(&catalog), vec![true, false, true]);
    assert_eq!(names(&catalog), vec!["users", "orders", "events"]);

    let missing = catalog.select(&vec!["ghost".to_string()]);
    assert_eq!(missing, vec!["ghost".to_string()]);
    assert_eq!(flags(&catalog), vec![true, false, true]);
    assert_eq!(names(&catalog), vec!["users", "orders", "events"]);
    assert_eq!(catalog.selected_streams().len(), 2);
}

#[test]
fn select_sets_the_flag_of_each_named_stream() {
    let mut catalog = Catalog::new();
    catalog.add_stream(entry("a", false));
    catalog.add_stream(entry("b", false));
    catalog.add_stream(entry("c", false));
    let missing = catalog.select(&vec!["c".to_string(), "a".to_string()]);
    assert!(missing.is_empty());
    assert_eq!(flags(&catalog), vec![true, false, true]);
}

#[test]
fn deselect_clears_the_flag_of_each_named_stream() {
    let mut catalog = three_streams();
    let missing = catalog.deselect(&vec!["users".to_string(), "events".to_string()]);
    assert!(missing.is_empty());
    assert_eq!(flags(&catalog), vec![false, false, false]);
    assert!(catalog.selected_streams().is_empty());
}

#[test]
fn unknown_name_does_not_stop_the_names_after_it() {
    let mut catalog = Catalog::new();
    catalog.add_stream(entry("a", false));
    catalog.add_stream(entry("b", false));
    let missing = catalog.select(&vec![
        "ghost".to_string(),
        "b".to_string(),
        "phantom".to_string(),
        "a".to_string(),
    ]);
    assert_eq!(missing, vec!["ghost".to_string(), "phantom".to_string()]);
    assert_eq!(flags(&catalog), vec![true, true]);
}

#[test]
fn unknown_name_gives_the_same_catalog_as_the_request_without_it() {
    let mut with_ghost = three_streams();
    let mut without = three_streams();
    with_ghost.deselect(&vec!["users".to_string(), "ghost".to_string()]);
    without.deselect(&vec!["users".to_string()]);
    assert_eq!(flags(&with_ghost), flags(&without));
    assert_eq!(flags(&with_ghost), vec![false, false, true]);
}

#[test]
fn empty_request_changes_nothing() {
    let mut catalog = three_streams();
    let missing = catalog.select(&vec![]);
    assert!(missing.is_empty());
    assert_eq!(flags(&catalog), vec![true, false, true]);
}

#[test]
fn same_name_twice_in_a_request_is_applied_once() {
    let mut catalog = three_streams();
    let missing = catalog.select(&vec!["orders".to_string(), "orders".to_string()]);
    assert!(missing.is_empty());
    assert_eq!(flags(&catalog), vec![true, true, true]);
    let missing = catalog.select(&vec!["ghost".to_string(), "ghost".to_string()]);
    assert_eq!(missing, vec!["ghost".to_string(), "ghost".to_string()]);
}

#[test]
fn selection_reaches_only_the_first_of_two_streams_with_one_name() {
    let mut catalog = Catalog::new();
    catalog.add_stream(entry("dup", false));
    catalog.add_stream(entry("dup", false));
    catalog.add_stream(entry("other", false));
    catalog.select(&vec!["dup".to_string()]);
    assert_eq!(flags(&catalog), vec![true, false, false]);
}

#[test]
fn selection_changes_nothing_but_the_flag() {
    let mut catalog = Catalog::new();
    catalog.add_stream(
        CatalogEntry::new("users".to_string(), ReplicationMethod::Incremental)
            .with_replication_key("updated_at".to_string())
            .with_key_properties(vec!["id".to_string()]),
    );
    let generated_at = catalog.metadata.as_ref().unwrap().generated_at;
    catalog.deselect(&vec!["users".to_string()]);
    let entry = &catalog.streams[0];
    assert!(!entry.selected);
    assert_eq!(entry.stream, "users");
    assert_eq!(entry.replication_method, ReplicationMethod::Incremental);
    assert_eq!(entry.replication_key, Some("updated_at".to_string()));
    assert_eq!(entry.key_properties, vec!["id".to_string()]);
    assert_eq!(catalog.metadata.as_ref().unwrap().generated_at, generated_at);
}

#[test]
fn replication_methods_compare_by_variant() {
    assert_eq!(ReplicationMethod::FullTable, ReplicationMethod::FullTable);
    assert_ne!(ReplicationMethod::FullTable, ReplicationMethod::Incremental);
    assert_ne!(ReplicationMethod::Incremental, ReplicationMethod::LogBased);
    let copy = ReplicationMethod::LogBased;
    let other = copy;
    assert_eq!(copy, other);
}

#[test]
fn replication_method_names() {
    assert_eq!(ReplicationMethod::FullTable.name(), "FullTable");
    assert_eq!(ReplicationMethod::Incremental.name(), "Incremental");
    assert_eq!(ReplicationMethod::LogBased.name(), "LogBased");
    assert_eq!(ReplicationMethod::LogBased.name(), format!("{:?}", ReplicationMethod::LogBased));
}

#[test]
fn listing_line_shows_mark_name_and_method() {
    let selected = CatalogEntry::new("users".to_string(), ReplicationMethod::Incremental);
    assert_eq!(selected.listing_line(), "  [\u{2713}] users (Incremental)");
    let unselected = entry("orders", false);
    assert_eq!(unselected.listing_line(), "  [ ] orders (FullTable)");
    let unnamed = CatalogEntry::new(String::new(), ReplicationMethod::LogBased);
    assert_eq!(unnamed.listing_line(), "  [\u{2713}]  (LogBased)");
}
