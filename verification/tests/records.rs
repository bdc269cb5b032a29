//! Tests of the file-list filter pipeline and the record builders, run with
//! real statistics payloads.

use sharing_core::model::FileEntry;
use sharing_core::model::Schema;
use sharing_core::model::SchemaField;
use sharing_core::model::TableMetadata;
use sharing_core::service::File;
use sharing_core::service::Record;
use sharing_core::service::Service;
use sharing_core::service::VERSION;
use sharing_core::sql::ColumnFilter;
use sharing_core::sql::Predicate;

fn amount_schema() -> Schema {
    Schema {
        fields: vec![SchemaField {
            name: "amount".to_string(),
            declared_type: "integer".to_string(),
        }],
    }
}

fn entry(path: &str, stats: Option<&str>) -> FileEntry {
    FileEntry {
        path: path.to_string(),
        partition_values: vec![
            ("date".to_string(), Some("2024-01-01".to_string())),
            ("region".to_string(), None),
        ],
        size: 1024,
        stats: stats.map(|s| s.to_string()),
        modification_time: None,
    }
}

const STATS_A: &str = r#"{"numRecords":3,"nullCount":{"amount":0},"minValues":{"amount":1},"maxValues":{"amount":5}}"#;
const STATS_B: &str = r#"{"numRecords":3,"nullCount":{"amount":0},"minValues":{"amount":50},"maxValues":{"amount":60}}"#;

fn greater_than_40() -> ColumnFilter {
    ColumnFilter { name: "amount".to_string(), predicate: Predicate::GreaterThan("40".to_string()) }
}

#[test]
fn filter_returns_files_unchanged_on_empty_filter_list() {
    let files = vec![entry("a.parquet", Some(STATS_A)), entry("b.parquet", Some(STATS_B))];
    let kept = Service::filter_with_sql_hints(files, Some(amount_schema()), Some(vec![]));
    assert_eq!(kept.len(), 2);
    assert_eq!(kept[0].path, "a.parquet");
    assert_eq!(kept[1].path, "b.parquet");
}

#[test]
fn filter_returns_files_unchanged_without_schema() {
    let files = vec![entry("a.parquet", Some(STATS_A)), entry("b.parquet", Some(STATS_B))];
    let kept = Service::filter_with_sql_hints(files, None, Some(vec![greater_than_40()]));
    assert_eq!(kept.len(), 2);
    let files = vec![entry("a.parquet", Some(STATS_A))];
    let kept = Service::filter_with_sql_hints(files, None, None);
    assert_eq!(kept.len(), 1);
}

#[test]
fn filter_prunes_by_integer_range() {
    let files = vec![entry("a.parquet", Some(STATS_A)), entry("b.parquet", Some(STATS_B))];
    let records = Service::files_from(
        files,
        Some(amount_schema()),
        Some(vec![greater_than_40()]),
        None,
        None,
    );
    assert_eq!(records.len(), 1);
    let only = &records[0];
    assert_eq!(only.size, 1024);
    assert_eq!(only.stats.as_deref(), Some(STATS_B));
    assert!(!only.id.is_empty());
}

#[test]
fn filter_keeps_files_with_unreadable_stats() {
    let files = vec![entry("a.parquet", Some("not a json payload")), entry("b.parquet", None)];
    let kept = Service::filter_with_sql_hints(
        files,
        Some(amount_schema()),
        Some(vec![greater_than_40()]),
    );
    assert_eq!(kept.len(), 2);
}

#[test]
fn empty_filter_list_returns_every_record_shaped() {
    let files = vec![entry("a.parquet", Some(STATS_A)), entry("b.parquet", Some(STATS_B))];
    let records = Service::files_from(files, Some(amount_schema()), Some(vec![]), None, None);
    assert_eq!(records.len(), 2);
    for record in &records {
        assert_eq!(record.id.len(), 32);
        assert!(record.id.chars().all(|c| c.is_ascii_hexdigit()));
        assert_eq!(record.url, "");
        assert_eq!(
            record.partition_values,
            vec![("date".to_string(), "2024-01-01".to_string())]
        );
    }
    assert_ne!(records[0].id, records[1].id);
}

#[test]
fn same_path_always_yields_the_same_identifier() {
    let first = File::from(entry("part-0001.parquet", Some(STATS_A)), None, None);
    let second = File::from(entry("part-0001.parquet", Some(STATS_B)), Some(7), Some(1234));
    assert_eq!(first.id, second.id);
    let other = File::from(entry("part-0002.parquet", Some(STATS_A)), None, None);
    assert_ne!(first.id, other.id);
    assert_ne!(first.id, "part-0001.parquet");
}

#[test]
fn record_builder_passes_annotations_through() {
    let record = File::from(entry("a.parquet", Some(STATS_A)), Some(4), Some(1700000000000));
    assert_eq!(record.version, Some(4));
    assert_eq!(record.timestamp, Some(1700000000000));
    assert_eq!(record.stats.as_deref(), Some(STATS_A));
    let bare = File::from(entry("a.parquet", None), None, None);
    assert_eq!(bare.version, None);
    assert_eq!(bare.timestamp, None);
    assert_eq!(bare.stats, None);
}

#[test]
fn partition_values_drop_absent_entries() {
    let record = File::from(
        FileEntry {
            path: "p.parquet".to_string(),
            partition_values: vec![
                ("a".to_string(), Some("1".to_string())),
                ("b".to_string(), None),
                ("c".to_string(), Some("3".to_string())),
            ],
            size: 0,
            stats: None,
            modification_time: None,
        },
        None,
        None,
    );
    assert_eq!(
        record.partition_values,
        vec![("a".to_string(), "1".to_string()), ("c".to_string(), "3".to_string())]
    );
}

fn table_metadata() -> TableMetadata {
    TableMetadata {
        id: "table-id-1".to_string(),
        name: Some("sales".to_string()),
        description: None,
        provider: "parquet".to_string(),
        schema_string: r#"{"type":"struct","fields":[]}"#.to_string(),
        partition_columns: vec!["date".to_string()],
        configuration: vec![("delta.appendOnly".to_string(), Some("false".to_string()))],
        version: Some(9),
        size: None,
        num_files: None,
    }
}

#[test]
fn metadata_records_come_in_protocol_then_metadata_order() {
    let records = Service::metadata_from(table_metadata());
    assert_eq!(records.len(), 2);
    match &records[0] {
        Record::Protocol(p) => assert_eq!(p.protocol.min_reader_version, VERSION),
        Record::Metadata(_) => panic!("the protocol record must come first"),
    }
    match &records[1] {
        Record::Metadata(m) => {
            assert_eq!(m.meta_data.id, "table-id-1");
            assert_eq!(m.meta_data.name.as_deref(), Some("sales"));
            assert_eq!(m.meta_data.description, None);
            assert_eq!(m.meta_data.format.provider, "parquet");
            assert_eq!(m.meta_data.schema_string, r#"{"type":"struct","fields":[]}"#);
            assert_eq!(m.meta_data.partition_columns, vec!["date".to_string()]);
            assert_eq!(m.meta_data.version, Some(9));
            assert_eq!(m.meta_data.num_files, None);
        },
        Record::Protocol(_) => panic!("the metadata record must come second"),
    }
}
