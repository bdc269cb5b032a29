//! Tests of the stats predicate evaluator and the parsers and orders under it.

use sharing_core::model::ColumnType;
use sharing_core::model::Schema;
use sharing_core::model::SchemaField;
use sharing_core::model::resolve_column_type;
use sharing_core::service::Service;
use sharing_core::sql::ColumnFilter;
use sharing_core::sql::Predicate;
use sharing_core::stats::StatValue;
use sharing_core::stats::Stats;
use sharing_core::text::parse_bool;
use sharing_core::text::parse_i64;
use sharing_core::text::str_le;
use sharing_core::text::str_lt;

fn one_column_schema(name: &str, declared: &str) -> Schema {
    Schema {
        fields: vec![SchemaField { name: name.to_string(), declared_type: declared.to_string() }],
    }
}

fn int_stats(column: &str, null_count: i64, min: i64, max: i64) -> Stats {
    Stats {
        null_count: vec![(column.to_string(), null_count)],
        min_values: vec![(column.to_string(), StatValue::IntNum(min))],
        max_values: vec![(column.to_string(), StatValue::IntNum(max))],
    }
}

fn text_stats(column: &str, null_count: i64, min: &str, max: &str) -> Stats {
    Stats {
        null_count: vec![(column.to_string(), null_count)],
        min_values: vec![(column.to_string(), StatValue::Text(min.to_string()))],
        max_values: vec![(column.to_string(), StatValue::Text(max.to_string()))],
    }
}

fn filter(column: &str, predicate: Predicate) -> ColumnFilter {
    ColumnFilter { name: column.to_string(), predicate }
}

#[test]
fn check_keeps_when_null_count_missing() {
    let schema = one_column_schema("x", "integer");
    let stats = Stats { null_count: vec![], min_values: vec![], max_values: vec![] };
    let f = filter("x", Predicate::Equal("100".to_string()));
    assert!(Service::check_sql_hints(&f, &stats, &schema));
}

#[test]
fn check_keeps_when_column_not_in_schema() {
    let schema = one_column_schema("y", "integer");
    let stats = int_stats("x", 0, 5, 10);
    let f = filter("x", Predicate::Equal("100".to_string()));
    assert!(Service::check_sql_hints(&f, &stats, &schema));
}

#[test]
fn check_keeps_when_boolean_stats_unparsable() {
    let schema = one_column_schema("flag", "boolean");
    let stats = text_stats("flag", 0, "yes", "no");
    let f = filter("flag", Predicate::Equal("true".to_string()));
    assert!(Service::check_sql_hints(&f, &stats, &schema));
}

#[test]
fn range_check_on_integer_interval() {
    let schema = one_column_schema("x", "integer");
    let stats = int_stats("x", 0, 5, 10);
    let gt20 = filter("x", Predicate::GreaterThan("20".to_string()));
    assert!(!Service::check_sql_hints(&gt20, &stats, &schema));
    let gt3 = filter("x", Predicate::GreaterThan("3".to_string()));
    assert!(Service::check_sql_hints(&gt3, &stats, &schema));
    let eq7 = filter("x", Predicate::Equal("7".to_string()));
    assert!(Service::check_sql_hints(&eq7, &stats, &schema));
    let eq100 = filter("x", Predicate::Equal("100".to_string()));
    assert!(!Service::check_sql_hints(&eq100, &stats, &schema));
}

#[test]
fn range_check_ties_stay_inside() {
    let schema = one_column_schema("x", "long");
    let stats = int_stats("x", 0, 5, 10);
    let eq5 = filter("x", Predicate::Equal("5".to_string()));
    assert!(Service::check_sql_hints(&eq5, &stats, &schema));
    let eq10 = filter("x", Predicate::Equal("10".to_string()));
    assert!(Service::check_sql_hints(&eq10, &stats, &schema));
    let ge10 = filter("x", Predicate::GreaterOrEqual("10".to_string()));
    assert!(Service::check_sql_hints(&ge10, &stats, &schema));
    let ge11 = filter("x", Predicate::GreaterOrEqual("11".to_string()));
    assert!(!Service::check_sql_hints(&ge11, &stats, &schema));
    let lt5 = filter("x", Predicate::LessThan("5".to_string()));
    assert!(!Service::check_sql_hints(&lt5, &stats, &schema));
    let le5 = filter("x", Predicate::LessOrEqual("5".to_string()));
    assert!(Service::check_sql_hints(&le5, &stats, &schema));
}

#[test]
fn range_check_on_string_interval() {
    let schema = one_column_schema("name", "string");
    let stats = text_stats("name", 0, "banana", "mango");
    let eq_z = filter("name", Predicate::Equal("zucchini".to_string()));
    assert!(!Service::check_sql_hints(&eq_z, &stats, &schema));
    let eq_c = filter("name", Predicate::Equal("cherry".to_string()));
    assert!(Service::check_sql_hints(&eq_c, &stats, &schema));
    let lt_a = filter("name", Predicate::LessThan("apple".to_string()));
    assert!(!Service::check_sql_hints(&lt_a, &stats, &schema));
}

#[test]
fn range_check_on_boolean_interval() {
    let schema = one_column_schema("flag", "boolean");
    let stats = text_stats("flag", 0, "false", "false");
    let eq_true = filter("flag", Predicate::Equal("true".to_string()));
    assert!(!Service::check_sql_hints(&eq_true, &stats, &schema));
    let eq_false = filter("flag", Predicate::Equal("false".to_string()));
    assert!(Service::check_sql_hints(&eq_false, &stats, &schema));
}

#[test]
fn null_checks_use_the_null_count() {
    let schema = one_column_schema("x", "integer");
    let no_nulls = int_stats("x", 0, 5, 10);
    let some_nulls = int_stats("x", 3, 5, 10);
    let is_null = filter("x", Predicate::IsNull);
    assert!(!Service::check_sql_hints(&is_null, &no_nulls, &schema));
    assert!(Service::check_sql_hints(&is_null, &some_nulls, &schema));
    let is_not_null = filter("x", Predicate::IsNotNull);
    assert!(Service::check_sql_hints(&is_not_null, &no_nulls, &schema));
    assert!(Service::check_sql_hints(&is_not_null, &some_nulls, &schema));
}

#[test]
fn membership_needs_one_candidate_inside() {
    let schema = one_column_schema("x", "integer");
    let stats = int_stats("x", 0, 5, 10);
    let all_outside = filter(
        "x",
        Predicate::OneOf(vec!["1".to_string(), "20".to_string()]),
    );
    assert!(!Service::check_sql_hints(&all_outside, &stats, &schema));
    let one_inside = filter(
        "x",
        Predicate::OneOf(vec!["1".to_string(), "7".to_string()]),
    );
    assert!(Service::check_sql_hints(&one_inside, &stats, &schema));
    let unparsable = filter("x", Predicate::OneOf(vec!["abc".to_string()]));
    assert!(Service::check_sql_hints(&unparsable, &stats, &schema));
}

#[test]
fn unsupported_pieces_keep_the_file() {
    let schema = one_column_schema("x", "integer");
    let stats = int_stats("x", 0, 5, 10);
    let unsupported = filter("x", Predicate::Unsupported);
    assert!(Service::check_sql_hints(&unsupported, &stats, &schema));
    let unparsable_operand = filter("x", Predicate::Equal("not a number".to_string()));
    assert!(Service::check_sql_hints(&unparsable_operand, &stats, &schema));
    let other_type = one_column_schema("x", "timestamp");
    let eq = filter("x", Predicate::Equal("100".to_string()));
    assert!(Service::check_sql_hints(&eq, &stats, &other_type));
    let mismatched = text_stats("x", 0, "5", "10");
    assert!(Service::check_sql_hints(&eq, &mismatched, &schema));
}

#[test]
fn resolver_maps_declared_types() {
    let schema = Schema {
        fields: vec![
            SchemaField { name: "a".to_string(), declared_type: "boolean".to_string() },
            SchemaField { name: "b".to_string(), declared_type: "integer".to_string() },
            SchemaField { name: "c".to_string(), declared_type: "long".to_string() },
            SchemaField { name: "d".to_string(), declared_type: "string".to_string() },
            SchemaField { name: "e".to_string(), declared_type: "date".to_string() },
            SchemaField { name: "f".to_string(), declared_type: "binary".to_string() },
        ],
    };
    assert_eq!(resolve_column_type(&schema, &"a".to_string()), Some(ColumnType::Boolean));
    assert_eq!(resolve_column_type(&schema, &"b".to_string()), Some(ColumnType::Int));
    assert_eq!(resolve_column_type(&schema, &"c".to_string()), Some(ColumnType::Long));
    assert_eq!(resolve_column_type(&schema, &"d".to_string()), Some(ColumnType::Text));
    assert_eq!(resolve_column_type(&schema, &"e".to_string()), Some(ColumnType::Date));
    assert_eq!(resolve_column_type(&schema, &"f".to_string()), Some(ColumnType::Other));
    assert_eq!(resolve_column_type(&schema, &"g".to_string()), None);
}

#[test]
fn parse_i64_accepts_signs_and_rejects_overflow() {
    assert_eq!(parse_i64("42"), Some(42));
    assert_eq!(parse_i64("+17"), Some(17));
    assert_eq!(parse_i64("-17"), Some(-17));
    assert_eq!(parse_i64("0"), Some(0));
    assert_eq!(parse_i64("9223372036854775807"), Some(i64::MAX));
    assert_eq!(parse_i64("9223372036854775808"), None);
    assert_eq!(parse_i64("-9223372036854775808"), Some(i64::MIN));
    assert_eq!(parse_i64("-9223372036854775809"), None);
    assert_eq!(parse_i64(""), None);
    assert_eq!(parse_i64("-"), None);
    assert_eq!(parse_i64("+"), None);
    assert_eq!(parse_i64("12a"), None);
    assert_eq!(parse_i64(" 12"), None);
}

#[test]
fn parse_bool_accepts_only_the_two_words() {
    assert_eq!(parse_bool(&"true".to_string()), Some(true));
    assert_eq!(parse_bool(&"false".to_string()), Some(false));
    assert_eq!(parse_bool(&"True".to_string()), None);
    assert_eq!(parse_bool(&"".to_string()), None);
}

#[test]
fn string_order_is_lexicographic() {
    assert!(str_lt("apple", "banana"));
    assert!(!str_lt("banana", "apple"));
    assert!(!str_lt("apple", "apple"));
    assert!(str_le("apple", "apple"));
    assert!(str_lt("app", "apple"));
    assert!(str_le("2024-01-01", "2024-06-30"));
    assert!(!str_le("2024-07-01", "2024-06-30"));
}
