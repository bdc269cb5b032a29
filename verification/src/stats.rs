//! Per-file column statistics: the parsed model the evaluator reads, and the
//! trusted lookups that pull single entries out of a raw statistics payload.

use vstd::prelude::*;

verus! {

/// How one min/max statistic is serialized: a string, a number that fits a
/// 64-bit integer, some other number, or any other shape.
pub enum StatValue {
    Text(String),
    IntNum(i64),
    NumOther,
    Other,
}

/// The spec-level shape of a `StatValue`.
pub enum StatView {
    Text(Seq<char>),
    IntNum(i64),
    NumOther,
    Other,
}

impl View for StatValue {
    type V = StatView;

    open spec fn view(&self) -> StatView {
        match self {
            StatValue::Text(s) => StatView::Text(s@),
            StatValue::IntNum(n) => StatView::IntNum(*n),
            StatValue::NumOther => StatView::NumOther,
            StatValue::Other => StatView::Other,
        }
    }
}

/// Per-file statistics parsed out of an add-file entry's raw payload:
/// per-column null counts and minimum / maximum observed values over the
/// column's non-null entries.
pub struct Stats {
    pub null_count: Vec<(String, i64)>,
    pub min_values: Vec<(String, StatValue)>,
    pub max_values: Vec<(String, StatValue)>,
}

/// The first value listed under the given column name, if any.
pub open spec fn spec_assoc<T>(entries: Seq<(String, T)>, key: Seq<char>) -> Option<T>
    decreases entries.len(),
{
    if entries.len() == 0 {
        None
    } else if entries[0].0@ == key {
        Some(entries[0].1)
    } else {
        spec_assoc(entries.drop_first(), key)
    }
}

/// Finds the first entry listed under the given column name.
pub fn assoc_get<'a, T>(entries: &'a Vec<(String, T)>, key: &String) -> (r: Option<&'a T>)
    ensures
        match r {
            Some(v) => spec_assoc(entries@, key@) == Some(*v),
            None => spec_assoc(entries@, key@) is None,
        },
{
    let n = entries.len();
    let mut i: usize = 0;
    proof {
        assert(entries@.skip(0) =~= entries@);
    }
    while i < n
        invariant
            i <= n,
            n == entries@.len(),
            spec_assoc(entries@, key@) == spec_assoc(entries@.skip(i as int), key@),
        decreases n - i,
    {
        let entry = &entries[i];
        proof {
            assert(entries@.skip(i as int)[0] == entries@[i as int]);
        }
        if entry.0 == *key {
            return Some(&entry.1);
        }
        proof {
            assert(entries@.skip(i as int).drop_first() =~= entries@.skip(i as int + 1));
        }
        i += 1;
    }
    proof {
        assert(entries@.skip(n as int) =~= Seq::<(String, T)>::empty());
    }
    None
}

/// The null count a statistics payload records for one column: `None` when
/// the payload does not parse, has no such entry, or the entry is not a
/// 64-bit integer.
pub uninterp spec fn null_count_of(raw: Seq<char>, column: Seq<char>) -> Option<i64>;

/// The minimum a statistics payload records for one column, classified by its
/// serialized shape; `None` when the payload does not parse or has no entry.
pub uninterp spec fn min_value_of(raw: Seq<char>, column: Seq<char>) -> Option<StatView>;

/// The maximum a statistics payload records for one column, classified by its
/// serialized shape; `None` when the payload does not parse or has no entry.
pub uninterp spec fn max_value_of(raw: Seq<char>, column: Seq<char>) -> Option<StatView>;

/// Relies on serde_json (`from_str`, `Value::get`, `Value::as_i64`): reads the
/// "nullCount" entry of the given column out of the raw statistics payload.
/// The result is a function of the payload and the column name alone.
#[verifier::external_body]
pub(crate) fn lookup_null_count(raw: &str, column: &str) -> (r: Option<i64>)
    ensures
        r == null_count_of(raw@, column@),
{
    let doc: serde_json::Value = serde_json::from_str(raw).ok()?;
    doc.get("nullCount")?.get(column)?.as_i64()
}

/// Relies on serde_json (`from_str`, `Value::get`, `Number::as_i64`): reads
/// the "minValues" entry of the given column out of the raw statistics
/// payload, keeping only its serialized shape. The result is a function of
/// the payload and the column name alone.
#[verifier::external_body]
pub(crate) fn lookup_min_value(raw: &str, column: &str) -> (r: Option<StatValue>)
    ensures
        match r {
            Some(v) => min_value_of(raw@, column@) == Some(v@),
            None => min_value_of(raw@, column@) is None,
        },
{
    let doc: serde_json::Value = serde_json::from_str(raw).ok()?;
    Some(match doc.get("minValues")?.get(column)? {
        serde_json::Value::String(s) => StatValue::Text(s.clone()),
        serde_json::Value::Number(n) => match n.as_i64() {
            Some(i) => StatValue::IntNum(i),
            None => StatValue::NumOther,
        },
        _ => StatValue::Other,
    })
}

/// Relies on serde_json (`from_str`, `Value::get`, `Number::as_i64`): reads
/// the "maxValues" entry of the given column out of the raw statistics
/// payload, keeping only its serialized shape. The result is a function of
/// the payload and the column name alone.
#[verifier::external_body]
pub(crate) fn lookup_max_value(raw: &str, column: &str) -> (r: Option<StatValue>)
    ensures
        match r {
            Some(v) => max_value_of(raw@, column@) == Some(v@),
            None => max_value_of(raw@, column@) is None,
        },
{
    let doc: serde_json::Value = serde_json::from_str(raw).ok()?;
    Some(match doc.get("maxValues")?.get(column)? {
        serde_json::Value::String(s) => StatValue::Text(s.clone()),
        serde_json::Value::Number(n) => match n.as_i64() {
            Some(i) => StatValue::IntNum(i),
            None => StatValue::NumOther,
        },
        _ => StatValue::Other,
    })
}

} // verus!
