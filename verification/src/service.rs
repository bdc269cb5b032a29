//! The protocol-facing service: the stats predicate evaluator, the file-list
//! filter built on it, and the builders that shape surviving files and table
//! metadata into response records.

use vstd::prelude::*;

verus! {

use crate::model::ColumnType;
use crate::model::FileEntry;
use crate::model::Schema;
use crate::model::TableMetadata;
use crate::model::resolve_column_type;
use crate::model::spec_resolve_column_type;
use crate::sql::ColumnFilter;
use crate::sql::Predicate;
use crate::sql::check_boolean;
use crate::sql::check_long;
use crate::sql::check_text;
use crate::sql::spec_check_boolean;
use crate::sql::spec_check_long;
use crate::sql::spec_check_text;
use crate::stats::StatValue;
use crate::stats::StatView;
use crate::stats::Stats;
use crate::stats::assoc_get;
use crate::stats::lookup_max_value;
use crate::stats::lookup_min_value;
use crate::stats::lookup_null_count;
use crate::stats::max_value_of;
use crate::stats::min_value_of;
use crate::stats::null_count_of;
use crate::stats::spec_assoc;
use crate::text::parse_bool;
use crate::text::spec_parse_bool;

/// The minimum reader version this server build declares.
pub const VERSION: i32 = 1;

/// The protocol capability block.
pub struct ProtocolDetail {
    pub min_reader_version: i32,
}

/// The protocol record, the first record of any response stream.
pub struct Protocol {
    pub protocol: ProtocolDetail,
}

impl Protocol {
    /// The protocol record this build emits.
    pub fn new() -> (r: Self)
        ensures
            r.protocol.min_reader_version == VERSION,
    {
        Self { protocol: ProtocolDetail { min_reader_version: VERSION } }
    }
}

/// The format block of the metadata record.
pub struct Format {
    pub provider: String,
}

/// The externally-shaped table metadata. Optional fields stay optional so the
/// wire encoder can omit them when absent rather than emit them as null.
pub struct MetadataDetail {
    pub id: String,
    pub name: Option<String>,
    pub description: Option<String>,
    pub format: Format,
    pub schema_string: String,
    pub partition_columns: Vec<String>,
    pub configuration: Vec<(String, Option<String>)>,
    pub version: Option<i64>,
    pub size: Option<i64>,
    pub num_files: Option<i64>,
}

/// The metadata record, the second record of any response stream.
pub struct Metadata {
    pub meta_data: MetadataDetail,
}

/// Field-by-field: the metadata record projects the table descriptor.
pub open spec fn spec_metadata_matches(m: Metadata, t: TableMetadata) -> bool {
    &&& m.meta_data.id == t.id
    &&& m.meta_data.name == t.name
    &&& m.meta_data.description == t.description
    &&& m.meta_data.format.provider == t.provider
    &&& m.meta_data.schema_string == t.schema_string
    &&& m.meta_data.partition_columns == t.partition_columns
    &&& m.meta_data.configuration == t.configuration
    &&& m.meta_data.version == t.version
    &&& m.meta_data.size == t.size
    &&& m.meta_data.num_files == t.num_files
}

impl Metadata {
    /// Projects the table descriptor into the external metadata record.
    pub fn from(metadata: TableMetadata) -> (r: Self)
        ensures
            spec_metadata_matches(r, metadata),
    {
        Self {
            meta_data: MetadataDetail {
                id: metadata.id,
                name: metadata.name,
                description: metadata.description,
                format: Format { provider: metadata.provider },
                schema_string: metadata.schema_string,
                partition_columns: metadata.partition_columns,
                configuration: metadata.configuration,
                version: metadata.version,
                size: metadata.size,
                num_files: metadata.num_files,
            },
        }
    }
}

/// The identifier the file record builder derives from a path. Two entries
/// with the same path always carry the same identifier.
pub uninterp spec fn file_id_of(path: Seq<char>) -> Seq<char>;

/// Relies on md5::compute and the `LowerHex` form of its digest: 32 lowercase
/// hexadecimal digits that are a function of the hashed bytes alone.
#[verifier::external_body]
fn compute_file_id(path: &str) -> (r: String)
    ensures
        r@ == file_id_of(path@),
        r@.len() == 32,
{
    let digest = md5::compute(path.as_bytes());
    format!("{:x}", digest)
}

/// The partition values that survive projection: entries with an absent value
/// are dropped, the rest keep their order.
pub open spec fn spec_strip_partition_values(pvs: Seq<(String, Option<String>)>) -> Seq<
    (String, String),
>
    decreases pvs.len(),
{
    if pvs.len() == 0 {
        Seq::empty()
    } else {
        let rest = spec_strip_partition_values(pvs.drop_last());
        match pvs.last().1 {
            Some(v) => rest.push((pvs.last().0, v)),
            None => rest,
        }
    }
}

/// Drops every partition entry whose value is absent.
#[verifier::loop_isolation(false)]
pub fn strip_partition_values(pvs: Vec<(String, Option<String>)>) -> (r: Vec<(String, String)>)
    ensures
        r@ == spec_strip_partition_values(pvs@),
{
    let ghost orig = pvs@;
    let mut remaining = pvs;
    let mut out: Vec<(String, String)> = Vec::new();
    let ghost mut i: int = 0;
    proof {
        assert(orig.take(0) =~= Seq::<(String, Option<String>)>::empty());
    }
    while remaining.len() > 0
        invariant
            0 <= i,
            i + remaining@.len() == orig.len(),
            remaining@ == orig.skip(i),
            out@ == spec_strip_partition_values(orig.take(i)),
        decreases remaining@.len(),
    {
        let pair = remaining.remove(0);
        proof {
            assert(pair == orig[i]);
            assert(remaining@ =~= orig.skip(i + 1));
            assert(orig.take(i + 1).drop_last() =~= orig.take(i));
            assert(orig.take(i + 1).last() == orig[i]);
        }
        match pair.1 {
            Some(v) => {
                out.push((pair.0, v));
            },
            None => {},
        }
        proof {
            i = i + 1;
        }
    }
    proof {
        assert(orig.take(i) =~= orig);
    }
    out
}

/// A protocol-facing file record: a stable content-derived identifier, the
/// access URL (left empty here; the URL signer fills it in afterwards), the
/// surviving partition values, and the entry's size, raw statistics and
/// optional version/timestamp annotations.
pub struct File {
    pub id: String,
    pub url: String,
    pub partition_values: Vec<(String, String)>,
    pub size: i64,
    pub stats: Option<String>,
    pub version: Option<i64>,
    pub timestamp: Option<i64>,
}

/// Field-by-field: how a file record relates to the entry it was built from.
pub open spec fn spec_file_record_matches(
    r: File,
    entry: FileEntry,
    version: Option<i64>,
    timestamp: Option<i64>,
) -> bool {
    &&& r.id@ == file_id_of(entry.path@)
    &&& r.id@.len() == 32
    &&& r.url@ == Seq::<char>::empty()
    &&& r.partition_values@ == spec_strip_partition_values(entry.partition_values@)
    &&& r.size == entry.size
    &&& r.stats == entry.stats
    &&& r.version == version
    &&& r.timestamp == timestamp
}

impl File {
    /// Builds the protocol-facing record of one surviving entry: the
    /// identifier is derived from the path alone, partition entries without a
    /// value are dropped, and the URL is left for the signer to fill in.
    pub fn from(entry: FileEntry, version: Option<i64>, timestamp: Option<i64>) -> (r: Self)
        ensures
            spec_file_record_matches(r, entry, version, timestamp),
    {
        let id = compute_file_id(entry.path.as_str());
        let partition_values = strip_partition_values(entry.partition_values);
        Self {
            id,
            url: String::new(),
            partition_values,
            size: entry.size,
            stats: entry.stats,
            version,
            timestamp,
        }
    }
}

/// One record of a response stream.
pub enum Record {
    Protocol(Protocol),
    Metadata(Metadata),
}

/// The view a min/max option presents to the evaluator's contract.
pub open spec fn opt_stat_view(v: Option<&StatValue>) -> Option<StatView> {
    match v {
        Some(s) => Some(s@),
        None => None,
    }
}

pub open spec fn opt_value_view(v: Option<StatValue>) -> Option<StatView> {
    match v {
        Some(s) => Some(s@),
        None => None,
    }
}

/// The typed heart of the evaluator: dispatch on the serialized shape of the
/// min/max pair and the column's resolved type, then run the matching range
/// check. Every unsupported combination keeps the file.
pub open spec fn spec_check_typed(
    p: Predicate,
    ct: ColumnType,
    mn: StatView,
    mx: StatView,
    null_count: i64,
) -> bool {
    match (mn, mx) {
        (StatView::Text(a), StatView::Text(b)) => match ct {
            ColumnType::Boolean => match (spec_parse_bool(a), spec_parse_bool(b)) {
                (Some(x), Some(y)) => spec_check_boolean(p, x, y, null_count),
                _ => true,
            },
            ColumnType::Text => spec_check_text(p, a, b, null_count),
            ColumnType::Date => spec_check_text(p, a, b, null_count),
            _ => true,
        },
        (StatView::IntNum(a), StatView::IntNum(b)) => match ct {
            ColumnType::Int => spec_check_long(p, a, b, null_count),
            ColumnType::Long => spec_check_long(p, a, b, null_count),
            _ => true,
        },
        _ => true,
    }
}

/// The evaluator over one column's looked-up statistics: any absent piece
/// (null count, schema field, min or max) keeps the file.
pub open spec fn spec_check_parts(
    filter: ColumnFilter,
    null_count: Option<i64>,
    min_value: Option<StatView>,
    max_value: Option<StatView>,
    schema: Schema,
) -> bool {
    match null_count {
        None => true,
        Some(nc) => match spec_resolve_column_type(schema, filter.name@) {
            None => true,
            Some(ct) => match (min_value, max_value) {
                (Some(mn), Some(mx)) => spec_check_typed(filter.predicate, ct, mn, mx, nc),
                _ => true,
            },
        },
    }
}

/// Decides the evaluator over one column's looked-up statistics.
pub fn check_parts(
    filter: &ColumnFilter,
    null_count: Option<i64>,
    min_value: Option<&StatValue>,
    max_value: Option<&StatValue>,
    schema: &Schema,
) -> (r: bool)
    ensures
        r == spec_check_parts(
            *filter,
            null_count,
            opt_stat_view(min_value),
            opt_stat_view(max_value),
            *schema,
        ),
{
    let nc = match null_count {
        Some(n) => n,
        None => {
            return true;
        },
    };
    let ct = match resolve_column_type(schema, &filter.name) {
        Some(t) => t,
        None => {
            return true;
        },
    };
    let (mn, mx) = match (min_value, max_value) {
        (Some(a), Some(b)) => (a, b),
        _ => {
            return true;
        },
    };
    match (mn, mx) {
        (StatValue::Text(a), StatValue::Text(b)) => match ct {
            ColumnType::Boolean => {
                let pa = parse_bool(a);
                let pb = parse_bool(b);
                match (pa, pb) {
                    (Some(x), Some(y)) => check_boolean(&filter.predicate, x, y, nc),
                    _ => true,
                }
            },
            ColumnType::Text => check_text(&filter.predicate, a, b, nc),
            ColumnType::Date => check_text(&filter.predicate, a, b, nc),
            _ => true,
        },
        (StatValue::IntNum(a), StatValue::IntNum(b)) => match ct {
            ColumnType::Int => check_long(&filter.predicate, *a, *b, nc),
            ColumnType::Long => check_long(&filter.predicate, *a, *b, nc),
            _ => true,
        },
        _ => true,
    }
}

/// The evaluator over a parsed statistics value: each piece is the first
/// entry listed under the filter's column.
pub open spec fn spec_check_stats(filter: ColumnFilter, stats: Stats, schema: Schema) -> bool {
    spec_check_parts(
        filter,
        spec_assoc(stats.null_count@, filter.name@),
        opt_value_view(spec_assoc(stats.min_values@, filter.name@)),
        opt_value_view(spec_assoc(stats.max_values@, filter.name@)),
        schema,
    )
}

/// The evaluator over a raw statistics payload: each piece is what the
/// payload records for the filter's column, read by the trusted lookups.
pub open spec fn spec_check_raw(filter: ColumnFilter, raw: Seq<char>, schema: Schema) -> bool {
    spec_check_parts(
        filter,
        null_count_of(raw, filter.name@),
        min_value_of(raw, filter.name@),
        max_value_of(raw, filter.name@),
        schema,
    )
}

/// Whether one filter keeps a file: a file without a statistics payload is
/// always kept.
pub open spec fn spec_filter_keeps(filter: ColumnFilter, f: FileEntry, schema: Schema) -> bool {
    match f.stats {
        Some(raw) => spec_check_raw(filter, raw@, schema),
        None => true,
    }
}

/// Whether a file survives the whole filter set: every filter must keep it.
pub open spec fn spec_file_passes(f: FileEntry, filters: Seq<ColumnFilter>, schema: Schema) -> bool {
    forall|i: int| 0 <= i < filters.len() ==> spec_filter_keeps(#[trigger] filters[i], f, schema)
}

/// The files that survive the filter set, in their original order.
pub open spec fn spec_filter_files(
    files: Seq<FileEntry>,
    filters: Seq<ColumnFilter>,
    schema: Schema,
) -> Seq<FileEntry>
    decreases files.len(),
{
    if files.len() == 0 {
        Seq::empty()
    } else {
        let rest = spec_filter_files(files.drop_last(), filters, schema);
        if spec_file_passes(files.last(), filters, schema) {
            rest.push(files.last())
        } else {
            rest
        }
    }
}

/// What the file-list filter returns: the files unchanged when the schema is
/// absent or the filter set is absent or empty, the survivors otherwise.
pub open spec fn spec_selected(
    files: Seq<FileEntry>,
    schema: Option<Schema>,
    predicate_hints: Option<Vec<ColumnFilter>>,
) -> Seq<FileEntry> {
    match (schema, predicate_hints) {
        (Some(sch), Some(hints)) => if hints@.len() > 0 {
            spec_filter_files(files, hints@, sch)
        } else {
            files
        },
        _ => files,
    }
}

/// Evaluates one filter against a raw statistics payload.
fn check_hints_raw(filter: &ColumnFilter, raw: &String, schema: &Schema) -> (r: bool)
    ensures
        r == spec_check_raw(*filter, raw@, *schema),
{
    let nc = lookup_null_count(raw.as_str(), filter.name.as_str());
    let mn = lookup_min_value(raw.as_str(), filter.name.as_str());
    let mx = lookup_max_value(raw.as_str(), filter.name.as_str());
    check_parts(filter, nc, mn.as_ref(), mx.as_ref(), schema)
}

/// Decides whether a file survives the whole filter set.
#[verifier::loop_isolation(false)]
fn file_passes(f: &FileEntry, filters: &Vec<ColumnFilter>, schema: &Schema) -> (r: bool)
    ensures
        r == spec_file_passes(*f, filters@, *schema),
{
    match &f.stats {
        None => true,
        Some(raw) => {
            let n = filters.len();
            let mut i: usize = 0;
            while i < n
                invariant
                    i <= n,
                    forall|j: int|
                        0 <= j < i ==> spec_filter_keeps(#[trigger] filters@[j], *f, *schema),
                decreases n - i,
            {
                if !check_hints_raw(&filters[i], raw, schema) {
                    proof {
                        assert(!spec_filter_keeps(filters@[i as int], *f, *schema));
                    }
                    return false;
                }
                i += 1;
            }
            true
        },
    }
}

/// The service around the snapshot: filtering and response shaping.
pub struct Service;

impl Service {
    /// The stats predicate evaluator: `true` keeps the file, `false` means
    /// the statistics prove that no row of the file can match the filter.
    /// Every failure to look something up or parse something keeps the file.
    pub fn check_sql_hints(filter: &ColumnFilter, stats: &Stats, schema: &Schema) -> (r: bool)
        ensures
            r == spec_check_stats(*filter, *stats, *schema),
    {
        let nc = match assoc_get(&stats.null_count, &filter.name) {
            Some(n) => Some(*n),
            None => None,
        };
        let mn = assoc_get(&stats.min_values, &filter.name);
        let mx = assoc_get(&stats.max_values, &filter.name);
        check_parts(filter, nc, mn, mx, schema)
    }

    /// The file-list filter: without a schema or without filters the files
    /// come back unchanged; otherwise a file survives exactly when every
    /// filter keeps it (logical AND), each file judged independently.
    #[verifier::loop_isolation(false)]
    pub fn filter_with_sql_hints(
        files: Vec<FileEntry>,
        schema: Option<Schema>,
        predicate_hints: Option<Vec<ColumnFilter>>,
    ) -> (r: Vec<FileEntry>)
        ensures
            r@ == spec_selected(files@, schema, predicate_hints),
    {
        let ghost orig = files@;
        let sch = match schema {
            Some(s) => s,
            None => {
                return files;
            },
        };
        let hints = match predicate_hints {
            Some(h) => h,
            None => {
                return files;
            },
        };
        if hints.len() == 0 {
            return files;
        }
        let mut remaining = files;
        let mut out: Vec<FileEntry> = Vec::new();
        let ghost mut i: int = 0;
        proof {
            assert(orig.take(0) =~= Seq::<FileEntry>::empty());
        }
        while remaining.len() > 0
            invariant
                0 <= i,
                i + remaining@.len() == orig.len(),
                remaining@ == orig.skip(i),
                out@ == spec_filter_files(orig.take(i), hints@, sch),
            decreases remaining@.len(),
        {
            let f = remaining.remove(0);
            proof {
                assert(f == orig[i]);
                assert(remaining@ =~= orig.skip(i + 1));
                assert(orig.take(i + 1).drop_last() =~= orig.take(i));
                assert(orig.take(i + 1).last() == orig[i]);
            }
            let keep = file_passes(&f, &hints, &sch);
            if keep {
                out.push(f);
            }
            proof {
                i = i + 1;
            }
        }
        proof {
            assert(orig.take(i) =~= orig);
        }
        out
    }

    /// Filters the snapshot's files and builds the protocol-facing record of
    /// each survivor, attaching the given version and timestamp annotations.
    /// The records keep the survivors' order, one record per surviving file.
    #[verifier::loop_isolation(false)]
    pub fn files_from(
        files: Vec<FileEntry>,
        schema: Option<Schema>,
        predicate_hints: Option<Vec<ColumnFilter>>,
        version: Option<i64>,
        timestamp: Option<i64>,
    ) -> (r: Vec<File>)
        ensures
            r@.len() == spec_selected(files@, schema, predicate_hints).len(),
            forall|i: int|
                0 <= i < r@.len() ==> spec_file_record_matches(
                    #[trigger] r@[i],
                    spec_selected(files@, schema, predicate_hints)[i],
                    version,
                    timestamp,
                ),
    {
        let mut kept = Self::filter_with_sql_hints(files, schema, predicate_hints);
        let ghost sel = kept@;
        let mut out: Vec<File> = Vec::new();
        while kept.len() > 0
            invariant
                out@.len() + kept@.len() == sel.len(),
                kept@ == sel.skip(out@.len() as int),
                forall|i: int|
                    0 <= i < out@.len() ==> spec_file_record_matches(
                        #[trigger] out@[i],
                        sel[i],
                        version,
                        timestamp,
                    ),
            decreases kept@.len(),
        {
            let ghost done = out@.len() as int;
            let f = kept.remove(0);
            proof {
                assert(f == sel[done]);
                assert(kept@ =~= sel.skip(done + 1));
            }
            let rec = File::from(f, version, timestamp);
            out.push(rec);
        }
        out
    }

    /// Assembles the two leading records of a metadata-only response: the
    /// protocol declaration strictly before the metadata record, and nothing
    /// else.
    pub fn metadata_from(metadata: TableMetadata) -> (r: Vec<Record>)
        ensures
            r@.len() == 2,
            r@[0] matches Record::Protocol(p) && p.protocol.min_reader_version == VERSION,
            r@[1] matches Record::Metadata(m) && spec_metadata_matches(m, metadata),
    {
        let mut out: Vec<Record> = Vec::new();
        out.push(Record::Protocol(Protocol::new()));
        out.push(Record::Metadata(Metadata::from(metadata)));
        out
    }
}

} // verus!
