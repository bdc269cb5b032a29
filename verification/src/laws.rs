//! The library's stated laws: properties of the evaluator, the file-list
//! filter and the record builders, proved for all inputs.

use vstd::prelude::*;

verus! {

use crate::model::ColumnType;
use crate::model::FileEntry;
use crate::model::Schema;
use crate::model::spec_resolve_column_type;
use crate::service::File;
use crate::service::opt_value_view;
use crate::service::spec_check_stats;
use crate::service::spec_file_record_matches;
use crate::service::spec_selected;
use crate::service::spec_strip_partition_values;
use crate::sql::ColumnFilter;
use crate::stats::StatView;
use crate::stats::Stats;
use crate::stats::spec_assoc;
use crate::text::spec_parse_bool;

/// A filter whose column has no null-count entry in the statistics always
/// keeps the file.
pub proof fn lemma_check_keeps_without_null_count(
    filter: ColumnFilter,
    stats: Stats,
    schema: Schema,
)
    requires
        spec_assoc(stats.null_count@, filter.name@) is None,
    ensures
        spec_check_stats(filter, stats, schema),
{
}

/// A filter whose column is absent from the schema always keeps the file.
pub proof fn lemma_check_keeps_without_schema_field(
    filter: ColumnFilter,
    stats: Stats,
    schema: Schema,
)
    requires
        spec_resolve_column_type(schema, filter.name@) is None,
    ensures
        spec_check_stats(filter, stats, schema),
{
}

/// On a boolean column whose min or max string does not parse as a boolean,
/// the filter keeps the file.
pub proof fn lemma_check_keeps_boolean_unparsed(
    filter: ColumnFilter,
    stats: Stats,
    schema: Schema,
    a: Seq<char>,
    b: Seq<char>,
)
    requires
        spec_resolve_column_type(schema, filter.name@) == Some(ColumnType::Boolean),
        opt_value_view(spec_assoc(stats.min_values@, filter.name@)) == Some(StatView::Text(a)),
        opt_value_view(spec_assoc(stats.max_values@, filter.name@)) == Some(StatView::Text(b)),
        spec_parse_bool(a) is None || spec_parse_bool(b) is None,
    ensures
        spec_check_stats(filter, stats, schema),
{
}

/// With an empty filter list the file-list filter returns the files
/// unchanged.
pub proof fn lemma_filter_identity_on_empty_filters(
    files: Seq<FileEntry>,
    schema: Option<Schema>,
    hints: Vec<ColumnFilter>,
)
    requires
        hints@.len() == 0,
    ensures
        spec_selected(files, schema, Some(hints)) == files,
{
}

/// Without a schema the file-list filter returns the files unchanged,
/// whatever the filters say.
pub proof fn lemma_filter_identity_without_schema(
    files: Seq<FileEntry>,
    hints: Option<Vec<ColumnFilter>>,
)
    ensures
        spec_selected(files, None, hints) == files,
{
}

/// Two file records built from entries with the same path carry the same
/// identifier, whatever snapshot version or timestamp each was built with.
pub proof fn lemma_same_path_same_id(
    ra: File,
    rb: File,
    a: FileEntry,
    b: FileEntry,
    va: Option<i64>,
    ta: Option<i64>,
    vb: Option<i64>,
    tb: Option<i64>,
)
    requires
        spec_file_record_matches(ra, a, va, ta),
        spec_file_record_matches(rb, b, vb, tb),
        a.path@ == b.path@,
    ensures
        ra.id@ == rb.id@,
{
}

/// Partition-value projection keeps exactly the entries whose value is
/// present: everything it returns stems from such an entry, and every entry
/// with a present value is returned.
pub proof fn lemma_strip_partition_values_exact(pvs: Seq<(String, Option<String>)>)
    ensures
        forall|i: int|
            #![trigger spec_strip_partition_values(pvs)[i]]
            0 <= i < spec_strip_partition_values(pvs).len() ==> exists|j: int|
                0 <= j < pvs.len() && (#[trigger] pvs[j]) == (
                    spec_strip_partition_values(pvs)[i].0,
                    Some(spec_strip_partition_values(pvs)[i].1),
                ),
        forall|j: int|
            0 <= j < pvs.len() ==> ((#[trigger] pvs[j]).1 matches Some(v) ==> exists|i: int|
                0 <= i < spec_strip_partition_values(pvs).len()
                    && (#[trigger] spec_strip_partition_values(pvs)[i]) == (pvs[j].0, v)),
    decreases pvs.len(),
{
    if pvs.len() > 0 {
        let prefix = pvs.drop_last();
        let rest = spec_strip_partition_values(prefix);
        let whole = spec_strip_partition_values(pvs);
        lemma_strip_partition_values_exact(prefix);
        assert forall|i: int| #![trigger whole[i]] 0 <= i < whole.len() implies exists|j: int|
            0 <= j < pvs.len() && (#[trigger] pvs[j]) == (whole[i].0, Some(whole[i].1)) by {
            if i < rest.len() {
                assert(whole[i] == rest[i]);
                let j = choose|j: int|
                    0 <= j < prefix.len() && (#[trigger] prefix[j]) == (rest[i].0, Some(rest[i].1));
                assert(pvs[j] == prefix[j]);
            } else {
                assert(pvs.last().1 matches Some(v) && whole[i] == (pvs.last().0, v));
                assert(pvs[pvs.len() - 1] == (whole[i].0, Some(whole[i].1)));
            }
        }
        assert forall|j: int|
            0 <= j < pvs.len() && (#[trigger] pvs[j]).1 is Some implies exists|i: int|
            0 <= i < whole.len() && (#[trigger] whole[i]) == (pvs[j].0, pvs[j].1->Some_0) by {
            if j < pvs.len() - 1 {
                assert(prefix[j] == pvs[j]);
                let i = choose|i: int|
                    0 <= i < rest.len() && (#[trigger] rest[i]) == (prefix[j].0, prefix[j].1->Some_0);
                assert(whole[i] == rest[i]);
            } else {
                assert(whole.last() == (pvs[j].0, pvs[j].1->Some_0));
            }
        }
    }
}

} // verus!
