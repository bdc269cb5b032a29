//! Column filters and the typed range checks behind the predicate evaluator:
//! given a file's observed `[min, max]` interval over a column's non-null
//! values and the column's null count, each check decides whether the file is
//! kept (`true`) or provably cannot contain a matching row (`false`).
//!
//! Filter operands arrive as the literal text of the hint; each typed check
//! parses them as its type demands and keeps the file whenever a parse fails.
//! An is-null hint excludes only a file whose null count is zero; the file's
//! row count is not among the statistics, so an is-not-null hint never
//! excludes anything.

use vstd::prelude::*;

verus! {

use crate::text::spec_parse_bool;
use crate::text::spec_parse_i64;
use crate::text::parse_bool;
use crate::text::parse_i64;
use crate::text::text_le;
use crate::text::text_lt;
use crate::text::str_le;
use crate::text::str_lt;

/// The predicate of one column filter: a comparison kind with its literal
/// operand(s). `Unsupported` stands for every hint shape the evaluator does
/// not recognize; it never excludes a file.
pub enum Predicate {
    IsNull,
    IsNotNull,
    Equal(String),
    GreaterThan(String),
    GreaterOrEqual(String),
    LessThan(String),
    LessOrEqual(String),
    OneOf(Vec<String>),
    Unsupported,
}

/// One caller-supplied filter: a column name and a predicate over it.
pub struct ColumnFilter {
    pub name: String,
    pub predicate: Predicate,
}

/// The reflexive order on booleans: false comes before true.
pub open spec fn bool_le(a: bool, b: bool) -> bool {
    !a || b
}

/// The strict order on booleans.
pub open spec fn bool_lt(a: bool, b: bool) -> bool {
    !a && b
}

/// Whether one membership candidate keeps the file on a 64-bit interval:
/// it does unless it parses and provably falls outside `[min, max]`.
pub open spec fn long_candidate_keeps(v: String, min: i64, max: i64) -> bool {
    match spec_parse_i64(v@) {
        Some(x) => min <= x && x <= max,
        None => true,
    }
}

/// Whether one membership candidate keeps the file on a string interval.
pub open spec fn text_candidate_keeps(v: String, min: Seq<char>, max: Seq<char>) -> bool {
    text_le(min, v@) && text_le(v@, max)
}

/// Whether one membership candidate keeps the file on a boolean interval.
pub open spec fn bool_candidate_keeps(v: String, min: bool, max: bool) -> bool {
    match spec_parse_bool(v@) {
        Some(x) => bool_le(min, x) && bool_le(x, max),
        None => true,
    }
}

/// Decides whether one membership candidate keeps the file on a 64-bit interval.
fn long_keeps(v: &String, min: i64, max: i64) -> (r: bool)
    ensures
        r == long_candidate_keeps(*v, min, max),
{
    match parse_i64(v.as_str()) {
        Some(x) => min <= x && x <= max,
        None => true,
    }
}

/// Decides whether one membership candidate keeps the file on a string interval.
fn text_keeps(v: &String, min: &String, max: &String) -> (r: bool)
    ensures
        r == text_candidate_keeps(*v, min@, max@),
{
    str_le(min.as_str(), v.as_str()) && str_le(v.as_str(), max.as_str())
}

/// Decides whether one membership candidate keeps the file on a boolean interval.
fn bool_keeps(v: &String, min: bool, max: bool) -> (r: bool)
    ensures
        r == bool_candidate_keeps(*v, min, max),
{
    match parse_bool(v) {
        Some(x) => (!min || x) && (!x || max),
        None => true,
    }
}

/// The range check over a 64-bit integer interval: `false` exactly when the
/// observed interval and null count prove that no row can match.
pub open spec fn spec_check_long(p: Predicate, min: i64, max: i64, null_count: i64) -> bool {
    match p {
        Predicate::Equal(v) => match spec_parse_i64(v@) {
            Some(x) => min <= x && x <= max,
            None => true,
        },
        Predicate::GreaterThan(v) => match spec_parse_i64(v@) {
            Some(x) => x < max,
            None => true,
        },
        Predicate::GreaterOrEqual(v) => match spec_parse_i64(v@) {
            Some(x) => x <= max,
            None => true,
        },
        Predicate::LessThan(v) => match spec_parse_i64(v@) {
            Some(x) => min < x,
            None => true,
        },
        Predicate::LessOrEqual(v) => match spec_parse_i64(v@) {
            Some(x) => min <= x,
            None => true,
        },
        Predicate::IsNull => null_count != 0,
        Predicate::IsNotNull => true,
        Predicate::OneOf(vs) => exists|i: int|
            0 <= i < vs@.len() && long_candidate_keeps(#[trigger] vs@[i], min, max),
        Predicate::Unsupported => true,
    }
}

/// The range check over a string interval, ordered lexicographically.
pub open spec fn spec_check_text(p: Predicate, min: Seq<char>, max: Seq<char>, null_count: i64) -> bool {
    match p {
        Predicate::Equal(v) => text_le(min, v@) && text_le(v@, max),
        Predicate::GreaterThan(v) => text_lt(v@, max),
        Predicate::GreaterOrEqual(v) => text_le(v@, max),
        Predicate::LessThan(v) => text_lt(min, v@),
        Predicate::LessOrEqual(v) => text_le(min, v@),
        Predicate::IsNull => null_count != 0,
        Predicate::IsNotNull => true,
        Predicate::OneOf(vs) => exists|i: int|
            0 <= i < vs@.len() && text_candidate_keeps(#[trigger] vs@[i], min, max),
        Predicate::Unsupported => true,
    }
}

/// The range check over a boolean interval, with false before true; operands
/// that do not parse as booleans keep the file.
pub open spec fn spec_check_boolean(p: Predicate, min: bool, max: bool, null_count: i64) -> bool {
    match p {
        Predicate::Equal(v) => match spec_parse_bool(v@) {
            Some(x) => bool_le(min, x) && bool_le(x, max),
            None => true,
        },
        Predicate::GreaterThan(v) => match spec_parse_bool(v@) {
            Some(x) => bool_lt(x, max),
            None => true,
        },
        Predicate::GreaterOrEqual(v) => match spec_parse_bool(v@) {
            Some(x) => bool_le(x, max),
            None => true,
        },
        Predicate::LessThan(v) => match spec_parse_bool(v@) {
            Some(x) => bool_lt(min, x),
            None => true,
        },
        Predicate::LessOrEqual(v) => match spec_parse_bool(v@) {
            Some(x) => bool_le(min, x),
            None => true,
        },
        Predicate::IsNull => null_count != 0,
        Predicate::IsNotNull => true,
        Predicate::OneOf(vs) => exists|i: int|
            0 <= i < vs@.len() && bool_candidate_keeps(#[trigger] vs@[i], min, max),
        Predicate::Unsupported => true,
    }
}

/// Decides the range check over a 64-bit integer interval.
#[verifier::loop_isolation(false)]
#[verifier::rlimit(30)]
pub fn check_long(p: &Predicate, min: i64, max: i64, null_count: i64) -> (r: bool)
    ensures
        r == spec_check_long(*p, min, max, null_count),
{
    match p {
        Predicate::Equal(v) => match parse_i64(v.as_str()) {
            Some(x) => min <= x && x <= max,
            None => true,
        },
        Predicate::GreaterThan(v) => match parse_i64(v.as_str()) {
            Some(x) => x < max,
            None => true,
        },
        Predicate::GreaterOrEqual(v) => match parse_i64(v.as_str()) {
            Some(x) => x <= max,
            None => true,
        },
        Predicate::LessThan(v) => match parse_i64(v.as_str()) {
            Some(x) => min < x,
            None => true,
        },
        Predicate::LessOrEqual(v) => match parse_i64(v.as_str()) {
            Some(x) => min <= x,
            None => true,
        },
        Predicate::IsNull => null_count != 0,
        Predicate::IsNotNull => true,
        Predicate::OneOf(vs) => {
            let n = vs.len();
            let mut i: usize = 0;
            while i < n
                invariant
                    i <= n,
                    n == vs@.len(),
                    forall|j: int| 0 <= j < i ==> !long_candidate_keeps(#[trigger] vs@[j], min, max),
                decreases n - i,
            {
                let keeps = long_keeps(&vs[i], min, max);
                if keeps {
                    proof {
                        assert(exists|k: int|
                            0 <= k < vs@.len() && long_candidate_keeps(
                                #[trigger] vs@[k],
                                min,
                                max,
                            )) by {
                            assert(long_candidate_keeps(vs@[i as int], min, max));
                        }
                    }
                    return true;
                }
                i += 1;
            }
            false
        },
        Predicate::Unsupported => true,
    }
}

/// Decides the range check over a string interval.
#[verifier::loop_isolation(false)]
#[verifier::rlimit(30)]
pub fn check_text(p: &Predicate, min: &String, max: &String, null_count: i64) -> (r: bool)
    ensures
        r == spec_check_text(*p, min@, max@, null_count),
{
    match p {
        Predicate::Equal(v) => str_le(min.as_str(), v.as_str()) && str_le(v.as_str(), max.as_str()),
        Predicate::GreaterThan(v) => str_lt(v.as_str(), max.as_str()),
        Predicate::GreaterOrEqual(v) => str_le(v.as_str(), max.as_str()),
        Predicate::LessThan(v) => str_lt(min.as_str(), v.as_str()),
        Predicate::LessOrEqual(v) => str_le(min.as_str(), v.as_str()),
        Predicate::IsNull => null_count != 0,
        Predicate::IsNotNull => true,
        Predicate::OneOf(vs) => {
            let n = vs.len();
            let mut i: usize = 0;
            while i < n
                invariant
                    i <= n,
                    n == vs@.len(),
                    forall|j: int|
                        0 <= j < i ==> !text_candidate_keeps(#[trigger] vs@[j], min@, max@),
                decreases n - i,
            {
                let keeps = text_keeps(&vs[i], min, max);
                if keeps {
                    proof {
                        assert(exists|k: int|
                            0 <= k < vs@.len() && text_candidate_keeps(
                                #[trigger] vs@[k],
                                min@,
                                max@,
                            )) by {
                            assert(text_candidate_keeps(vs@[i as int], min@, max@));
                        }
                    }
                    return true;
                }
                i += 1;
            }
            false
        },
        Predicate::Unsupported => true,
    }
}

/// Decides the range check over a boolean interval.
#[verifier::loop_isolation(false)]
#[verifier::rlimit(30)]
pub fn check_boolean(p: &Predicate, min: bool, max: bool, null_count: i64) -> (r: bool)
    ensures
        r == spec_check_boolean(*p, min, max, null_count),
{
    match p {
        Predicate::Equal(v) => match parse_bool(v) {
            Some(x) => (!min || x) && (!x || max),
            None => true,
        },
        Predicate::GreaterThan(v) => match parse_bool(v) {
            Some(x) => !x && max,
            None => true,
        },
        Predicate::GreaterOrEqual(v) => match parse_bool(v) {
            Some(x) => !x || max,
            None => true,
        },
        Predicate::LessThan(v) => match parse_bool(v) {
            Some(x) => !min && x,
            None => true,
        },
        Predicate::LessOrEqual(v) => match parse_bool(v) {
            Some(x) => !min || x,
            None => true,
        },
        Predicate::IsNull => null_count != 0,
        Predicate::IsNotNull => true,
        Predicate::OneOf(vs) => {
            let n = vs.len();
            let mut i: usize = 0;
            while i < n
                invariant
                    i <= n,
                    n == vs@.len(),
                    forall|j: int|
                        0 <= j < i ==> !bool_candidate_keeps(#[trigger] vs@[j], min, max),
                decreases n - i,
            {
                let keeps = bool_keeps(&vs[i], min, max);
                if keeps {
                    proof {
                        assert(exists|k: int|
                            0 <= k < vs@.len() && bool_candidate_keeps(
                                #[trigger] vs@[k],
                                min,
                                max,
                            )) by {
                            assert(bool_candidate_keeps(vs@[i as int], min, max));
                        }
                    }
                    return true;
                }
                i += 1;
            }
            false
        },
        Predicate::Unsupported => true,
    }
}

} // verus!
