//! Ordering and parsing of the plain string values that column statistics
//! and filter operands arrive as.

use vstd::prelude::*;

verus! {

use vstd::string::StringSliceAdditionalSpecFns;
use vstd::utf8::encode_utf8;

/// Lexicographic order on byte sequences: `a` comes strictly before `b`.
pub open spec fn bytes_lt(a: Seq<u8>, b: Seq<u8>) -> bool
    decreases a.len(),
{
    if b.len() == 0 {
        false
    } else if a.len() == 0 {
        true
    } else if a[0] < b[0] {
        true
    } else if a[0] > b[0] {
        false
    } else {
        bytes_lt(a.drop_first(), b.drop_first())
    }
}

/// Strict order on strings: lexicographic on their UTF-8 encodings, which is
/// the order std gives `str` values.
pub open spec fn text_lt(a: Seq<char>, b: Seq<char>) -> bool {
    bytes_lt(encode_utf8(a), encode_utf8(b))
}

/// Reflexive order on strings, derived from the strict one.
pub open spec fn text_le(a: Seq<char>, b: Seq<char>) -> bool {
    !text_lt(b, a)
}

proof fn lemma_bytes_lt_skip(a: Seq<u8>, b: Seq<u8>, i: int)
    requires
        0 <= i <= a.len(),
        i <= b.len(),
        forall|j: int| 0 <= j < i ==> a[j] == b[j],
    ensures
        bytes_lt(a, b) == bytes_lt(a.skip(i), b.skip(i)),
    decreases i,
{
    if i > 0 {
        assert(a[0] == b[0]);
        lemma_bytes_lt_skip(a.drop_first(), b.drop_first(), i - 1);
        assert(a.drop_first().skip(i - 1) =~= a.skip(i));
        assert(b.drop_first().skip(i - 1) =~= b.skip(i));
    } else {
        assert(a.skip(0) =~= a);
        assert(b.skip(0) =~= b);
    }
}

/// Decides the strict lexicographic order of two strings.
pub fn str_lt(a: &str, b: &str) -> (r: bool)
    ensures
        r == text_lt(a@, b@),
{
    let ab = a.as_bytes();
    let bb = b.as_bytes();
    let mut i: usize = 0;
    loop
        invariant
            ab@ == a.spec_bytes(),
            bb@ == b.spec_bytes(),
            i <= ab@.len(),
            i <= bb@.len(),
            forall|j: int| 0 <= j < i ==> ab@[j] == bb@[j],
        decreases ab@.len() - i,
    {
        if i >= bb.len() {
            proof {
                lemma_bytes_lt_skip(ab@, bb@, i as int);
            }
            return false;
        }
        if i >= ab.len() {
            proof {
                lemma_bytes_lt_skip(ab@, bb@, i as int);
            }
            return true;
        }
        let x = ab[i];
        let y = bb[i];
        if x != y {
            proof {
                lemma_bytes_lt_skip(ab@, bb@, i as int);
            }
            return x < y;
        }
        i += 1;
    }
}

/// Decides the reflexive lexicographic order of two strings.
pub fn str_le(a: &str, b: &str) -> (r: bool)
    ensures
        r == text_le(a@, b@),
{
    !str_lt(b, a)
}

/// What a string must be to denote a boolean: exactly "true" or "false".
pub open spec fn spec_parse_bool(s: Seq<char>) -> Option<bool> {
    if s == "true"@ {
        Some(true)
    } else if s == "false"@ {
        Some(false)
    } else {
        None
    }
}

/// Parses a boolean the way std's `str::parse::<bool>` does: only the exact
/// words "true" and "false" are accepted.
pub fn parse_bool(s: &String) -> (r: Option<bool>)
    ensures
        r == spec_parse_bool(s@),
{
    let t: String = "true".to_owned();
    let f: String = "false".to_owned();
    if *s == t {
        Some(true)
    } else if *s == f {
        Some(false)
    } else {
        None
    }
}

/// A byte that is an ASCII decimal digit.
pub open spec fn is_digit_byte(b: u8) -> bool {
    48 <= b <= 57
}

pub open spec fn all_digit_bytes(s: Seq<u8>) -> bool {
    forall|i: int| 0 <= i < s.len() ==> is_digit_byte(#[trigger] s[i])
}

/// The number denoted by a sequence of decimal digit bytes.
pub open spec fn digits_val(s: Seq<u8>) -> int
    decreases s.len(),
{
    if s.len() == 0 {
        0
    } else {
        digits_val(s.drop_last()) * 10 + (s.last() - 48)
    }
}

/// What std's `str::parse::<i64>` accepts: an optional leading sign, then one
/// or more decimal digits, denoting a value within i64's range.
pub open spec fn spec_parse_i64_bytes(s: Seq<u8>) -> Option<i64> {
    let signed = s.len() > 0 && (s[0] == 43 || s[0] == 45);
    let neg = s.len() > 0 && s[0] == 45;
    let ds = if signed {
        s.drop_first()
    } else {
        s
    };
    if ds.len() == 0 || !all_digit_bytes(ds) {
        None
    } else if neg {
        if digits_val(ds) <= 0x8000_0000_0000_0000 {
            Some((-digits_val(ds)) as i64)
        } else {
            None
        }
    } else {
        if digits_val(ds) <= 0x7fff_ffff_ffff_ffff {
            Some(digits_val(ds) as i64)
        } else {
            None
        }
    }
}

pub open spec fn spec_parse_i64(s: Seq<char>) -> Option<i64> {
    spec_parse_i64_bytes(encode_utf8(s))
}

proof fn lemma_digits_val_nonneg(s: Seq<u8>)
    requires
        all_digit_bytes(s),
    ensures
        digits_val(s) >= 0,
    decreases s.len(),
{
    if s.len() > 0 {
        assert forall|i: int| 0 <= i < s.drop_last().len() implies is_digit_byte(
            #[trigger] s.drop_last()[i],
        ) by {
            assert(s.drop_last()[i] == s[i]);
        }
        lemma_digits_val_nonneg(s.drop_last());
    }
}

proof fn lemma_digits_val_take_step(s: Seq<u8>, j: int)
    requires
        0 <= j < s.len(),
    ensures
        digits_val(s.take(j + 1)) == digits_val(s.take(j)) * 10 + (s[j] - 48),
{
    assert(s.take(j + 1).drop_last() =~= s.take(j));
    assert(s.take(j + 1).last() == s[j]);
}

proof fn lemma_digits_val_grows(s: Seq<u8>, k: int)
    requires
        0 <= k <= s.len(),
        all_digit_bytes(s),
    ensures
        digits_val(s) >= digits_val(s.take(k)),
        digits_val(s.take(k)) >= 0,
    decreases s.len() - k,
{
    assert forall|i: int| 0 <= i < s.take(k).len() implies is_digit_byte(
        #[trigger] s.take(k)[i],
    ) by {
        assert(s.take(k)[i] == s[i]);
    }
    lemma_digits_val_nonneg(s.take(k));
    if k < s.len() {
        lemma_digits_val_take_step(s, k);
        lemma_digits_val_grows(s, k + 1);
    } else {
        assert(s.take(k) =~= s);
    }
}

/// Parses a decimal integer the way std's `str::parse::<i64>` does.
pub fn parse_i64(s: &str) -> (r: Option<i64>)
    ensures
        r == spec_parse_i64(s@),
{
    let bytes = s.as_bytes();
    let n = bytes.len();
    if n == 0 {
        return None;
    }
    let b0 = bytes[0];
    let neg = b0 == 45;
    let start: usize = if b0 == 43 || b0 == 45 {
        1
    } else {
        0
    };
    let ghost ds = bytes@.skip(start as int);
    proof {
        if start == 1 {
            assert(ds =~= bytes@.drop_first());
        } else {
            assert(ds =~= bytes@);
        }
    }
    if start == n {
        return None;
    }
    let limit: u128 = if neg {
        0x8000_0000_0000_0000
    } else {
        0x7fff_ffff_ffff_ffff
    };
    let mut mag: u128 = 0;
    let mut i: usize = start;
    while i < n
        invariant
            bytes@ == s.spec_bytes(),
            n == bytes@.len(),
            start <= i <= n,
            start == 0 || start == 1,
            start < n,
            (start == 1) == (bytes@[0] == 43 || bytes@[0] == 45),
            neg == (bytes@[0] == 45),
            ds == bytes@.skip(start as int),
            ds == (if start == 1 {
                bytes@.drop_first()
            } else {
                bytes@
            }),
            limit == (if neg {
                0x8000_0000_0000_0000u128
            } else {
                0x7fff_ffff_ffff_ffffu128
            }),
            all_digit_bytes(ds.take(i - start)),
            mag as int == digits_val(ds.take(i - start)),
            mag <= limit,
        decreases n - i,
    {
        let b = bytes[i];
        let ghost j = i - start;
        assert(ds[j] == bytes@[i as int]);
        if b < 48 || b > 57 {
            assert(!all_digit_bytes(ds));
            return None;
        }
        let d = (b - 48) as u128;
        let next = mag * 10 + d;
        proof {
            lemma_digits_val_take_step(ds, j);
            assert(ds.take(j + 1).drop_last() =~= ds.take(j));
        }
        if next > limit {
            proof {
                if all_digit_bytes(ds) {
                    lemma_digits_val_grows(ds, j + 1);
                }
            }
            return None;
        }
        proof {
            assert forall|k: int| 0 <= k < ds.take(j + 1).len() implies is_digit_byte(
                #[trigger] ds.take(j + 1)[k],
            ) by {
                if k < j {
                    assert(ds.take(j + 1)[k] == ds.take(j)[k]);
                } else {
                    assert(ds.take(j + 1)[k] == ds[j]);
                }
            }
        }
        mag = next;
        i += 1;
    }
    proof {
        assert(ds.take(n - start) =~= ds);
        assert(ds.len() > 0);
    }
    if neg {
        if mag == 0x8000_0000_0000_0000 {
            Some(i64::MIN)
        } else {
            Some(-(mag as i64))
        }
    } else {
        Some(mag as i64)
    }
}

} // verus!
