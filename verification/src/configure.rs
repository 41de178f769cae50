//! Engine configuration: the settings the embedding program hands the
//! engine, parsed from INI-style text.
//!
//! The INI text itself goes through the `ini` crate behind trusted
//! wrappers; every value string is then parsed here by verified decimal
//! parsers into the engine's fixed-point numbers.

use vstd::prelude::*;
use vstd::string::StringSliceAdditionalSpecFns;
use crate::math::{Vector2, Vector4};

verus! {

/// What an INI document holds at a section and key; the result depends
/// on the document value alone.
pub uninterp spec fn ini_value_of(doc: ini::Ini, section: Seq<char>, key: Seq<char>) -> Seq<char>;

/// Whether an INI document holds a value at a section and key.
pub uninterp spec fn ini_has_value(doc: ini::Ini, section: Seq<char>, key: Seq<char>) -> bool;

#[verifier::external_type_specification]
#[verifier::external_body]
pub struct ExIni(ini::Ini);

/// Relies on Ini::load_from_str of the ini crate: parses INI text into
/// a section map; a malformed text gives `None`.
#[verifier::external_body]
pub fn ini_load(text: &str) -> (r: Option<ini::Ini>) {
    match ini::Ini::load_from_str(text) {
        Ok(doc) => Some(doc),
        Err(_) => None,
    }
}

/// Relies on Ini::section and Properties::get of the ini crate: the
/// first value stored under the key in the named section.
#[verifier::external_body]
pub fn ini_get(doc: &ini::Ini, section: &str, key: &str) -> (r: Option<String>)
    ensures
        r is Some <==> ini_has_value(*doc, section@, key@),
        r matches Some(s) ==> s@ == ini_value_of(*doc, section@, key@),
{
    match doc.section(Some(section)) {
        Some(props) => match props.get(key) {
            Some(v) => Some(v.to_string()),
            None => None,
        },
        None => None,
    }
}

/// The numeric value of one decimal digit byte, 10 for any other.
pub open spec fn digit_val(c: u8) -> int {
    if 0x30 <= c <= 0x39 {
        c - 0x30
    } else {
        10
    }
}

/// Whether every byte of the sequence is a decimal digit.
pub open spec fn all_digits(s: Seq<u8>) -> bool {
    forall|i: int| 0 <= i < s.len() ==> digit_val(#[trigger] s[i]) < 10
}

/// The integer a digit sequence spells.
pub open spec fn digits_value(s: Seq<u8>) -> int
    decreases s.len(),
{
    if s.len() == 0 {
        0
    } else {
        digits_value(s.drop_last()) * 10 + digit_val(s.last())
    }
}

/// Parses an unsigned decimal digit run; `None` when the run is empty,
/// holds a non-digit, or spells a value beyond the limit.
pub fn parse_digits(s: &[u8], limit: i64) -> (r: Option<i64>)
    requires
        0 <= limit <= 0x4000_0000_0000,
    ensures
        r matches Some(v) ==> all_digits(s@) && s@.len() > 0 && v == digits_value(s@) && 0 <= v
            <= limit,
        r is None ==> !(all_digits(s@) && s@.len() > 0 && digits_value(s@) <= limit),
{
    if s.len() == 0 {
        return None;
    }
    let mut v: i64 = 0;
    let mut i: usize = 0;
    while i < s.len()
        invariant
            i <= s@.len(),
            0 <= limit <= 0x4000_0000_0000,
            all_digits(s@.take(i as int)),
            v == digits_value(s@.take(i as int)),
            0 <= v <= limit,
        decreases s@.len() - i,
    {
        let c = s[i];
        if !(0x30 <= c && c <= 0x39) {
            proof {
                assert(digit_val(s@[i as int]) == 10);
            }
            return None;
        }
        let d: i64 = (c as i64) - 48;
        proof {
            assert(s@.take(i + 1).drop_last() =~= s@.take(i as int));
            assert(s@.take(i + 1).last() == s@[i as int]);
        }
        let next: i64 = v * 10 + d;
        if next > limit {
            proof {
                // A too-large prefix can only grow: every extension of
                // it spells at least as large a value.
                assert(digits_value(s@.take(i + 1)) > limit);
                if all_digits(s@) {
                    lemma_digits_grow(s@, i + 1);
                }
            }
            return None;
        }
        v = next;
        i += 1;
    }
    proof {
        assert(s@.take(s@.len() as int) =~= s@);
    }
    Some(v)
}

/// A digit string's value never shrinks as it extends.
proof fn lemma_digits_grow(s: Seq<u8>, k: int)
    requires
        0 <= k <= s.len(),
        all_digits(s),
    ensures
        digits_value(s) >= digits_value(s.take(k)),
    decreases s.len() - k,
{
    if k < s.len() {
        lemma_digits_grow(s, k + 1);
        assert(s.take(k + 1).drop_last() =~= s.take(k));
        assert(digit_val(s.take(k + 1).last()) >= 0);
        assert(digits_value(s.take(k + 1)) == digits_value(s.take(k)) * 10 + digit_val(
            s.take(k + 1).last(),
        ));
        assert(all_digits(s.take(k))) by {
            assert(forall|i: int|
                0 <= i < s.take(k).len() ==> s.take(k)[i] == s[i] && digit_val(
                    #[trigger] s.take(k)[i],
                ) < 10);
        }
        lemma_digits_nonneg(s.take(k));
        assert(digits_value(s.take(k)) * 10 >= digits_value(s.take(k))) by (nonlinear_arith)
            requires
                digits_value(s.take(k)) >= 0,
        ;
    } else {
        assert(s.take(k) =~= s);
    }
}

/// A digit string's value is never negative.
proof fn lemma_digits_nonneg(s: Seq<u8>)
    requires
        all_digits(s),
    ensures
        digits_value(s) >= 0,
    decreases s.len(),
{
    if s.len() > 0 {
        assert(all_digits(s.drop_last())) by {
            assert(forall|i: int|
                0 <= i < s.drop_last().len() ==> s.drop_last()[i] == s[i] && digit_val(
                    #[trigger] s.drop_last()[i],
                ) < 10);
        }
        lemma_digits_nonneg(s.drop_last());
        assert(digits_value(s.drop_last()) * 10 >= 0) by (nonlinear_arith)
            requires
                digits_value(s.drop_last()) >= 0,
        ;
    }
}

/// The fixed-point value a trimmed decimal string spells: an optional
/// minus sign, an integer digit run, and an optional fraction of at
/// most four digits, scaled by 65536; anything else parses to nothing.
pub open spec fn spec_parse_fixed(s: Seq<u8>) -> Option<int> {
    if s.len() == 0 {
        None
    } else {
        let negative = s[0] == 0x2D;
        let body = if negative {
            s.drop_first()
        } else {
            s
        };
        let dot = find_dot(body);
        let int_part = if dot < 0 {
            body
        } else {
            body.take(dot)
        };
        let frac_part = if dot < 0 {
            Seq::<u8>::empty()
        } else {
            body.skip(dot + 1)
        };
        if int_part.len() == 0 || !all_digits(int_part) || !all_digits(frac_part)
            || frac_part.len() > 4 || digits_value(int_part) > 32767 {
            None
        } else {
            let scale = frac_scale(frac_part.len() as int);
            let magnitude = digits_value(int_part) * 65536 + (digits_value(frac_part) * 65536)
                / scale;
            Some(
                if negative {
                    -magnitude
                } else {
                    magnitude
                },
            )
        }
    }
}

/// Position of the first occurrence of a byte, or -1 when there is
/// none.
pub open spec fn find_byte(s: Seq<u8>, b: u8) -> int
    decreases s.len(),
{
    if s.len() == 0 {
        -1
    } else if s[0] == b {
        0
    } else {
        let rest = find_byte(s.drop_first(), b);
        if rest < 0 {
            -1
        } else {
            rest + 1
        }
    }
}

/// Position of the first dot, or -1 when there is none.
pub open spec fn find_dot(s: Seq<u8>) -> int {
    find_byte(s, 0x2E)
}

/// Ten to the power of a fraction length of at most four.
pub open spec fn frac_scale(n: int) -> int {
    if n <= 0 {
        1
    } else if n == 1 {
        10
    } else if n == 2 {
        100
    } else if n == 3 {
        1000
    } else {
        10000
    }
}

/// Parses a decimal string into a fixed-point value.
pub fn parse_fixed(s: &str) -> (r: Option<i64>)
    ensures
        ({
            let v = spec_parse_fixed(s.spec_bytes());
            match r {
                Some(x) => v == Some(x as int),
                None => v is None,
            }
        }),
{
    parse_fixed_inner(s.as_bytes())
}

/// Parses a decimal byte string into a fixed-point value.
fn parse_fixed_inner(chars: &[u8]) -> (r: Option<i64>)
    ensures
        ({
            let v = spec_parse_fixed(chars@);
            match r {
                Some(x) => v == Some(x as int),
                None => v is None,
            }
        }),
{
    if chars.len() == 0 {
        return None;
    }
    let negative = chars[0] == 0x2D;
    let body_start: usize = if negative {
        1
    } else {
        0
    };
    proof {
        if negative {
            assert(chars@.skip(1) =~= chars@.drop_first());
        } else {
            assert(chars@.skip(0) =~= chars@);
        }
    }
    // Find the dot inside the body.
    let mut dot_found: bool = false;
    let mut dot: usize = 0;
    let mut i: usize = body_start;
    while i < chars.len()
        invariant
            body_start <= i <= chars@.len(),
            chars@ == chars@,
            !dot_found ==> find_dot(chars@.skip(body_start as int).take(i - body_start)) == -1,
            dot_found ==> body_start <= dot < i && chars@[dot as int] == 0x2E && find_dot(
                chars@.skip(body_start as int),
            ) == dot - body_start,
        decreases chars@.len() - i,
    {
        if !dot_found && chars[i] == 0x2E {
            proof {
                lemma_find_byte_at(chars@.skip(body_start as int), 0x2E, i - body_start);
            }
            dot = i;
            dot_found = true;
        } else {
            proof {
                if !dot_found {
                    assert(chars@.skip(body_start as int).take(i + 1 - body_start).drop_last()
                        =~= chars@.skip(body_start as int).take(i - body_start));
                    lemma_find_byte_extend(chars@.skip(body_start as int), 0x2E, i + 1 - body_start);
                }
            }
        }
        i += 1;
    }
    proof {
        if !dot_found {
            assert(chars@.skip(body_start as int).take(
                chars@.len() - body_start,
            ) =~= chars@.skip(body_start as int));
            lemma_find_byte_none(chars@.skip(body_start as int), 0x2E);
        }
    }
    let int_end: usize = if dot_found {
        dot
    } else {
        chars.len()
    };
    let mut int_digits: Vec<u8> = Vec::new();
    let mut k: usize = body_start;
    while k < int_end
        invariant
            body_start <= k <= int_end <= chars@.len(),
            chars@ == chars@,
            int_digits@ =~= chars@.subrange(body_start as int, k as int),
        decreases int_end - k,
    {
        int_digits.push(chars[k]);
        proof {
            assert(int_digits@ =~= chars@.subrange(body_start as int, k + 1));
        }
        k += 1;
    }
    let mut frac_digits: Vec<u8> = Vec::new();
    if dot_found {
        let mut k2: usize = dot + 1;
        while k2 < chars.len()
            invariant
                dot + 1 <= k2 <= chars@.len(),
                chars@ == chars@,
                frac_digits@ =~= chars@.subrange(dot + 1, k2 as int),
            decreases chars@.len() - k2,
        {
            frac_digits.push(chars[k2]);
            proof {
                assert(frac_digits@ =~= chars@.subrange(dot + 1, k2 + 1));
            }
            k2 += 1;
        }
    }
    proof {
        let body = chars@.skip(body_start as int);
        let sd = find_dot(body);
        if dot_found {
            assert(int_digits@ =~= body.take(sd));
            assert(frac_digits@ =~= body.skip(sd + 1));
        } else {
            assert(int_digits@ =~= body);
            assert(frac_digits@ =~= Seq::<u8>::empty());
        }
    }
    let int_val = match parse_digits(int_digits.as_slice(), 32767) {
        Some(v) => v,
        None => {
            return None;
        },
    };
    if frac_digits.len() > 4 {
        return None;
    }
    let frac_val = match parse_digits(frac_digits.as_slice(), 0x4000_0000_0000) {
        Some(v) => v,
        None => {
            if frac_digits.len() == 0 {
                0
            } else {
                proof {
                    if all_digits(frac_digits@) {
                        lemma_digits_bound(frac_digits@);
                    }
                }
                return None;
            }
        },
    };
    let scale: i64 = if frac_digits.len() == 0 {
        1
    } else if frac_digits.len() == 1 {
        10
    } else if frac_digits.len() == 2 {
        100
    } else if frac_digits.len() == 3 {
        1000
    } else {
        10000
    };
    proof {
        assert(0 <= frac_val <= 9999) by {
            if frac_digits@.len() > 0 {
                lemma_digits_bound(frac_digits@);
            }
        }
        vstd::arithmetic::div_mod::lemma_div_pos_is_pos(frac_val as int * 65536, scale as int);
        vstd::arithmetic::div_mod::lemma_div_is_ordered(
            frac_val as int * 65536,
            9999int * 65536,
            scale as int,
        );
        vstd::arithmetic::div_mod::lemma_div_is_ordered_by_denominator(
            9999int * 65536,
            1,
            scale as int,
        );
        vstd::arithmetic::div_mod::lemma_div_multiples_vanish(9999int * 65536, 1);
        assert(0 <= frac_val * 65536 <= 9999 * 65536) by (nonlinear_arith)
            requires
                0 <= frac_val <= 9999,
        ;
    }
    let frac_fixed: i64 = (frac_val * 65536) / scale;
    let magnitude: i64 = int_val * 65536 + frac_fixed;
    if negative {
        Some(-magnitude)
    } else {
        Some(magnitude)
    }
}

/// Ten to a small power.
pub open spec fn ten_pow(n: int) -> int
    decreases n,
{
    if n <= 0 {
        1
    } else {
        10 * ten_pow(n - 1)
    }
}

/// A digit run spells less than ten to its length.
proof fn lemma_digits_lt(s: Seq<u8>)
    requires
        all_digits(s),
    ensures
        0 <= digits_value(s) < ten_pow(s.len() as int),
    decreases s.len(),
{
    lemma_digits_nonneg(s);
    if s.len() > 0 {
        assert(all_digits(s.drop_last())) by {
            assert(forall|i: int|
                0 <= i < s.drop_last().len() ==> s.drop_last()[i] == s[i] && digit_val(
                    #[trigger] s.drop_last()[i],
                ) < 10);
        }
        lemma_digits_lt(s.drop_last());
        assert(digits_value(s) == digits_value(s.drop_last()) * 10 + digit_val(s.last()));
        assert(digits_value(s.drop_last()) * 10 + digit_val(s.last()) < 10 * ten_pow(
            s.len() - 1,
        )) by (nonlinear_arith)
            requires
                0 <= digits_value(s.drop_last()) < ten_pow(s.len() - 1),
                digit_val(s.last()) < 10,
        ;
    }
}

/// A digit run of at most four digits spells at most 9999.
proof fn lemma_digits_bound(s: Seq<u8>)
    requires
        all_digits(s),
        s.len() <= 4,
    ensures
        0 <= digits_value(s) <= 9999,
{
    lemma_digits_lt(s);
    assert(ten_pow(0) == 1);
    assert(ten_pow(1) == 10);
    assert(ten_pow(2) == 100);
    assert(ten_pow(3) == 1000);
    assert(ten_pow(4) == 10000);
}

/// A dot at position `k` with none before it is the first dot./// A hit at position `k` with none before it is the first hit.
proof fn lemma_find_byte_at(s: Seq<u8>, b: u8, k: int)
    requires
        0 <= k < s.len(),
        s[k] == b,
        find_byte(s.take(k), b) == -1,
    ensures
        find_byte(s, b) == k,
    decreases k,
{
    if k == 0 {
    } else {
        assert(s.take(k)[0] == s[0]);
        assert(s[0] != b) by {
            if s.take(k)[0] == b {
                assert(find_byte(s.take(k), b) == 0);
            }
        }
        assert(s.drop_first().take(k - 1) =~= s.take(k).drop_first());
        assert(find_byte(s.take(k), b) == -1 ==> find_byte(s.take(k).drop_first(), b) == -1);
        lemma_find_byte_at(s.drop_first(), b, k - 1);
    }
}

/// The first-byte search returns -1 or a position.
proof fn lemma_find_byte_range(s: Seq<u8>, b: u8)
    ensures
        find_byte(s, b) >= -1,
    decreases s.len(),
{
    if s.len() > 0 && s[0] != b {
        lemma_find_byte_range(s.drop_first(), b);
    }
}

/// No hit in a prefix: the first-byte search over the prefix stays
/// empty as the prefix grows past other bytes.
proof fn lemma_find_byte_extend(s: Seq<u8>, b: u8, k: int)
    requires
        0 < k <= s.len(),
        find_byte(s.take(k).drop_last(), b) == -1,
        s.take(k).last() != b,
    ensures
        find_byte(s.take(k), b) == -1,
    decreases k,
{
    let p = s.take(k);
    if p[0] == b {
        if k == 1 {
            assert(p.last() == p[0]);
            assert(false);
        } else {
            assert(p.drop_last()[0] == p[0]);
            assert(find_byte(p.drop_last(), b) == 0);
            assert(false);
        }
    } else {
        if k == 1 {
            assert(p.drop_first() =~= Seq::<u8>::empty());
            assert(find_byte(p.drop_first(), b) == -1);
        } else {
            assert(s.drop_first().take(k - 1) =~= p.drop_first());
            assert(p.drop_first().drop_last() =~= p.drop_last().drop_first());
            assert(p.drop_last()[0] == p[0]);
            lemma_find_byte_range(p.drop_last().drop_first(), b);
            assert(find_byte(p.drop_last().drop_first(), b) == -1) by {
                assert(find_byte(p.drop_last(), b) == -1);
            }
            assert(p.drop_first().last() == p.last());
            lemma_find_byte_extend(s.drop_first(), b, k - 1);
            lemma_find_byte_range(p.drop_first(), b);
        }
    }
}

/// A whole string without a dot has no first dot./// A whole string scanned without a hit has no first hit.
proof fn lemma_find_byte_none(s: Seq<u8>, b: u8)
    requires
        find_byte(s.take(s.len() as int), b) == -1,
    ensures
        find_byte(s, b) == -1,
{
    assert(s.take(s.len() as int) =~= s);
}

/// Whether a byte is blank space.
pub open spec fn is_ws(b: u8) -> bool {
    b == 0x20 || b == 0x09
}

/// A byte string with leading blanks dropped.
pub open spec fn trim_front(s: Seq<u8>) -> Seq<u8>
    decreases s.len(),
{
    if s.len() > 0 && is_ws(s[0]) {
        trim_front(s.drop_first())
    } else {
        s
    }
}

/// A byte string with trailing blanks dropped.
pub open spec fn trim_back(s: Seq<u8>) -> Seq<u8>
    decreases s.len(),
{
    if s.len() > 0 && is_ws(s.last()) {
        trim_back(s.drop_last())
    } else {
        s
    }
}

/// A byte string with blanks dropped at both ends.
pub open spec fn spec_trim(s: Seq<u8>) -> Seq<u8> {
    trim_back(trim_front(s))
}

/// Copies a byte range with blanks dropped at both ends.
fn trim_slice(v: &[u8], start: usize, end: usize) -> (r: Vec<u8>)
    requires
        start <= end <= v@.len(),
    ensures
        r@ == spec_trim(v@.subrange(start as int, end as int)),
{
    let mut a = start;
    while a < end && (v[a] == 0x20 || v[a] == 0x09)
        invariant
            start <= a <= end <= v@.len(),
            trim_front(v@.subrange(start as int, end as int)) == trim_front(
                v@.subrange(a as int, end as int),
            ),
        decreases end - a,
    {
        proof {
            assert(v@.subrange(a as int, end as int).drop_first() =~= v@.subrange(
                a + 1,
                end as int,
            ));
        }
        a += 1;
    }
    let mut b = end;
    while b > a && (v[b - 1] == 0x20 || v[b - 1] == 0x09)
        invariant
            a <= b <= end <= v@.len(),
            trim_front(v@.subrange(start as int, end as int)) == trim_front(
                v@.subrange(a as int, end as int),
            ),
            a < b ==> !is_ws(v@[a as int]),
            a == end || !is_ws(v@[a as int]),
            trim_back(v@.subrange(a as int, end as int)) == trim_back(
                v@.subrange(a as int, b as int),
            ),
        decreases b,
    {
        proof {
            assert(v@.subrange(a as int, b as int).drop_last() =~= v@.subrange(a as int, b - 1));
        }
        b -= 1;
    }
    proof {
        let seg = v@.subrange(a as int, b as int);
        if seg.len() > 0 {
            assert(seg[0] == v@[a as int]);
            assert(seg.last() == v@[b - 1]);
            assert(trim_front(v@.subrange(a as int, end as int)) =~= seg || a < end) by {
            }
        }
        // The remaining range starts and ends on non-blank bytes, so it
        // is its own trim.
        assert(trim_front(v@.subrange(a as int, end as int)) == v@.subrange(a as int, end as int))
            by {
            let t = v@.subrange(a as int, end as int);
            if t.len() > 0 {
                assert(t[0] == v@[a as int]);
            }
        }
        assert(trim_back(v@.subrange(a as int, b as int)) == v@.subrange(a as int, b as int)) by {
            let t = v@.subrange(a as int, b as int);
            if t.len() > 0 {
                assert(t.last() == v@[b - 1]);
            }
        }
    }
    let mut out: Vec<u8> = Vec::new();
    let mut k = a;
    while k < b
        invariant
            a <= k <= b <= v@.len(),
            out@ =~= v@.subrange(a as int, k as int),
        decreases b - k,
    {
        out.push(v[k]);
        proof {
            assert(out@ =~= v@.subrange(a as int, k + 1));
        }
        k += 1;
    }
    proof {
        assert(out@ =~= v@.subrange(a as int, b as int));
    }
    out
}

/// Parses a trimmed decimal byte string into a fixed-point value.
pub fn parse_fixed_bytes(chars: &[u8]) -> (r: Option<i64>)
    ensures
        ({
            let v = spec_parse_fixed(chars@);
            match r {
                Some(x) => v == Some(x as int),
                None => v is None,
            }
        }),
{
    parse_fixed_inner(chars)
}

/// The first comma at or after `from`, tied to the first-byte search
/// over the remainder.
fn find_comma(v: &[u8], from: usize) -> (r: Option<usize>)
    requires
        from <= v@.len(),
    ensures
        match r {
            Some(k) => from <= k < v@.len() && v@[k as int] == 0x2C && find_byte(
                v@.skip(from as int),
                0x2C,
            ) == k - from,
            None => find_byte(v@.skip(from as int), 0x2C) == -1,
        },
{
    let mut i = from;
    while i < v.len()
        invariant
            from <= i <= v@.len(),
            find_byte(v@.skip(from as int).take(i - from), 0x2C) == -1,
        decreases v@.len() - i,
    {
        if v[i] == 0x2C {
            proof {
                lemma_find_byte_at(v@.skip(from as int), 0x2C, i - from);
            }
            return Some(i);
        }
        proof {
            assert(v@.skip(from as int).take(i + 1 - from).drop_last() =~= v@.skip(
                from as int,
            ).take(i - from));
            lemma_find_byte_extend(v@.skip(from as int), 0x2C, i + 1 - from);
        }
        i += 1;
    }
    proof {
        assert(v@.skip(from as int).take(v@.len() - from) =~= v@.skip(from as int));
        lemma_find_byte_none(v@.skip(from as int), 0x2C);
    }
    None
}

/// What "x,y" spells: exactly one comma, and the two trimmed sides
/// each a decimal number.
pub open spec fn spec_parse_vec2(s: Seq<u8>) -> Option<(int, int)> {
    let k0 = find_byte(s, 0x2C);
    if k0 < 0 {
        None
    } else if find_byte(s.skip(k0 + 1), 0x2C) >= 0 {
        None
    } else {
        match (
            spec_parse_fixed(spec_trim(s.take(k0))),
            spec_parse_fixed(spec_trim(s.skip(k0 + 1))),
        ) {
            (Some(x), Some(y)) => Some((x, y)),
            _ => None,
        }
    }
}

/// What "x,y,z,w" spells: exactly three commas, and the four trimmed
/// parts each a decimal number.
pub open spec fn spec_parse_vec4(s: Seq<u8>) -> Option<(int, int, int, int)> {
    let k0 = find_byte(s, 0x2C);
    if k0 < 0 {
        None
    } else {
        let r1 = s.skip(k0 + 1);
        let k1 = find_byte(r1, 0x2C);
        if k1 < 0 {
            None
        } else {
            let r2 = r1.skip(k1 + 1);
            let k2 = find_byte(r2, 0x2C);
            if k2 < 0 {
                None
            } else if find_byte(r2.skip(k2 + 1), 0x2C) >= 0 {
                None
            } else {
                match (
                    spec_parse_fixed(spec_trim(s.take(k0))),
                    spec_parse_fixed(spec_trim(r1.take(k1))),
                    spec_parse_fixed(spec_trim(r2.take(k2))),
                    spec_parse_fixed(spec_trim(r2.skip(k2 + 1))),
                ) {
                    (Some(x), Some(y), Some(z), Some(w)) => Some((x, y, z, w)),
                    _ => None,
                }
            }
        }
    }
}

impl Vector2<i64> {
    /// Parses "x,y" into a fixed-point vector: exactly one comma, two
    /// decimal numbers, blanks around each allowed.
    pub fn from_str(s: &str) -> (r: Option<Vector2<i64>>)
        ensures
            ({
                let v = spec_parse_vec2(s.spec_bytes());
                match r {
                    Some(p) => v == Some((p.x as int, p.y as int)),
                    None => v is None,
                }
            }),
    {
        let bytes = s.as_bytes();
        let blen = bytes.len();
        let k0 = match find_comma(bytes, 0) {
            Some(k) => k,
            None => {
                proof {
                    assert(bytes@.skip(0) =~= bytes@);
                }
                return None;
            },
        };
        proof {
            assert(bytes@.skip(0) =~= bytes@);
        }
        match find_comma(bytes, k0 + 1) {
            Some(_) => {
                return None;
            },
            None => {},
        }
        let first = trim_slice(bytes, 0, k0);
        let second = trim_slice(bytes, k0 + 1, bytes.len());
        proof {
            assert(bytes@.subrange(0, k0 as int) =~= bytes@.take(k0 as int));
            assert(bytes@.subrange(k0 + 1, bytes@.len() as int) =~= bytes@.skip(k0 + 1));
        }
        let x = match parse_fixed_bytes(first.as_slice()) {
            Some(v) => v,
            None => {
                return None;
            },
        };
        let y = match parse_fixed_bytes(second.as_slice()) {
            Some(v) => v,
            None => {
                return None;
            },
        };
        Some(Vector2 { x, y })
    }

    /// Parses an optional string the same way; nothing parses to
    /// nothing.
    pub fn from_optional_str(opt_s: Option<&str>) -> (r: Option<Vector2<i64>>)
        ensures
            ({
                match opt_s {
                    Some(s) => match r {
                        Some(p) => spec_parse_vec2(s.spec_bytes()) == Some(
                            (p.x as int, p.y as int),
                        ),
                        None => spec_parse_vec2(s.spec_bytes()) is None,
                    },
                    None => r is None,
                }
            }),
    {
        match opt_s {
            Some(s) => Self::from_str(s),
            None => None,
        }
    }
}

impl Vector4<i64> {
    /// Parses "x,y,z,w" into a fixed-point vector: exactly three
    /// commas, four decimal numbers, blanks around each allowed.
    pub fn from_str(s: &str) -> (r: Option<Vector4<i64>>)
        ensures
            ({
                let v = spec_parse_vec4(s.spec_bytes());
                match r {
                    Some(p) => v == Some((p.x as int, p.y as int, p.z as int, p.w as int)),
                    None => v is None,
                }
            }),
    {
        let bytes = s.as_bytes();
        let blen = bytes.len();
        proof {
            assert(bytes@.skip(0) =~= bytes@);
        }
        let k0 = match find_comma(bytes, 0) {
            Some(k) => k,
            None => {
                return None;
            },
        };
        let k1 = match find_comma(bytes, k0 + 1) {
            Some(k) => k,
            None => {
                return None;
            },
        };
        proof {
            assert(bytes@.skip(k0 + 1).skip(k1 - k0) =~= bytes@.skip(k1 + 1));
            lemma_find_byte_skip_within(bytes@, k0 + 1, k1 as int);
        }
        let k2 = match find_comma(bytes, k1 + 1) {
            Some(k) => k,
            None => {
                return None;
            },
        };
        proof {
            lemma_find_byte_skip_within(bytes@, k1 + 1, k2 as int);
        }
        match find_comma(bytes, k2 + 1) {
            Some(_) => {
                return None;
            },
            None => {},
        }
        let p0 = trim_slice(bytes, 0, k0);
        let p1 = trim_slice(bytes, k0 + 1, k1);
        let p2 = trim_slice(bytes, k1 + 1, k2);
        let p3 = trim_slice(bytes, k2 + 1, bytes.len());
        proof {
            assert(bytes@.subrange(0, k0 as int) =~= bytes@.take(k0 as int));
            assert(bytes@.subrange(k0 + 1, k1 as int) =~= bytes@.skip(k0 + 1).take(k1 - k0 - 1));
            assert(bytes@.subrange(k1 + 1, k2 as int) =~= bytes@.skip(k0 + 1).skip(k1 - k0).take(
                k2 - k1 - 1,
            ));
            assert(bytes@.subrange(k2 + 1, bytes@.len() as int) =~= bytes@.skip(k1 + 1).skip(
                k2 - k1,
            ));
            assert(bytes@.skip(k0 + 1).skip(k1 - k0) =~= bytes@.skip(k1 + 1));
            assert(bytes@.skip(k1 + 1).skip(k2 - k1) =~= bytes@.skip(k2 + 1));
        }
        let x = match parse_fixed_bytes(p0.as_slice()) {
            Some(v) => v,
            None => {
                return None;
            },
        };
        let y = match parse_fixed_bytes(p1.as_slice()) {
            Some(v) => v,
            None => {
                return None;
            },
        };
        let z = match parse_fixed_bytes(p2.as_slice()) {
            Some(v) => v,
            None => {
                return None;
            },
        };
        let w = match parse_fixed_bytes(p3.as_slice()) {
            Some(v) => v,
            None => {
                return None;
            },
        };
        Some(Vector4 { x, y, z, w })
    }

    /// Parses an optional string the same way; nothing parses to
    /// nothing.
    pub fn from_optional_str(opt_s: Option<&str>) -> (r: Option<Vector4<i64>>)
        ensures
            ({
                match opt_s {
                    Some(s) => match r {
                        Some(p) => spec_parse_vec4(s.spec_bytes()) == Some(
                            (p.x as int, p.y as int, p.z as int, p.w as int),
                        ),
                        None => spec_parse_vec4(s.spec_bytes()) is None,
                    },
                    None => r is None,
                }
            }),
    {
        match opt_s {
            Some(s) => Self::from_str(s),
            None => None,
        }
    }
}

/// The search after a later start point agrees with searching the
/// earlier remainder past the found hit.
proof fn lemma_find_byte_skip_within(s: Seq<u8>, a: int, k: int)
    requires
        0 <= a <= k < s.len(),
        find_byte(s.skip(a), 0x2C) == k - a,
    ensures
        find_byte(s.skip(a).skip(k - a + 1), 0x2C) == find_byte(s.skip(k + 1), 0x2C),
{
    assert(s.skip(a).skip(k - a + 1) =~= s.skip(k + 1));
}

/// Whether the trimmed value spells one of the accepted truth words.
pub open spec fn spec_bool_word(s: Seq<u8>) -> Option<bool> {
    if s == seq![0x74u8, 0x72u8, 0x75u8, 0x65u8] || s == seq![0x79u8, 0x65u8, 0x73u8] || s
        == seq![0x74u8] || s == seq![0x79u8] || s == seq![0x31u8] {
        Some(true)
    } else if s == seq![0x66u8, 0x61u8, 0x6Cu8, 0x73u8, 0x65u8] || s == seq![
        0x6Eu8,
        0x6Fu8,
    ] || s == seq![0x66u8] || s == seq![0x6Eu8] || s == seq![0x30u8] {
        Some(false)
    } else {
        None
    }
}

/// Parses a truth word ("true", "yes", "t", "y", "1" and the five
/// opposites); anything else, or nothing, gives `None`.
pub fn bool_from_str(value: Option<&str>) -> (r: Option<bool>)
    ensures
        ({
            match value {
                Some(s) => r == spec_bool_word(spec_trim(s.spec_bytes())),
                None => r is None,
            }
        }),
{
    let s = match value {
        Some(s) => s,
        None => {
            return None;
        },
    };
    let bytes = s.as_bytes();
    let t = trim_slice(bytes, 0, bytes.len());
    proof {
        assert(bytes@.subrange(0, bytes@.len() as int) =~= bytes@);
    }
    let tv = t.as_slice();
    let n = tv.len();
    if n == 4 && tv[0] == 0x74 && tv[1] == 0x72 && tv[2] == 0x75 && tv[3] == 0x65 {
        proof {
            assert(tv@ =~= seq![0x74u8, 0x72u8, 0x75u8, 0x65u8]);
        }
        Some(true)
    } else if n == 3 && tv[0] == 0x79 && tv[1] == 0x65 && tv[2] == 0x73 {
        proof {
            assert(tv@ =~= seq![0x79u8, 0x65u8, 0x73u8]);
        }
        Some(true)
    } else if n == 1 && (tv[0] == 0x74 || tv[0] == 0x79 || tv[0] == 0x31) {
        proof {
            if tv@[0] == 0x74 {
                assert(tv@ =~= seq![0x74u8]);
            } else if tv@[0] == 0x79 {
                assert(tv@ =~= seq![0x79u8]);
            } else {
                assert(tv@ =~= seq![0x31u8]);
            }
        }
        Some(true)
    } else if n == 5 && tv[0] == 0x66 && tv[1] == 0x61 && tv[2] == 0x6C && tv[3] == 0x73 && tv[4]
        == 0x65 {
        proof {
            assert(tv@ =~= seq![0x66u8, 0x61u8, 0x6Cu8, 0x73u8, 0x65u8]);
        }
        Some(false)
    } else if n == 2 && tv[0] == 0x6E && tv[1] == 0x6F {
        proof {
            assert(tv@ =~= seq![0x6Eu8, 0x6Fu8]);
        }
        Some(false)
    } else if n == 1 && (tv[0] == 0x66 || tv[0] == 0x6E || tv[0] == 0x30) {
        proof {
            if tv@[0] == 0x66 {
                assert(tv@ =~= seq![0x66u8]);
            } else if tv@[0] == 0x6E {
                assert(tv@ =~= seq![0x6Eu8]);
            } else {
                assert(tv@ =~= seq![0x30u8]);
            }
        }
        Some(false)
    } else {
        proof {
            let q = tv@;
            assert(q != seq![0x74u8, 0x72u8, 0x75u8, 0x65u8]) by {
                if q == seq![0x74u8, 0x72u8, 0x75u8, 0x65u8] {
                    assert(q.len() == 4 && q[0] == 0x74 && q[1] == 0x72 && q[2] == 0x75 && q[3]
                        == 0x65);
                }
            }
            assert(q != seq![0x79u8, 0x65u8, 0x73u8]) by {
                if q == seq![0x79u8, 0x65u8, 0x73u8] {
                    assert(q.len() == 3 && q[0] == 0x79 && q[1] == 0x65 && q[2] == 0x73);
                }
            }
            assert(q != seq![0x74u8]) by {
                if q == seq![0x74u8] {
                    assert(q.len() == 1 && q[0] == 0x74);
                }
            }
            assert(q != seq![0x79u8]) by {
                if q == seq![0x79u8] {
                    assert(q.len() == 1 && q[0] == 0x79);
                }
            }
            assert(q != seq![0x31u8]) by {
                if q == seq![0x31u8] {
                    assert(q.len() == 1 && q[0] == 0x31);
                }
            }
            assert(q != seq![0x66u8, 0x61u8, 0x6Cu8, 0x73u8, 0x65u8]) by {
                if q == seq![0x66u8, 0x61u8, 0x6Cu8, 0x73u8, 0x65u8] {
                    assert(q.len() == 5 && q[0] == 0x66 && q[1] == 0x61 && q[2] == 0x6C && q[3]
                        == 0x73 && q[4] == 0x65);
                }
            }
            assert(q != seq![0x6Eu8, 0x6Fu8]) by {
                if q == seq![0x6Eu8, 0x6Fu8] {
                    assert(q.len() == 2 && q[0] == 0x6E && q[1] == 0x6F);
                }
            }
            assert(q != seq![0x66u8]) by {
                if q == seq![0x66u8] {
                    assert(q.len() == 1 && q[0] == 0x66);
                }
            }
            assert(q != seq![0x6Eu8]) by {
                if q == seq![0x6Eu8] {
                    assert(q.len() == 1 && q[0] == 0x6E);
                }
            }
            assert(q != seq![0x30u8]) by {
                if q == seq![0x30u8] {
                    assert(q.len() == 1 && q[0] == 0x30);
                }
            }
        }
        None
    }
}

/// Whether two byte strings hold the same bytes.
pub fn eq_bytes(a: &[u8], b: &[u8]) -> (r: bool)
    ensures
        r <==> a@ == b@,
{
    if a.len() != b.len() {
        proof {
            assert(a@.len() != b@.len());
        }
        return false;
    }
    let mut i: usize = 0;
    while i < a.len()
        invariant
            i <= a@.len(),
            a@.len() == b@.len(),
            forall|j: int| 0 <= j < i ==> a@[j] == b@[j],
        decreases a@.len() - i,
    {
        if a[i] != b[i] {
            assert(a@ != b@) by {
                assert(a@[i as int] != b@[i as int]);
            }
            return false;
        }
        i += 1;
    }
    proof {
        assert(a@ =~= b@);
    }
    true
}

/// Where the level data comes from.
pub struct Resource {
    pub wad: String,
}

/// The window and surface set-up.
pub struct Screen {
    pub title: String,
    pub window: Vector2<i64>,
    pub surface: Vector2<i64>,
    pub frame_rate: i64,
    pub vsync: bool,
}

/// The camera's field of view, in fixed-point degrees.
pub struct Camera {
    pub fov: i64,
}

/// The player's size, eye height and movement rates, in fixed point
/// where fractional.
pub struct Player {
    pub size: i64,
    pub height: i64,
    pub speed: i64,
    pub angle_speed: i64,
    pub jump: i64,
    pub jump_speed: i64,
}

/// Which level to load and how to read its blockmap lists.
pub struct MapConfig {
    pub name: String,
    pub blockmap_no_first_line: bool,
}

/// Which renderers to enable, each with its surface rectangle.
pub struct Render {
    pub map_2d: Option<Vector4<i64>>,
    pub bsp_2d: Option<Vector4<i64>>,
    pub collision_2d: Option<Vector4<i64>>,
    pub camera_2d: Option<Vector4<i64>>,
    pub flat_2d: Option<Vector4<i64>>,
    pub sprite_2d: Option<Vector4<i64>>,
    pub texture_2d: Option<Vector4<i64>>,
    pub software_3d: Option<Vector4<i64>>,
}

/// The whole configuration.
pub struct Configure {
    pub resource: Resource,
    pub screen: Screen,
    pub camera: Camera,
    pub player: Player,
    pub map: MapConfig,
    pub render: Option<Render>,
}

/// A key's value parsed as a fixed-point number, or the fallback; the
/// value's stored bytes are what the parser reads.
fn get_fixed_or(doc: &ini::Ini, section: &str, key: &str, fallback: i64) -> (r: i64)
    ensures
        ini_has_value(*doc, section@, key@) ==> ({
            match spec_parse_fixed(
                vstd::utf8::encode_utf8(ini_value_of(*doc, section@, key@)),
            ) {
                Some(v) => r == v,
                None => r == fallback,
            }
        }),
        !ini_has_value(*doc, section@, key@) ==> r == fallback,
{
    match ini_get(doc, section, key) {
        Some(v) => {
            match parse_fixed(v.as_str()) {
                Some(x) => x,
                None => fallback,
            }
        },
        None => fallback,
    }
}

impl Configure {
    /// Builds the configuration from INI text: the resource, screen,
    /// camera, player and map sections are required, the render section
    /// optional; missing numeric keys fall back to the defaults.
    pub fn from_ini_text(text: &str) -> (r: Option<Configure>) {
        let doc = match ini_load(text) {
            Some(d) => d,
            None => {
                return None;
            },
        };
        let wad = match ini_get(&doc, "Resource", "wad") {
            Some(v) => v,
            None => {
                return None;
            },
        };
        let title = match ini_get(&doc, "Screen", "title") {
            Some(v) => v,
            None => {
                return None;
            },
        };
        let window = match ini_get(&doc, "Screen", "window") {
            Some(v) => match Vector2::<i64>::from_str(v.as_str()) {
                Some(w) => w,
                None => {
                    return None;
                },
            },
            None => {
                return None;
            },
        };
        let surface = match ini_get(&doc, "Screen", "surface") {
            Some(v) => match Vector2::<i64>::from_str(v.as_str()) {
                Some(w) => w,
                None => {
                    return None;
                },
            },
            None => {
                return None;
            },
        };
        let frame_rate = get_fixed_or(&doc, "Screen", "frame_rate", 60 * 65536);
        let vsync = match bool_from_str(
            match &ini_get(&doc, "Screen", "vsync") {
                Some(v) => Some(v.as_str()),
                None => None,
            },
        ) {
            Some(b) => b,
            None => false,
        };
        let fov = get_fixed_or(&doc, "Camera", "fov", 90 * 65536);
        let player = Player {
            size: get_fixed_or(&doc, "Player", "size", 16 * 65536),
            height: get_fixed_or(&doc, "Player", "height", 56 * 65536),
            speed: get_fixed_or(&doc, "Player", "speed", 60 * 65536),
            angle_speed: get_fixed_or(&doc, "Player", "angle_speed", 30 * 65536),
            jump: get_fixed_or(&doc, "Player", "jump", 600 * 65536),
            jump_speed: get_fixed_or(&doc, "Player", "jump_speed", 120 * 65536),
        };
        let map_name = match ini_get(&doc, "Map", "name") {
            Some(v) => v,
            None => {
                return None;
            },
        };
        let blockmap_no_first_line = match bool_from_str(
            match &ini_get(&doc, "Map", "blockmap_no_first_line") {
                Some(v) => Some(v.as_str()),
                None => None,
            },
        ) {
            Some(b) => b,
            None => false,
        };
        let render = Render {
            map_2d: Self::get_rect(&doc, "map_2d"),
            bsp_2d: Self::get_rect(&doc, "bsp_2d"),
            collision_2d: Self::get_rect(&doc, "collision_2d"),
            camera_2d: Self::get_rect(&doc, "camera_2d"),
            flat_2d: Self::get_rect(&doc, "flat_2d"),
            sprite_2d: Self::get_rect(&doc, "sprite_2d"),
            texture_2d: Self::get_rect(&doc, "texture_2d"),
            software_3d: Self::get_rect(&doc, "software_3d"),
        };
        Some(
            Configure {
                resource: Resource { wad },
                screen: Screen { title, window, surface, frame_rate, vsync },
                camera: Camera { fov },
                player,
                map: MapConfig { name: map_name, blockmap_no_first_line },
                render: Some(render),
            },
        )
    }

    /// One render rectangle of the render section.
    fn get_rect(doc: &ini::Ini, key: &str) -> (r: Option<Vector4<i64>>) {
        match ini_get(doc, "Render", key) {
            Some(v) => Vector4::<i64>::from_str(v.as_str()),
            None => None,
        }
    }
}

} // verus!


