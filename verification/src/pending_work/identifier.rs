//! Normalizes loosely typed work-item identifiers such as `pwf-98` or `cfg57`.
use vstd::prelude::*;

use crate::text::{
    all_digits, ascii_lower, ascii_upper, chars_of, decimal, digits_value, eq_ignore_case,
    is_ascii_digit, is_ascii_upper, is_whitespace, lemma_decimal_all_digits,
    lemma_trim_idempotent, lower_char, pad4, pad4_chars, parse_unsigned, parse_unsigned_chars,
    string_of, trim, trim_end, trim_start, trimmed, upper_all, upper_char, unsigned_digits,
};

verus! {

/// Index of the first ASCII digit of `s`, if any.
pub open spec fn first_digit(s: Seq<char>) -> Option<int> {
    if exists|i: int| 0 <= i < s.len() && is_ascii_digit(s[i]) {
        Some(
            choose|i: int|
                0 <= i < s.len() && is_ascii_digit(s[i]) && forall|j: int|
                    0 <= j < i ==> !is_ascii_digit(#[trigger] s[j]),
        )
    } else {
        None
    }
}

pub open spec fn all_upper(s: Seq<char>) -> bool {
    forall|i: int| 0 <= i < s.len() ==> is_ascii_upper(#[trigger] s[i])
}

/// The code part before the first digit, without one trailing `-`.
pub open spec fn code_part(s: Seq<char>, digit_start: int) -> Seq<char> {
    let code = s.take(digit_start);
    if code.len() > 0 && code.last() == '-' {
        code.drop_last()
    } else {
        code
    }
}

/// Splits a compact identifier into a 2–4 letter uppercase code and a 1–4 digit number,
/// e.g. `CFG57` or `PWF-98`.
pub open spec fn split_compact(s: Seq<char>) -> Option<(Seq<char>, nat)> {
    match first_digit(s) {
        None => None,
        Some(d) => {
            let code = code_part(s, d);
            let digits = s.skip(d);
            if 2 <= code.len() <= 4 && all_upper(code) && 1 <= digits.len() <= 4 && all_digits(
                digits,
            ) {
                Some((code, digits_value(digits)))
            } else {
                None
            }
        },
    }
}

/// The canonical form of a loosely typed identifier: trimmed and ASCII-uppercased, and a
/// compact `CODE[-]N` rewritten as `CODE-NNNN`.
pub open spec fn normalize_id(raw: Seq<char>) -> Seq<char> {
    let t = ascii_upper(trim(raw));
    match split_compact(t) {
        Some((code, number)) => code + seq!['-'] + pad4(number),
        None => t,
    }
}

/// A canonical work-item identifier: a 2–4 letter uppercase code, `-`, and four digits.
pub open spec fn is_work_item_id(s: Seq<char>) -> bool {
    &&& 7 <= s.len() <= 9
    &&& s[s.len() - 5] == '-'
    &&& all_upper(s.take(s.len() - 5))
    &&& all_digits(s.skip(s.len() - 4))
}

/// A loosely typed identifier parsed into its canonical work-item identifier.
pub open spec fn parse_id(raw: Seq<char>) -> Option<Seq<char>> {
    if is_work_item_id(normalize_id(raw)) {
        Some(normalize_id(raw))
    } else {
        None
    }
}

fn all_upper_chars(v: &Vec<char>, from: usize, to: usize) -> (r: bool)
    requires
        from <= to <= v.len(),
    ensures
        r == all_upper(v@.subrange(from as int, to as int)),
{
    let mut i = from;
    while i < to
        invariant
            from <= i <= to <= v.len(),
            forall|j: int| from <= j < i ==> is_ascii_upper(#[trigger] v@[j]),
        decreases to - i,
    {
        if !crate::text::is_upper_char(v[i]) {
            assert(v@.subrange(from as int, to as int)[i - from] == v@[i as int]);
            return false;
        }
        i = i + 1;
    }
    assert forall|j: int| 0 <= j < to - from implies is_ascii_upper(
        #[trigger] v@.subrange(from as int, to as int)[j],
    ) by {
        assert(v@.subrange(from as int, to as int)[j] == v@[from + j]);
    }
    true
}

fn all_digit_chars(v: &Vec<char>, from: usize, to: usize) -> (r: bool)
    requires
        from <= to <= v.len(),
    ensures
        r == all_digits(v@.subrange(from as int, to as int)),
{
    let mut i = from;
    while i < to
        invariant
            from <= i <= to <= v.len(),
            forall|j: int| from <= j < i ==> is_ascii_digit(#[trigger] v@[j]),
        decreases to - i,
    {
        if !crate::text::is_digit_char(v[i]) {
            assert(v@.subrange(from as int, to as int)[i - from] == v@[i as int]);
            return false;
        }
        i = i + 1;
    }
    assert forall|j: int| 0 <= j < to - from implies is_ascii_digit(
        #[trigger] v@.subrange(from as int, to as int)[j],
    ) by {
        assert(v@.subrange(from as int, to as int)[j] == v@[from + j]);
    }
    true
}

/// `split_compact` of `t`: the code's characters and the number.
fn split_compact_chars(t: &Vec<char>) -> (r: Option<(Vec<char>, u64)>)
    ensures
        r matches Some(x) ==> split_compact(t@) == Some((x.0@, x.1 as nat)),
        r is None ==> split_compact(t@) is None,
{
    let mut d: usize = 0;
    while d < t.len() && !crate::text::is_digit_char(t[d])
        invariant
            d <= t.len(),
            forall|j: int| 0 <= j < d ==> !is_ascii_digit(#[trigger] t@[j]),
        decreases t.len() - d,
    {
        d = d + 1;
    }
    if d == t.len() {
        assert(first_digit(t@) is None);
        return None;
    }
    proof {
        assert(is_ascii_digit(t@[d as int]));
        let c = choose|i: int|
            0 <= i < t@.len() && is_ascii_digit(t@[i]) && forall|j: int|
                0 <= j < i ==> !is_ascii_digit(#[trigger] t@[j]);
        if c < d {
        } else if c > d {
            assert(!is_ascii_digit(t@[d as int]));
        }
        assert(first_digit(t@) == Some(d as int));
    }
    let code_end: usize = if d > 0 && t[d - 1] == '-' {
        d - 1
    } else {
        d
    };
    assert(code_part(t@, d as int) =~= t@.subrange(0, code_end as int));
    assert(t@.skip(d as int) =~= t@.subrange(d as int, t.len() as int));
    let digits_len = t.len() - d;
    if code_end < 2 || code_end > 4 || !all_upper_chars(t, 0, code_end) || digits_len < 1
        || digits_len > 4 || !all_digit_chars(t, d, t.len()) {
        return None;
    }
    let digits = crate::text::slice_chars(t, d, t.len());
    let value = match parse_unsigned_chars(&digits, 9999) {
        Some(v) => v,
        None => {
            proof {
                assert(unsigned_digits(digits@) == digits@);
                lemma_four_digits_bound(digits@);
            }
            return None;
        },
    };
    proof {
        assert(unsigned_digits(digits@) == digits@);
    }
    let code = crate::text::slice_chars(t, 0, code_end);
    Some((code, value))
}

spec fn pow10(n: nat) -> nat
    decreases n,
{
    if n == 0 {
        1
    } else {
        10 * pow10((n - 1) as nat)
    }
}

proof fn lemma_digits_value_below(s: Seq<char>)
    requires
        all_digits(s),
    ensures
        digits_value(s) < pow10(s.len()),
    decreases s.len(),
{
    if s.len() > 0 {
        let p = s.drop_last();
        assert forall|i: int| 0 <= i < p.len() implies is_ascii_digit(#[trigger] p[i]) by {
            assert(p[i] == s[i]);
        }
        lemma_digits_value_below(p);
        assert(is_ascii_digit(s[s.len() - 1]));
        let a = digits_value(p);
        let b = pow10(p.len());
        let d = crate::text::digit_value(s.last());
        assert(d <= 9);
        assert(a * 10 + d < b * 10) by (nonlinear_arith)
            requires
                a < b,
                d <= 9,
        ;
    }
}

pub proof fn lemma_four_digits_bound(s: Seq<char>)
    requires
        s.len() <= 4,
        all_digits(s),
    ensures
        digits_value(s) <= 9999,
{
    lemma_digits_value_below(s);
    assert(pow10(4) == 10000) by {
        reveal_with_fuel(pow10, 5);
    }
    assert(pow10(s.len()) <= 10000) by {
        reveal_with_fuel(pow10, 5);
    }
}

/// Normalizes a loosely typed identifier: trims and ASCII-uppercases it, and rewrites a
/// compact `CODE[-]N` (a 2–4 letter code and 1–4 digits) as `CODE-NNNN`.
pub fn normalize(raw: &str) -> (r: String)
    ensures
        r@ == normalize_id(raw@),
{
    let v = chars_of(raw);
    let t = trimmed(&v);
    let up = upper_all(&t);
    match split_compact_chars(&up) {
        Some((code, number)) => {
            let mut r = string_of(&code, 0, code.len());
            r.push('-');
            let digits = pad4_chars(number);
            crate::text::push_chars(&mut r, &digits, 0, digits.len());
            proof {
                assert(code@.subrange(0, code.len() as int) =~= code@);
                assert(digits@.subrange(0, digits.len() as int) =~= digits@);
            }
            r
        },
        None => {
            proof {
                assert(up@.subrange(0, up.len() as int) =~= up@);
            }
            string_of(&up, 0, up.len())
        },
    }
}

/// Parses a loosely typed identifier into its canonical work-item identifier.
pub fn parse(raw: &str) -> (r: Option<String>)
    ensures
        r matches Some(id) ==> parse_id(raw@) == Some(id@),
        r is None ==> parse_id(raw@) is None,
{
    let n = normalize(raw);
    if is_work_item_id_str(n.as_str()) {
        Some(n)
    } else {
        None
    }
}

/// Whether `s` is a canonical work-item identifier.
pub fn is_work_item_id_str(s: &str) -> (r: bool)
    ensures
        r == is_work_item_id(s@),
{
    let v = chars_of(s);
    let n = v.len();
    if n < 7 || n > 9 || v[n - 5] != '-' {
        return false;
    }
    assert(s@.take(n - 5) =~= v@.subrange(0, n - 5));
    assert(s@.skip(n - 4) =~= v@.subrange(n - 4, n as int));
    all_upper_chars(&v, 0, n - 5) && all_digit_chars(&v, n - 4, n)
}

/// The canonical identifier a raw value names as written, ASCII-uppercased.
pub open spec fn work_item_id_of(raw: Seq<char>) -> Option<Seq<char>> {
    if is_work_item_id(ascii_upper(raw)) {
        Some(ascii_upper(raw))
    } else {
        None
    }
}

/// Reads a canonical work-item identifier, ignoring ASCII case.
pub fn try_work_item_id(raw: &str) -> (r: Option<String>)
    ensures
        crate::pending_work::project_registry::opt_view(r) == work_item_id_of(raw@),
{
    let v = chars_of(raw);
    let up = upper_all(&v);
    let s = string_of(&up, 0, up.len());
    proof {
        assert(up@.subrange(0, up.len() as int) =~= up@);
    }
    if is_work_item_id_str(s.as_str()) {
        Some(s)
    } else {
        None
    }
}

proof fn lemma_zero_digits_are_zeros(s: Seq<char>)
    requires
        all_digits(s),
        digits_value(s) == 0,
    ensures
        s == Seq::new(s.len(), |i: int| '0'),
    decreases s.len(),
{
    if s.len() > 0 {
        let p = s.drop_last();
        assert forall|i: int| 0 <= i < p.len() implies is_ascii_digit(#[trigger] p[i]) by {
            assert(p[i] == s[i]);
        }
        assert(is_ascii_digit(s.last()));
        assert(digits_value(p) == 0 && crate::text::digit_value(s.last()) == 0);
        lemma_zero_digits_are_zeros(p);
        assert(s.last() == '0');
        assert forall|i: int| 0 <= i < s.len() implies s[i] == '0' by {
            if i < s.len() - 1 {
                assert(s[i] == p[i]);
                assert(p[i] == Seq::new(p.len(), |j: int| '0')[i]);
            }
        }
        assert(s =~= Seq::new(s.len(), |i: int| '0'));
    }
}

proof fn lemma_decimal_len(n: nat, k: nat)
    requires
        k >= 1,
        n < pow10(k),
    ensures
        decimal(n).len() <= k,
    decreases n,
{
    if n >= 10 {
        assert(k >= 2) by {
            if k == 1 {
                assert(pow10(1) == 10) by {
                    reveal_with_fuel(pow10, 2);
                }
            }
        }
        assert(pow10(k) == 10 * pow10((k - 1) as nat));
        assert(n / 10 < pow10((k - 1) as nat));
        lemma_decimal_len(n / 10, (k - 1) as nat);
    }
}

/// The `k`-digit string with value `n` is `n` padded with zeros to `k` digits.
proof fn lemma_zero_pad_of_value(s: Seq<char>)
    requires
        s.len() >= 1,
        all_digits(s),
    ensures
        crate::text::zero_pad(decimal(digits_value(s)), s.len()) == s,
    decreases s.len(),
{
    let n = digits_value(s);
    let p = s.drop_last();
    let c = s.last();
    assert forall|i: int| 0 <= i < p.len() implies is_ascii_digit(#[trigger] p[i]) by {
        assert(p[i] == s[i]);
    }
    assert(is_ascii_digit(c));
    let d = crate::text::digit_value(c);
    assert(d <= 9);
    assert(crate::text::digit_char(d) == c);
    assert(n == digits_value(p) * 10 + d);
    assert(n % 10 == d && n / 10 == digits_value(p)) by (nonlinear_arith)
        requires
            n == digits_value(p) * 10 + d,
            d <= 9,
    ;
    if n < 10 {
        assert(digits_value(p) == 0);
        lemma_zero_digits_are_zeros(p);
        assert(d == n);
        assert(decimal(n) =~= seq![c]);
        assert(s =~= Seq::new((s.len() - 1) as nat, |i: int| '0') + seq![c]);
    } else {
        assert(p.len() >= 1) by {
            if p.len() == 0 {
                assert(digits_value(p) == 0);
            }
        }
        lemma_zero_pad_of_value(p);
        lemma_digits_value_below(p);
        lemma_decimal_len(digits_value(p), p.len());
        let dp = decimal(digits_value(p));
        assert(decimal(n) == dp.push(c));
        let zeros = Seq::new((p.len() - dp.len()) as nat, |i: int| '0');
        if dp.len() < p.len() {
            assert(p == zeros + dp);
            assert(crate::text::zero_pad(decimal(n), s.len()) =~= Seq::new(
                (s.len() - decimal(n).len()) as nat,
                |i: int| '0',
            ) + decimal(n));
            assert(Seq::new((s.len() - decimal(n).len()) as nat, |i: int| '0') + decimal(n) =~= (
            zeros + dp).push(c));
        } else {
            assert(p == dp);
        }
        assert(s =~= p.push(c));
    }
}

proof fn lemma_canonical_normalizes_to_itself(id: Seq<char>)
    requires
        is_work_item_id(id),
    ensures
        normalize_id(id) == id,
{
    let n = id.len();
    let code = id.take(n - 5);
    let digits = id.skip(n - 4);
    assert(digits.len() == 4);
    assert forall|i: int| 0 <= i < n implies !crate::text::is_whitespace(#[trigger] id[i])
        && crate::text::upper_char(id[i]) == id[i] by {
        if i < n - 5 {
            assert(code[i] == id[i]);
            assert(is_ascii_upper(code[i]));
        } else if i == n - 5 {
        } else {
            assert(digits[i - (n - 4)] == id[i]);
            assert(is_ascii_digit(digits[i - (n - 4)]));
        }
    }
    assert(crate::text::trim_start(id) == id);
    assert(crate::text::trim_end(id) == id);
    assert(trim(id) == id);
    assert(ascii_upper(id) =~= id);
    assert forall|j: int| 0 <= j < n - 4 implies !is_ascii_digit(#[trigger] id[j]) by {
        if j < n - 5 {
            assert(code[j] == id[j]);
            assert(is_ascii_upper(code[j]));
        }
    }
    assert(is_ascii_digit(id[n - 4])) by {
        assert(digits[0] == id[n - 4]);
    }
    assert(first_digit(id) == Some(n - 4)) by {
        let c = choose|i: int|
            0 <= i < id.len() && is_ascii_digit(id[i]) && forall|j: int|
                0 <= j < i ==> !is_ascii_digit(#[trigger] id[j]);
        if c < n - 4 {
        } else if c > n - 4 {
            assert(!is_ascii_digit(id[n - 4]));
        }
    }
    assert(id.take(n - 4).last() == '-');
    assert(code_part(id, n - 4) =~= code);
    assert(split_compact(id) == Some((code, digits_value(digits))));
    lemma_zero_pad_of_value(digits);
    assert(pad4(digits_value(digits)) == digits);
    assert(code + seq!['-'] + digits =~= id);
}

/// Normalization is idempotent: the identifier a loose form parses to parses to itself.
pub proof fn lemma_parse_id_idempotent(raw: Seq<char>)
    ensures
        parse_id(raw) matches Some(id) ==> parse_id(id) == Some(id) && normalize_id(id) == id,
{
    if let Some(id) = parse_id(raw) {
        lemma_canonical_normalizes_to_itself(id);
    }
}


proof fn lemma_upper_char(c: char)
    ensures
        is_whitespace(upper_char(c)) == is_whitespace(c),
        upper_char(upper_char(c)) == upper_char(c),
        upper_char(lower_char(c)) == upper_char(c),
{
}

proof fn lemma_trim_start_upper(s: Seq<char>)
    ensures
        trim_start(ascii_upper(s)) == ascii_upper(trim_start(s)),
    decreases s.len(),
{
    if s.len() > 0 {
        lemma_upper_char(s[0]);
        assert(ascii_upper(s)[0] == upper_char(s[0]));
        if is_whitespace(s[0]) {
            assert(ascii_upper(s).drop_first() =~= ascii_upper(s.drop_first()));
            lemma_trim_start_upper(s.drop_first());
        }
    }
}

proof fn lemma_trim_end_upper(s: Seq<char>)
    ensures
        trim_end(ascii_upper(s)) == ascii_upper(trim_end(s)),
    decreases s.len(),
{
    if s.len() > 0 {
        lemma_upper_char(s.last());
        assert(ascii_upper(s).last() == upper_char(s.last()));
        if is_whitespace(s.last()) {
            assert(ascii_upper(s).drop_last() =~= ascii_upper(s.drop_last()));
            lemma_trim_end_upper(s.drop_last());
        }
    }
}

proof fn lemma_trim_upper(s: Seq<char>)
    ensures
        trim(ascii_upper(s)) == ascii_upper(trim(s)),
{
    lemma_trim_start_upper(s);
    lemma_trim_end_upper(trim_start(s));
}

proof fn lemma_upper_idempotent(s: Seq<char>)
    ensures
        ascii_upper(ascii_upper(s)) == ascii_upper(s),
{
    assert forall|i: int| 0 <= i < s.len() implies #[trigger] ascii_upper(ascii_upper(s))[i]
        == ascii_upper(s)[i] by {
        lemma_upper_char(s[i]);
    }
    assert(ascii_upper(ascii_upper(s)) =~= ascii_upper(s));
}

/// A compact identifier's rewrite is a canonical work-item identifier.
proof fn lemma_compact_is_canonical(t: Seq<char>, code: Seq<char>, number: nat)
    requires
        split_compact(t) == Some((code, number)),
    ensures
        is_work_item_id(code + seq!['-'] + pad4(number)),
{
    let d = first_digit(t)->0;
    let digits = t.skip(d);
    lemma_zero_pad_of_value(digits);
    lemma_decimal_all_digits(number);
    let dec = decimal(number);
    assert(dec.len() <= 4) by {
        if dec.len() > digits.len() {
            assert(crate::text::zero_pad(dec, digits.len()) == dec);
        }
    }
    let p = pad4(number);
    assert(p.len() == 4);
    assert forall|i: int| 0 <= i < 4 implies is_ascii_digit(#[trigger] p[i]) by {
        if dec.len() < 4 && i >= 4 - dec.len() {
            assert(p[i] == dec[i - (4 - dec.len())]);
        }
    }
    let id = code + seq!['-'] + p;
    assert(id.take(id.len() - 5) =~= code);
    assert(id.skip(id.len() - 4) =~= p);
}

/// Normalizing an identifier twice gives what normalizing it once gave.
pub proof fn lemma_normalize_idempotent(raw: Seq<char>)
    ensures
        normalize_id(normalize_id(raw)) == normalize_id(raw),
{
    let t = ascii_upper(trim(raw));
    match split_compact(t) {
        Some((code, number)) => {
            lemma_compact_is_canonical(t, code, number);
            lemma_canonical_normalizes_to_itself(code + seq!['-'] + pad4(number));
        },
        None => {
            lemma_trim_upper(trim(raw));
            lemma_trim_idempotent(raw);
            lemma_upper_idempotent(trim(raw));
            assert(trim(t) == t);
            assert(ascii_upper(trim(t)) == t);
        },
    }
}

/// Identifiers that differ only in ASCII letter case normalize alike.
pub proof fn lemma_normalize_ignores_case(a: Seq<char>, b: Seq<char>)
    requires
        eq_ignore_case(a, b),
    ensures
        normalize_id(a) == normalize_id(b),
{
    assert(a.len() == ascii_lower(a).len());
    assert forall|i: int| 0 <= i < a.len() implies #[trigger] ascii_upper(a)[i] == ascii_upper(b)[i]
        by {
        assert(ascii_lower(a)[i] == ascii_lower(b)[i]);
        lemma_upper_char(a[i]);
        lemma_upper_char(b[i]);
    }
    assert(ascii_upper(a) =~= ascii_upper(b));
    lemma_trim_upper(a);
    lemma_trim_upper(b);
}

} // verus!
