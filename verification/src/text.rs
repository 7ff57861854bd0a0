//! Character and string primitives shared by the naming, identifier and prompt policies.
//!
//! Strings are modelled by their views, sequences of Unicode scalar values. Ordering of two
//! strings is the lexicographic order of their characters, which for UTF-8 text is the same
//! order as the byte-wise order Rust's `str` comparison uses.
use vstd::prelude::*;

verus! {

/// `String::push` appends one character.
pub assume_specification[ String::push ](s: &mut String, ch: char)
    ensures
        final(s)@ == old(s)@.push(ch),
;

/// Unicode `White_Space`, the property `char::is_whitespace` and `str::trim` use.
pub open spec fn is_whitespace(c: char) -> bool {
    ||| ('\u{9}' <= c && c <= '\u{d}')
    ||| c == ' '
    ||| c == '\u{85}'
    ||| c == '\u{a0}'
    ||| c == '\u{1680}'
    ||| ('\u{2000}' <= c && c <= '\u{200a}')
    ||| c == '\u{2028}'
    ||| c == '\u{2029}'
    ||| c == '\u{202f}'
    ||| c == '\u{205f}'
    ||| c == '\u{3000}'
}

pub open spec fn is_ascii_digit(c: char) -> bool {
    '0' <= c && c <= '9'
}

pub open spec fn is_ascii_lower(c: char) -> bool {
    'a' <= c && c <= 'z'
}

pub open spec fn is_ascii_upper(c: char) -> bool {
    'A' <= c && c <= 'Z'
}

/// `char::to_ascii_lowercase`.
pub open spec fn lower_char(c: char) -> char {
    if is_ascii_upper(c) {
        ((c as u32) + 32) as char
    } else {
        c
    }
}

/// `char::to_ascii_uppercase`.
pub open spec fn upper_char(c: char) -> char {
    if is_ascii_lower(c) {
        ((c as u32) - 32) as char
    } else {
        c
    }
}

/// `str::to_ascii_lowercase`.
pub open spec fn ascii_lower(s: Seq<char>) -> Seq<char> {
    s.map_values(|c: char| lower_char(c))
}

/// `str::to_ascii_uppercase`.
pub open spec fn ascii_upper(s: Seq<char>) -> Seq<char> {
    s.map_values(|c: char| upper_char(c))
}

/// `str::eq_ignore_ascii_case`.
pub open spec fn eq_ignore_case(a: Seq<char>, b: Seq<char>) -> bool {
    ascii_lower(a) == ascii_lower(b)
}

/// Leading Unicode whitespace removed.
pub open spec fn trim_start(s: Seq<char>) -> Seq<char>
    decreases s.len(),
{
    if s.len() > 0 && is_whitespace(s[0]) {
        trim_start(s.drop_first())
    } else {
        s
    }
}

/// Trailing Unicode whitespace removed.
pub open spec fn trim_end(s: Seq<char>) -> Seq<char>
    decreases s.len(),
{
    if s.len() > 0 && is_whitespace(s.last()) {
        trim_end(s.drop_last())
    } else {
        s
    }
}

/// `str::trim`: leading and trailing Unicode whitespace removed.
pub open spec fn trim(s: Seq<char>) -> Seq<char> {
    trim_end(trim_start(s))
}

pub open spec fn all_whitespace(s: Seq<char>) -> bool {
    forall|i: int| 0 <= i < s.len() ==> is_whitespace(#[trigger] s[i])
}

/// Strict lexicographic order of character sequences.
pub open spec fn seq_lt(a: Seq<char>, b: Seq<char>) -> bool
    decreases a.len(),
{
    if a.len() == 0 {
        b.len() > 0
    } else if b.len() == 0 {
        false
    } else if a[0] != b[0] {
        a[0] < b[0]
    } else {
        seq_lt(a.drop_first(), b.drop_first())
    }
}

pub open spec fn seq_le(a: Seq<char>, b: Seq<char>) -> bool {
    seq_lt(a, b) || a == b
}

pub open spec fn digit_char(d: nat) -> char
    recommends
        d < 10,
{
    ((d + 48) as u32) as char
}

pub open spec fn digit_value(c: char) -> nat {
    ((c as u32) - 48) as nat
}

/// Decimal digits of `n`, most significant first, with no leading zeros.
pub open spec fn decimal(n: nat) -> Seq<char>
    decreases n,
{
    if n < 10 {
        seq![digit_char(n)]
    } else {
        decimal(n / 10).push(digit_char(n % 10))
    }
}

/// `s` left-padded with `'0'` to at least `width` characters, as `{:0width$}` formats.
pub open spec fn zero_pad(s: Seq<char>, width: nat) -> Seq<char> {
    if s.len() >= width {
        s
    } else {
        Seq::new((width - s.len()) as nat, |i: int| '0') + s
    }
}

/// `{n:04}`.
pub open spec fn pad4(n: nat) -> Seq<char> {
    zero_pad(decimal(n), 4)
}

pub open spec fn all_digits(s: Seq<char>) -> bool {
    forall|i: int| 0 <= i < s.len() ==> is_ascii_digit(#[trigger] s[i])
}

/// Value of a string of decimal digits.
pub open spec fn digits_value(s: Seq<char>) -> nat
    decreases s.len(),
{
    if s.len() == 0 {
        0
    } else {
        digits_value(s.drop_last()) * 10 + digit_value(s.last())
    }
}

/// The digits an unsigned integer `FromStr` reads: an optional `+`, then at least one digit.
pub open spec fn unsigned_digits(s: Seq<char>) -> Seq<char> {
    if s.len() > 0 && s[0] == '+' {
        s.drop_first()
    } else {
        s
    }
}

/// Unsigned integer `FromStr` (`u8`, `u16`, `u32`, `u64`) with the type's maximum `max`.
pub open spec fn parse_unsigned(s: Seq<char>, max: nat) -> Option<nat> {
    let d = unsigned_digits(s);
    if d.len() > 0 && all_digits(d) && digits_value(d) <= max {
        Some(digits_value(d))
    } else {
        None
    }
}

/// Unicode lowercase mapping of a string, as `str::to_lowercase` computes it.
pub uninterp spec fn unicode_lowercase(s: Seq<char>) -> Seq<char>;

pub open spec fn all_ascii(s: Seq<char>) -> bool {
    forall|i: int| 0 <= i < s.len() ==> (#[trigger] s[i] as u32) < 128
}

/// `str::to_lowercase`: the Unicode lowercase mapping of `s`. A string of ASCII characters
/// maps character by character to its ASCII lowercase form; what other characters map to is
/// left to the name `unicode_lowercase`.
#[verifier::external_body]
pub fn to_lowercase(s: &str) -> (r: String)
    ensures
        r@ == unicode_lowercase(s@),
        all_ascii(s@) ==> r@ == ascii_lower(s@),
{
    s.to_lowercase()
}

pub open spec fn contains_char(s: Seq<char>, c: char) -> bool {
    exists|i: int| 0 <= i < s.len() && s[i] == c
}

// ---------------------------------------------------------------------------------------
// Lemmas
// ---------------------------------------------------------------------------------------
proof fn lemma_trim_start_skip(s: Seq<char>, k: int)
    requires
        0 <= k <= s.len(),
        forall|i: int| 0 <= i < k ==> is_whitespace(#[trigger] s[i]),
        k == s.len() || !is_whitespace(s[k]),
    ensures
        trim_start(s) == s.subrange(k, s.len() as int),
    decreases k,
{
    if k == 0 {
        assert(s.subrange(0, s.len() as int) =~= s);
    } else {
        let t = s.drop_first();
        assert forall|i: int| 0 <= i < k - 1 implies is_whitespace(#[trigger] t[i]) by {
            assert(t[i] == s[i + 1]);
        }
        lemma_trim_start_skip(t, k - 1);
        assert(t.subrange(k - 1, t.len() as int) =~= s.subrange(k, s.len() as int));
    }
}

proof fn lemma_trim_end_take(s: Seq<char>, k: int)
    requires
        0 <= k <= s.len(),
        forall|i: int| k <= i < s.len() ==> is_whitespace(#[trigger] s[i]),
        k == 0 || !is_whitespace(s[k - 1]),
    ensures
        trim_end(s) == s.subrange(0, k),
    decreases s.len() - k,
{
    if k == s.len() {
        assert(s.subrange(0, k) =~= s);
    } else {
        let t = s.drop_last();
        assert forall|i: int| k <= i < t.len() implies is_whitespace(#[trigger] t[i]) by {
            assert(t[i] == s[i]);
        }
        lemma_trim_end_take(t, k);
        assert(t.subrange(0, k) =~= s.subrange(0, k));
    }
}

pub proof fn lemma_lt_after_common_prefix(a: Seq<char>, b: Seq<char>, i: int)
    requires
        0 <= i <= a.len(),
        i <= b.len(),
        a.subrange(0, i) == b.subrange(0, i),
    ensures
        seq_lt(a, b) == seq_lt(a.subrange(i, a.len() as int), b.subrange(i, b.len() as int)),
    decreases i,
{
    if i == 0 {
        assert(a.subrange(0, a.len() as int) =~= a);
        assert(b.subrange(0, b.len() as int) =~= b);
    } else {
        assert(a[0] == a.subrange(0, i)[0]);
        assert(b[0] == b.subrange(0, i)[0]);
        let a1 = a.drop_first();
        let b1 = b.drop_first();
        assert(a1.subrange(0, i - 1) =~= a.subrange(0, i).drop_first());
        assert(b1.subrange(0, i - 1) =~= b.subrange(0, i).drop_first());
        lemma_lt_after_common_prefix(a1, b1, i - 1);
        assert(a1.subrange(i - 1, a1.len() as int) =~= a.subrange(i, a.len() as int));
        assert(b1.subrange(i - 1, b1.len() as int) =~= b.subrange(i, b.len() as int));
    }
}

pub proof fn lemma_lt_irreflexive(a: Seq<char>)
    ensures
        !seq_lt(a, a),
    decreases a.len(),
{
    if a.len() > 0 {
        lemma_lt_irreflexive(a.drop_first());
    }
}

pub proof fn lemma_lt_asymmetric(a: Seq<char>, b: Seq<char>)
    ensures
        seq_lt(a, b) ==> !seq_lt(b, a),
    decreases a.len(),
{
    if a.len() > 0 && b.len() > 0 && a[0] == b[0] {
        lemma_lt_asymmetric(a.drop_first(), b.drop_first());
    }
}

pub proof fn lemma_lt_total(a: Seq<char>, b: Seq<char>)
    ensures
        seq_lt(a, b) || seq_lt(b, a) || a == b,
    decreases a.len(),
{
    if a.len() > 0 && b.len() > 0 && a[0] == b[0] {
        lemma_lt_total(a.drop_first(), b.drop_first());
        if a.drop_first() == b.drop_first() {
            assert(a =~= seq![a[0]] + a.drop_first());
            assert(b =~= seq![b[0]] + b.drop_first());
        }
    } else if a.len() == 0 && b.len() == 0 {
        assert(a =~= b);
    }
}

pub proof fn lemma_lt_transitive(a: Seq<char>, b: Seq<char>, c: Seq<char>)
    requires
        seq_lt(a, b),
        seq_lt(b, c),
    ensures
        seq_lt(a, c),
    decreases a.len(),
{
    if a.len() > 0 && b.len() > 0 && c.len() > 0 && a[0] == b[0] && b[0] == c[0] {
        lemma_lt_transitive(a.drop_first(), b.drop_first(), c.drop_first());
    }
}

pub proof fn lemma_digits_value_monotone(s: Seq<char>, i: int, j: int)
    requires
        0 <= i <= j <= s.len(),
    ensures
        digits_value(s.subrange(0, i)) <= digits_value(s.subrange(0, j)),
    decreases j - i,
{
    if i < j {
        lemma_digits_value_monotone(s, i, j - 1);
        assert(s.subrange(0, j).drop_last() =~= s.subrange(0, j - 1));
    }
}

pub proof fn lemma_decimal_all_digits(n: nat)
    ensures
        all_digits(decimal(n)),
        decimal(n).len() >= 1,
        digits_value(decimal(n)) == n,
    decreases n,
{
    if n < 10 {
        let s = decimal(n);
        assert(s.drop_last() =~= Seq::<char>::empty());
        assert(digit_value(digit_char(n)) == n);
        assert(digits_value(s) == digits_value(s.drop_last()) * 10 + digit_value(s.last()));
    } else {
        lemma_decimal_all_digits(n / 10);
        let d = decimal(n / 10);
        assert(decimal(n) == d.push(digit_char(n % 10)));
        assert(decimal(n).drop_last() =~= d);
        assert(decimal(n).last() == digit_char(n % 10));
        assert(digit_value(digit_char(n % 10)) == n % 10);
        assert(n == (n / 10) * 10 + n % 10);
        assert(digits_value(decimal(n)) == digits_value(decimal(n).drop_last()) * 10 + digit_value(
            decimal(n).last(),
        ));
        assert forall|i: int| 0 <= i < decimal(n).len() implies is_ascii_digit(
            #[trigger] decimal(n)[i],
        ) by {
            if i < d.len() {
                assert(decimal(n)[i] == d[i]);
            }
        }
    }
}

// ---------------------------------------------------------------------------------------
// Executable primitives
// ---------------------------------------------------------------------------------------
/// The characters of `s`.
pub fn chars_of(s: &str) -> (v: Vec<char>)
    ensures
        v@ == s@,
{
    let n = s.unicode_len();
    let mut v: Vec<char> = Vec::new();
    let mut i: usize = 0;
    while i < n
        invariant
            n == s@.len(),
            i <= n,
            v@ == s@.subrange(0, i as int),
        decreases n - i,
    {
        v.push(s.get_char(i));
        i = i + 1;
    }
    v
}

/// The string whose characters are `v[from..to]`.
pub fn string_of(v: &Vec<char>, from: usize, to: usize) -> (s: String)
    requires
        from <= to <= v.len(),
    ensures
        s@ == v@.subrange(from as int, to as int),
{
    let mut s = String::new();
    let mut i: usize = from;
    while i < to
        invariant
            from <= i <= to <= v.len(),
            s@ == v@.subrange(from as int, i as int),
        decreases to - i,
    {
        s.push(v[i]);
        i = i + 1;
    }
    s
}

/// `s` followed by `t`.
pub fn concat(s: &str, t: &str) -> (r: String)
    ensures
        r@ == s@ + t@,
{
    let mut r = s.to_owned();
    r.append(t);
    r
}

/// Appends the characters `v[from..to]` to `s`.
pub fn push_chars(s: &mut String, v: &Vec<char>, from: usize, to: usize)
    requires
        from <= to <= v.len(),
    ensures
        final(s)@ == old(s)@ + v@.subrange(from as int, to as int),
{
    let ghost s0 = s@;
    let mut i: usize = from;
    while i < to
        invariant
            from <= i <= to <= v.len(),
            s@ == s0 + v@.subrange(from as int, i as int),
        decreases to - i,
    {
        s.push(v[i]);
        i = i + 1;
        assert(v@.subrange(from as int, i as int) =~= v@.subrange(from as int, i - 1).push(
            v@[i - 1],
        ));
    }
}

pub fn is_whitespace_char(c: char) -> (r: bool)
    ensures
        r == is_whitespace(c),
{
    ('\u{9}' <= c && c <= '\u{d}') || c == ' ' || c == '\u{85}' || c == '\u{a0}' || c
        == '\u{1680}' || ('\u{2000}' <= c && c <= '\u{200a}') || c == '\u{2028}' || c
        == '\u{2029}' || c == '\u{202f}' || c == '\u{205f}' || c == '\u{3000}'
}

pub fn is_digit_char(c: char) -> (r: bool)
    ensures
        r == is_ascii_digit(c),
{
    '0' <= c && c <= '9'
}

pub fn is_lower_char(c: char) -> (r: bool)
    ensures
        r == is_ascii_lower(c),
{
    'a' <= c && c <= 'z'
}

pub fn is_upper_char(c: char) -> (r: bool)
    ensures
        r == is_ascii_upper(c),
{
    'A' <= c && c <= 'Z'
}

pub fn to_lower(c: char) -> (r: char)
    ensures
        r == lower_char(c),
{
    if 'A' <= c && c <= 'Z' {
        let b: u8 = c as u8;
        (b + 32) as char
    } else {
        c
    }
}

pub fn to_upper(c: char) -> (r: char)
    ensures
        r == upper_char(c),
{
    if 'a' <= c && c <= 'z' {
        let b: u8 = c as u8;
        (b - 32) as char
    } else {
        c
    }
}

/// The bounds `(start, end)` of `trim(v)` inside `v`.
pub fn trim_bounds(v: &Vec<char>) -> (r: (usize, usize))
    ensures
        r.0 <= r.1 <= v.len(),
        v@.subrange(r.0 as int, r.1 as int) == trim(v@),
{
    let mut start: usize = 0;
    while start < v.len() && is_whitespace_char(v[start])
        invariant
            start <= v.len(),
            forall|i: int| 0 <= i < start ==> is_whitespace(#[trigger] v@[i]),
        decreases v.len() - start,
    {
        start = start + 1;
    }
    proof {
        lemma_trim_start_skip(v@, start as int);
    }
    let ghost t = v@.subrange(start as int, v.len() as int);
    let mut end: usize = v.len();
    while end > start && is_whitespace_char(v[end - 1])
        invariant
            start <= end <= v.len(),
            t == v@.subrange(start as int, v.len() as int),
            forall|i: int| end - start <= i < t.len() ==> is_whitespace(#[trigger] t[i]),
        decreases end,
    {
        end = end - 1;
    }
    proof {
        lemma_trim_end_take(t, end - start);
        assert(t.subrange(0, end - start) =~= v@.subrange(start as int, end as int));
    }
    (start, end)
}

/// The length of `trim_end(v)`, a prefix of `v`.
pub fn trim_end_len(v: &Vec<char>) -> (r: usize)
    ensures
        r <= v.len(),
        v@.subrange(0, r as int) == trim_end(v@),
{
    let mut end: usize = v.len();
    while end > 0 && is_whitespace_char(v[end - 1])
        invariant
            end <= v.len(),
            forall|i: int| end <= i < v.len() ==> is_whitespace(#[trigger] v@[i]),
        decreases end,
    {
        end = end - 1;
    }
    proof {
        lemma_trim_end_take(v@, end as int);
    }
    end
}

/// `trim(v)` as characters.
pub fn trimmed(v: &Vec<char>) -> (r: Vec<char>)
    ensures
        r@ == trim(v@),
{
    let (a, b) = trim_bounds(v);
    slice_chars(v, a, b)
}

/// The characters `v[from..to]`.
pub fn slice_chars(v: &Vec<char>, from: usize, to: usize) -> (r: Vec<char>)
    requires
        from <= to <= v.len(),
    ensures
        r@ == v@.subrange(from as int, to as int),
{
    let mut r: Vec<char> = Vec::new();
    let mut i: usize = from;
    while i < to
        invariant
            from <= i <= to <= v.len(),
            r@ == v@.subrange(from as int, i as int),
        decreases to - i,
    {
        r.push(v[i]);
        i = i + 1;
    }
    r
}

/// `ascii_lower(v)`.
pub fn lower_all(v: &Vec<char>) -> (r: Vec<char>)
    ensures
        r@ == ascii_lower(v@),
{
    let mut r: Vec<char> = Vec::new();
    let mut i: usize = 0;
    while i < v.len()
        invariant
            i <= v.len(),
            r@ == ascii_lower(v@.subrange(0, i as int)),
        decreases v.len() - i,
    {
        r.push(to_lower(v[i]));
        i = i + 1;
        assert(ascii_lower(v@.subrange(0, i as int)) =~= ascii_lower(v@.subrange(0, i - 1)).push(
            lower_char(v@[i - 1]),
        ));
    }
    assert(v@.subrange(0, v.len() as int) =~= v@);
    r
}

/// `ascii_upper(v)`.
pub fn upper_all(v: &Vec<char>) -> (r: Vec<char>)
    ensures
        r@ == ascii_upper(v@),
{
    let mut r: Vec<char> = Vec::new();
    let mut i: usize = 0;
    while i < v.len()
        invariant
            i <= v.len(),
            r@ == ascii_upper(v@.subrange(0, i as int)),
        decreases v.len() - i,
    {
        r.push(to_upper(v[i]));
        i = i + 1;
        assert(ascii_upper(v@.subrange(0, i as int)) =~= ascii_upper(v@.subrange(0, i - 1)).push(
            upper_char(v@[i - 1]),
        ));
    }
    assert(v@.subrange(0, v.len() as int) =~= v@);
    r
}

/// Character-wise equality.
pub fn chars_eq(a: &Vec<char>, b: &Vec<char>) -> (r: bool)
    ensures
        r == (a@ == b@),
{
    if a.len() != b.len() {
        return false;
    }
    let mut i: usize = 0;
    while i < a.len()
        invariant
            a.len() == b.len(),
            i <= a.len(),
            forall|j: int| 0 <= j < i ==> a@[j] == b@[j],
        decreases a.len() - i,
    {
        if a[i] != b[i] {
            return false;
        }
        i = i + 1;
    }
    assert(a@ =~= b@);
    true
}

/// `str::eq_ignore_ascii_case` on characters.
pub fn chars_eq_ignore_case(a: &Vec<char>, b: &Vec<char>) -> (r: bool)
    ensures
        r == eq_ignore_case(a@, b@),
{
    let la = lower_all(a);
    let lb = lower_all(b);
    chars_eq(&la, &lb)
}

/// Equality of two strings.
pub fn str_eq(a: &str, b: &str) -> (r: bool)
    ensures
        r == (a@ == b@),
{
    let va = chars_of(a);
    let vb = chars_of(b);
    chars_eq(&va, &vb)
}

/// `str::eq_ignore_ascii_case`.
pub fn str_eq_ignore_case(a: &str, b: &str) -> (r: bool)
    ensures
        r == eq_ignore_case(a@, b@),
{
    let va = chars_of(a);
    let vb = chars_of(b);
    chars_eq_ignore_case(&va, &vb)
}

/// Three-way lexicographic comparison: negative, zero or positive.
pub fn compare_chars(a: &Vec<char>, b: &Vec<char>) -> (r: i8)
    ensures
        r < 0 <==> seq_lt(a@, b@),
        r == 0 <==> a@ == b@,
        r > 0 <==> seq_lt(b@, a@),
{
    let mut i: usize = 0;
    while i < a.len() && i < b.len() && a[i] == b[i]
        invariant
            i <= a.len(),
            i <= b.len(),
            a@.subrange(0, i as int) == b@.subrange(0, i as int),
        decreases a.len() - i,
    {
        assert(a@.subrange(0, i + 1) =~= a@.subrange(0, i as int).push(a@[i as int]));
        assert(b@.subrange(0, i + 1) =~= b@.subrange(0, i as int).push(b@[i as int]));
        i = i + 1;
    }
    proof {
        lemma_lt_after_common_prefix(a@, b@, i as int);
        lemma_lt_after_common_prefix(b@, a@, i as int);
        let ra = a@.subrange(i as int, a.len() as int);
        let rb = b@.subrange(i as int, b.len() as int);
        if i < a.len() && i < b.len() {
            assert(ra[0] == a@[i as int]);
            assert(rb[0] == b@[i as int]);
        }
        lemma_lt_irreflexive(a@);
        lemma_lt_asymmetric(a@, b@);
        lemma_lt_asymmetric(b@, a@);
        if i == a.len() && i == b.len() {
            assert(a@ =~= a@.subrange(0, i as int));
            assert(b@ =~= b@.subrange(0, i as int));
        }
        if a@ == b@ {
            assert(i == a.len());
        }
    }
    if i == a.len() && i == b.len() {
        0
    } else if i == a.len() {
        -1
    } else if i == b.len() {
        1
    } else if a[i] < b[i] {
        -1
    } else {
        1
    }
}

/// Decimal digits of `n`.
pub fn decimal_chars(n: u64) -> (r: Vec<char>)
    ensures
        r@ == decimal(n as nat),
    decreases n,
{
    let d: u8 = (n % 10) as u8;
    let c: char = (d + 48) as char;
    proof {
        assert(c == digit_char((n % 10) as nat));
    }
    if n < 10 {
        let mut r: Vec<char> = Vec::new();
        r.push(c);
        assert(r@ =~= seq![digit_char(n as nat)]);
        r
    } else {
        let mut r = decimal_chars(n / 10);
        r.push(c);
        r
    }
}

/// `{n:04}`.
pub fn pad4_chars(n: u64) -> (r: Vec<char>)
    ensures
        r@ == pad4(n as nat),
{
    let d = decimal_chars(n);
    if d.len() >= 4 {
        return d;
    }
    let mut r: Vec<char> = Vec::new();
    let k: usize = 4 - d.len();
    let mut i: usize = 0;
    while i < k
        invariant
            i <= k,
            k == 4 - d.len(),
            r@ == Seq::new(i as nat, |j: int| '0'),
        decreases k - i,
    {
        r.push('0');
        i = i + 1;
        assert(r@ =~= Seq::new(i as nat, |j: int| '0'));
    }
    let mut j: usize = 0;
    while j < d.len()
        invariant
            j <= d.len(),
            r@ == Seq::new(k as nat, |x: int| '0') + d@.subrange(0, j as int),
        decreases d.len() - j,
    {
        r.push(d[j]);
        j = j + 1;
        assert(r@ =~= Seq::new(k as nat, |x: int| '0') + d@.subrange(0, j as int));
    }
    assert(d@.subrange(0, d.len() as int) =~= d@);
    r
}

/// Unsigned integer `FromStr` with maximum `max`.
pub fn parse_unsigned_chars(v: &Vec<char>, max: u64) -> (r: Option<u64>)
    requires
        max >= 9,
    ensures
        r matches Some(x) ==> parse_unsigned(v@, max as nat) == Some(x as nat),
        r is None ==> parse_unsigned(v@, max as nat) is None,
{
    let start: usize = if v.len() > 0 && v[0] == '+' {
        1
    } else {
        0
    };
    let ghost d = unsigned_digits(v@);
    assert(d =~= v@.subrange(start as int, v.len() as int));
    if start == v.len() {
        return None;
    }
    let mut value: u64 = 0;
    let mut i: usize = start;
    while i < v.len()
        invariant
            start <= i <= v.len(),
            d == unsigned_digits(v@),
            d == v@.subrange(start as int, v.len() as int),
            all_digits(d.subrange(0, i - start)),
            value == digits_value(d.subrange(0, i - start)),
            value <= max,
            max >= 9,
        decreases v.len() - i,
    {
        let c = v[i];
        if !is_digit_char(c) {
            assert(d[i - start] == c);
            assert(!all_digits(d));
            return None;
        }
        let digit: u64 = ((c as u32) - 48) as u64;
        assert(d.subrange(0, i + 1 - start).drop_last() =~= d.subrange(0, i - start));
        assert(d.subrange(0, i + 1 - start).last() == c);
        if value > (max - digit) / 10 {
            proof {
                assert(digits_value(d.subrange(0, i + 1 - start)) == value * 10 + digit);
                assert(value * 10 + digit > max) by (nonlinear_arith)
                    requires
                        value > (max - digit) / 10,
                        digit <= 9,
                        digit <= max,
                ;
                lemma_digits_value_monotone(d, i + 1 - start, d.len() as int);
                assert(d.subrange(0, d.len() as int) =~= d);
            }
            return None;
        }
        assert(value * 10 + digit <= max) by (nonlinear_arith)
            requires
                value <= (max - digit) / 10,
                digit <= max,
        ;
        value = value * 10 + digit;
        i = i + 1;
        assert forall|j: int| 0 <= j < i - start implies is_ascii_digit(
            #[trigger] d.subrange(0, i - start)[j],
        ) by {
            if j < i - 1 - start {
                assert(d.subrange(0, i - start)[j] == d.subrange(0, i - 1 - start)[j]);
            }
        }
    }
    assert(d.subrange(0, d.len() as int) =~= d);
    Some(value)
}


// ---------------------------------------------------------------------------------------
// Splitting
// ---------------------------------------------------------------------------------------
/// `str::split(sep)`: the pieces between separators, empty pieces included.
pub open spec fn split_on(s: Seq<char>, sep: char) -> Seq<Seq<char>>
    decreases s.len(),
{
    if s.len() == 0 {
        seq![Seq::empty()]
    } else {
        let previous = split_on(s.drop_last(), sep);
        if s.last() == sep {
            previous.push(Seq::empty())
        } else {
            previous.update(previous.len() - 1, previous.last().push(s.last()))
        }
    }
}

pub open spec fn trim_piece() -> spec_fn(Seq<char>) -> Seq<char> {
    |p: Seq<char>| trim(p)
}

pub open spec fn non_empty() -> spec_fn(Seq<char>) -> bool {
    |p: Seq<char>| p.len() > 0
}

/// The trimmed, non-empty pieces of `s` split at `sep`.
pub open spec fn nonblank_pieces(s: Seq<char>, sep: char) -> Seq<Seq<char>> {
    split_on(s, sep).map_values(trim_piece()).filter(non_empty())
}

pub open spec fn string_views(v: Seq<String>) -> Seq<Seq<char>> {
    v.map_values(|x: String| x@)
}

proof fn lemma_split_on_nonempty(s: Seq<char>, sep: char)
    ensures
        split_on(s, sep).len() >= 1,
    decreases s.len(),
{
    if s.len() > 0 {
        lemma_split_on_nonempty(s.drop_last(), sep);
    }
}

fn push_trimmed_piece(out: &mut Vec<String>, piece: &Vec<char>)
    ensures
        string_views(final(out)@) == string_views(old(out)@) + seq![trim(piece@)].filter(
            non_empty(),
        ),
{
    let t = trimmed(piece);
    if t.len() > 0 {
        let s = string_of(&t, 0, t.len());
        proof {
            assert(t@.subrange(0, t.len() as int) =~= t@);
        }
        out.push(s);
        proof {
            reveal_with_fuel(Seq::filter, 2);
            assert(seq![trim(piece@)].filter(non_empty()) =~= seq![trim(piece@)]);
            assert(string_views(out@) =~= string_views(old(out)@) + seq![trim(piece@)]);
        }
    } else {
        proof {
            reveal_with_fuel(Seq::filter, 2);
            assert(seq![trim(piece@)].filter(non_empty()) =~= Seq::<Seq<char>>::empty());
            assert(string_views(out@) =~= string_views(old(out)@) + Seq::<Seq<char>>::empty());
        }
    }
}

/// Appends the trimmed, non-empty pieces of `s` split at `sep` to `out`.
pub fn push_nonblank_pieces(out: &mut Vec<String>, s: &str, sep: char)
    ensures
        string_views(final(out)@) == string_views(old(out)@) + nonblank_pieces(s@, sep),
{
    let v = chars_of(s);
    let ghost start = string_views(out@);
    let mut current: Vec<char> = Vec::new();
    let mut i: usize = 0;
    while i < v.len()
        invariant
            i <= v.len(),
            v@ == s@,
            split_on(v@.take(i as int), sep).len() >= 1,
            current@ == split_on(v@.take(i as int), sep).last(),
            string_views(out@) == start + split_on(v@.take(i as int), sep).drop_last().map_values(
                trim_piece(),
            ).filter(non_empty()),
        decreases v.len() - i,
    {
        let c = v[i];
        let ghost before = split_on(v@.take(i as int), sep);
        proof {
            assert(v@.take(i + 1).drop_last() =~= v@.take(i as int));
            assert(v@.take(i + 1).last() == c);
        }
        if c == sep {
            let ghost old_out = string_views(out@);
            push_trimmed_piece(out, &current);
            proof {
                let after = split_on(v@.take(i + 1), sep);
                assert(after == before.push(Seq::empty()));
                assert(after.drop_last() =~= before);
                assert(before =~= before.drop_last().push(before.last()));
                assert(before.map_values(trim_piece()) =~= before.drop_last().map_values(
                    trim_piece(),
                ).push(trim(before.last())));
                before.drop_last().map_values(trim_piece()).lemma_filter_push(
                    trim(before.last()),
                    non_empty(),
                );
                reveal_with_fuel(Seq::filter, 2);
                if trim(before.last()).len() > 0 {
                    assert(seq![trim(before.last())].filter(non_empty()) =~= seq![
                        trim(before.last()),
                    ]);
                } else {
                    assert(seq![trim(before.last())].filter(non_empty()) =~= Seq::<
                        Seq<char>,
                    >::empty());
                }
                assert(string_views(out@) =~= start + after.drop_last().map_values(
                    trim_piece(),
                ).filter(non_empty()));
            }
            current = Vec::new();
            proof {
                assert(current@ =~= split_on(v@.take(i + 1), sep).last());
            }
        } else {
            current.push(c);
            proof {
                let after = split_on(v@.take(i + 1), sep);
                assert(after == before.update(before.len() - 1, before.last().push(c)));
                assert(after.drop_last() =~= before.drop_last());
            }
        }
        i = i + 1;
    }
    let ghost all = split_on(v@, sep);
    proof {
        assert(v@.take(v.len() as int) =~= v@);
    }
    let ghost old_out = string_views(out@);
    push_trimmed_piece(out, &current);
    proof {
        assert(all =~= all.drop_last().push(all.last()));
        assert(all.map_values(trim_piece()) =~= all.drop_last().map_values(trim_piece()).push(
            trim(all.last()),
        ));
        all.drop_last().map_values(trim_piece()).lemma_filter_push(trim(all.last()), non_empty());
        reveal_with_fuel(Seq::filter, 2);
        if trim(all.last()).len() > 0 {
            assert(seq![trim(all.last())].filter(non_empty()) =~= seq![trim(all.last())]);
        } else {
            assert(seq![trim(all.last())].filter(non_empty()) =~= Seq::<Seq<char>>::empty());
        }
        assert(string_views(out@) =~= start + nonblank_pieces(s@, sep));
    }
}

/// `s` with every repeated element dropped after its first occurrence.
pub open spec fn dedup_first<A>(s: Seq<A>) -> Seq<A>
    decreases s.len(),
{
    if s.len() == 0 {
        seq![]
    } else {
        let d = dedup_first(s.drop_last());
        if d.contains(s.last()) {
            d
        } else {
            d.push(s.last())
        }
    }
}

/// The parts joined by `sep`, as `[String]::join` does.
pub open spec fn join_with(parts: Seq<Seq<char>>, sep: Seq<char>) -> Seq<char>
    decreases parts.len(),
{
    if parts.len() == 0 {
        seq![]
    } else if parts.len() == 1 {
        parts[0]
    } else {
        join_with(parts.drop_last(), sep) + sep + parts.last()
    }
}

/// First occurrences keep their order, repeats are gone, and nothing else is lost.
pub proof fn lemma_dedup_first<A>(s: Seq<A>)
    ensures
        dedup_first(s).no_duplicates(),
        forall|x: A| dedup_first(s).contains(x) <==> s.contains(x),
    decreases s.len(),
{
    if s.len() > 0 {
        lemma_dedup_first(s.drop_last());
        let d = dedup_first(s.drop_last());
        assert forall|x: A| dedup_first(s).contains(x) <==> s.contains(x) by {
            if s.contains(x) && x != s.last() {
                let k = choose|k: int| 0 <= k < s.len() && s[k] == x;
                assert(s.drop_last()[k] == x);
            }
            if s.drop_last().contains(x) {
                let k = choose|k: int| 0 <= k < s.drop_last().len() && s.drop_last()[k] == x;
                assert(s[k] == x);
            }
            if !d.contains(s.last()) && x == s.last() {
                assert(d.push(s.last())[d.len() as int] == x);
            }
            if !d.contains(s.last()) && d.push(s.last()).contains(x) && x != s.last() {
                let k = choose|k: int| 0 <= k < d.push(s.last()).len() && d.push(s.last())[k] == x;
                assert(d[k] == x);
            }
            if d.contains(x) && !d.contains(s.last()) {
                let k = choose|k: int| 0 <= k < d.len() && d[k] == x;
                assert(d.push(s.last())[k] == x);
            }
            if x == s.last() {
                assert(s[s.len() - 1] == x);
            }
        }
        if !d.contains(s.last()) {
            let e = d.push(s.last());
            assert forall|i: int, j: int| 0 <= i < e.len() && 0 <= j < e.len() && i != j implies e[i]
                != e[j] by {
                if i < d.len() && j < d.len() {
                } else if i == d.len() {
                    assert(d[j] == e[j]);
                } else {
                    assert(d[i] == e[i]);
                }
            }
        }
    }
}

/// `string_views(v)` deduplicated, first occurrences first.
pub fn dedup_strings(v: &Vec<String>) -> (r: Vec<String>)
    ensures
        string_views(r@) == dedup_first(string_views(v@)),
{
    let mut r: Vec<String> = Vec::new();
    let mut i: usize = 0;
    while i < v.len()
        invariant
            i <= v.len(),
            string_views(r@) == dedup_first(string_views(v@.take(i as int))),
        decreases v.len() - i,
    {
        let mut seen = false;
        let mut j: usize = 0;
        while j < r.len()
            invariant
                i < v.len(),
                j <= r.len(),
                seen == exists|k: int| 0 <= k < j && r@[k]@ == v@[i as int]@,
            decreases r.len() - j,
        {
            if str_eq(r[j].as_str(), v[i].as_str()) {
                seen = true;
            }
            j = j + 1;
        }
        proof {
            let prev = string_views(v@.take(i as int));
            assert(string_views(v@.take(i + 1)) =~= prev.push(v@[i as int]@));
            assert(string_views(v@.take(i + 1)).drop_last() =~= prev);
            let d = string_views(r@);
            if seen {
                let k = choose|k: int| 0 <= k < r.len() && r@[k]@ == v@[i as int]@;
                assert(d[k] == v@[i as int]@);
            } else {
                assert forall|k: int| 0 <= k < d.len() implies d[k] != v@[i as int]@ by {
                    assert(d[k] == r@[k]@);
                }
            }
        }
        if !seen {
            r.push(v[i].clone());
            proof {
                assert(string_views(r@) =~= string_views(r@).drop_last().push(v@[i as int]@));
            }
        }
        i = i + 1;
    }
    assert(v@.take(v.len() as int) =~= v@);
    r
}

/// The parts joined by `sep`.
pub fn join(parts: &Vec<String>, sep: &str) -> (r: String)
    ensures
        r@ == join_with(string_views(parts@), sep@),
{
    let mut r = String::new();
    let mut i: usize = 0;
    while i < parts.len()
        invariant
            i <= parts.len(),
            r@ == join_with(string_views(parts@.take(i as int)), sep@),
        decreases parts.len() - i,
    {
        proof {
            assert(string_views(parts@.take(i + 1)).drop_last() =~= string_views(
                parts@.take(i as int),
            ));
            assert(string_views(parts@.take(i + 1)).last() == parts@[i as int]@);
        }
        if i == 0 {
            r = parts[0].clone();
            proof {
                assert(string_views(parts@.take(1))[0] == parts@[0]@);
            }
        } else {
            let with_sep = concat(r.as_str(), sep);
            r = concat(with_sep.as_str(), parts[i].as_str());
        }
        i = i + 1;
    }
    assert(parts@.take(parts.len() as int) =~= parts@);
    r
}

/// Whether `r` is what `e` displays as.
pub open spec fn displays<E: std::fmt::Display>(e: &E, r: Seq<char>) -> bool {
    exists|m: String| #[trigger] vstd::string::to_string_from_display_ensures::<E>(e, m) && r == m@
}

/// What `e` displays as.
pub fn display_text<E: std::fmt::Display>(e: &E) -> (r: String)
    ensures
        displays(e, r@),
{
    e.to_string()
}

/// What std's `Debug` prints for a string: the text in double quotes, with its escapes.
pub uninterp spec fn debug_quoted_of(s: Seq<char>) -> Seq<char>;

/// Formats `s` with std's `Debug` for `str` (`{:?}`); the result depends on `s` alone.
#[verifier::external_body]
pub(crate) fn debug_quoted(s: &str) -> (r: String)
    ensures
        r@ == debug_quoted_of(s@),
{
    format!("{s:?}")
}

proof fn lemma_trim_start_shape(s: Seq<char>)
    ensures
        exists|k: int| 0 <= k <= s.len() && trim_start(s) == s.skip(k),
        trim_start(s).len() == 0 || !is_whitespace(trim_start(s)[0]),
    decreases s.len(),
{
    if s.len() > 0 && is_whitespace(s[0]) {
        lemma_trim_start_shape(s.drop_first());
        let k = choose|k: int| 0 <= k <= s.drop_first().len() && trim_start(s.drop_first())
            == s.drop_first().skip(k);
        assert(s.drop_first().skip(k) =~= s.skip(k + 1));
    } else {
        assert(s.skip(0) =~= s);
    }
}

proof fn lemma_trim_end_shape(s: Seq<char>)
    ensures
        exists|k: int| 0 <= k <= s.len() && trim_end(s) == s.take(k),
        trim_end(s).len() == 0 || !is_whitespace(trim_end(s).last()),
    decreases s.len(),
{
    if s.len() > 0 && is_whitespace(s.last()) {
        lemma_trim_end_shape(s.drop_last());
        let k = choose|k: int| 0 <= k <= s.drop_last().len() && trim_end(s.drop_last())
            == s.drop_last().take(k);
        assert(s.drop_last().take(k) =~= s.take(k));
    } else {
        assert(s.take(s.len() as int) =~= s);
    }
}

/// Trimming twice is trimming once.
pub proof fn lemma_trim_idempotent(s: Seq<char>)
    ensures
        trim(trim(s)) == trim(s),
{
    let r = trim_start(s);
    lemma_trim_start_shape(s);
    lemma_trim_end_shape(r);
    let e = trim_end(r);
    let k = choose|k: int| 0 <= k <= r.len() && e == r.take(k);
    if e.len() > 0 {
        assert(e[0] == r[0]);
        assert(trim_start(e) == e);
        assert(trim_end(e) == e);
    } else {
        assert(trim_start(e) == e);
        assert(trim_end(e) == e);
    }
}

} // verus!
