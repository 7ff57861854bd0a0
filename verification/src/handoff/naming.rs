//! File names and titles derived from handoff titles and dated file names.
use vstd::prelude::*;

use crate::text::{
    chars_of, concat, is_ascii_digit, is_ascii_lower, string_of, to_lowercase, trim, trimmed,
    unicode_lowercase,
};

verus! {

/// A character kept in a slug: an ASCII lowercase letter or digit.
pub open spec fn is_slug_char(c: char) -> bool {
    is_ascii_lower(c) || is_ascii_digit(c)
}

/// Runs of kept characters joined by one `joiner`, with every other character acting as a
/// separator: the joined runs, and whether a separator is pending after them.
pub open spec fn squeeze(s: Seq<char>, keep: spec_fn(char) -> bool, joiner: char) -> (
    Seq<char>,
    bool,
)
    decreases s.len(),
{
    if s.len() == 0 {
        (seq![], false)
    } else {
        let (r, pending) = squeeze(s.drop_last(), keep, joiner);
        let c = s.last();
        if keep(c) {
            if pending && r.len() > 0 {
                (r.push(joiner).push(c), false)
            } else {
                (r.push(c), false)
            }
        } else {
            (r, true)
        }
    }
}

pub open spec fn slug_keep() -> spec_fn(char) -> bool {
    |c: char| is_slug_char(c)
}

/// The slug of a title: the trimmed, lowercased title's runs of ASCII lowercase letters and
/// digits joined by `-`, or `handoff` when there are none.
pub open spec fn slug_of(value: Seq<char>) -> Seq<char> {
    let r = squeeze(unicode_lowercase(trim(value)), slug_keep(), '-').0;
    if r.len() == 0 {
        "handoff"@
    } else {
        r
    }
}

/// A slug as the file-name policy allows it: non-empty, made of ASCII lowercase letters,
/// digits and single inner `-` separators.
pub open spec fn is_slug(s: Seq<char>) -> bool {
    &&& s.len() > 0
    &&& forall|i: int| 0 <= i < s.len() ==> is_slug_char(#[trigger] s[i]) || s[i] == '-'
    &&& s[0] != '-'
    &&& s.last() != '-'
    &&& forall|i: int| 0 <= i < s.len() - 1 && #[trigger] s[i] == '-' ==> s[i + 1] != '-'
}

/// The handoff file name for a creation date and a title or slug.
pub open spec fn file_name_of(created: Seq<char>, title_or_slug: Seq<char>) -> Seq<char> {
    created + "-"@ + slug_of(title_or_slug) + ".md"@
}

/// Whether `s` starts with a `YYYY-MM-DD-` date prefix.
pub open spec fn has_date_prefix(s: Seq<char>) -> bool {
    &&& s.len() >= 11
    &&& is_ascii_digit(s[0]) && is_ascii_digit(s[1]) && is_ascii_digit(s[2]) && is_ascii_digit(
        s[3],
    )
    &&& s[4] == '-'
    &&& is_ascii_digit(s[5]) && is_ascii_digit(s[6])
    &&& s[7] == '-'
    &&& is_ascii_digit(s[8]) && is_ascii_digit(s[9])
    &&& s[10] == '-'
}

/// `s` without a leading `YYYY-MM-DD-` date prefix.
pub open spec fn without_date_prefix(s: Seq<char>) -> Seq<char> {
    if has_date_prefix(s) {
        s.skip(11)
    } else {
        s
    }
}

/// `s` without a trailing `.md`.
pub open spec fn without_md(s: Seq<char>) -> Seq<char> {
    if s.len() >= 3 && s.skip(s.len() - 3) == ".md"@ {
        s.take(s.len() - 3)
    } else {
        s
    }
}

pub open spec fn is_word_char(c: char) -> bool {
    c != '-' && c != '_'
}

pub open spec fn word_keep() -> spec_fn(char) -> bool {
    |c: char| is_word_char(c)
}

/// The title of the item that continues a handoff file: `continue` and the words of its
/// undated stem, split at `-` and `_`, or `continue handoff` when there are none.
pub open spec fn continuation_title_of(file_name: Seq<char>) -> Seq<char> {
    let words = squeeze(without_date_prefix(without_md(file_name)), word_keep(), ' ').0;
    if words.len() == 0 {
        "continue handoff"@
    } else {
        "continue "@ + words
    }
}

// ---------------------------------------------------------------------------------------
proof fn lemma_squeeze_shape(s: Seq<char>, keep: spec_fn(char) -> bool, joiner: char)
    requires
        !keep(joiner),
    ensures
        ({
            let r = squeeze(s, keep, joiner).0;
            &&& forall|i: int| 0 <= i < r.len() ==> keep(#[trigger] r[i]) || r[i] == joiner
            &&& r.len() > 0 ==> keep(r[0]) && keep(r.last())
            &&& forall|i: int| 0 <= i < r.len() - 1 && #[trigger] r[i] == joiner ==> keep(r[i + 1])
        }),
    decreases s.len(),
{
    if s.len() > 0 {
        lemma_squeeze_shape(s.drop_last(), keep, joiner);
        let (r0, pending) = squeeze(s.drop_last(), keep, joiner);
        let r = squeeze(s, keep, joiner).0;
        let c = s.last();
        if keep(c) {
            if pending && r0.len() > 0 {
                assert(r == r0.push(joiner).push(c));
                assert forall|i: int| 0 <= i < r.len() - 1 && #[trigger] r[i] == joiner implies keep(
                    r[i + 1],
                ) by {
                    if i < r0.len() - 1 {
                        assert(r[i] == r0[i]);
                        assert(r[i + 1] == r0[i + 1]);
                    }
                }
                assert forall|i: int| 0 <= i < r.len() implies keep(#[trigger] r[i]) || r[i]
                    == joiner by {
                    if i < r0.len() {
                        assert(r[i] == r0[i]);
                    }
                }
            } else {
                assert(r == r0.push(c));
                assert forall|i: int| 0 <= i < r.len() - 1 && #[trigger] r[i] == joiner implies keep(
                    r[i + 1],
                ) by {
                    if i < r0.len() - 1 {
                        assert(r[i] == r0[i]);
                        assert(r[i + 1] == r0[i + 1]);
                    } else {
                        assert(r[i] == r0.last());
                    }
                }
                assert forall|i: int| 0 <= i < r.len() implies keep(#[trigger] r[i]) || r[i]
                    == joiner by {
                    if i < r0.len() {
                        assert(r[i] == r0[i]);
                    }
                }
            }
        }
    }
}

/// Every slug satisfies the file-name policy.
pub proof fn lemma_slug_is_slug(value: Seq<char>)
    ensures
        is_slug(slug_of(value)),
{
    let s = unicode_lowercase(trim(value));
    lemma_squeeze_shape(s, slug_keep(), '-');
    let r = squeeze(s, slug_keep(), '-').0;
    if r.len() == 0 {
        let h = "handoff"@;
        reveal_strlit("handoff");
        assert(h.len() == 7);
        assert forall|i: int| 0 <= i < h.len() implies is_slug_char(#[trigger] h[i]) || h[i]
            == '-' by {}
    } else {
        assert forall|i: int| 0 <= i < r.len() implies is_slug_char(#[trigger] r[i]) || r[i]
            == '-' by {
            assert(slug_keep()(r[i]) || r[i] == '-');
        }
        assert(slug_keep()(r[0]));
        assert(slug_keep()(r.last()));
        assert forall|i: int| 0 <= i < r.len() - 1 && #[trigger] r[i] == '-' implies r[i + 1]
            != '-' by {
            assert(slug_keep()(r[i + 1]));
        }
    }
}

// ---------------------------------------------------------------------------------------
fn squeeze_slug(v: &Vec<char>) -> (r: String)
    ensures
        r@ == squeeze(v@, slug_keep(), '-').0,
{
    let mut result = String::new();
    let mut separator_pending = false;
    let mut i: usize = 0;
    while i < v.len()
        invariant
            i <= v.len(),
            (result@, separator_pending) == squeeze(v@.take(i as int), slug_keep(), '-'),
        decreases v.len() - i,
    {
        let c = v[i];
        assert(v@.take(i + 1).drop_last() =~= v@.take(i as int));
        let empty = result.unicode_len() == 0;
        if crate::text::is_lower_char(c) || crate::text::is_digit_char(c) {
            if separator_pending && !empty {
                result.push('-');
            }
            result.push(c);
            separator_pending = false;
        } else {
            separator_pending = true;
        }
        i = i + 1;
    }
    assert(v@.take(v.len() as int) =~= v@);
    result
}

fn squeeze_words(v: &Vec<char>, from: usize, to: usize) -> (r: String)
    requires
        from <= to <= v.len(),
    ensures
        r@ == squeeze(v@.subrange(from as int, to as int), word_keep(), ' ').0,
{
    let mut result = String::new();
    let mut pending = false;
    let mut i: usize = from;
    while i < to
        invariant
            from <= i <= to <= v.len(),
            (result@, pending) == squeeze(v@.subrange(from as int, i as int), word_keep(), ' '),
        decreases to - i,
    {
        let c = v[i];
        assert(v@.subrange(from as int, i + 1).drop_last() =~= v@.subrange(from as int, i as int));
        let empty = result.unicode_len() == 0;
        if c != '-' && c != '_' {
            if pending && !empty {
                result.push(' ');
            }
            result.push(c);
            pending = false;
        } else {
            pending = true;
        }
        i = i + 1;
    }
    result
}

/// The slug of a title or caller-selected slug; see [`slug_of`].
pub fn slug(value: &str) -> (r: String)
    ensures
        r@ == slug_of(value@),
        is_slug(r@),
{
    let v = chars_of(value);
    let t = trimmed(&v);
    let ts = string_of(&t, 0, t.len());
    proof {
        assert(t@.subrange(0, t.len() as int) =~= t@);
        lemma_slug_is_slug(value@);
    }
    let lowered = to_lowercase(ts.as_str());
    let lv = chars_of(lowered.as_str());
    let result = squeeze_slug(&lv);
    if result.unicode_len() == 0 {
        "handoff".to_string()
    } else {
        result
    }
}

/// Whether the characters start with a `YYYY-MM-DD-` date prefix.
fn date_prefix_chars(v: &Vec<char>) -> (r: bool)
    ensures
        r == has_date_prefix(v@),
{
    v.len() >= 11 && crate::text::is_digit_char(v[0]) && crate::text::is_digit_char(v[1])
        && crate::text::is_digit_char(v[2]) && crate::text::is_digit_char(v[3]) && v[4] == '-'
        && crate::text::is_digit_char(v[5]) && crate::text::is_digit_char(v[6]) && v[7] == '-'
        && crate::text::is_digit_char(v[8]) && crate::text::is_digit_char(v[9]) && v[10] == '-'
}

/// `value` without a leading `YYYY-MM-DD-` date prefix.
pub fn strip_date_prefix(value: &str) -> (r: String)
    ensures
        r@ == without_date_prefix(value@),
{
    let v = chars_of(value);
    if date_prefix_chars(&v) {
        string_of(&v, 11, v.len())
    } else {
        string_of(&v, 0, v.len())
    }
}

/// The title of the item that continues the handoff in `file_name`.
pub fn continuation_title(file_name: &str) -> (r: String)
    ensures
        r@ == continuation_title_of(file_name@),
{
    let v = chars_of(file_name);
    let n = v.len();
    let stem_end: usize = if n >= 3 && v[n - 3] == '.' && v[n - 2] == 'm' && v[n - 1] == 'd' {
        n - 3
    } else {
        n
    };
    proof {
        let s = file_name@;
        reveal_strlit(".md");
        if n >= 3 {
            assert(s.skip(n - 3) == ".md"@ <==> (v@[n - 3] == '.' && v@[n - 2] == 'm' && v@[n - 1]
                == 'd')) by {
                if s.skip(n - 3) == ".md"@ {
                    assert(s.skip(n - 3)[0] == '.');
                    assert(s.skip(n - 3)[1] == 'm');
                    assert(s.skip(n - 3)[2] == 'd');
                }
                if v@[n - 3] == '.' && v@[n - 2] == 'm' && v@[n - 1] == 'd' {
                    assert(s.skip(n - 3) =~= ".md"@);
                }
            }
        }
        assert(without_md(s) =~= v@.subrange(0, stem_end as int));
    }
    let stem = slice_prefix(&v, stem_end);
    let start: usize = if date_prefix_chars(&stem) {
        11
    } else {
        0
    };
    assert(without_date_prefix(stem@) =~= stem@.subrange(start as int, stem.len() as int));
    let words = squeeze_words(&stem, start, stem.len());
    if words.unicode_len() == 0 {
        "continue handoff".to_string()
    } else {
        concat("continue ", words.as_str())
    }
}

fn slice_prefix(v: &Vec<char>, to: usize) -> (r: Vec<char>)
    requires
        to <= v.len(),
    ensures
        r@ == v@.subrange(0, to as int),
{
    crate::text::slice_chars(v, 0, to)
}

/// The handoff file name `{created}-{slug}.md`.
pub fn file_name(created: &str, title_or_slug: &str) -> (r: String)
    ensures
        r@ == file_name_of(created@, title_or_slug@),
{
    let s = slug(title_or_slug);
    let a = concat(created, "-");
    let b = concat(a.as_str(), s.as_str());
    concat(b.as_str(), ".md")
}

} // verus!
