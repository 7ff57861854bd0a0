//! The tag policy: which tag names are valid, how repeated `--tag` values and the `tags`
//! frontmatter list are read, and when one tag set covers another.
use vstd::prelude::*;

use crate::text::{
    ascii_lower, chars_of, lower_char, is_ascii_digit, is_ascii_lower, is_ascii_upper, lower_all,
    nonblank_pieces, push_nonblank_pieces, string_of, string_views, trim, trimmed,
};

verus! {

/// `_` and `-` join the words of a tag.
pub open spec fn is_tag_separator(c: char) -> bool {
    c == '_' || c == '-'
}

pub open spec fn is_tag_char(c: char) -> bool {
    is_ascii_digit(c) || is_ascii_lower(c) || is_ascii_upper(c) || is_tag_separator(c)
}

/// A tag is a non-empty run of ASCII letters, digits, `_` and `-` that neither starts nor
/// ends with a separator and never holds two separators in a row.
pub open spec fn valid_tag(s: Seq<char>) -> bool {
    &&& s.len() > 0
    &&& forall|i: int| 0 <= i < s.len() ==> is_tag_char(#[trigger] s[i])
    &&& !is_tag_separator(s[0])
    &&& !is_tag_separator(s[s.len() - 1])
    &&& forall|i: int|
        0 <= i < s.len() - 1 ==> !(is_tag_separator(#[trigger] s[i]) && is_tag_separator(s[i + 1]))
}

pub open spec fn all_valid_tags(pieces: Seq<Seq<char>>) -> bool {
    forall|i: int| 0 <= i < pieces.len() ==> valid_tag(#[trigger] pieces[i])
}

/// `pieces[k]` is the first piece that is not a valid tag.
pub open spec fn first_invalid_at(pieces: Seq<Seq<char>>, k: int) -> bool {
    &&& 0 <= k < pieces.len()
    &&& !valid_tag(pieces[k])
    &&& forall|j: int| 0 <= j < k ==> valid_tag(#[trigger] pieces[j])
}

/// The canonical (lowercase) names of valid tags.
pub open spec fn canonical_tags(pieces: Seq<Seq<char>>) -> Seq<Seq<char>> {
    pieces.map_values(|p: Seq<char>| ascii_lower(p))
}

/// The comma-separated, trimmed, non-blank pieces of every value, in order.
pub open spec fn value_pieces(values: Seq<Seq<char>>) -> Seq<Seq<char>>
    decreases values.len(),
{
    if values.len() == 0 {
        seq![]
    } else {
        value_pieces(values.drop_last()) + nonblank_pieces(values.last(), ',')
    }
}

/// What lies between the brackets of a trimmed `[...]` frontmatter list.
pub open spec fn bracketed_inner(raw: Seq<char>) -> Option<Seq<char>> {
    let t = trim(raw);
    if t.len() >= 2 && t[0] == '[' && t[t.len() - 1] == ']' {
        Some(t.subrange(1, t.len() - 1))
    } else {
        None
    }
}

/// The canonical tags a `tags` frontmatter value lists, or `None` where it does not parse.
pub open spec fn frontmatter_tags(raw: Seq<char>) -> Option<Seq<Seq<char>>> {
    match bracketed_inner(raw) {
        None => None,
        Some(inner) => {
            let pieces = nonblank_pieces(inner, ',');
            if all_valid_tags(pieces) {
                Some(canonical_tags(pieces))
            } else {
                None
            }
        },
    }
}

/// Every requested tag is among the stored ones.
pub open spec fn covers(stored: Seq<Seq<char>>, requested: Seq<Seq<char>>) -> bool {
    forall|i: int| 0 <= i < requested.len() ==> stored.contains(#[trigger] requested[i])
}

fn is_tag_separator_char(c: char) -> (r: bool)
    ensures
        r == is_tag_separator(c),
{
    c == '_' || c == '-'
}

fn is_tag_char_exec(c: char) -> (r: bool)
    ensures
        r == is_tag_char(c),
{
    ('0' <= c && c <= '9') || ('a' <= c && c <= 'z') || ('A' <= c && c <= 'Z') || c == '_' || c
        == '-'
}

/// Whether `s` is a valid tag.
pub fn is_valid_tag(s: &str) -> (r: bool)
    ensures
        r == valid_tag(s@),
{
    let v = chars_of(s);
    let n = v.len();
    if n == 0 {
        return false;
    }
    if is_tag_separator_char(v[0]) || is_tag_separator_char(v[n - 1]) {
        return false;
    }
    let mut i: usize = 0;
    while i < n
        invariant
            n == v@.len(),
            v@ == s@,
            n > 0,
            i <= n,
            forall|j: int| 0 <= j < i ==> is_tag_char(#[trigger] v@[j]),
            forall|j: int|
                0 <= j < i && j < n - 1 ==> !(is_tag_separator(#[trigger] v@[j]) && is_tag_separator(
                    v@[j + 1],
                )),
        decreases n - i,
    {
        if !is_tag_char_exec(v[i]) {
            return false;
        }
        if i + 1 < n && is_tag_separator_char(v[i]) && is_tag_separator_char(v[i + 1]) {
            return false;
        }
        i = i + 1;
    }
    true
}

fn lowercase_string(s: &str) -> (r: String)
    ensures
        r@ == ascii_lower(s@),
{
    let v = lower_all(&chars_of(s));
    let r = string_of(&v, 0, v.len());
    proof {
        assert(v@.subrange(0, v.len() as int) =~= v@);
    }
    r
}

/// Checks each piece and lowercases it; the first invalid piece is the error.
fn canonicalize(pieces: &Vec<String>) -> (r: Result<Vec<String>, String>)
    ensures
        match r {
            Ok(tags) => all_valid_tags(string_views(pieces@)) && string_views(tags@)
                == canonical_tags(string_views(pieces@)),
            Err(raw) => exists|k: int|
                first_invalid_at(string_views(pieces@), k) && raw@ == string_views(pieces@)[k],
        },
{
    let ghost views = string_views(pieces@);
    let mut out: Vec<String> = Vec::new();
    let mut i: usize = 0;
    while i < pieces.len()
        invariant
            i <= pieces.len(),
            views == string_views(pieces@),
            forall|j: int| 0 <= j < i ==> valid_tag(#[trigger] views[j]),
            string_views(out@) == canonical_tags(views.take(i as int)),
        decreases pieces.len() - i,
    {
        if !is_valid_tag(pieces[i].as_str()) {
            let raw = pieces[i].clone();
            proof {
                assert(first_invalid_at(views, i as int));
            }
            return Err(raw);
        }
        let lowered = lowercase_string(pieces[i].as_str());
        let ghost before = string_views(out@);
        out.push(lowered);
        proof {
            assert(views[i as int] == pieces@[i as int]@);
            assert(string_views(out@) =~= before.push(ascii_lower(views[i as int])));
            assert(views.take(i + 1) =~= views.take(i as int).push(views[i as int]));
            assert(canonical_tags(views.take(i + 1)) =~= canonical_tags(views.take(i as int)).push(
                ascii_lower(views[i as int]),
            ));
        }
        i = i + 1;
    }
    proof {
        assert(views.take(i as int) =~= views);
    }
    Ok(out)
}

/// Reads repeated `--tag` values: each value may list several tags separated by commas.
/// Returns the canonical names in order, or the first piece that is not a valid tag.
pub fn parse_tag_values(values: &Vec<String>) -> (r: Result<Vec<String>, String>)
    ensures
        ({
            let pieces = value_pieces(string_views(values@));
            match r {
                Ok(tags) => all_valid_tags(pieces) && string_views(tags@) == canonical_tags(
                    pieces,
                ),
                Err(raw) => exists|k: int| first_invalid_at(pieces, k) && raw@ == pieces[k],
            }
        }),
{
    let ghost views = string_views(values@);
    let mut pieces: Vec<String> = Vec::new();
    let mut i: usize = 0;
    while i < values.len()
        invariant
            i <= values.len(),
            views == string_views(values@),
            string_views(pieces@) == value_pieces(views.take(i as int)),
        decreases values.len() - i,
    {
        push_nonblank_pieces(&mut pieces, values[i].as_str(), ',');
        proof {
            let t = views.take(i + 1);
            assert(t.drop_last() =~= views.take(i as int));
            assert(t.last() == values@[i as int]@);
        }
        i = i + 1;
    }
    proof {
        assert(views.take(i as int) =~= views);
    }
    canonicalize(&pieces)
}

/// Reads a `tags` frontmatter value such as `[sqlite, godot]`.
pub fn parse_tag_frontmatter(raw: &str) -> (r: Option<Vec<String>>)
    ensures
        match r {
            Some(tags) => frontmatter_tags(raw@) == Some(string_views(tags@)),
            None => frontmatter_tags(raw@).is_none(),
        },
{
    let t = trimmed(&chars_of(raw));
    let n = t.len();
    if n < 2 || t[0] != '[' || t[n - 1] != ']' {
        return None;
    }
    let inner = string_of(&t, 1, n - 1);
    let mut pieces: Vec<String> = Vec::new();
    push_nonblank_pieces(&mut pieces, inner.as_str(), ',');
    proof {
        assert(string_views(pieces@) =~= nonblank_pieces(inner@, ','));
    }
    match canonicalize(&pieces) {
        Ok(tags) => Some(tags),
        Err(_) => None,
    }
}

/// Whether `stored` holds every tag of `requested`.
pub fn contains_all(stored: &Vec<String>, requested: &Vec<String>) -> (r: bool)
    ensures
        r == covers(string_views(stored@), string_views(requested@)),
{
    let ghost s = string_views(stored@);
    let ghost q = string_views(requested@);
    let mut i: usize = 0;
    while i < requested.len()
        invariant
            i <= requested.len(),
            s == string_views(stored@),
            q == string_views(requested@),
            forall|j: int| 0 <= j < i ==> s.contains(#[trigger] q[j]),
        decreases requested.len() - i,
    {
        if !contains_name(stored, requested[i].as_str()) {
            proof {
                assert(q[i as int] == requested@[i as int]@);
                assert(!covers(s, q));
            }
            return false;
        }
        i = i + 1;
    }
    true
}

/// Whether `names` holds `name`.
pub fn contains_name(names: &Vec<String>, name: &str) -> (r: bool)
    ensures
        r == string_views(names@).contains(name@),
{
    let ghost s = string_views(names@);
    let mut i: usize = 0;
    while i < names.len()
        invariant
            i <= names.len(),
            s == string_views(names@),
            forall|j: int| 0 <= j < i ==> s[j] != name@,
        decreases names.len() - i,
    {
        if crate::text::str_eq(names[i].as_str(), name) {
            proof {
                assert(s[i as int] == name@);
            }
            return true;
        }
        i = i + 1;
    }
    false
}

/// Canonical tags are stable: the canonical form of valid tags is itself valid and is its
/// own canonical form, so tags written canonically are read back unchanged and a requested
/// tag matches a stored one whatever ASCII case either was given in.
pub proof fn lemma_canonical_tags_stable(pieces: Seq<Seq<char>>)
    requires
        all_valid_tags(pieces),
    ensures
        all_valid_tags(canonical_tags(pieces)),
        canonical_tags(canonical_tags(pieces)) == canonical_tags(pieces),
{
    let c = canonical_tags(pieces);
    assert forall|i: int| 0 <= i < c.len() implies valid_tag(#[trigger] c[i]) by {
        let p = pieces[i];
        assert(valid_tag(p));
        let q = c[i];
        assert(q == ascii_lower(p));
        assert(q.len() == p.len());
        assert forall|j: int| 0 <= j < q.len() implies is_tag_char(#[trigger] q[j])
            && (is_tag_separator(q[j]) == is_tag_separator(p[j])) by {
            assert(q[j] == lower_char(p[j]));
            assert(is_tag_char(p[j]));
        }
        assert(is_tag_separator(q[0]) == is_tag_separator(p[0]));
        assert(is_tag_separator(q[q.len() - 1]) == is_tag_separator(p[p.len() - 1]));
        assert forall|j: int| 0 <= j < q.len() - 1 implies !(is_tag_separator(#[trigger] q[j])
            && is_tag_separator(q[j + 1])) by {
            assert(is_tag_separator(q[j]) == is_tag_separator(p[j]));
            assert(is_tag_separator(q[j + 1]) == is_tag_separator(p[j + 1]));
            assert(!(is_tag_separator(p[j]) && is_tag_separator(p[j + 1])));
        }
    }
    assert forall|i: int| 0 <= i < c.len() implies #[trigger] ascii_lower(c[i]) == c[i] by {
        assert(ascii_lower(c[i]) =~= c[i]);
    }
    assert(canonical_tags(c) =~= c);
}

} // verus!
