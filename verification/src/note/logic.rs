//! Resolves the project and the note a caller names.
use vstd::prelude::*;

use crate::pending_work::identifier::all_upper;
use crate::pending_work::list::{id_suffix, id_suffix_of};
use crate::pending_work::project_registry::{
    resolve_rows, row_prefix, ProjectRegistry, Resolution,
};
use crate::text::{
    ascii_upper, chars_of, concat, pad4, pad4_chars, parse_unsigned, parse_unsigned_chars,
    string_of, trim, trimmed, upper_all,
};

verus! {

/// The project a raw identifier resolves to, with its work-item prefix.
pub open spec fn resolved_project(rows: Seq<crate::pending_work::project_registry::Row>, raw: Seq<char>) -> Option<(Seq<char>, Seq<char>)> {
    match resolve_rows(rows, raw) {
        Resolution::Found(project) => match row_prefix(rows, project) {
            Some(prefix) => Some((project, prefix)),
            None => None,
        },
        _ => None,
    }
}

/// The number part of a raw note identifier: after `{PREFIX}-NOTE-`, after `NOTE-`, or all.
pub open spec fn note_number_text(upper: Seq<char>, prefix: Seq<char>) -> Seq<char> {
    let full = prefix + "-NOTE-"@;
    if upper.len() >= full.len() && upper.take(full.len() as int) == full {
        upper.skip(full.len() as int)
    } else if upper.len() >= 5 && upper.take(5) == "NOTE-"@ {
        upper.skip(5)
    } else {
        upper
    }
}

/// A note identifier with the project prefix and a four-digit number.
pub open spec fn note_id_of(prefix: Seq<char>, number: nat) -> Seq<char> {
    prefix + "-NOTE-"@ + pad4(number)
}

/// Whether `{prefix}-NOTE-{number}` is a well-formed note identifier: a 2–4 letter
/// uppercase prefix and at most four digits.
pub open spec fn valid_note_id(prefix: Seq<char>, number: nat) -> bool {
    2 <= prefix.len() <= 4 && all_upper(prefix) && number <= 9999
}

/// The note a raw identifier names within a project: `{PREFIX}-NOTE-N`, `NOTE-N` or `N`,
/// trimmed and ignoring ASCII case, with `N` a `u32`.
pub open spec fn resolved_note(raw: Seq<char>, prefix: Seq<char>) -> Option<Seq<char>> {
    match parse_unsigned(note_number_text(ascii_upper(trim(raw)), prefix), 0xffff_ffff) {
        Some(n) => if valid_note_id(prefix, n) {
            Some(note_id_of(prefix, n))
        } else {
            None
        },
        None => None,
    }
}

/// The number of a stored note identifier.
pub open spec fn note_number(id: Seq<char>) -> nat {
    id_suffix_of(id)
}

fn starts_with_at(v: &Vec<char>, p: &Vec<char>) -> (r: bool)
    ensures
        r == (v@.len() >= p@.len() && v@.take(p@.len() as int) == p@),
{
    if v.len() < p.len() {
        return false;
    }
    let mut i: usize = 0;
    while i < p.len()
        invariant
            i <= p.len() <= v.len(),
            forall|j: int| 0 <= j < i ==> v@[j] == p@[j],
        decreases p.len() - i,
    {
        if v[i] != p[i] {
            assert(v@.take(p@.len() as int)[i as int] != p@[i as int]);
            return false;
        }
        i = i + 1;
    }
    assert(v@.take(p@.len() as int) =~= p@);
    true
}

/// Resolves a managed project and its work-item prefix.
pub fn resolve_project(projects: &ProjectRegistry, raw: &str) -> (r: Option<(String, String)>)
    ensures
        match r {
            Some((project, prefix)) => resolved_project(projects.rows(), raw@) == Some(
                (project@, prefix@),
            ),
            None => resolved_project(projects.rows(), raw@) is None,
        },
{
    let project = match projects.resolve(raw) {
        Ok(project) => project.clone(),
        Err(_) => return None,
    };
    match projects.prefix_for(project.as_str()) {
        Some(prefix) => Some((project, prefix.clone())),
        None => None,
    }
}

/// Resolves a raw note identifier within a project with work-item prefix `prefix`.
pub fn resolve_note(raw: &str, prefix: &str) -> (r: Option<String>)
    ensures
        crate::pending_work::project_registry::opt_view(r) == resolved_note(raw@, prefix@),
{
    let v = chars_of(raw);
    let t = trimmed(&v);
    let upper = upper_all(&t);
    let full = concat(prefix, "-NOTE-");
    let full_chars = chars_of(full.as_str());
    let short = chars_of("NOTE-");
    proof {
        reveal_strlit("NOTE-");
    }
    let start: usize = if starts_with_at(&upper, &full_chars) {
        full_chars.len()
    } else if starts_with_at(&upper, &short) {
        5
    } else {
        0
    };
    let digits = crate::text::slice_chars(&upper, start, upper.len());
    proof {
        assert(digits@ =~= note_number_text(ascii_upper(trim(raw@)), prefix@));
    }
    let number = match parse_unsigned_chars(&digits, 0xffff_ffff) {
        Some(n) => n,
        None => return None,
    };
    let pv = chars_of(prefix);
    if pv.len() < 2 || pv.len() > 4 || number > 9999 {
        return None;
    }
    let mut all: bool = true;
    let mut i: usize = 0;
    while i < pv.len()
        invariant
            i <= pv.len(),
            all == (forall|j: int| 0 <= j < i ==> crate::text::is_ascii_upper(#[trigger] pv@[j])),
        decreases pv.len() - i,
    {
        if !crate::text::is_upper_char(pv[i]) {
            all = false;
        }
        i = i + 1;
    }
    if !all {
        return None;
    }
    let digits4 = pad4_chars(number);
    let number_text = string_of(&digits4, 0, digits4.len());
    proof {
        assert(digits4@.subrange(0, digits4.len() as int) =~= digits4@);
    }
    Some(concat(full.as_str(), number_text.as_str()))
}

/// The number of a stored note identifier.
pub fn note_number_of(id: &str) -> (r: u64)
    ensures
        r == note_number(id@),
{
    id_suffix(id)
}

} // verus!
