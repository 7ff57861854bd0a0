//! Canonical labels of the pending-work index sections.
use vstd::prelude::*;

use crate::text::{
    ascii_lower, chars_eq, chars_of, is_whitespace, lemma_trim_idempotent, lower_all, trim, trim_end,
    trim_start, trimmed,
};

verus! {

/// The canonical label a raw section label aliases to, if it is a known alias.
pub open spec fn section_alias(label: Seq<char>) -> Option<Seq<char>> {
    let key = ascii_lower(trim(label));
    if key == "future"@ || key == "futuro"@ {
        Some("Future"@)
    } else if key == "human"@ {
        Some("Human"@)
    } else if key == "low-prio"@ || key == "low-priority"@ {
        Some("Low-prio"@)
    } else {
        None
    }
}

/// Whether the lowercased characters `key` equal the literal `lit`.
fn key_is(key: &Vec<char>, lit: &str) -> (r: bool)
    ensures
        r == (key@ == lit@),
{
    let l = chars_of(lit);
    chars_eq(key, &l)
}

/// Maps a raw section label to its canonical label: `future`/`futuro`, `human` and
/// `low-prio`/`low-priority`, compared after trimming and ASCII lowercasing.
pub fn alias(label: &str) -> (r: Option<&'static str>)
    ensures
        r matches Some(s) ==> section_alias(label@) == Some(s@),
        r is None ==> section_alias(label@) is None,
{
    let raw = chars_of(label);
    let t = trimmed(&raw);
    let key = lower_all(&t);
    if key_is(&key, "future") || key_is(&key, "futuro") {
        Some("Future")
    } else if key_is(&key, "human") {
        Some("Human")
    } else if key_is(&key, "low-prio") || key_is(&key, "low-priority") {
        Some("Low-prio")
    } else {
        None
    }
}

/// A canonical label is its own alias.
proof fn lemma_canonical_label_is_its_own_alias(a: Seq<char>)
    requires
        a == "Future"@ || a == "Human"@ || a == "Low-prio"@,
    ensures
        section_alias(a) == Some(a),
{
    reveal_strlit("Future");
    reveal_strlit("Human");
    reveal_strlit("Low-prio");
    reveal_strlit("future");
    reveal_strlit("futuro");
    reveal_strlit("human");
    reveal_strlit("low-prio");
    assert(a.len() > 0 && !is_whitespace(a[0]) && !is_whitespace(a.last()));
    assert(trim_start(a) == a);
    assert(trim_end(a) == a);
    assert(trim(a) == a);
    if a == "Future"@ {
        assert(ascii_lower(a) =~= "future"@);
        assert(ascii_lower(trim(a)) == "future"@);
    } else if a == "Human"@ {
        assert(ascii_lower(a) =~= "human"@);
        assert(ascii_lower(trim(a)) == "human"@);
        assert("human"@.len() != "future"@.len() && "human"@.len() != "futuro"@.len());
    } else {
        assert(ascii_lower(a) =~= "low-prio"@);
        assert(ascii_lower(trim(a)) == "low-prio"@);
        assert("low-prio"@.len() != "future"@.len() && "low-prio"@.len() != "futuro"@.len()
            && "low-prio"@.len() != "human"@.len());
    }
}

/// Aliasing is stable: the label an alias maps to maps to itself, and a label that is no
/// alias stays no alias once trimmed.
pub proof fn lemma_section_alias_stable(label: Seq<char>)
    ensures
        section_alias(label) matches Some(a) ==> section_alias(a) == Some(a),
        section_alias(label) is None ==> section_alias(trim(label)) is None,
{
    match section_alias(label) {
        Some(a) => {
            reveal_strlit("Future");
            reveal_strlit("Human");
            reveal_strlit("Low-prio");
            lemma_canonical_label_is_its_own_alias(a);
        },
        None => {
            lemma_trim_idempotent(label);
        },
    }
}

} // verus!
