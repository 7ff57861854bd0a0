//! Parses, checks and renders the `prereq` frontmatter of pending-work items.
use vstd::prelude::*;

use crate::patterns::{first_group, first_groups, regex_first_group, regex_first_groups};
use crate::pending_work::close::project_of_id;
use crate::pending_work::commit_provenance::raw_ranges;
use crate::pending_work::dto::PrerequisiteStatus;
use crate::pending_work::find::PendingWorkStore;
use crate::pending_work::identifier::{parse, parse_id};
use crate::pending_work::project_registry::{opt_view, ProjectRegistry};
use crate::ports::{Materialization, PendingWorkItem, WorkItemStatus};
use crate::text::{
    chars_of, concat, dedup_first, dedup_strings, join, join_with, nonblank_pieces,
    push_nonblank_pieces, str_eq, string_of, string_views, trim, trimmed,
};

verus! {

/// Why prerequisite values were refused.
#[derive(Debug, Clone, PartialEq, Eq)]
pub enum PrerequisiteValidationError {
    /// A value is not a work-item identifier.
    InvalidId { raw: String },
    /// No value held an identifier.
    MissingId,
    /// Identifiers that name no readable item with a valid status.
    UnknownIds { ids: Vec<String> },
}

/// A raw value without its `[[`…`]]` wikilink brackets, when it has both.
pub open spec fn candidate_of(raw: Seq<char>) -> Seq<char> {
    if raw.len() >= 4 && raw.take(2) == "[["@ && raw.skip(raw.len() - 2) == "]]"@ {
        raw.subrange(2, raw.len() - 2)
    } else {
        raw
    }
}

/// The identifiers of the pieces in order, or the first piece that is none.
pub open spec fn piece_ids(pieces: Seq<Seq<char>>) -> Result<Seq<Seq<char>>, Seq<char>>
    decreases pieces.len(),
{
    if pieces.len() == 0 {
        Ok(seq![])
    } else {
        match piece_ids(pieces.drop_last()) {
            Err(raw) => Err(raw),
            Ok(ids) => match parse_id(candidate_of(pieces.last())) {
                None => Err(pieces.last()),
                Some(id) => Ok(ids.push(id)),
            },
        }
    }
}

/// What trimmed, non-empty prerequisite pieces parse to: the distinct identifiers in
/// first-seen order, the first piece that is not an identifier, or nothing at all.
pub open spec fn parsed_pieces(pieces: Seq<Seq<char>>) -> Result<Seq<Seq<char>>, Option<Seq<char>>> {
    match piece_ids(pieces) {
        Err(raw) => Err(Some(raw)),
        Ok(ids) => if ids.len() == 0 {
            Err(None)
        } else {
            Ok(dedup_first(ids))
        },
    }
}

/// What a list of raw prerequisite values parses to, split at `,`.
pub open spec fn parsed_prerequisites(values: Seq<String>) -> Result<Seq<Seq<char>>, Option<Seq<char>>> {
    parsed_pieces(raw_ranges(values))
}

/// A frontmatter value without one pair of surrounding double or single quotes.
pub open spec fn unquoted_of(raw: Seq<char>) -> Seq<char> {
    let t = trim(raw);
    if t.len() >= 2 && ((t[0] == '"' && t.last() == '"') || (t[0] == '\'' && t.last() == '\'')) {
        t.subrange(1, t.len() - 1)
    } else {
        t
    }
}

pub open spec fn wikilink() -> spec_fn(Seq<char>) -> Seq<char> {
    |id: Seq<char>| "[["@ + id + "]]"@
}

/// The rendered `prereq` frontmatter: each identifier as a wikilink, joined by `, `.
pub open spec fn frontmatter_of(ids: Seq<Seq<char>>) -> Seq<char> {
    join_with(ids.map_values(wikilink()), ", "@)
}

pub open spec fn parse_outcome(
    r: Result<Vec<String>, PrerequisiteValidationError>,
    expected: Result<Seq<Seq<char>>, Option<Seq<char>>>,
) -> bool {
    match expected {
        Ok(ids) => r matches Ok(v) && string_views(v@) == ids,
        Err(Some(raw)) => r matches Err(PrerequisiteValidationError::InvalidId { raw: x }) && x@
            == raw,
        Err(None) => r matches Err(PrerequisiteValidationError::MissingId),
    }
}

// ---------------------------------------------------------------------------------------
fn candidate(raw: &str) -> (r: String)
    ensures
        r@ == candidate_of(raw@),
{
    let v = chars_of(raw);
    let n = v.len();
    proof {
        reveal_strlit("[[");
        reveal_strlit("]]");
        let s = raw@;
        if n >= 4 {
            if s.take(2) == "[["@ {
                assert(s.take(2)[0] == '[' && s.take(2)[1] == '[');
            }
            if s.skip(n - 2) == "]]"@ {
                assert(s.skip(n - 2)[0] == ']' && s.skip(n - 2)[1] == ']');
            }
            if v@[0] == '[' && v@[1] == '[' {
                assert(s.take(2) =~= "[["@);
            }
            if v@[n - 2] == ']' && v@[n - 1] == ']' {
                assert(s.skip(n - 2) =~= "]]"@);
            }
        }
    }
    if n >= 4 && v[0] == '[' && v[1] == '[' && v[n - 2] == ']' && v[n - 1] == ']' {
        string_of(&v, 2, n - 2)
    } else {
        string_of(&v, 0, n)
    }
}

/// Parses repeated raw prerequisite values: splits each at `,`, trims, drops empty pieces,
/// strips `[[`…`]]`, normalizes each identifier and keeps the first occurrence of each.
pub fn parse_values(values: &Vec<String>) -> (r: Result<Vec<String>, PrerequisiteValidationError>)
    ensures
        parse_outcome(r, parsed_prerequisites(values@)),
{
    let mut pieces: Vec<String> = Vec::new();
    let mut i: usize = 0;
    while i < values.len()
        invariant
            i <= values.len(),
            string_views(pieces@) == raw_ranges(values@.take(i as int)),
        decreases values.len() - i,
    {
        proof {
            assert(values@.take(i + 1).drop_last() =~= values@.take(i as int));
        }
        push_nonblank_pieces(&mut pieces, values[i].as_str(), ',');
        i = i + 1;
    }
    assert(values@.take(values.len() as int) =~= values@);
    let ghost all = string_views(pieces@);
    let mut identifiers: Vec<String> = Vec::new();
    let mut k: usize = 0;
    proof {
        assert(all.take(0) =~= Seq::<Seq<char>>::empty());
        assert(string_views(identifiers@) =~= Seq::<Seq<char>>::empty());
    }
    while k < pieces.len()
        invariant
            k <= pieces.len(),
            all == string_views(pieces@),
            all == raw_ranges(values@),
            piece_ids(all.take(k as int)) == Ok::<Seq<Seq<char>>, Seq<char>>(
                string_views(identifiers@),
            ),
        decreases pieces.len() - k,
    {
        proof {
            assert(all.take(k + 1).drop_last() =~= all.take(k as int));
            assert(all.take(k + 1).last() == pieces@[k as int]@);
        }
        let c = candidate(pieces[k].as_str());
        let ghost before = string_views(identifiers@);
        match parse(c.as_str()) {
            Some(id) => {
                let ghost idv = id@;
                let ghost old_ids = identifiers@;
                identifiers.push(id);
                proof {
                    assert(identifiers@ == old_ids.push(id));
                    assert(string_views(identifiers@) =~= before.push(idv));
                    assert(piece_ids(all.take(k + 1)) == Ok::<Seq<Seq<char>>, Seq<char>>(
                        before.push(id@),
                    ));
                    assert(string_views(identifiers@) =~= string_views(identifiers@).drop_last().push(
                        identifiers@.last()@,
                    ));
                }
            },
            None => {
                proof {
                    assert(piece_ids(all.take(k + 1)) == Err::<Seq<Seq<char>>, Seq<char>>(
                        pieces@[k as int]@,
                    ));
                    lemma_piece_ids_error_sticks(all, k as int + 1);
                }
                let raw = pieces[k].clone();
                return Err(PrerequisiteValidationError::InvalidId { raw });
            },
        }
        k = k + 1;
    }
    assert(all.take(pieces.len() as int) =~= all);
    if identifiers.len() == 0 {
        return Err(PrerequisiteValidationError::MissingId);
    }
    Ok(dedup_strings(&identifiers))
}

proof fn lemma_piece_ids_error_sticks(pieces: Seq<Seq<char>>, n: int)
    requires
        0 <= n <= pieces.len(),
        piece_ids(pieces.take(n)) is Err,
    ensures
        piece_ids(pieces) == piece_ids(pieces.take(n)),
    decreases pieces.len() - n,
{
    if n < pieces.len() {
        assert(pieces.take(n + 1).drop_last() =~= pieces.take(n));
        lemma_piece_ids_error_sticks(pieces, n + 1);
    } else {
        assert(pieces.take(n) =~= pieces);
    }
}

/// Parses a persisted `prereq` frontmatter value, optionally quoted.
pub fn parse_frontmatter(raw: &str) -> (r: Result<Vec<String>, PrerequisiteValidationError>)
    ensures
        parse_outcome(r, parsed_pieces(nonblank_pieces(unquoted_of(raw@), ','))),
{
    let v = chars_of(raw);
    let t = trimmed(&v);
    let n = t.len();
    let inner = if n >= 2 && ((t[0] == '"' && t[n - 1] == '"') || (t[0] == '\'' && t[n - 1]
        == '\'')) {
        string_of(&t, 1, n - 1)
    } else {
        string_of(&t, 0, n)
    };
    proof {
        assert(t@.subrange(0, n as int) =~= t@);
        assert(inner@ == unquoted_of(raw@));
    }
    let mut values: Vec<String> = Vec::new();
    values.push(inner);
    proof {
        let vs = values@;
        assert(vs.drop_last() =~= Seq::<String>::empty());
        assert(raw_ranges(vs) =~= raw_ranges(Seq::<String>::empty()) + nonblank_pieces(
            vs.last()@,
            ',',
        ));
        assert(raw_ranges(vs) =~= nonblank_pieces(unquoted_of(raw@), ','));
    }
    parse_values(&values)
}

/// Renders identifiers as the `prereq` frontmatter value: `[[ID]]` wikilinks joined by `, `.
pub fn frontmatter_value(identifiers: &Vec<String>) -> (r: String)
    ensures
        r@ == frontmatter_of(string_views(identifiers@)),
{
    let mut links: Vec<String> = Vec::new();
    let mut i: usize = 0;
    while i < identifiers.len()
        invariant
            i <= identifiers.len(),
            string_views(links@) == string_views(identifiers@.take(i as int)).map_values(
                wikilink(),
            ),
        decreases identifiers.len() - i,
    {
        let opened = concat("[[", identifiers[i].as_str());
        let link = concat(opened.as_str(), "]]");
        let ghost lv = link@;
        let ghost old_links = links@;
        links.push(link);
        proof {
            assert(lv == wikilink()(identifiers@[i as int]@));
            assert(string_views(links@) =~= string_views(old_links).push(lv));
            assert(string_views(identifiers@.take(i + 1)) =~= string_views(
                identifiers@.take(i as int),
            ).push(identifiers@[i as int]@));
            assert(string_views(links@) =~= string_views(identifiers@.take(i + 1)).map_values(
                wikilink(),
            ));
        }
        i = i + 1;
    }
    assert(identifiers@.take(identifiers.len() as int) =~= identifiers@);
    join(&links, ", ")
}

/// A canonical identifier inside a `[[`…`]]` wikilink of a `prereq` value.
pub const PREREQUISITE_VALUE_PATTERN: &'static str = "\\[\\[([A-Z]{2,4}-\\d{4})";

/// The `status:` line of a frontmatter block.
pub const PERSISTED_STATUS_PATTERN: &'static str = "(?m)^status:\\s*([^\\r\\n]+)$";

/// The frontmatter block at the very start of a note, after an optional byte-order mark.
pub const PERSISTED_FRONTMATTER_PATTERN: &'static str =
    "(?s)\\A(?:\\u{feff})?---[ \\t]*\\r?\\n(.*?)\\r?\\n---[ \\t]*(?:\\r?\\n|\\z)";

/// The lifecycle status a persisted `status:` value names.
pub open spec fn status_named(value: Seq<char>) -> Option<WorkItemStatus> {
    if value == "active"@ {
        Some(WorkItemStatus::Active)
    } else if value == "done"@ {
        Some(WorkItemStatus::Done)
    } else if value == "cancelled"@ {
        Some(WorkItemStatus::Cancelled)
    } else {
        None
    }
}

/// Whether a record is a note whose frontmatter holds a `status:` line naming a status.
pub open spec fn has_valid_status(record: PendingWorkItem) -> bool {
    &&& record.materialization is NoteFile
    &&& regex_first_group(PERSISTED_FRONTMATTER_PATTERN@, record.source@) matches Some(Some(front))
    &&& regex_first_group(PERSISTED_STATUS_PATTERN@, front) matches Some(Some(value))
    &&& status_named(trim(value)) is Some
}

/// The identifiers linked in an existing `prereq` value, in order.
pub open spec fn linked_ids(existing: Option<Seq<char>>) -> Seq<Seq<char>> {
    match existing {
        Some(value) => match regex_first_groups(PREREQUISITE_VALUE_PATTERN@, value) {
            Some(ids) => ids,
            None => Seq::empty(),
        },
        None => Seq::empty(),
    }
}

/// The status a persisted value names, if any.
pub fn parse_status(value: &str) -> (r: Option<WorkItemStatus>)
    ensures
        r == status_named(value@),
{
    proof {
        reveal_strlit("active");
        reveal_strlit("done");
        reveal_strlit("cancelled");
    }
    if str_eq(value, "active") {
        Some(WorkItemStatus::Active)
    } else if str_eq(value, "done") {
        Some(WorkItemStatus::Done)
    } else if str_eq(value, "cancelled") {
        Some(WorkItemStatus::Cancelled)
    } else {
        None
    }
}

/// Whether a prerequisite record may be linked: it is a note whose frontmatter names a
/// valid status.
pub fn has_valid_persisted_status(record: &PendingWorkItem) -> (r: bool)
    ensures
        r == has_valid_status(*record),
{
    match record.materialization {
        Materialization::NoteFile => {},
        _ => return false,
    }
    let front = match first_group(PERSISTED_FRONTMATTER_PATTERN, record.source.as_str()) {
        Some(Some(front)) => front,
        _ => return false,
    };
    let value = match first_group(PERSISTED_STATUS_PATTERN, front.as_str()) {
        Some(Some(value)) => value,
        _ => return false,
    };
    let v = chars_of(value.as_str());
    let t = trimmed(&v);
    let ts = string_of(&t, 0, t.len());
    proof {
        assert(t@.subrange(0, t.len() as int) =~= t@);
    }
    parse_status(ts.as_str()).is_some()
}

/// Checks requested prerequisites and merges them after the ones already linked: each must
/// parse, belong to a configured project and be a readable note with a valid status. The
/// merged value keeps the first occurrence of each identifier, linked ones first.
pub fn validate_and_merge<S: PendingWorkStore>(
    existing: Option<&str>,
    values: &Vec<String>,
    store: &S,
    projects: &ProjectRegistry,
) -> (r: Result<String, PrerequisiteValidationError>)
    ensures
        match parsed_prerequisites(values@) {
            Err(Some(raw)) => r matches Err(PrerequisiteValidationError::InvalidId { raw: x })
                && x@ == raw,
            Err(None) => r matches Err(PrerequisiteValidationError::MissingId),
            Ok(ids) => {
                &&& r matches Ok(merged) ==> merged@ == frontmatter_of(
                    dedup_first(
                        linked_ids(
                            match existing {
                                Some(e) => Some(e@),
                                None => None,
                            },
                        ) + ids,
                    ),
                )
                &&& r matches Ok(_) ==> forall|i: int|
                    0 <= i < ids.len() ==> project_of_id(projects.rows(), #[trigger] ids[i]) is Some
                &&& r matches Err(e) ==> (e matches PrerequisiteValidationError::UnknownIds { ids: u }
                    && u@.len() > 0 && forall|j: int|
                    0 <= j < u@.len() ==> ids.contains(#[trigger] u@[j]@))
                &&& (exists|i: int| 0 <= i < ids.len() && project_of_id(projects.rows(), ids[i]) is None)
                    ==> r is Err
            },
        },
{
    let prerequisites = match parse_values(values) {
        Ok(ids) => ids,
        Err(e) => return Err(e),
    };
    let ghost ids = string_views(prerequisites@);
    let mut unknown: Vec<String> = Vec::new();
    let mut i: usize = 0;
    while i < prerequisites.len()
        invariant
            i <= prerequisites.len(),
            ids == string_views(prerequisites@),
            forall|j: int| 0 <= j < unknown@.len() ==> ids.contains(#[trigger] unknown@[j]@),
            forall|j: int|
                0 <= j < i && project_of_id(projects.rows(), #[trigger] ids[j]) is None
                    ==> unknown@.len() > 0,
        decreases prerequisites.len() - i,
    {
        let identifier = &prerequisites[i];
        proof {
            assert(ids[i as int] == identifier@);
        }
        let known = match projects.project_for_id(identifier.as_str()) {
            None => false,
            Some(project) => match store.get_item(project.as_str(), identifier.as_str()) {
                Ok(Some(record)) => has_valid_persisted_status(&record),
                _ => false,
            },
        };
        if !known {
            unknown.push(identifier.clone());
            proof {
                assert(unknown@.last()@ == ids[i as int]);
            }
        }
        i = i + 1;
    }
    if unknown.len() > 0 {
        return Err(PrerequisiteValidationError::UnknownIds { ids: unknown });
    }
    let mut merged: Vec<String> = Vec::new();
    match existing {
        Some(value) => match first_groups(PREREQUISITE_VALUE_PATTERN, value) {
            Some(linked) => {
                merged = linked;
            },
            None => {},
        },
        None => {},
    }
    let ghost linked = string_views(merged@);
    let mut k: usize = 0;
    while k < prerequisites.len()
        invariant
            k <= prerequisites.len(),
            ids == string_views(prerequisites@),
            string_views(merged@) == linked + ids.take(k as int),
        decreases prerequisites.len() - k,
    {
        let ghost before = merged@;
        merged.push(prerequisites[k].clone());
        proof {
            assert(ids.take(k + 1) =~= ids.take(k as int).push(ids[k as int]));
            assert(string_views(merged@) =~= string_views(before).push(ids[k as int]));
        }
        k = k + 1;
    }
    assert(ids.take(prerequisites.len() as int) =~= ids);
    let unique = dedup_strings(&merged);
    Ok(frontmatter_value(&unique))
}

/// The status of one linked prerequisite: `None` when its prefix has no project, it cannot
/// be read, it is absent, or its note is missing.
pub fn prerequisite_status<S: PendingWorkStore>(
    store: &S,
    projects: &ProjectRegistry,
    id: &str,
) -> (r: Option<WorkItemStatus>)
    ensures
        project_of_id(projects.rows(), id@) is None ==> r is None,
{
    let project = match projects.project_for_id(id) {
        Some(project) => project,
        None => return None,
    };
    match store.get_item(project.as_str(), id) {
        Ok(Some(item)) => match item.materialization {
            Materialization::MissingNote { .. } => None,
            _ => Some(item.status),
        },
        _ => None,
    }
}

/// The statuses of the prerequisites linked in a `prereq` value, in link order.
pub fn statuses<S: PendingWorkStore>(value: &str, store: &S, projects: &ProjectRegistry) -> (r: Vec<
    PrerequisiteStatus,
>)
    ensures
        r@.len() == linked_ids(Some(value@)).len(),
        forall|i: int|
            0 <= i < r@.len() ==> {
                &&& (#[trigger] r@[i]).id@ == linked_ids(Some(value@))[i]
                &&& project_of_id(projects.rows(), r@[i].id@) is None ==> r@[i].status is None
            },
{
    let linked = match first_groups(PREREQUISITE_VALUE_PATTERN, value) {
        Some(linked) => linked,
        None => Vec::new(),
    };
    let ghost lv = string_views(linked@);
    let mut out: Vec<PrerequisiteStatus> = Vec::new();
    let mut i: usize = 0;
    while i < linked.len()
        invariant
            i <= linked.len(),
            lv == string_views(linked@),
            lv == linked_ids(Some(value@)),
            out@.len() == i,
            forall|j: int|
                0 <= j < i ==> {
                    &&& (#[trigger] out@[j]).id@ == lv[j]
                    &&& project_of_id(projects.rows(), out@[j].id@) is None ==> out@[j].status is None
                },
        decreases linked.len() - i,
    {
        let id = linked[i].clone();
        let status = prerequisite_status(store, projects, id.as_str());
        out.push(PrerequisiteStatus { id, status });
        i = i + 1;
    }
    out
}

impl PrerequisiteValidationError {
    /// The message this failure is reported with.
    pub fn message(&self) -> (r: String)
        ensures
            match self {
                PrerequisiteValidationError::InvalidId { raw } => r@ == "Invalid --prereq id: "@
                    + raw@ + "."@,
                PrerequisiteValidationError::MissingId => r@ == "--prereq requires an id."@,
                PrerequisiteValidationError::UnknownIds { ids } => r@ == "Unknown --prereq id(s): "@
                    + join_with(string_views(ids@), ", "@) + "."@,
            },
    {
        match self {
            PrerequisiteValidationError::InvalidId { raw } => {
                let a = concat("Invalid --prereq id: ", raw.as_str());
                concat(a.as_str(), ".")
            },
            PrerequisiteValidationError::MissingId => "--prereq requires an id.".to_owned(),
            PrerequisiteValidationError::UnknownIds { ids } => {
                let names = join(ids, ", ");
                let a = concat("Unknown --prereq id(s): ", names.as_str());
                concat(a.as_str(), ".")
            },
        }
    }
}

} // verus!
