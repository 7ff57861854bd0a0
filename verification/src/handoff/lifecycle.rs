//! Lifecycle policy shared by the pending-work mutations that touch a linked handoff:
//! where documents live, which document an item links, and what a close, reopen, delete or
//! scaffold changes.
pub mod commit;
pub mod preflight;

use vstd::prelude::*;

use crate::handoff::{
    HandoffDocument, HandoffDocumentIdentifier, HandoffError, HandoffLocation, HandoffPatch,
    HandoffScope, HandoffStatus, NewHandoffDocument,
};
use crate::text::{chars_of, concat, eq_ignore_case, str_eq_ignore_case, string_of, trim_end};

verus! {

/// `base` joined with `part` as `PathBuf::join` does on Unix: an absolute `part` replaces
/// `base`, otherwise one `/` separates them unless `base` is empty or already ends with one.
pub open spec fn path_join(base: Seq<char>, part: Seq<char>) -> Seq<char> {
    if part.len() > 0 && part[0] == '/' {
        part
    } else if base.len() == 0 || base.last() == '/' {
        base + part
    } else {
        base + seq!['/'] + part
    }
}

/// `docs/handoffs` under the repository, or its `archived` subdirectory.
pub open spec fn handoff_directory_of(root: Seq<char>, location: HandoffLocation) -> Seq<char> {
    let directory = path_join(path_join(root, "docs"@), "handoffs"@);
    match location {
        HandoffLocation::Active => directory,
        HandoffLocation::Archived => path_join(directory, "archived"@),
    }
}

/// The path of the document `file_name` in `location`.
pub open spec fn handoff_path_of(root: Seq<char>, file_name: Seq<char>, location: HandoffLocation) -> Seq<char> {
    path_join(handoff_directory_of(root, location), file_name)
}

/// The body a new handoff starts with.
pub open spec fn handoff_body_of(title: Seq<char>) -> Seq<char> {
    "\n# "@ + title
        + "\n\n## Goals\n- [ ] <task title> :: <task description>\n\n## Context\n\n## Next steps\n-\n\n<!-- Lifecycle: while active, this is a LIVE document — check off Goals as you finish them.\n     When all Goals are done run `pwf done --id <pw-id>` (closes the task and archives this handoff). Never edit archived/. -->\n"@
}

/// A cancelled handoff's body: the old body without trailing whitespace and the report.
pub open spec fn cancelled_body_of(body: Seq<char>, report: Seq<char>) -> Seq<char> {
    trim_end(body) + "\n\n> Cancelled: "@ + report + "\n"@
}

/// The prompt that continues the handoff at a repository-relative path.
pub open spec fn continuation_prompt_of(relative_path: Seq<char>) -> Seq<char> {
    "Continue the handoff at @"@ + relative_path + "."@
}

/// Backslashes written as forward slashes.
pub open spec fn forward_slashes(s: Seq<char>) -> Seq<char> {
    s.map_values(|c: char| if c == '\\' { '/' } else { c })
}

/// Which lifecycle statuses a link lookup accepts.
#[derive(Debug, Clone, Copy, PartialEq, Eq, Structural)]
pub enum StatusFilter {
    /// Only documents whose status is `active`.
    Active,
    /// Documents whose status is anything but `active`, or absent.
    NotActive,
    /// Every document.
    Any,
}

pub open spec fn status_matches(filter: StatusFilter, status: Option<HandoffStatus>) -> bool {
    match filter {
        StatusFilter::Active => status == Some(HandoffStatus::Active),
        StatusFilter::NotActive => status != Some(HandoffStatus::Active),
        StatusFilter::Any => true,
    }
}

/// Whether `document` in `location` links the pending-work identifier `id`, compared
/// ignoring ASCII case, with a status the filter accepts.
pub open spec fn links(
    document: HandoffDocument,
    id: Seq<char>,
    location: HandoffLocation,
    filter: StatusFilter,
) -> bool {
    &&& document.location == location
    &&& status_matches(filter, document.status)
    &&& match document.pending_work_identifier_raw {
        Some(raw) => eq_ignore_case(raw@, id),
        None => false,
    }
}

/// How many of `documents` link `id`.
pub open spec fn link_count(
    documents: Seq<HandoffDocument>,
    id: Seq<char>,
    location: HandoffLocation,
    filter: StatusFilter,
) -> nat
    decreases documents.len(),
{
    if documents.len() == 0 {
        0
    } else {
        link_count(documents.drop_last(), id, location, filter) + if links(
            documents.last(),
            id,
            location,
            filter,
        ) {
            1nat
        } else {
            0nat
        }
    }
}

/// A handoff-tagged pending-work item and the repository its handoffs live in.
#[derive(Debug, Clone, PartialEq, Eq)]
pub struct GateItem {
    pub pending_work_identifier: String,
    pub scope: HandoffScope,
}

/// A checked handoff creation, written once its pending-work item exists.
#[derive(Debug, Clone, PartialEq, Eq)]
pub struct PendingScaffold {
    pub scope: HandoffScope,
    pub document: NewHandoffDocument,
    pub identifier: HandoffDocumentIdentifier,
    pub path: String,
}

/// How a pending-work close ends its handoff.
#[derive(Debug, Clone, Copy, PartialEq, Eq, Structural)]
pub enum CloseHandoffAction {
    Done,
    Cancelled,
}

/// Which way a handoff moves.
#[derive(Debug, Clone, Copy, PartialEq, Eq, Structural)]
pub enum MoveOutcome {
    Archived,
    Reopened,
}

/// A checked move of one handoff document.
#[derive(Debug, Clone, PartialEq, Eq)]
pub struct PendingMove {
    pub scope: HandoffScope,
    pub snapshot: HandoffDocument,
    pub patch: HandoffPatch,
    pub outcome: MoveOutcome,
}

/// A checked deletion of one handoff document.
#[derive(Debug, Clone, PartialEq, Eq)]
pub struct PendingDelete {
    pub scope: HandoffScope,
    pub snapshot: HandoffDocument,
}

/// The handoff side of a pending-work mutation, checked before the item is written.
#[derive(Debug, Clone, PartialEq, Eq)]
pub enum PendingHandoffMutation {
    NotLinked,
    AlreadyInTargetState,
    Create(PendingScaffold),
    Move(PendingMove),
    Delete(PendingDelete),
}

/// The status a close records.
pub open spec fn action_status(action: CloseHandoffAction) -> HandoffStatus {
    match action {
        CloseHandoffAction::Done => HandoffStatus::Done,
        CloseHandoffAction::Cancelled => HandoffStatus::Cancelled,
    }
}

impl CloseHandoffAction {
    /// The status a close records.
    pub fn status(self) -> (r: HandoffStatus)
        ensures
            r == action_status(self),
    {
        match self {
            CloseHandoffAction::Done => HandoffStatus::Done,
            CloseHandoffAction::Cancelled => HandoffStatus::Cancelled,
        }
    }
}

// ---------------------------------------------------------------------------------------
/// `base` joined with `part`; see [`path_join`].
pub fn join_path(base: &str, part: &str) -> (r: String)
    ensures
        r@ == path_join(base@, part@),
{
    let p = chars_of(part);
    if p.len() > 0 && p[0] == '/' {
        return part.to_owned();
    }
    let b = chars_of(base);
    if b.len() == 0 || b[b.len() - 1] == '/' {
        concat(base, part)
    } else {
        let with_separator = concat(base, "/");
        proof {
            reveal_strlit("/");
            assert(with_separator@ == base@ + seq!['/']);
        }
        concat(with_separator.as_str(), part)
    }
}

/// The scope of a repository root.
pub fn scope(repository_root: &str) -> (r: HandoffScope)
    ensures
        r.repository_root@ == repository_root@,
{
    HandoffScope { repository_root: repository_root.to_owned() }
}

/// The active or archived handoff directory of a repository.
pub fn handoff_directory(scope: &HandoffScope, location: HandoffLocation) -> (r: String)
    ensures
        r@ == handoff_directory_of(scope.repository_root@, location),
{
    let docs = join_path(scope.repository_root.as_str(), "docs");
    let directory = join_path(docs.as_str(), "handoffs");
    match location {
        HandoffLocation::Active => directory,
        HandoffLocation::Archived => join_path(directory.as_str(), "archived"),
    }
}

/// The path of a handoff document.
pub fn handoff_path(scope: &HandoffScope, identifier: &HandoffDocumentIdentifier) -> (r: String)
    ensures
        r@ == handoff_path_of(
            scope.repository_root@,
            identifier.file_name@,
            identifier.location,
        ),
{
    let directory = handoff_directory(scope, identifier.location);
    join_path(directory.as_str(), identifier.file_name.as_str())
}

/// The body a new handoff titled `title` starts with.
pub fn handoff_body(title: &str) -> (r: String)
    ensures
        r@ == handoff_body_of(title@),
{
    let head = concat("\n# ", title);
    concat(
        head.as_str(),
        "\n\n## Goals\n- [ ] <task title> :: <task description>\n\n## Context\n\n## Next steps\n-\n\n<!-- Lifecycle: while active, this is a LIVE document — check off Goals as you finish them.\n     When all Goals are done run `pwf done --id <pw-id>` (closes the task and archives this handoff). Never edit archived/. -->\n",
    )
}

/// A cancelled handoff's body with the cancellation report appended.
pub fn cancelled_body(body: &str, report: &str) -> (r: String)
    ensures
        r@ == cancelled_body_of(body@, report@),
{
    let v = chars_of(body);
    let end = crate::text::trim_end_len(&v);
    let kept = string_of(&v, 0, end);
    let a = concat(kept.as_str(), "\n\n> Cancelled: ");
    let b = concat(a.as_str(), report);
    concat(b.as_str(), "\n")
}

/// The prompt that continues the handoff at `relative_path`.
pub fn handoff_continuation_prompt(relative_path: &str) -> (r: String)
    ensures
        r@ == continuation_prompt_of(relative_path@),
{
    let a = concat("Continue the handoff at @", relative_path);
    concat(a.as_str(), ".")
}

/// A path written with forward slashes.
pub fn path_forward(path: &str) -> (r: String)
    ensures
        r@ == forward_slashes(path@),
{
    let v = chars_of(path);
    let mut r = String::new();
    let mut i: usize = 0;
    while i < v.len()
        invariant
            i <= v.len(),
            r@ == forward_slashes(v@.take(i as int)),
        decreases v.len() - i,
    {
        let c = v[i];
        r.push(
            if c == '\\' {
                '/'
            } else {
                c
            },
        );
        i = i + 1;
        assert(forward_slashes(v@.take(i as int)) =~= forward_slashes(v@.take(i - 1)).push(
            if c == '\\' {
                '/'
            } else {
                c
            },
        ));
    }
    assert(v@.take(v.len() as int) =~= v@);
    r
}

/// The handoff file name for a creation date and title.
pub fn handoff_file_name(created: &str, title: &str) -> (r: String)
    ensures
        r@ == crate::handoff::naming::file_name_of(created@, title@),
{
    crate::handoff::naming::file_name(created, title)
}

fn document_links(
    document: &HandoffDocument,
    id: &str,
    location: HandoffLocation,
    filter: StatusFilter,
) -> (r: bool)
    ensures
        r == links(*document, id@, location, filter),
{
    if document.location != location {
        return false;
    }
    let status_ok = match filter {
        StatusFilter::Active => match document.status {
            Some(HandoffStatus::Active) => true,
            _ => false,
        },
        StatusFilter::NotActive => match document.status {
            Some(HandoffStatus::Active) => false,
            _ => true,
        },
        StatusFilter::Any => true,
    };
    if !status_ok {
        return false;
    }
    match &document.pending_work_identifier_raw {
        Some(raw) => str_eq_ignore_case(raw.as_str(), id),
        None => false,
    }
}

proof fn lemma_link_count_single(
    documents: Seq<HandoffDocument>,
    id: Seq<char>,
    location: HandoffLocation,
    filter: StatusFilter,
    k: int,
)
    requires
        0 <= k < documents.len(),
        links(documents[k], id, location, filter),
    ensures
        link_count(documents, id, location, filter) >= 1,
    decreases documents.len(),
{
    if k < documents.len() - 1 {
        assert(documents.drop_last()[k] == documents[k]);
        lemma_link_count_single(documents.drop_last(), id, location, filter, k);
    }
}

/// The one document of `documents` that links `pending_work_identifier` in `location` with
/// an accepted status: `None` when there is none, an ambiguity error when there are several.
pub fn find_linked<E>(
    documents: &Vec<HandoffDocument>,
    pending_work_identifier: &str,
    location: HandoffLocation,
    filter: StatusFilter,
    directory: &str,
) -> (r: Result<Option<usize>, HandoffError<E>>)
    ensures
        ({
            let count = link_count(documents@, pending_work_identifier@, location, filter);
            match r {
                Ok(None) => count == 0,
                Ok(Some(i)) => count == 1 && i < documents.len() && links(
                    documents@[i as int],
                    pending_work_identifier@,
                    location,
                    filter,
                ),
                Err(e) => count >= 2 && (e matches HandoffError::AmbiguousHandoff { id, directory: d }
                    && id@ == pending_work_identifier@ && d@ == directory@),
            }
        }),
{
    let ghost id = pending_work_identifier@;
    let mut first: Option<usize> = None;
    let mut i: usize = 0;
    while i < documents.len()
        invariant
            i <= documents.len(),
            id == pending_work_identifier@,
            match first {
                None => link_count(documents@.take(i as int), id, location, filter) == 0,
                Some(k) => link_count(documents@.take(i as int), id, location, filter) == 1 && k
                    < i && links(documents@[k as int], id, location, filter),
            },
        decreases documents.len() - i,
    {
        let hit = document_links(&documents[i], pending_work_identifier, location, filter);
        proof {
            assert(documents@.take(i + 1).drop_last() =~= documents@.take(i as int));
            assert(documents@.take(i + 1).last() == documents@[i as int]);
        }
        if hit {
            match first {
                Some(_) => {
                    proof {
                        lemma_link_count_prefix(documents@, id, location, filter, i + 1);
                    }
                    return Err(
                        HandoffError::AmbiguousHandoff {
                            id: pending_work_identifier.to_owned(),
                            directory: directory.to_owned(),
                        },
                    );
                },
                None => {
                    first = Some(i);
                },
            }
        }
        i = i + 1;
    }
    assert(documents@.take(documents.len() as int) =~= documents@);
    Ok(first)
}

proof fn lemma_link_count_prefix(
    documents: Seq<HandoffDocument>,
    id: Seq<char>,
    location: HandoffLocation,
    filter: StatusFilter,
    n: int,
)
    requires
        0 <= n <= documents.len(),
    ensures
        link_count(documents.take(n), id, location, filter) <= link_count(
            documents,
            id,
            location,
            filter,
        ),
    decreases documents.len() - n,
{
    if n < documents.len() {
        lemma_link_count_prefix(documents, id, location, filter, n + 1);
        assert(documents.take(n + 1).drop_last() =~= documents.take(n));
    } else {
        assert(documents.take(n) =~= documents);
    }
}

} // verus!
