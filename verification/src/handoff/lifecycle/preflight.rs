//! Checks a handoff lifecycle change before the pending-work item is written.
use vstd::prelude::*;
use crate::handoff::lifecycle::link_count;

use crate::handoff::lifecycle::{
    action_status, cancelled_body, cancelled_body_of, continuation_prompt_of, forward_slashes,
    find_linked, handoff_body, handoff_body_of, handoff_continuation_prompt, handoff_directory,
    handoff_directory_of, handoff_file_name, handoff_path, handoff_path_of, links, path_forward,
    scope, CloseHandoffAction, GateItem, MoveOutcome, PendingDelete, PendingHandoffMutation,
    PendingMove, PendingScaffold, StatusFilter,
};
use crate::handoff::naming::{continuation_title, continuation_title_of, file_name_of};
use crate::handoff::ports::{HandoffStore, LinkedPendingWork};
use crate::pending_work::tags::{contains_name, frontmatter_tags, parse_tag_frontmatter};
use crate::handoff::{
    HandoffDocument, HandoffDocumentIdentifier, HandoffDocumentScopePresence, HandoffError,
    HandoffLocation, HandoffPatch, HandoffScope, HandoffStatus, NewHandoffDocument,
};
use crate::pending_work::identifier::{parse, parse_id};
use crate::pending_work::project_registry::{
    id_prefix, opt_ref_view, opt_view, prefix_is, row_repository, ProjectRegistry, Row,
};
use crate::text::{chars_of, seq_le, seq_lt, trim, trimmed};

verus! {

/// The project whose prefix owns a canonical identifier, first in name order.
pub open spec fn project_of_id(rows: Seq<Row>, id: Seq<char>) -> Option<Seq<char>> {
    let found = rows.filter(prefix_is(id_prefix(id)));
    if found.len() > 0 {
        Some(found[0].0)
    } else {
        None
    }
}

/// The canonical identifier and owning project looked up for a raw identifier.
pub open spec fn gate_lookup(rows: Seq<Row>, raw: Seq<char>) -> Option<(Seq<char>, Seq<char>)> {
    match parse_id(raw) {
        None => None,
        Some(id) => match project_of_id(rows, id) {
            None => None,
            Some(project) => Some((id, project)),
        },
    }
}

/// A configured repository, unless absent or blank.
pub open spec fn usable_repository(repository: Option<Seq<char>>) -> Option<Seq<char>> {
    match repository {
        Some(root) => if trim(root).len() > 0 {
            Some(root)
        } else {
            None
        },
        None => None,
    }
}

/// A project's configured repository, unless absent or blank.
pub open spec fn gate_repository(rows: Seq<Row>, project: Seq<char>) -> Option<Seq<char>> {
    usable_repository(row_repository(rows, project))
}

/// The repository a raw identifier addresses, when the lookup gets that far.
pub open spec fn gate_root(rows: Seq<Row>, raw: Seq<char>) -> Option<Seq<char>> {
    match gate_lookup(rows, raw) {
        Some((_, project)) => gate_repository(rows, project),
        None => None,
    }
}

/// The canonical identifier looked up for a raw identifier.
pub open spec fn gate_id(rows: Seq<Row>, raw: Seq<char>) -> Option<Seq<char>> {
    match gate_lookup(rows, raw) {
        Some((id, _)) => Some(id),
        None => None,
    }
}

/// A `HandoffNotFound` for `raw` names its identifier and the directory searched.
pub open spec fn names_searched_directory(
    rows: Seq<Row>,
    raw: Seq<char>,
    id: Seq<char>,
    directory: Seq<char>,
    location: HandoffLocation,
) -> bool {
    &&& gate_id(rows, raw) == Some(id)
    &&& gate_root(rows, raw) is Some
    &&& directory == handoff_directory_of(gate_root(rows, raw).unwrap(), location)
}

/// Whether `m` archives its snapshot for a close of kind `action` on `completed`: to
/// `archived/`, with the close's status and date and, for a cancel, `report` appended to its
/// body.
pub open spec fn archives(
    m: PendingMove,
    action: CloseHandoffAction,
    completed: Seq<char>,
    report: Seq<char>,
) -> bool {
    &&& m.outcome == MoveOutcome::Archived
    &&& m.patch.location == Some(HandoffLocation::Archived)
    &&& m.patch.status == Some(action_status(action))
    &&& (m.patch.completed matches Some(Some(c)) && c@ == completed)
    &&& match action {
        CloseHandoffAction::Cancelled => opt_view(m.patch.body) == Some(
            cancelled_body_of(m.snapshot.body@, report),
        ),
        CloseHandoffAction::Done => m.patch.body is None,
    }
    &&& m.patch.pending_work_identifier is None
}

/// Whether `m` restores its snapshot to the active directory with status `active` and no
/// completion date.
pub open spec fn restores(m: PendingMove) -> bool {
    &&& m.outcome == MoveOutcome::Reopened
    &&& m.patch.location == Some(HandoffLocation::Active)
    &&& m.patch.status == Some(HandoffStatus::Active)
    &&& m.patch.completed == Some(None::<String>)
    &&& m.patch.body is None
    &&& m.patch.pending_work_identifier is None
}

/// The move that archives `snapshot` when the looked-up item is closed.
pub open spec fn is_archive_move(
    m: PendingMove,
    id: Seq<char>,
    root: Seq<char>,
    action: CloseHandoffAction,
    completed: Seq<char>,
    report: Seq<char>,
) -> bool {
    &&& m.scope.repository_root@ == root
    &&& links(m.snapshot, id, HandoffLocation::Active, StatusFilter::Active)
    &&& archives(m, action, completed, report)
}

/// The move that restores an archived `snapshot` when the looked-up item is reopened.
pub open spec fn is_reopen_move(m: PendingMove, id: Seq<char>, root: Seq<char>) -> bool {
    &&& m.scope.repository_root@ == root
    &&& links(m.snapshot, id, HandoffLocation::Archived, StatusFilter::NotActive)
    &&& restores(m)
}

/// Where a move puts its snapshot.
pub open spec fn move_target(outcome: MoveOutcome) -> HandoffLocation {
    match outcome {
        MoveOutcome::Archived => HandoffLocation::Archived,
        MoveOutcome::Reopened => HandoffLocation::Active,
    }
}

/// The scaffold of a new handoff titled `title`, created on `created`, in `root`.
pub open spec fn is_scaffold(
    p: PendingScaffold,
    root: Seq<char>,
    project: Seq<char>,
    title: Seq<char>,
    created: Seq<char>,
) -> bool {
    let file_name = file_name_of(created, title);
    &&& p.scope.repository_root@ == root
    &&& p.identifier.file_name@ == file_name
    &&& p.identifier.location == HandoffLocation::Active
    &&& p.path@ == handoff_path_of(root, file_name, HandoffLocation::Active)
    &&& p.document.file_name@ == file_name
    &&& p.document.project@ == project
    &&& p.document.title@ == title
    &&& p.document.created@ == created
    &&& p.document.body@ == handoff_body_of(title)
    &&& p.document.pending_work_identifier is None
}

/// Whether `i` is the newest active document: greatest by modification time, then file
/// name, and the last such.
pub open spec fn not_newer(a: HandoffDocument, b: HandoffDocument) -> bool {
    a.modified_nanos < b.modified_nanos || (a.modified_nanos == b.modified_nanos && seq_le(
        a.identifier.file_name@,
        b.identifier.file_name@,
    ))
}

pub open spec fn is_newest(documents: Seq<HandoffDocument>, i: int) -> bool {
    &&& 0 <= i < documents.len()
    &&& documents[i].location == HandoffLocation::Active
    &&& forall|j: int|
        0 <= j < documents.len() && #[trigger] documents[j].location == HandoffLocation::Active
            ==> not_newer(documents[j], documents[i])
    &&& forall|j: int|
        i < j < documents.len() && #[trigger] documents[j].location == HandoffLocation::Active
            ==> !not_newer(documents[i], documents[j])
}

/// The part of `path` below `base`, as `Path::strip_prefix` computes it (path syntax as on
/// Unix targets, where only `/` separates components).
pub uninterp spec fn path_strip_prefix(path: Seq<char>, base: Seq<char>) -> Option<Seq<char>>;

/// The repository-relative path of a document, with forward slashes.
pub open spec fn relative_locator(root: Seq<char>, locator: Seq<char>) -> Seq<char> {
    forward_slashes(
        match path_strip_prefix(locator, root) {
            Some(relative) => relative,
            None => locator,
        },
    )
}

// ---------------------------------------------------------------------------------------
/// `Path::strip_prefix`: `path` without the leading components that make up `base`, or
/// `None` when `base` is not a component-wise prefix of `path`. What it returns is the name
/// `path_strip_prefix`.
#[verifier::external_body]
fn strip_path_prefix(path: &str, base: &str) -> (r: Option<String>)
    ensures
        opt_view(r) == path_strip_prefix(path@, base@),
{
    match std::path::Path::new(path).strip_prefix(base) {
        Ok(relative) => Some(relative.to_string_lossy().into_owned()),
        Err(_) => None,
    }
}

fn is_blank(s: &str) -> (r: bool)
    ensures
        r == (trim(s@).len() == 0),
{
    let v = chars_of(s);
    trimmed(&v).len() == 0
}

/// How an item's `tags` frontmatter links it to a handoff: unlinked without tags, linked
/// when its tags parse and name `handoff`, and unreadable (`None`) when they do not parse.
pub open spec fn handoff_link_of(tags: Option<Seq<char>>) -> Option<bool> {
    match tags {
        None => Some(false),
        Some(raw) => match frontmatter_tags(raw) {
            None => None,
            Some(names) => Some(names.contains("handoff"@)),
        },
    }
}

/// Whether an item's `tags` frontmatter links it to a handoff; the raw value when it does
/// not parse.
pub fn handoff_tagged(tags: Option<String>) -> (r: Result<bool, String>)
    ensures
        match handoff_link_of(opt_view(tags)) {
            Some(linked) => r == Ok::<bool, String>(linked),
            None => r matches Err(raw) && tags == Some(raw),
        },
{
    match tags {
        None => Ok(false),
        Some(raw) => match parse_tag_frontmatter(raw.as_str()) {
            None => Err(raw),
            Some(names) => Ok(contains_name(&names, "handoff")),
        },
    }
}

/// What the stored item decides for its handoff link: no item, or an item without the `handoff` tag,
/// is not linked; tags that do not parse are `InvalidTags`; a linked item needs its project's
/// repository configured and not blank, else the project is `UnmanagedProject`. A linked item
/// gives that repository.
pub fn gate_item<E>(
    identifier: &String,
    project: &String,
    item: Option<LinkedPendingWork>,
    repository: Option<&String>,
) -> (r: Result<Option<String>, HandoffError<E>>)
    ensures
        match item {
            None => r matches Ok(None),
            Some(found) => match handoff_link_of(opt_view(found.tags)) {
                None => (r matches Err(HandoffError::InvalidTags { id, raw }) && id@ == identifier@
                    && found.tags == Some(raw)),
                Some(false) => r matches Ok(None),
                Some(true) => match usable_repository(opt_ref_view(repository)) {
                    Some(root) => (r matches Ok(Some(x)) && x@ == root),
                    None => (r matches Err(HandoffError::UnmanagedProject { id, project: p })
                        && id@ == identifier@ && p@ == project@),
                },
            },
        },
{
    let found = match item {
        None => return Ok(None),
        Some(found) => found,
    };
    match handoff_tagged(found.tags) {
        Err(raw) => return Err(HandoffError::InvalidTags { id: identifier.clone(), raw }),
        Ok(false) => return Ok(None),
        Ok(true) => {},
    }
    match repository {
        Some(root) => {
            if is_blank(root.as_str()) {
                Err(HandoffError::UnmanagedProject { id: identifier.clone(), project: project.clone() })
            } else {
                Ok(Some(root.clone()))
            }
        },
        None => Err(HandoffError::UnmanagedProject { id: identifier.clone(), project: project.clone() }),
    }
}

/// What the store's answer on the repository decides for a linked item: a missing repository is
/// `RepositoryMissing` for it; otherwise the item and its handoff scope pass.
pub fn gate_presence<E>(
    identifier: String,
    scope: HandoffScope,
    presence: HandoffDocumentScopePresence,
) -> (r: Result<Option<GateItem>, HandoffError<E>>)
    ensures
        presence == HandoffDocumentScopePresence::RepositoryMissing ==> (r matches Err(
            HandoffError::RepositoryMissing { id, path },
        ) && id == identifier && path == scope.repository_root),
        presence != HandoffDocumentScopePresence::RepositoryMissing ==> (r matches Ok(Some(g))
            && g.pending_work_identifier == identifier && g.scope == scope),
{
    match presence {
        HandoffDocumentScopePresence::RepositoryMissing => Err(
            HandoffError::RepositoryMissing { id: identifier, path: scope.repository_root },
        ),
        _ => Ok(Some(GateItem { pending_work_identifier: identifier, scope })),
    }
}

/// Finds the handoff-tagged item behind a raw identifier and the repository its handoffs
/// live in. Unparseable identifiers, identifiers of no managed project, missing items and
/// items without the `handoff` tag are not linked.
pub fn handoff_gate<S: HandoffStore>(store: &S, projects: &ProjectRegistry, raw: &str) -> (r: Result<
    Option<GateItem>,
    HandoffError<S::Error>,
>)
    ensures
        gate_lookup(projects.rows(), raw@) is None ==> r matches Ok(None),
        r matches Ok(Some(g)) ==> (gate_lookup(projects.rows(), raw@) matches Some((id, project))
            && g.pending_work_identifier@ == id && gate_repository(projects.rows(), project)
            == Some(g.scope.repository_root@)),
        r matches Err(HandoffError::UnmanagedProject { id, project }) ==> gate_lookup(
            projects.rows(),
            raw@,
        ) == Some((id@, project@)) && gate_repository(projects.rows(), project@) is None,
        r matches Err(HandoffError::RepositoryMissing { id, path }) ==> (gate_lookup(
            projects.rows(),
            raw@,
        ) matches Some((i, _)) && i == id@ && gate_root(projects.rows(), raw@) == Some(path@)),
        r matches Err(HandoffError::InvalidTags { id, raw: tags }) ==> (gate_lookup(
            projects.rows(),
            raw@,
        ) matches Some((i, _)) && i == id@ && handoff_link_of(Some(tags@)) is None),
        r matches Err(HandoffError::ReadDocuments { path, source: _ }) ==> gate_root(
            projects.rows(),
            raw@,
        ) == Some(path@),
        r matches Err(e) ==> (e is ReadPendingWork || e is InvalidTags || e is UnmanagedProject
            || e is RepositoryMissing || e is ReadDocuments),
{
    let identifier = match parse(raw) {
        Some(identifier) => identifier,
        None => return Ok(None),
    };
    let project = match projects.project_for_id(identifier.as_str()) {
        Some(project) => project,
        None => return Ok(None),
    };
    let item = match store.pending_work(project.as_str(), identifier.as_str()) {
        Err(source) => return Err(HandoffError::ReadPendingWork { source }),
        Ok(item) => item,
    };
    let repository = match gate_item(&identifier, project, item, projects.repo_for(project.as_str())) {
        Err(e) => return Err(e),
        Ok(None) => return Ok(None),
        Ok(Some(repository)) => repository,
    };
    let scope = scope(repository.as_str());
    match store.scope_presence(&scope) {
        Err(source) => Err(
            HandoffError::ReadDocuments { path: scope.repository_root.clone(), source },
        ),
        Ok(presence) => gate_presence(identifier, scope, presence),
    }
}

/// The documents of one of the looked-up item's handoff directories.
pub fn documents_location<S: HandoffStore>(
    store: &S,
    gate: &GateItem,
    location: HandoffLocation,
) -> (r: Result<Vec<HandoffDocument>, HandoffError<S::Error>>)
    ensures
        r matches Err(e) ==> (e matches HandoffError::ReadDocuments { path, source: _ } && path@
            == handoff_directory_of(gate.scope.repository_root@, location)),
{
    match store.list_location(&gate.scope, location) {
        Ok(documents) => Ok(documents),
        Err(source) => Err(
            HandoffError::ReadDocuments { path: handoff_directory(&gate.scope, location), source },
        ),
    }
}

/// The handoff a new scaffold creates: titled `title` and dated `created`, in the active
/// directory of `repository_root`, for `project`, not yet linked to an item.
pub fn scaffold_of(repository_root: &str, project: &str, title: &str, created: &str) -> (r:
    PendingScaffold)
    ensures
        is_scaffold(r, repository_root@, project@, title@, created@),
{
    let scope = scope(repository_root);
    let file_name = handoff_file_name(created, title);
    let identifier = HandoffDocumentIdentifier {
        file_name: file_name.clone(),
        location: HandoffLocation::Active,
    };
    let path = handoff_path(&scope, &identifier);
    PendingScaffold {
        scope,
        document: NewHandoffDocument {
            file_name,
            project: project.to_owned(),
            title: title.to_owned(),
            created: created.to_owned(),
            body: handoff_body(title),
            pending_work_identifier: None,
        },
        identifier,
        path,
    }
}

/// What the store's answer on the repository decides for a new handoff: a missing
/// repository is `RepositoryMissing` for `project` at `repository_root`.
pub fn scaffold_repository<E>(
    project: &str,
    repository_root: &str,
    presence: HandoffDocumentScopePresence,
) -> (r: Result<(), HandoffError<E>>)
    ensures
        presence == HandoffDocumentScopePresence::RepositoryMissing ==> (r matches Err(
            HandoffError::RepositoryMissing { id, path },
        ) && id@ == project@ && path@ == repository_root@),
        presence != HandoffDocumentScopePresence::RepositoryMissing ==> r is Ok,
{
    match presence {
        HandoffDocumentScopePresence::RepositoryMissing => Err(
            HandoffError::RepositoryMissing {
                id: project.to_owned(),
                path: repository_root.to_owned(),
            },
        ),
        _ => Ok(()),
    }
}

/// The scaffold, unless a handoff of its file name is already active.
pub fn scaffold_destination<E>(scaffold: PendingScaffold, exists: bool) -> (r: Result<
    PendingScaffold,
    HandoffError<E>,
>)
    ensures
        exists ==> (r matches Err(HandoffError::ActiveDestinationExists { path }) && path
            == scaffold.path),
        !exists ==> r == Ok::<PendingScaffold, HandoffError<E>>(scaffold),
{
    if exists {
        Err(HandoffError::ActiveDestinationExists { path: scaffold.path })
    } else {
        Ok(scaffold)
    }
}

/// Checks that a new handoff titled `title` can be created in `repository_root`.
pub fn preflight_scaffold<S: HandoffStore>(
    store: &S,
    repository_root: &str,
    project: &str,
    title: &str,
    created: &str,
) -> (r: Result<PendingScaffold, HandoffError<S::Error>>)
    ensures
        r matches Ok(p) ==> is_scaffold(p, repository_root@, project@, title@, created@),
        r matches Err(HandoffError::RepositoryMissing { id, path }) ==> id@ == project@ && path@
            == repository_root@,
        r matches Err(HandoffError::ActiveDestinationExists { path }) ==> path@ == handoff_path_of(
            repository_root@,
            file_name_of(created@, title@),
            HandoffLocation::Active,
        ),
        r matches Err(HandoffError::ReadDocuments { path, source: _ }) ==> path@
            == repository_root@ || path@ == handoff_path_of(
            repository_root@,
            file_name_of(created@, title@),
            HandoffLocation::Active,
        ),
        r matches Err(e) ==> (e is RepositoryMissing || e is ActiveDestinationExists
            || e is ReadDocuments),
{
    let scaffold = scaffold_of(repository_root, project, title, created);
    match store.scope_presence(&scaffold.scope) {
        Err(source) => {
            return Err(
                HandoffError::ReadDocuments { path: scaffold.scope.repository_root.clone(), source },
            );
        },
        Ok(presence) => match scaffold_repository(project, repository_root, presence) {
            Ok(()) => {},
            Err(e) => return Err(e),
        },
    }
    match store.document_exists(&scaffold.scope, &scaffold.identifier) {
        Err(source) => Err(HandoffError::ReadDocuments { path: scaffold.path.clone(), source }),
        Ok(exists) => scaffold_destination(scaffold, exists),
    }
}

/// What a lookup in the target directory decides once the item has no handoff to move: a
/// handoff already there means nothing is left to do, none means the handoff is missing
/// from the directory first searched, and an ambiguous lookup fails as it is.
pub fn settled_outcome<E>(
    in_target: Result<Option<usize>, HandoffError<E>>,
    id: String,
    searched: String,
) -> (r: Result<PendingHandoffMutation, HandoffError<E>>)
    ensures
        match in_target {
            Ok(Some(_)) => r matches Ok(PendingHandoffMutation::AlreadyInTargetState),
            Ok(None) => r matches Err(HandoffError::HandoffNotFound { id: x, directory }) && x
                == id && directory == searched,
            Err(e) => r == Err::<PendingHandoffMutation, HandoffError<E>>(e),
        },
{
    match in_target {
        Err(e) => Err(e),
        Ok(Some(_)) => Ok(PendingHandoffMutation::AlreadyInTargetState),
        Ok(None) => Err(HandoffError::HandoffNotFound { id, directory: searched }),
    }
}

/// What a lookup of `id` in one listing gives: no link, the index of the one link, or the
/// ambiguity error for `directory` when several documents link it.
pub open spec fn found_once<E>(
    documents: Seq<HandoffDocument>,
    id: Seq<char>,
    location: HandoffLocation,
    filter: StatusFilter,
    directory: Seq<char>,
    r: Result<Option<usize>, HandoffError<E>>,
) -> bool {
    let count = link_count(documents, id, location, filter);
    match r {
        Ok(None) => count == 0,
        Ok(Some(i)) => count == 1 && i < documents.len() && links(documents[i as int], id, location, filter),
        Err(e) => count >= 2 && (e matches HandoffError::AmbiguousHandoff { id: x, directory: d }
            && x@ == id && d@ == directory),
    }
}

/// What the listing of the target directory decides when the item has nothing to move: one
/// link there means the handoff is already in place, none means it is missing from the
/// directory `searched` first, several are ambiguous in `directory`.
pub open spec fn settled_in_target<E>(
    documents: Seq<HandoffDocument>,
    id: Seq<char>,
    location: HandoffLocation,
    filter: StatusFilter,
    searched: Seq<char>,
    directory: Seq<char>,
    r: Result<PendingHandoffMutation, HandoffError<E>>,
) -> bool {
    let count = link_count(documents, id, location, filter);
    &&& (count == 0 ==> (r matches Err(HandoffError::HandoffNotFound { id: x, directory: d })
        && x@ == id && d@ == searched))
    &&& (count == 1 ==> (r matches Ok(PendingHandoffMutation::AlreadyInTargetState)))
    &&& (count >= 2 ==> (r matches Err(HandoffError::AmbiguousHandoff { id: x, directory: d })
        && x@ == id && d@ == directory))
}

/// The handoff a close archives: the one active document with active status linked to `id`.
pub fn close_source<E>(active_documents: &Vec<HandoffDocument>, id: &str, active_directory: &str) -> (r: Result<
    Option<usize>,
    HandoffError<E>,
>)
    ensures
        found_once(active_documents@, id@, HandoffLocation::Active, StatusFilter::Active, active_directory@, r),
{
    find_linked(active_documents, id, HandoffLocation::Active, StatusFilter::Active, active_directory)
}

/// What the archived listing decides for a close that found nothing to archive: an archived
/// link of any status means the handoff is already archived.
pub fn close_settled<E>(
    archived_documents: &Vec<HandoffDocument>,
    id: String,
    active_directory: String,
    archived_directory: &str,
) -> (r: Result<PendingHandoffMutation, HandoffError<E>>)
    ensures
        settled_in_target(
            archived_documents@,
            id@,
            HandoffLocation::Archived,
            StatusFilter::Any,
            active_directory@,
            archived_directory@,
            r,
        ),
{
    let in_target = find_linked(
        archived_documents,
        id.as_str(),
        HandoffLocation::Archived,
        StatusFilter::Any,
        archived_directory,
    );
    settled_outcome(in_target, id, active_directory)
}

/// The handoff a reopen restores: the one archived document that is no longer active and is
/// linked to `id`.
pub fn reopen_source<E>(archived_documents: &Vec<HandoffDocument>, id: &str, archived_directory: &str) -> (r: Result<
    Option<usize>,
    HandoffError<E>,
>)
    ensures
        found_once(
            archived_documents@,
            id@,
            HandoffLocation::Archived,
            StatusFilter::NotActive,
            archived_directory@,
            r,
        ),
{
    find_linked(archived_documents, id, HandoffLocation::Archived, StatusFilter::NotActive, archived_directory)
}

/// What the active listing decides for a reopen that found nothing to restore: an active link
/// with active status means the handoff is already active.
pub fn reopen_settled<E>(
    active_documents: &Vec<HandoffDocument>,
    id: String,
    archived_directory: String,
    active_directory: &str,
) -> (r: Result<PendingHandoffMutation, HandoffError<E>>)
    ensures
        settled_in_target(
            active_documents@,
            id@,
            HandoffLocation::Active,
            StatusFilter::Active,
            archived_directory@,
            active_directory@,
            r,
        ),
{
    let in_target = find_linked(
        active_documents,
        id.as_str(),
        HandoffLocation::Active,
        StatusFilter::Active,
        active_directory,
    );
    settled_outcome(in_target, id, archived_directory)
}

/// The move that archives `snapshot` of `scope` for a close of kind `action` on
/// `completed`.
pub fn archive_move(
    scope: HandoffScope,
    snapshot: HandoffDocument,
    action: CloseHandoffAction,
    completed: &str,
    report: Option<&str>,
) -> (r: PendingMove)
    ensures
        r.scope == scope,
        r.snapshot == snapshot,
        archives(
            r,
            action,
            completed@,
            match report {
                Some(text) => text@,
                None => Seq::empty(),
            },
        ),
{
    let body = match action {
        CloseHandoffAction::Cancelled => Some(
            cancelled_body(
                snapshot.body.as_str(),
                match report {
                    Some(text) => text,
                    None => "",
                },
            ),
        ),
        CloseHandoffAction::Done => None,
    };
    proof {
        reveal_strlit("");
    }
    PendingMove {
        scope,
        snapshot,
        patch: HandoffPatch {
            location: Some(HandoffLocation::Archived),
            status: Some(action.status()),
            completed: Some(Some(completed.to_owned())),
            body,
            pending_work_identifier: None,
        },
        outcome: MoveOutcome::Archived,
    }
}

/// The move that restores `snapshot` of `scope` to the active directory.
pub fn reopen_move(scope: HandoffScope, snapshot: HandoffDocument) -> (r: PendingMove)
    ensures
        r.scope == scope,
        r.snapshot == snapshot,
        restores(r),
{
    PendingMove {
        scope,
        snapshot,
        patch: HandoffPatch {
            location: Some(HandoffLocation::Active),
            status: Some(HandoffStatus::Active),
            completed: Some(None),
            body: None,
            pending_work_identifier: None,
        },
        outcome: MoveOutcome::Reopened,
    }
}

/// A move, unless a document of its file name already sits where it goes: then
/// `ArchivedDestinationExists` for an archive and `ActiveDestinationExists` for a restore,
/// naming that path.
pub fn move_unless_taken<E>(m: PendingMove, taken: bool) -> (r: Result<
    PendingHandoffMutation,
    HandoffError<E>,
>)
    ensures
        !taken ==> r == Ok::<PendingHandoffMutation, HandoffError<E>>(
            PendingHandoffMutation::Move(m),
        ),
        taken && m.outcome == MoveOutcome::Archived ==> (r matches Err(
            HandoffError::ArchivedDestinationExists { path },
        ) && path@ == handoff_path_of(
            m.scope.repository_root@,
            m.snapshot.identifier.file_name@,
            HandoffLocation::Archived,
        )),
        taken && m.outcome == MoveOutcome::Reopened ==> (r matches Err(
            HandoffError::ActiveDestinationExists { path },
        ) && path@ == handoff_path_of(
            m.scope.repository_root@,
            m.snapshot.identifier.file_name@,
            HandoffLocation::Active,
        )),
{
    if !taken {
        return Ok(PendingHandoffMutation::Move(m));
    }
    let destination = HandoffDocumentIdentifier {
        file_name: m.snapshot.identifier.file_name.clone(),
        location: match m.outcome {
            MoveOutcome::Archived => HandoffLocation::Archived,
            MoveOutcome::Reopened => HandoffLocation::Active,
        },
    };
    let path = handoff_path(&m.scope, &destination);
    match m.outcome {
        MoveOutcome::Archived => Err(HandoffError::ArchivedDestinationExists { path }),
        MoveOutcome::Reopened => Err(HandoffError::ActiveDestinationExists { path }),
    }
}

/// Checks that closing the item behind `pending_work_identifier` can archive its linked
/// handoff: the one active link becomes a move to `archived/` with the close's status and
/// date, and, for a cancel, the report appended to its body.
pub fn preflight_close<S: HandoffStore>(
    store: &S,
    projects: &ProjectRegistry,
    pending_work_identifier: &str,
    action: CloseHandoffAction,
    completed: &str,
    report: Option<&str>,
) -> (r: Result<PendingHandoffMutation, HandoffError<S::Error>>)
    ensures
        gate_lookup(projects.rows(), pending_work_identifier@) is None ==> r matches Ok(
            PendingHandoffMutation::NotLinked,
        ),
        r matches Ok(PendingHandoffMutation::Move(m)) ==> (gate_lookup(
            projects.rows(),
            pending_work_identifier@,
        ) matches Some((id, _)) && gate_root(projects.rows(), pending_work_identifier@) == Some(
            m.scope.repository_root@,
        ) && is_archive_move(
            m,
            id,
            m.scope.repository_root@,
            action,
            completed@,
            match report {
                Some(text) => text@,
                None => Seq::empty(),
            },
        )),
        r matches Ok(m) ==> (m is NotLinked || m is AlreadyInTargetState || m is Move),
        r matches Ok(PendingHandoffMutation::AlreadyInTargetState) ==> gate_root(
            projects.rows(),
            pending_work_identifier@,
        ) is Some,
        r matches Err(HandoffError::HandoffNotFound { id, directory }) ==> names_searched_directory(
            projects.rows(),
            pending_work_identifier@,
            id@,
            directory@,
            HandoffLocation::Active,
        ),
{
    let gate = match handoff_gate(store, projects, pending_work_identifier) {
        Err(e) => return Err(e),
        Ok(None) => return Ok(PendingHandoffMutation::NotLinked),
        Ok(Some(gate)) => gate,
    };
    let active_directory = handoff_directory(&gate.scope, HandoffLocation::Active);
    let mut active_documents = match documents_location(store, &gate, HandoffLocation::Active) {
        Ok(documents) => documents,
        Err(e) => return Err(e),
    };
    let found = match close_source(
        &active_documents,
        gate.pending_work_identifier.as_str(),
        active_directory.as_str(),
    ) {
        Ok(found) => found,
        Err(e) => return Err(e),
    };
    let index = match found {
        Some(index) => index,
        None => {
            let archived_directory = handoff_directory(&gate.scope, HandoffLocation::Archived);
            let archived_documents = match documents_location(
                store,
                &gate,
                HandoffLocation::Archived,
            ) {
                Ok(documents) => documents,
                Err(e) => return Err(e),
            };
            return close_settled(
                &archived_documents,
                gate.pending_work_identifier,
                active_directory,
                archived_directory.as_str(),
            );
        },
    };
    let snapshot = active_documents.remove(index);
    let destination = HandoffDocumentIdentifier {
        file_name: snapshot.identifier.file_name.clone(),
        location: HandoffLocation::Archived,
    };
    let taken = match store.document_exists(&gate.scope, &destination) {
        Err(source) => {
            return Err(
                HandoffError::ReadDocuments { path: handoff_path(&gate.scope, &destination), source },
            );
        },
        Ok(taken) => taken,
    };
    move_unless_taken(archive_move(gate.scope, snapshot, action, completed, report), taken)
}

/// Checks that reopening the item behind `pending_work_identifier` can restore its archived
/// handoff to the active directory with status `active` and no completion date.
pub fn preflight_reopen<S: HandoffStore>(
    store: &S,
    projects: &ProjectRegistry,
    pending_work_identifier: &str,
) -> (r: Result<PendingHandoffMutation, HandoffError<S::Error>>)
    ensures
        gate_lookup(projects.rows(), pending_work_identifier@) is None ==> r matches Ok(
            PendingHandoffMutation::NotLinked,
        ),
        r matches Ok(PendingHandoffMutation::Move(m)) ==> (gate_lookup(
            projects.rows(),
            pending_work_identifier@,
        ) matches Some((id, _)) && gate_root(projects.rows(), pending_work_identifier@) == Some(
            m.scope.repository_root@,
        ) && is_reopen_move(m, id, m.scope.repository_root@)),
        r matches Ok(m) ==> (m is NotLinked || m is AlreadyInTargetState || m is Move),
        r matches Ok(PendingHandoffMutation::AlreadyInTargetState) ==> gate_root(
            projects.rows(),
            pending_work_identifier@,
        ) is Some,
        r matches Err(HandoffError::HandoffNotFound { id, directory }) ==> names_searched_directory(
            projects.rows(),
            pending_work_identifier@,
            id@,
            directory@,
            HandoffLocation::Archived,
        ),
{
    let gate = match handoff_gate(store, projects, pending_work_identifier) {
        Err(e) => return Err(e),
        Ok(None) => return Ok(PendingHandoffMutation::NotLinked),
        Ok(Some(gate)) => gate,
    };
    let archived_directory = handoff_directory(&gate.scope, HandoffLocation::Archived);
    let mut archived_documents = match documents_location(
        store,
        &gate,
        HandoffLocation::Archived,
    ) {
        Ok(documents) => documents,
        Err(e) => return Err(e),
    };
    let found = match reopen_source(
        &archived_documents,
        gate.pending_work_identifier.as_str(),
        archived_directory.as_str(),
    ) {
        Ok(found) => found,
        Err(e) => return Err(e),
    };
    let index = match found {
        Some(index) => index,
        None => {
            let active_directory = handoff_directory(&gate.scope, HandoffLocation::Active);
            let active_documents = match documents_location(store, &gate, HandoffLocation::Active) {
                Ok(documents) => documents,
                Err(e) => return Err(e),
            };
            return reopen_settled(
                &active_documents,
                gate.pending_work_identifier,
                archived_directory,
                active_directory.as_str(),
            );
        },
    };
    let snapshot = archived_documents.remove(index);
    let destination = HandoffDocumentIdentifier {
        file_name: snapshot.identifier.file_name.clone(),
        location: HandoffLocation::Active,
    };
    let taken = match store.document_exists(&gate.scope, &destination) {
        Err(source) => {
            return Err(
                HandoffError::ReadDocuments { path: handoff_path(&gate.scope, &destination), source },
            );
        },
        Ok(taken) => taken,
    };
    move_unless_taken(reopen_move(gate.scope, snapshot), taken)
}

/// Checks that removing the item behind `pending_work_identifier` can delete its one active
/// linked handoff.
pub fn preflight_delete<S: HandoffStore>(
    store: &S,
    projects: &ProjectRegistry,
    pending_work_identifier: &str,
) -> (r: Result<PendingHandoffMutation, HandoffError<S::Error>>)
    ensures
        gate_lookup(projects.rows(), pending_work_identifier@) is None ==> r matches Ok(
            PendingHandoffMutation::NotLinked,
        ),
        r matches Ok(PendingHandoffMutation::Delete(d)) ==> (gate_lookup(
            projects.rows(),
            pending_work_identifier@,
        ) matches Some((id, _)) && gate_root(projects.rows(), pending_work_identifier@) == Some(
            d.scope.repository_root@,
        ) && links(d.snapshot, id, HandoffLocation::Active, StatusFilter::Active)),
        r matches Ok(m) ==> (m is NotLinked || m is Delete),
        r matches Err(HandoffError::HandoffNotFound { id, directory }) ==> names_searched_directory(
            projects.rows(),
            pending_work_identifier@,
            id@,
            directory@,
            HandoffLocation::Active,
        ),
{
    let gate = match handoff_gate(store, projects, pending_work_identifier) {
        Err(e) => return Err(e),
        Ok(None) => return Ok(PendingHandoffMutation::NotLinked),
        Ok(Some(gate)) => gate,
    };
    let active_directory = handoff_directory(&gate.scope, HandoffLocation::Active);
    let mut documents = match documents_location(store, &gate, HandoffLocation::Active) {
        Ok(documents) => documents,
        Err(e) => return Err(e),
    };
    match close_source(&documents, gate.pending_work_identifier.as_str(), active_directory.as_str()) {
        Err(e) => Err(e),
        Ok(None) => Err(
            HandoffError::HandoffNotFound {
                id: gate.pending_work_identifier,
                directory: active_directory,
            },
        ),
        Ok(Some(index)) => {
            let snapshot = documents.remove(index);
            Ok(PendingHandoffMutation::Delete(PendingDelete { scope: gate.scope, snapshot }))
        },
    }
}

/// The newest active document of `documents`, if any.
pub fn newest_document(documents: &Vec<HandoffDocument>) -> (r: Option<usize>)
    ensures
        match r {
            Some(i) => is_newest(documents@, i as int),
            None => forall|j: int|
                0 <= j < documents.len() ==> #[trigger] documents@[j].location
                    != HandoffLocation::Active,
        },
{
    let mut best: Option<usize> = None;
    let mut i: usize = 0;
    while i < documents.len()
        invariant
            i <= documents.len(),
            match best {
                Some(b) => b < i && is_newest(documents@.take(i as int), b as int),
                None => forall|j: int|
                    0 <= j < i ==> #[trigger] documents@[j].location != HandoffLocation::Active,
            },
        decreases documents.len() - i,
    {
        let d = &documents[i];
        let ghost prefix = documents@.take(i + 1);
        assert(prefix.drop_last() =~= documents@.take(i as int));
        if d.location == HandoffLocation::Active {
            let replace = match best {
                None => true,
                Some(b) => {
                    let e = &documents[b];
                    if e.modified_nanos < d.modified_nanos {
                        true
                    } else if e.modified_nanos > d.modified_nanos {
                        false
                    } else {
                        let ef = chars_of(e.identifier.file_name.as_str());
                        let df = chars_of(d.identifier.file_name.as_str());
                        crate::text::compare_chars(&ef, &df) <= 0
                    }
                },
            };
            proof {
                match best {
                    Some(b) => {
                        assert(replace == not_newer(documents@[b as int], documents@[i as int]));
                        lemma_newest_step(documents@, i as int, b as int, replace);
                    },
                    None => {
                        assert forall|j: int|
                            0 <= j < prefix.len() && #[trigger] prefix[j].location
                                == HandoffLocation::Active implies not_newer(prefix[j], prefix[i as int]) by {
                            assert(j == i);
                            crate::text::lemma_lt_irreflexive(prefix[j].identifier.file_name@);
                        }
                    },
                }
            }
            if replace {
                best = Some(i);
            }
        } else {
            proof {
                match best {
                    Some(b) => {
                        assert(is_newest(prefix, b as int));
                    },
                    None => {},
                }
            }
        }
        i = i + 1;
    }
    assert(documents@.take(documents.len() as int) =~= documents@);
    best
}

proof fn lemma_not_newer_total(a: HandoffDocument, b: HandoffDocument)
    ensures
        not_newer(a, b) || not_newer(b, a),
{
    crate::text::lemma_lt_total(a.identifier.file_name@, b.identifier.file_name@);
}

proof fn lemma_not_newer_transitive(a: HandoffDocument, b: HandoffDocument, c: HandoffDocument)
    requires
        not_newer(a, b),
        not_newer(b, c),
    ensures
        not_newer(a, c),
{
    if a.modified_nanos == b.modified_nanos && b.modified_nanos == c.modified_nanos {
        let (x, y, z) = (a.identifier.file_name@, b.identifier.file_name@, c.identifier.file_name@);
        if seq_lt(x, y) && seq_lt(y, z) {
            crate::text::lemma_lt_transitive(x, y, z);
        }
    }
}

proof fn lemma_newest_step(documents: Seq<HandoffDocument>, i: int, b: int, replace: bool)
    requires
        0 <= b < i < documents.len(),
        is_newest(documents.take(i), b),
        documents[i].location == HandoffLocation::Active,
        replace == not_newer(documents[b], documents[i]),
    ensures
        is_newest(documents.take(i + 1), if replace { i } else { b }),
{
    let p = documents.take(i);
    let q = documents.take(i + 1);
    assert(q[b] == p[b]);
    assert(q[i] == documents[i]);
    if replace {
        assert forall|j: int| 0 <= j < q.len() && #[trigger] q[j].location == HandoffLocation::Active implies not_newer(
            q[j],
            q[i],
        ) by {
            if j < i {
                assert(q[j] == p[j]);
                lemma_not_newer_transitive(q[j], q[b], q[i]);
            } else {
                lemma_not_newer_total(q[j], q[j]);
            }
        }
    } else {
        lemma_not_newer_total(documents[b], documents[i]);
        assert forall|j: int| 0 <= j < q.len() && #[trigger] q[j].location == HandoffLocation::Active implies not_newer(
            q[j],
            q[b],
        ) by {
            if j < i {
                assert(q[j] == p[j]);
            }
        }
        assert forall|j: int| b < j < q.len() && #[trigger] q[j].location == HandoffLocation::Active implies !not_newer(
            q[b],
            q[j],
        ) by {
            if j < i {
                assert(q[j] == p[j]);
            }
        }
    }
}

/// The continuation title and prompt for the handoff document `file_name` at `locator`.
pub fn continuation(repository_root: &str, locator: &str, file_name: &str) -> (r: (String, String))
    ensures
        r.0@ == continuation_title_of(file_name@),
        r.1@ == continuation_prompt_of(relative_locator(repository_root@, locator@)),
{
    let relative = match strip_path_prefix(locator, repository_root) {
        Some(relative) => relative,
        None => locator.to_owned(),
    };
    let relative = path_forward(relative.as_str());
    (continuation_title(file_name), handoff_continuation_prompt(relative.as_str()))
}

/// Whether continuing a handoff may read the active directory: only when the store reports
/// it present; otherwise `HandoffDirectoryMissing` for that directory.
pub fn require_directory<E>(repository_root: &str, presence: HandoffDocumentScopePresence) -> (r: Result<
    (),
    HandoffError<E>,
>)
    ensures
        presence == HandoffDocumentScopePresence::Present ==> r is Ok,
        presence != HandoffDocumentScopePresence::Present ==> (r matches Err(
            HandoffError::HandoffDirectoryMissing { path },
        ) && path@ == handoff_directory_of(repository_root@, HandoffLocation::Active)),
{
    match presence {
        HandoffDocumentScopePresence::Present => Ok(()),
        _ => Err(
            HandoffError::HandoffDirectoryMissing {
                path: handoff_directory(&scope(repository_root), HandoffLocation::Active),
            },
        ),
    }
}

/// Continues the newest active document of a listing: its continuation title and prompt,
/// or `HandoffMarkdownMissing` for the repository's active directory when none is active.
pub fn newest_continuation<E>(repository_root: &str, documents: &Vec<HandoffDocument>) -> (r: Result<
    (String, String),
    HandoffError<E>,
>)
    ensures
        (forall|j: int| 0 <= j < documents@.len() ==> #[trigger] documents@[j].location
            != HandoffLocation::Active) ==> (r matches Err(HandoffError::HandoffMarkdownMissing { path })
            && path@ == handoff_directory_of(repository_root@, HandoffLocation::Active)),
        r matches Ok((title, prompt)) ==> exists|i: int|
            #[trigger] is_newest(documents@, i) && title@ == continuation_title_of(
                documents@[i].identifier.file_name@,
            ) && prompt@ == continuation_prompt_of(
                relative_locator(repository_root@, documents@[i].locator@),
            ),
        r is Ok || (r matches Err(HandoffError::HandoffMarkdownMissing { path }) && path@
            == handoff_directory_of(repository_root@, HandoffLocation::Active)),
        (exists|j: int| 0 <= j < documents@.len() && #[trigger] documents@[j].location
            == HandoffLocation::Active) ==> r is Ok,
{
    match newest_document(documents) {
        None => Err(
            HandoffError::HandoffMarkdownMissing {
                path: handoff_directory(&scope(repository_root), HandoffLocation::Active),
            },
        ),
        Some(i) => {
            proof {
                assert(documents@[i as int].location == HandoffLocation::Active);
            }
            Ok(
                continuation(
                    repository_root,
                    documents[i].locator.as_str(),
                    documents[i].identifier.file_name.as_str(),
                ),
            )
        },
    }
}

/// The title and prompt that continue the newest active handoff of a repository.
pub fn newest_handoff<S: HandoffStore>(store: &S, repository_root: &str) -> (r: Result<
    (String, String),
    HandoffError<S::Error>,
>)
    ensures
        r matches Err(e) ==> ((e matches HandoffError::HandoffDirectoryMissing { path } && path@
            == handoff_directory_of(repository_root@, HandoffLocation::Active)) || (
        e matches HandoffError::HandoffMarkdownMissing { path } && path@ == handoff_directory_of(
            repository_root@,
            HandoffLocation::Active,
        )) || (e matches HandoffError::ReadDocuments { path, source: _ } && path@
            == handoff_directory_of(repository_root@, HandoffLocation::Active))),
        r matches Ok((title, prompt)) ==> exists|d: HandoffDocument|
            d.location == HandoffLocation::Active && #[trigger] continuation_title_of(
                d.identifier.file_name@,
            ) == title@ && prompt@ == continuation_prompt_of(
                relative_locator(repository_root@, d.locator@),
            ),
{
    let scope = scope(repository_root);
    let directory = handoff_directory(&scope, HandoffLocation::Active);
    match store.scope_presence(&scope) {
        Err(source) => {
            return Err(HandoffError::ReadDocuments { path: directory, source });
        },
        Ok(presence) => match require_directory(repository_root, presence) {
            Ok(()) => {},
            Err(e) => return Err(e),
        },
    }
    let documents = match store.list_location(&scope, HandoffLocation::Active) {
        Ok(documents) => documents,
        Err(source) => {
            return Err(HandoffError::ReadDocuments { path: directory, source });
        },
    };
    newest_continuation(repository_root, &documents)
}

} // verus!
