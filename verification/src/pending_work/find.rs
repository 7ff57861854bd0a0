//! Finds the one open pending-work item an identifier names.
use vstd::prelude::*;

use crate::pending_work::dto::PendingWorkItemView;
use crate::pending_work::enrich::{enrich, inline_record_id, record_id_text, session_of};
use crate::pending_work::identifier::{try_work_item_id, work_item_id_of};
use crate::pending_work::project_registry::{
    id_prefix, id_prefix_of, opt_view, prefix_is, ProjectRegistry,
};
use crate::ports::{PendingWorkItem, RecordId, WorkItemStatus};
use crate::text::{concat, display_text, displays, eq_ignore_case, str_eq, str_eq_ignore_case, trim};

verus! {

/// The pending-work records of managed projects, as their adapter reads them.
pub trait PendingWorkStore {
    /// Concrete adapter failure.
    type Error;

    /// Every record of a project.
    fn list_items(&self, project: &str) -> Result<Vec<PendingWorkItem>, Self::Error>;

    /// The record of one canonical identifier, when it exists.
    fn get_item(&self, project: &str, id: &str) -> Result<Option<PendingWorkItem>, Self::Error>;

    /// Applies a patch to one record.
    fn update_item(&self, project: &str, id: &str, patch: ItemPatch) -> Result<(), Self::Error>;

    /// Deletes one record.
    fn delete_item(&self, project: &str, id: &str) -> Result<(), Self::Error>;

    /// Creates a note-backed record and its open index link, adding the link's index section
    /// when it is absent.
    fn create_item(&self, project: &str, item: NewItem) -> Result<
        CreatedItem,
        CreateItemFailure<Self::Error>,
    >;
}

/// A record to create.
#[derive(Debug, Clone, PartialEq, Eq)]
pub struct NewItem {
    pub prompt: String,
    /// The title to persist; `None` lets the store infer it from the prompt.
    pub title: Option<String>,
    pub created: String,
    /// The index section to file the open link under; `None` for the general section.
    pub section: Option<String>,
    /// The `prereq` frontmatter value, when the item waits on others.
    pub prereq: Option<String>,
    /// The effort tier.
    pub effort: Option<u8>,
    /// Canonical tag names, when the item is tagged.
    pub tags: Option<Vec<String>>,
}

/// What a creation produced.
#[derive(Debug, Clone, PartialEq, Eq)]
pub struct CreatedItem {
    /// Canonical identifier allocated to the record.
    pub id: String,
    /// Persisted title.
    pub title: String,
    /// Path of the created note.
    pub locator: String,
    /// Index section the creation added, when it was absent.
    pub created_section: Option<String>,
}

/// A failed creation: the adapter failure and the index section already added, if any.
#[derive(Debug)]
pub struct CreateItemFailure<E> {
    pub created_section: Option<String>,
    pub source: E,
}

/// Changes to apply to a stored pending-work record; `None` keeps a field.
#[derive(Debug, Clone, PartialEq, Eq)]
pub struct ItemPatch {
    pub status: Option<WorkItemStatus>,
    pub completed: Option<Option<String>>,
    pub commits: Option<Option<String>>,
    /// A report to append to the record's body, already trimmed and not empty.
    pub report: Option<String>,
}

/// Requests the open item an identifier names.
#[derive(Debug, Clone)]
pub struct FindPendingWork {
    pub id: String,
}

/// Why no single open item was found; `E` is the storage adapter's error.
#[derive(Debug)]
pub enum FindPendingWorkError<E> {
    /// No open item matched the requested identifier, kept as written.
    ItemNotFound { id: String },
    /// Several open items, or several projects sharing the prefix, matched.
    AmbiguousId { id: String },
    /// The identifier's prefix maps to no managed project.
    UnknownPrefix { id: String, prefix: String },
    ReadStore(E),
}

/// Why a record could not be resolved.
#[derive(Debug)]
pub enum ResolveRecordError<E> {
    ItemNotFound { id: String },
    ReadStore(E),
}

/// Whether an item is active and linked from its project's index.
pub open spec fn is_open(item: PendingWorkItem) -> bool {
    item.status == WorkItemStatus::Active && item.placement is Some
}

/// Whether an item is active and represented by an open index placement.
pub fn is_open_item(item: &PendingWorkItem) -> (r: bool)
    ensures
        r == is_open(*item),
{
    match (item.status, &item.placement) {
        (WorkItemStatus::Active, Some(_)) => true,
        _ => false,
    }
}

/// What the routing of a canonical identifier decides before any record is read.
pub open spec fn routed_error<E>(
    projects: ProjectRegistry,
    raw: Seq<char>,
    r: Result<PendingWorkItemView, FindPendingWorkError<E>>,
) -> bool {
    match work_item_id_of(raw) {
        Some(id) => {
            let sharing = projects.rows().filter(prefix_is(id_prefix(id))).len();
            &&& sharing > 1 ==> (r matches Err(FindPendingWorkError::AmbiguousId { id: x }) && x@
                == raw)
            &&& sharing == 0 ==> (r matches Err(FindPendingWorkError::UnknownPrefix { id: x, prefix })
                && x@ == id && prefix@ == id_prefix(id))
            &&& r matches Ok(item) ==> item.id@ == id && sharing == 1
        },
        None => r matches Ok(item) ==> item.format@ == "legacy"@ && eq_ignore_case(item.id@, raw),
    }
}

/// Finds the single open item `id` names, enriched with its launch diagnostics. A canonical
/// identifier routes to the one project owning its prefix and matches exactly; any other
/// value is looked up among legacy inline entries as `project:ordinal`, ignoring ASCII case.
pub fn find_open_item<S: PendingWorkStore>(store: &S, projects: &ProjectRegistry, id: &str) -> (r: Result<
    PendingWorkItemView,
    FindPendingWorkError<S::Error>,
>)
    ensures
        routed_error(*projects, id@, r),
        r matches Err(FindPendingWorkError::ItemNotFound { id: x }) ==> x@ == id@,
        r matches Ok(item) ==> match work_item_id_of(id@) {
            Some(canonical) => item.id@ == canonical,
            None => item.format@ == "legacy"@ && eq_ignore_case(item.id@, id@),
        },
{
    let work_id = match try_work_item_id(id) {
        Some(work_id) => work_id,
        None => return find_inline_open_item(store, projects, id),
    };
    let prefix = id_prefix_of(work_id.as_str());
    if projects.projects_with_prefix(prefix.as_str()) > 1 {
        return Err(FindPendingWorkError::AmbiguousId { id: id.to_owned() });
    }
    let project = match projects.project_for_id(work_id.as_str()) {
        Some(project) => project,
        None => return Err(FindPendingWorkError::UnknownPrefix { id: work_id, prefix }),
    };
    let repo = projects.repo_for(project.as_str());
    let records = match store.list_items(project.as_str()) {
        Ok(records) => records,
        Err(e) => return Err(FindPendingWorkError::ReadStore(e)),
    };
    let matched = open_records_named(
        &records,
        project.as_str(),
        match repo {
            Some(r) => Some(r.as_str()),
            None => None,
        },
        work_id.as_str(),
    );
    proof {
        let picked = choose|picked: Seq<int>| picks(records@, project@, work_id@, matched@, picked);
        assert forall|k: int| 0 <= k < matched@.len() implies (#[trigger] matched@[k]).id@
            == work_id@ by {
            assert(describes(matched@[k], records@[picked[k]], project@));
        }
    }
    single_match(matched, id)
}

/// Whether `item`, a record of `project`, is open and named `work_id`.
pub open spec fn selected(item: PendingWorkItem, project: Seq<char>, work_id: Seq<char>) -> bool {
    is_open(item) && record_id_text(item.id, project) == work_id
}

/// Whether `view` is the enriched view of `item`, a record of `project`.
pub open spec fn describes(view: PendingWorkItemView, item: PendingWorkItem, project: Seq<char>) -> bool {
    &&& view.id@ == record_id_text(item.id, project)
    &&& view.project@ == project
    &&& view.status == item.status
    &&& view.session@ == session_of(item)
    &&& view.prompt@ == trim(item.body@)
}

/// Whether `views` are the views of the records at `picked`, ascending, which are exactly
/// the open records of `project` named `work_id`.
pub open spec fn picks(
    records: Seq<PendingWorkItem>,
    project: Seq<char>,
    work_id: Seq<char>,
    views: Seq<PendingWorkItemView>,
    picked: Seq<int>,
) -> bool {
    &&& picked.len() == views.len()
    &&& forall|k: int|
        0 <= k < picked.len() ==> 0 <= #[trigger] picked[k] < records.len() && selected(
            records[picked[k]],
            project,
            work_id,
        ) && describes(views[k], records[picked[k]], project)
    &&& forall|k: int, l: int| 0 <= k < l < picked.len() ==> picked[k] < picked[l]
    &&& forall|i: int|
        0 <= i < records.len() && selected(#[trigger] records[i], project, work_id)
            ==> picked.contains(i)
}

/// The enriched views of the open records of `project` named `work_id`, in listing order.
pub fn open_records_named(
    records: &Vec<PendingWorkItem>,
    project: &str,
    repo: Option<&str>,
    work_id: &str,
) -> (r: Vec<PendingWorkItemView>)
    ensures
        exists|picked: Seq<int>| #[trigger] picks(records@, project@, work_id@, r@, picked),
{
    let mut matched: Vec<PendingWorkItemView> = Vec::new();
    let ghost mut picked: Seq<int> = Seq::empty();
    let mut i: usize = 0;
    while i < records.len()
        invariant
            i <= records.len(),
            picked.len() == matched@.len(),
            forall|k: int|
                0 <= k < picked.len() ==> 0 <= #[trigger] picked[k] < i && selected(
                    records@[picked[k]],
                    project@,
                    work_id@,
                ) && describes(matched@[k], records@[picked[k]], project@),
            forall|k: int, l: int| 0 <= k < l < picked.len() ==> picked[k] < picked[l],
            forall|j: int|
                0 <= j < i && selected(#[trigger] records@[j], project@, work_id@) ==> picked.contains(j),
        decreases records.len() - i,
    {
        if is_open_item(&records[i]) {
            let view = enrich(&records[i], repo).into_pending_work_item_view(project.to_owned());
            if str_eq(view.id.as_str(), work_id) {
                proof {
                    assert(picked.push(i as int)[picked.len() as int] == i as int);
                    assert forall|j: int| 0 <= j < picked.len() implies picked.push(i as int)[j] == picked[j] by {}
                    picked = picked.push(i as int);
                }
                matched.push(view);
            }
        }
        proof {
            assert forall|j: int|
                0 <= j < i + 1 && selected(#[trigger] records@[j], project@, work_id@) implies picked.contains(j) by {
                if j == i as int {
                    assert(picked[picked.len() - 1] == j);
                }
            }
        }
        i = i + 1;
    }
    assert(picks(records@, project@, work_id@, matched@, picked));
    matched
}

/// The one item that matched a requested identifier: none is `ItemNotFound` and several are
/// `AmbiguousId`, both naming the identifier as requested.
pub fn single_match<E>(matched: Vec<PendingWorkItemView>, id: &str) -> (r: Result<
    PendingWorkItemView,
    FindPendingWorkError<E>,
>)
    ensures
        matched@.len() == 0 ==> (r matches Err(FindPendingWorkError::ItemNotFound { id: x }) && x@
            == id@),
        matched@.len() == 1 ==> r == Ok::<PendingWorkItemView, FindPendingWorkError<E>>(
            matched@[0],
        ),
        matched@.len() > 1 ==> (r matches Err(FindPendingWorkError::AmbiguousId { id: x }) && x@
            == id@),
{
    let mut matched = matched;
    if matched.len() == 0 {
        Err(FindPendingWorkError::ItemNotFound { id: id.to_owned() })
    } else if matched.len() == 1 {
        Ok(matched.remove(0))
    } else {
        Err(FindPendingWorkError::AmbiguousId { id: id.to_owned() })
    }
}

/// Scans every managed project's open records for the legacy inline entry whose
/// `project:ordinal` identifier matches `requested`, ignoring ASCII case.
pub fn find_inline_open_item<S: PendingWorkStore>(
    store: &S,
    projects: &ProjectRegistry,
    requested: &str,
) -> (r: Result<PendingWorkItemView, FindPendingWorkError<S::Error>>)
    ensures
        r matches Ok(item) ==> item.format@ == "legacy"@ && eq_ignore_case(item.id@, requested@),
        r matches Err(FindPendingWorkError::ItemNotFound { id: x }) ==> x@ == requested@,
        r matches Err(e) ==> (e is ItemNotFound || e is ReadStore),
{
    let routes = projects.projects();
    let mut p: usize = 0;
    while p < routes.len()
        invariant
            p <= routes.len(),
        decreases routes.len() - p,
    {
        let records = match store.list_items(routes[p].0.as_str()) {
            Ok(records) => records,
            Err(e) => return Err(FindPendingWorkError::ReadStore(e)),
        };
        let mut i: usize = 0;
        while i < records.len()
            invariant
                i <= records.len(),
                p < routes.len(),
            decreases records.len() - i,
        {
            if is_open_item(&records[i]) {
                let view = enrich(
                    &records[i],
                    match &routes[p].1 {
                        Some(r) => Some(r.as_str()),
                        None => None,
                    },
                ).into_pending_work_item_view(routes[p].0.clone());
                if str_eq(view.format.as_str(), "legacy") && str_eq_ignore_case(
                    view.id.as_str(),
                    requested,
                ) {
                    return Ok(view);
                }
            }
            i = i + 1;
        }
        p = p + 1;
    }
    Err(FindPendingWorkError::ItemNotFound { id: requested.to_owned() })
}

/// Finds the single open item the query names.
pub fn execute<S: PendingWorkStore>(query: FindPendingWork, store: &S, projects: &ProjectRegistry) -> (r: Result<
    PendingWorkItemView,
    FindPendingWorkError<S::Error>,
>)
    ensures
        routed_error(*projects, query.id@, r),
{
    find_open_item(store, projects, query.id.as_str())
}

/// The record `id` names: by canonical identifier in the project owning its prefix, else the
/// legacy inline entry whose `project:ordinal` matches, ignoring ASCII case.
pub fn resolve_record<S: PendingWorkStore>(store: &S, projects: &ProjectRegistry, id: &str) -> (r: Result<
    PendingWorkItem,
    ResolveRecordError<S::Error>,
>)
    ensures
        r matches Err(ResolveRecordError::ItemNotFound { id: x }) ==> x@ == id@,
        work_item_id_of(id@) is Some && projects.rows().filter(
            prefix_is(id_prefix(work_item_id_of(id@).unwrap())),
        ).len() == 0 ==> r matches Err(ResolveRecordError::ItemNotFound { id: _ }),
{
    let work_id = match try_work_item_id(id) {
        Some(work_id) => work_id,
        None => return resolve_inline_record(store, projects, id),
    };
    let project = match projects.project_for_id(work_id.as_str()) {
        Some(project) => project,
        None => return Err(ResolveRecordError::ItemNotFound { id: id.to_owned() }),
    };
    match store.get_item(project.as_str(), work_id.as_str()) {
        Err(e) => Err(ResolveRecordError::ReadStore(e)),
        Ok(None) => Err(ResolveRecordError::ItemNotFound { id: id.to_owned() }),
        Ok(Some(record)) => Ok(record),
    }
}

/// The legacy inline record whose `project:ordinal` identifier matches `id`.
pub fn resolve_inline_record<S: PendingWorkStore>(
    store: &S,
    projects: &ProjectRegistry,
    id: &str,
) -> (r: Result<PendingWorkItem, ResolveRecordError<S::Error>>)
    ensures
        r matches Ok(record) ==> (record.id matches RecordId::Inline(_)),
        r matches Err(ResolveRecordError::ItemNotFound { id: x }) ==> x@ == id@,
{
    let routes = projects.projects();
    let mut p: usize = 0;
    while p < routes.len()
        invariant
            p <= routes.len(),
        decreases routes.len() - p,
    {
        let mut records = match store.list_items(routes[p].0.as_str()) {
            Ok(records) => records,
            Err(e) => return Err(ResolveRecordError::ReadStore(e)),
        };
        let mut i: usize = 0;
        while i < records.len()
            invariant
                i <= records.len(),
                p < routes.len(),
            decreases records.len() - i,
        {
            let hit = match records[i].id {
                RecordId::Inline(ordinal) => {
                    let composed = inline_record_id(routes[p].0.as_str(), ordinal);
                    str_eq_ignore_case(composed.as_str(), id)
                },
                RecordId::Item(_) => false,
            };
            if hit {
                return Ok(records.remove(i));
            }
            i = i + 1;
        }
        p = p + 1;
    }
    Err(ResolveRecordError::ItemNotFound { id: id.to_owned() })
}

/// The message of a request for an item that is not open.
pub open spec fn not_found_text(id: Seq<char>) -> Seq<char> {
    "Open pending-work item not found: "@ + id
}

/// The message of a canonical identifier whose prefix has no configured project.
pub open spec fn unknown_prefix_text(prefix: Seq<char>, id: Seq<char>) -> Seq<char> {
    "Unknown task id prefix `"@ + prefix + "` for "@ + id
}

/// The message of a request for an item that is not open.
pub fn not_found_message(id: &str) -> (r: String)
    ensures
        r@ == not_found_text(id@),
{
    concat("Open pending-work item not found: ", id)
}

/// The message of a canonical identifier whose prefix has no configured project.
pub fn unknown_prefix_message(prefix: &str, id: &str) -> (r: String)
    ensures
        r@ == unknown_prefix_text(prefix@, id@),
{
    let a = concat("Unknown task id prefix `", prefix);
    let b = concat(a.as_str(), "` for ");
    concat(b.as_str(), id)
}

/// Whether `r` is the message of a failed lookup.
pub open spec fn find_reports<E: std::fmt::Display>(e: &FindPendingWorkError<E>, r: Seq<char>) -> bool {
    match e {
        FindPendingWorkError::ItemNotFound { id } => r == not_found_text(id@),
        FindPendingWorkError::AmbiguousId { id } => r == "Pending-work id is ambiguous: "@ + id@,
        FindPendingWorkError::UnknownPrefix { id, prefix } => r == unknown_prefix_text(prefix@, id@),
        FindPendingWorkError::ReadStore(source) => displays(source, r),
    }
}

impl<E: std::fmt::Display> FindPendingWorkError<E> {
    /// The message this failure is reported with.
    pub fn message(&self) -> (r: String)
        ensures
            find_reports(self, r@),
    {
        match self {
            FindPendingWorkError::ItemNotFound { id } => not_found_message(id.as_str()),
            FindPendingWorkError::AmbiguousId { id } => concat(
                "Pending-work id is ambiguous: ",
                id.as_str(),
            ),
            FindPendingWorkError::UnknownPrefix { id, prefix } => unknown_prefix_message(
                prefix.as_str(),
                id.as_str(),
            ),
            FindPendingWorkError::ReadStore(e) => display_text(e),
        }
    }
}

impl<E: std::fmt::Display> ResolveRecordError<E> {
    /// The message this failure is reported with.
    pub fn message(&self) -> (r: String)
        ensures
            match self {
                ResolveRecordError::ItemNotFound { id } => r@ == not_found_text(id@),
                ResolveRecordError::ReadStore(e) => displays(e, r@),
            },
    {
        match self {
            ResolveRecordError::ItemNotFound { id } => not_found_message(id.as_str()),
            ResolveRecordError::ReadStore(e) => display_text(e),
        }
    }
}

} // verus!
