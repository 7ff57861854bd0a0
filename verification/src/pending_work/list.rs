//! Lists pending-work items: which records show, how they are filtered, ordered and capped.
use vstd::prelude::*;

use crate::text::{display_text, displays};
use vstd::relations::sorted_by;

use crate::pending_work::dto::PendingWorkItemView;
use crate::pending_work::identifier::{is_work_item_id, lemma_four_digits_bound};
use crate::pending_work::enrich::enrich;
use crate::pending_work::find::{is_open, is_open_item, PendingWorkStore};
use crate::pending_work::project_registry::{opt_view, ProjectRegistry, Row};
use crate::pending_work::tags::{
    contains_all, covers, frontmatter_tags, parse_tag_frontmatter,
};
use crate::ports::{PendingWorkItem, WorkItemStatus};
use crate::text::{
    chars_of, compare_chars, digits_value, is_ascii_digit, lemma_lt_asymmetric, lemma_lt_irreflexive, lemma_lt_total,
    lemma_lt_transitive, parse_unsigned, parse_unsigned_chars, seq_lt, str_eq, string_views, trim,
    trimmed,
};

verus! {

/// The number of items a list shows when no number is given.
pub const DEFAULT_LIST_CAP: usize = 10;

/// Which sections a list shows.
#[derive(Debug, Clone, Copy, PartialEq, Eq, Structural)]
pub enum ListScope {
    /// Items outside any section.
    Default,
    /// Items of the `Human` section.
    HumanOnly,
    /// Items of the `Future` section.
    FutureOnly,
    /// Every item, grouped by section.
    All,
}

/// The key a list is ordered by.
#[derive(Debug, Clone, Copy, PartialEq, Eq, Structural)]
pub enum OrderField {
    Created,
    Id,
    ProjectId,
}

#[derive(Debug, Clone, Copy, PartialEq, Eq, Structural)]
pub enum OrderDirection {
    Asc,
    Desc,
}

/// A list order; newest creation date first by default.
#[derive(Debug, Clone, Copy, PartialEq, Eq, Structural)]
pub struct OrderSpec {
    pub field: OrderField,
    pub direction: OrderDirection,
}

/// Which lifecycle statuses a list shows.
#[derive(Debug, Clone, Copy, PartialEq, Eq, Structural)]
pub enum StatusFilter {
    Only(WorkItemStatus),
    All,
}

/// Requests a list of pending-work items.
#[derive(Debug, Clone)]
pub struct GetPendingWork {
    pub only_project: Option<String>,
    pub scope: ListScope,
    pub number: Option<usize>,
    pub effort: Option<u8>,
    /// Canonical tag names an item must all carry, when a tag filter is requested.
    pub tags: Option<Vec<String>>,
    pub order: OrderSpec,
    pub status_filter: StatusFilter,
}

/// The listed items and how many more the cap hid.
#[derive(Debug, Clone, PartialEq, Eq)]
pub struct ListResult {
    pub items: Vec<PendingWorkItemView>,
    pub hidden: usize,
}

/// Why a list failed; `E` is the storage adapter's error.
#[derive(Debug)]
pub enum GetPendingWorkError<E> {
    ReadStore(E),
    /// A tag filter was requested and an item in scope has `tags` frontmatter that does not
    /// parse.
    InvalidTags { id: String, raw: String },
}

impl OrderSpec {
    /// Newest creation date first.
    pub fn created_desc() -> (r: Self)
        ensures
            r.field == OrderField::Created,
            r.direction == OrderDirection::Desc,
    {
        OrderSpec { field: OrderField::Created, direction: OrderDirection::Desc }
    }
}

pub open spec fn status_included(filter: StatusFilter, status: WorkItemStatus) -> bool {
    match filter {
        StatusFilter::Only(s) => s == status,
        StatusFilter::All => true,
    }
}

/// Whether a record can be listed: open, or closed.
pub open spec fn listable(item: PendingWorkItem) -> bool {
    is_open(item) || item.status != WorkItemStatus::Active
}

pub open spec fn in_scope(scope: ListScope, section: Option<Seq<char>>) -> bool {
    match scope {
        ListScope::Default => section is None,
        ListScope::HumanOnly => section == Some("Human"@),
        ListScope::FutureOnly => section == Some("Future"@),
        ListScope::All => true,
    }
}

/// The rank of a section when a list is grouped: none, `Low-prio`, `Human`, `Future`,
/// then any other.
pub open spec fn group_rank(section: Option<Seq<char>>) -> int {
    match section {
        None => 0,
        Some(s) => if s == "Low-prio"@ {
            1
        } else if s == "Human"@ {
            2
        } else if s == "Future"@ {
            3
        } else {
            4
        },
    }
}

/// An effort tier: the trimmed value as a `u8` between 1 and 4.
pub open spec fn effort_tier(raw: Seq<char>) -> Option<nat> {
    match parse_unsigned(trim(raw), 255) {
        Some(n) => if 1 <= n <= 4 {
            Some(n)
        } else {
            None
        },
        None => None,
    }
}

/// The number after an identifier's last `-`, as a `u64`, or 0.
pub open spec fn id_suffix_of(id: Seq<char>) -> nat {
    match last_dash(id) {
        Some(k) => match parse_unsigned(id.skip(k + 1), 0xffff_ffff_ffff_ffff) {
            Some(n) => n,
            None => 0,
        },
        None => 0,
    }
}

/// The index of the last `-`.
pub open spec fn last_dash(id: Seq<char>) -> Option<int>
    decreases id.len(),
{
    if id.len() == 0 {
        None
    } else if id.last() == '-' {
        Some(id.len() - 1)
    } else {
        last_dash(id.drop_last())
    }
}

pub open spec fn compare_seq(a: Seq<char>, b: Seq<char>) -> int {
    if seq_lt(a, b) {
        -1
    } else if a == b {
        0
    } else {
        1
    }
}

pub open spec fn compare_int(a: int, b: int) -> int {
    if a < b {
        -1
    } else if a == b {
        0
    } else {
        1
    }
}

pub open spec fn then(first: int, second: int) -> int {
    if first != 0 {
        first
    } else {
        second
    }
}

pub open spec fn directed(direction: OrderDirection, c: int) -> int {
    match direction {
        OrderDirection::Asc => c,
        OrderDirection::Desc => -c,
    }
}

pub open spec fn created_of(item: PendingWorkItemView) -> Seq<char> {
    match item.created {
        Some(c) => c@,
        None => Seq::empty(),
    }
}

/// The three-way order of two listed items: by project (in the order's direction), then
/// newest identifier number, then identifier; or by creation date or identifier number,
/// then identifier, in the order's direction.
pub open spec fn item_compare(order: OrderSpec, a: PendingWorkItemView, b: PendingWorkItemView) -> int {
    match order.field {
        OrderField::ProjectId => then(
            then(
                directed(order.direction, compare_seq(a.project@, b.project@)),
                compare_int(id_suffix_of(b.id@) as int, id_suffix_of(a.id@) as int),
            ),
            compare_seq(b.id@, a.id@),
        ),
        OrderField::Created => directed(
            order.direction,
            then(compare_seq(created_of(a), created_of(b)), compare_seq(a.id@, b.id@)),
        ),
        OrderField::Id => directed(
            order.direction,
            then(
                compare_int(id_suffix_of(a.id@) as int, id_suffix_of(b.id@) as int),
                compare_seq(a.id@, b.id@),
            ),
        ),
    }
}

/// The order of a grouped list: section rank first.
pub open spec fn group_compare(order: OrderSpec, a: PendingWorkItemView, b: PendingWorkItemView) -> int {
    then(
        compare_int(
            group_rank(opt_view(a.section)),
            group_rank(opt_view(b.section)),
        ),
        item_compare(order, a, b),
    )
}

pub open spec fn list_compare_of(grouped: bool, order: OrderSpec, a: PendingWorkItemView, b: PendingWorkItemView) -> int {
    if grouped {
        group_compare(order, a, b)
    } else {
        item_compare(order, a, b)
    }
}

pub open spec fn list_order(grouped: bool, order: OrderSpec) -> spec_fn(
    PendingWorkItemView,
    PendingWorkItemView,
) -> bool {
    |a: PendingWorkItemView, b: PendingWorkItemView| list_compare_of(grouped, order, a, b) <= 0
}

// ---------------------------------------------------------------------------------------
proof fn lemma_compare_seq(a: Seq<char>, b: Seq<char>, c: Seq<char>)
    ensures
        compare_seq(a, b) == -compare_seq(b, a),
        compare_seq(a, b) == 0 <==> a == b,
        compare_seq(a, b) <= 0 && compare_seq(b, c) <= 0 ==> compare_seq(a, c) <= 0,
        compare_seq(a, b) < 0 && compare_seq(b, c) <= 0 ==> compare_seq(a, c) < 0,
        compare_seq(a, b) <= 0 && compare_seq(b, c) < 0 ==> compare_seq(a, c) < 0,
{
    lemma_lt_total(a, b);
    lemma_lt_asymmetric(a, b);
    lemma_lt_irreflexive(a);
    lemma_lt_irreflexive(c);
    if seq_lt(a, b) && seq_lt(b, c) {
        lemma_lt_transitive(a, b, c);
    }
    if seq_lt(a, c) {
        lemma_lt_asymmetric(a, c);
    }
    lemma_lt_total(a, c);
    lemma_lt_asymmetric(a, c);
    lemma_lt_total(b, c);
    lemma_lt_asymmetric(b, c);
}

/// Antisymmetry and transitivity of the list order.
proof fn lemma_list_compare(grouped: bool, order: OrderSpec, a: PendingWorkItemView, b: PendingWorkItemView, c: PendingWorkItemView)
    ensures
        list_compare_of(grouped, order, a, b) == -list_compare_of(grouped, order, b, a),
        list_compare_of(grouped, order, a, b) <= 0 && list_compare_of(grouped, order, b, c) <= 0 ==> list_compare_of(
            grouped,
            order,
            a,
            c,
        ) <= 0,
{
    lemma_compare_seq(a.project@, b.project@, c.project@);
    lemma_compare_seq(b.project@, c.project@, a.project@);
    lemma_compare_seq(c.project@, a.project@, b.project@);
    lemma_compare_seq(a.id@, b.id@, c.id@);
    lemma_compare_seq(b.id@, c.id@, a.id@);
    lemma_compare_seq(c.id@, a.id@, b.id@);
    lemma_compare_seq(c.id@, b.id@, a.id@);
    lemma_compare_seq(b.id@, a.id@, c.id@);
    lemma_compare_seq(a.id@, c.id@, b.id@);
    lemma_compare_seq(created_of(a), created_of(b), created_of(c));
    lemma_compare_seq(created_of(b), created_of(c), created_of(a));
    lemma_compare_seq(created_of(c), created_of(a), created_of(b));
    lemma_compare_seq(c.project@, b.project@, a.project@);
    lemma_compare_seq(created_of(c), created_of(b), created_of(a));
}

// ---------------------------------------------------------------------------------------
/// Whether a list scope shows an item of `section`.
pub fn scope_includes(scope: ListScope, section: Option<&str>) -> (r: bool)
    ensures
        r == in_scope(
            scope,
            match section {
                Some(s) => Some(s@),
                None => None,
            },
        ),
{
    match scope {
        ListScope::Default => section.is_none(),
        ListScope::HumanOnly => match section {
            Some(s) => str_eq(s, "Human"),
            None => false,
        },
        ListScope::FutureOnly => match section {
            Some(s) => str_eq(s, "Future"),
            None => false,
        },
        ListScope::All => true,
    }
}

/// Whether a list scope groups its output by section.
pub fn scope_groups_output(scope: ListScope) -> (r: bool)
    ensures
        r == (scope == ListScope::All),
{
    match scope {
        ListScope::All => true,
        _ => false,
    }
}

/// The rank of a section in a grouped list.
pub fn section_group_rank(section: Option<&str>) -> (r: u8)
    ensures
        r == group_rank(
            match section {
                Some(s) => Some(s@),
                None => None,
            },
        ),
{
    match section {
        None => 0,
        Some(s) => if str_eq(s, "Low-prio") {
            1
        } else if str_eq(s, "Human") {
            2
        } else if str_eq(s, "Future") {
            3
        } else {
            4
        },
    }
}

/// Reads a stored effort tier.
pub fn parse_effort_tier(raw: &str) -> (r: Option<u8>)
    ensures
        match r {
            Some(t) => effort_tier(raw@) == Some(t as nat),
            None => effort_tier(raw@) is None,
        },
{
    let v = chars_of(raw);
    let t = trimmed(&v);
    match parse_unsigned_chars(&t, 255) {
        Some(n) => if 1 <= n && n <= 4 {
            Some(n as u8)
        } else {
            None
        },
        None => None,
    }
}

/// Whether an item's stored effort is the wanted tier; any item when none is wanted.
pub fn effort_matches(item: &PendingWorkItemView, wanted: Option<u8>) -> (r: bool)
    ensures
        match wanted {
            None => r,
            Some(w) => r == (match item.effort {
                Some(e) => effort_tier(e@) == Some(w as nat),
                None => false,
            }),
        },
{
    match wanted {
        None => true,
        Some(w) => match &item.effort {
            Some(e) => match parse_effort_tier(e.as_str()) {
                Some(t) => t == w,
                None => false,
            },
            None => false,
        },
    }
}

/// The number after an identifier's last `-`, or 0.
pub fn id_suffix(id: &str) -> (r: u64)
    ensures
        r == id_suffix_of(id@),
{
    let v = chars_of(id);
    let mut k: usize = v.len();
    assert(v@.take(k as int) =~= v@);
    while k > 0 && v[k - 1] != '-'
        invariant
            k <= v.len(),
            v@ == id@,
            last_dash(id@) == last_dash(v@.take(k as int)),
        decreases k,
    {
        proof {
            assert(v@.take(k as int).drop_last() =~= v@.take(k - 1));
        }
        k = k - 1;
    }
    if k == 0 {
        proof {
            assert(v@.take(0) =~= Seq::<char>::empty());
        }
        return 0;
    }
    proof {
        assert(last_dash(v@.take(k as int)) == Some(k - 1));
        assert(id@.skip(k as int) =~= v@.subrange(k as int, v.len() as int));
    }
    let digits = crate::text::slice_chars(&v, k, v.len());
    match parse_unsigned_chars(&digits, 0xffff_ffff_ffff_ffff) {
        Some(n) => n,
        None => 0,
    }
}

fn compare_text(a: &str, b: &str) -> (r: i8)
    ensures
        r == compare_seq(a@, b@),
{
    let av = chars_of(a);
    let bv = chars_of(b);
    let c = compare_chars(&av, &bv);
    proof {
        lemma_lt_asymmetric(a@, b@);
        lemma_lt_irreflexive(a@);
    }
    if c < 0 {
        -1
    } else if c == 0 {
        0
    } else {
        1
    }
}

fn compare_u64(a: u64, b: u64) -> (r: i8)
    ensures
        r == compare_int(a as int, b as int),
{
    if a < b {
        -1
    } else if a == b {
        0
    } else {
        1
    }
}

fn then_compare(first: i8, second: i8) -> (r: i8)
    requires
        -1 <= first <= 1,
        -1 <= second <= 1,
    ensures
        r == then(first as int, second as int),
        -1 <= r <= 1,
{
    if first != 0 {
        first
    } else {
        second
    }
}

/// The three-way order of two listed items; see [`item_compare`].
pub fn item_order_compare(order: OrderSpec, a: &PendingWorkItemView, b: &PendingWorkItemView) -> (r: i8)
    ensures
        r == item_compare(order, *a, *b),
        -1 <= r <= 1,
{
    let ids = compare_text(a.id.as_str(), b.id.as_str());
    match order.field {
        OrderField::ProjectId => {
            let p = compare_text(a.project.as_str(), b.project.as_str());
            let project = match order.direction {
                OrderDirection::Asc => p,
                OrderDirection::Desc => -p,
            };
            let suffix = compare_u64(id_suffix(b.id.as_str()), id_suffix(a.id.as_str()));
            let reverse_ids = compare_text(b.id.as_str(), a.id.as_str());
            then_compare(then_compare(project, suffix), reverse_ids)
        },
        OrderField::Created => {
            let ac = created_key(a);
            let bc = created_key(b);
            let ascending = then_compare(compare_text(ac, bc), ids);
            match order.direction {
                OrderDirection::Asc => ascending,
                OrderDirection::Desc => -ascending,
            }
        },
        OrderField::Id => {
            let ascending = then_compare(compare_u64(id_suffix(a.id.as_str()), id_suffix(b.id.as_str())), ids);
            match order.direction {
                OrderDirection::Asc => ascending,
                OrderDirection::Desc => -ascending,
            }
        },
    }
}

/// An item's creation date, or empty.
pub fn created_key(item: &PendingWorkItemView) -> (r: &str)
    ensures
        r@ == created_of(*item),
{
    proof {
        reveal_strlit("");
    }
    match &item.created {
        Some(c) => c.as_str(),
        None => "",
    }
}

fn list_compare(grouped: bool, order: OrderSpec, a: &PendingWorkItemView, b: &PendingWorkItemView) -> (r: i8)
    ensures
        r == list_compare_of(grouped, order, *a, *b),
{
    let item = item_order_compare(order, a, b);
    if grouped {
        let ra = section_group_rank(
            match &a.section {
                Some(s) => Some(s.as_str()),
                None => None,
            },
        );
        let rb = section_group_rank(
            match &b.section {
                Some(s) => Some(s.as_str()),
                None => None,
            },
        );
        then_compare(compare_u64(ra as u64, rb as u64), item)
    } else {
        item
    }
}

pub open spec fn views(items: Seq<PendingWorkItemView>) -> Seq<PendingWorkItemView> {
    items
}

/// Sorts items by the list order, keeping the original order among equal items.
pub fn sort_items(items: Vec<PendingWorkItemView>, grouped: bool, order: OrderSpec) -> (r: Vec<
    PendingWorkItemView,
>)
    ensures
        sorted_by(r@, list_order(grouped, order)),
        r@.to_multiset() == items@.to_multiset(),
{
    let mut sorted: Vec<PendingWorkItemView> = Vec::new();
    let mut rest = items;
    let ghost original = rest@;
    let mut taken: usize = 0;
    proof {
        assert(original.take(0) =~= Seq::<PendingWorkItemView>::empty());
        assert(original.len() == rest.len());
    }
    while rest.len() > 0
        invariant
            taken + rest.len() == original.len(),
            original.len() <= usize::MAX,
            rest@ == original.skip(taken as int),
            sorted_by(sorted@, list_order(grouped, order)),
            sorted@.to_multiset() == original.take(taken as int).to_multiset(),
        decreases rest.len(),
    {
        let item = rest.remove(0);
        proof {
            assert(original.take(taken + 1) =~= original.take(taken as int).push(item));
            assert(rest@ =~= original.skip(taken + 1));
            vstd::seq_lib::to_multiset_build(original.take(taken as int), item);
        }
        insert_item(&mut sorted, item, grouped, order);
        taken = taken + 1;
    }
    assert(original.take(taken as int) =~= original);
    sorted
}

fn insert_item(sorted: &mut Vec<PendingWorkItemView>, item: PendingWorkItemView, grouped: bool, order: OrderSpec)
    requires
        sorted_by(old(sorted)@, list_order(grouped, order)),
    ensures
        sorted_by(final(sorted)@, list_order(grouped, order)),
        final(sorted)@.to_multiset() == old(sorted)@.to_multiset().insert(item),
{
    let ghost old_view = sorted@;
    let mut p: usize = 0;
    while p < sorted.len() && list_compare(grouped, order, &sorted[p], &item) <= 0
        invariant
            p <= sorted.len(),
            old_view == sorted@,
            forall|j: int| 0 <= j < p ==> #[trigger] list_compare_of(grouped, order, old_view[j], item) <= 0,
        decreases sorted.len() - p,
    {
        p = p + 1;
    }
    let ghost iv = item;
    sorted.insert(p, item);
    proof {
        let nv = sorted@;
        assert(nv =~= old_view.insert(p as int, iv));
        let r = list_order(grouped, order);
        if p < old_view.len() {
            lemma_list_compare(grouped, order, old_view[p as int], iv, iv);
            assert(list_compare_of(grouped, order, iv, old_view[p as int]) < 0);
        }
        assert forall|i: int, j: int| 0 <= i < j < nv.len() implies #[trigger] r(nv[i], nv[j]) by {
            if j < p {
                assert(r(old_view[i], old_view[j]));
            } else if j == p {
                assert(list_compare_of(grouped, order, old_view[i], iv) <= 0);
            } else if i < p {
                assert(list_compare_of(grouped, order, old_view[i], iv) <= 0);
                assert(list_compare_of(grouped, order, iv, old_view[p as int]) <= 0);
                if j - 1 > p {
                    assert(r(old_view[p as int], old_view[j - 1]));
                    lemma_list_compare(grouped, order, iv, old_view[p as int], old_view[j - 1]);
                }
                lemma_list_compare(grouped, order, old_view[i], iv, old_view[j - 1]);
            } else if i == p {
                if j - 1 > p {
                    assert(r(old_view[p as int], old_view[j - 1]));
                    lemma_list_compare(grouped, order, iv, old_view[p as int], old_view[j - 1]);
                }
            } else {
                assert(r(old_view[i - 1], old_view[j - 1]));
            }
        }
        vstd::seq_lib::to_multiset_insert(old_view, p as int, iv);
    }
}

/// Keeps the first `cap` items, reporting how many were dropped; a cap of 0 keeps all.
pub fn apply_cap(items: Vec<PendingWorkItemView>, cap: usize) -> (r: (Vec<PendingWorkItemView>, usize))
    ensures
        if cap == 0 || items@.len() <= cap {
            r.0@ == items@ && r.1 == 0
        } else {
            r.0@ == items@.take(cap as int) && r.1 == items@.len() - cap
        },
{
    if cap == 0 || items.len() <= cap {
        return (items, 0);
    }
    let hidden = items.len() - cap;
    let mut kept = items;
    kept.truncate(cap);
    (kept, hidden)
}

/// Whether `project` is scanned by a list: the one project asked for, or any managed one.
pub open spec fn scanned(only: Option<String>, rows: Seq<Row>, project: Seq<char>) -> bool {
    match only {
        Some(name) => project == name@,
        None => exists|k: int| 0 <= k < rows.len() && rows[k].0 == project,
    }
}

/// Reads and enriches the listable records of one project, or of every project in name
/// order, whose status the query shows.
pub fn collect_list_items<S: PendingWorkStore>(query: &GetPendingWork, store: &S, projects: &ProjectRegistry) -> (r: Result<
    Vec<PendingWorkItemView>,
    GetPendingWorkError<S::Error>,
>)
    ensures
        r matches Ok(items) ==> forall|i: int|
            0 <= i < items@.len() ==> status_included(query.status_filter, #[trigger] items@[i].status),
        r matches Err(e) ==> e is ReadStore,
        r matches Ok(items) ==> forall|i: int|
            0 <= i < items@.len() ==> scanned(
                query.only_project,
                projects.rows(),
                #[trigger] items@[i].project@,
            ),
{
    let scan: Vec<(String, Option<String>)> = match &query.only_project {
        Some(name) => {
            let repo = match projects.repo_for(name.as_str()) {
                Some(r) => Some(r.clone()),
                None => None,
            };
            let mut one: Vec<(String, Option<String>)> = Vec::new();
            one.push((name.clone(), repo));
            one
        },
        None => projects.projects(),
    };
    proof {
        assert forall|k: int| 0 <= k < scan@.len() implies scanned(
            query.only_project,
            projects.rows(),
            #[trigger] scan@[k].0@,
        ) by {
            if query.only_project is None {
                assert(projects.rows()[k].0 == scan@[k].0@);
            }
        }
    }
    let mut items: Vec<PendingWorkItemView> = Vec::new();
    let mut p: usize = 0;
    while p < scan.len()
        invariant
            p <= scan.len(),
            forall|i: int|
                0 <= i < items@.len() ==> status_included(query.status_filter, #[trigger] items@[i].status),
            forall|k: int|
                0 <= k < scan@.len() ==> scanned(query.only_project, projects.rows(), #[trigger] scan@[k].0@),
            forall|i: int|
                0 <= i < items@.len() ==> scanned(query.only_project, projects.rows(), #[trigger] items@[i].project@),
        decreases scan.len() - p,
    {
        let records = match store.list_items(scan[p].0.as_str()) {
            Ok(records) => records,
            Err(e) => return Err(GetPendingWorkError::ReadStore(e)),
        };
        let mut i: usize = 0;
        while i < records.len()
            invariant
                i <= records.len(),
                p < scan.len(),
                forall|k: int|
                    0 <= k < items@.len() ==> status_included(query.status_filter, #[trigger] items@[k].status),
                scanned(query.only_project, projects.rows(), scan@[p as int].0@),
                forall|k: int|
                    0 <= k < items@.len() ==> scanned(query.only_project, projects.rows(), #[trigger] items@[k].project@),
            decreases records.len() - i,
        {
            let record = &records[i];
            let closed = match record.status {
                WorkItemStatus::Active => false,
                _ => true,
            };
            let shown = (is_open_item(record) || closed) && match query.status_filter {
                StatusFilter::Only(s) => s == record.status,
                StatusFilter::All => true,
            };
            if shown {
                let view = enrich(
                    record,
                    match &scan[p].1 {
                        Some(r) => Some(r.as_str()),
                        None => None,
                    },
                ).into_pending_work_item_view(scan[p].0.clone());
                items.push(view);
            }
            i = i + 1;
        }
        p = p + 1;
    }
    Ok(items)
}

/// Whether an item's stored effort is the wanted tier; any item when none is wanted.
pub open spec fn effort_ok(wanted: Option<u8>, effort: Option<String>) -> bool {
    match wanted {
        None => true,
        Some(w) => match effort {
            Some(e) => effort_tier(e@) == Some(w as nat),
            None => false,
        },
    }
}

/// Whether an item is in the query's scope and has the wanted effort.
pub open spec fn scope_and_effort_ok(query: GetPendingWork, item: PendingWorkItemView) -> bool {
    in_scope(query.scope, opt_view(item.section)) && effort_ok(query.effort, item.effort)
}

/// Whether the tag filter keeps an item: `None` where its frontmatter does not parse.
/// Without a filter every item is kept; with one, an untagged item is not.
pub open spec fn tag_verdict(requested: Option<Vec<String>>, tags: Option<String>) -> Option<bool> {
    match requested {
        None => Some(true),
        Some(wanted) => match tags {
            None => Some(false),
            Some(raw) => match frontmatter_tags(raw@) {
                None => None,
                Some(stored) => Some(covers(stored, string_views(wanted@))),
            },
        },
    }
}

/// The items a query keeps, in their collected order, or the identifier and raw frontmatter
/// of the first item in scope whose tags do not parse.
pub open spec fn list_filter(query: GetPendingWork, items: Seq<PendingWorkItemView>) -> Result<
    Seq<PendingWorkItemView>,
    (Seq<char>, Seq<char>),
>
    decreases items.len(),
{
    if items.len() == 0 {
        Ok(seq![])
    } else {
        match list_filter(query, items.drop_last()) {
            Err(e) => Err(e),
            Ok(kept) => {
                let x = items.last();
                if !scope_and_effort_ok(query, x) {
                    Ok(kept)
                } else {
                    match tag_verdict(query.tags, x.tags) {
                        None => Err((x.id@, x.tags.unwrap()@)),
                        Some(true) => Ok(kept.push(x)),
                        Some(false) => Ok(kept),
                    }
                }
            },
        }
    }
}

/// The cap a query applies.
pub open spec fn cap_of(query: GetPendingWork) -> int {
    match query.number {
        Some(n) => n as int,
        None => DEFAULT_LIST_CAP as int,
    }
}

/// `items` and `hidden` are `ordered` cut to `cap`, where a cap of 0 keeps all.
pub open spec fn capped(ordered: Seq<PendingWorkItemView>, cap: int, items: Seq<PendingWorkItemView>, hidden: int) -> bool {
    if cap == 0 || ordered.len() <= cap {
        items == ordered && hidden == 0
    } else {
        items == ordered.take(cap) && hidden == ordered.len() - cap
    }
}

/// `result` lists what the query keeps of `collected`, in list order and capped.
pub open spec fn listed_from(query: GetPendingWork, collected: Seq<PendingWorkItemView>, result: ListResult) -> bool {
    match list_filter(query, collected) {
        Err(_) => false,
        Ok(kept) => {
            let rel = list_order(query.scope == ListScope::All, query.order);
            exists|ordered: Seq<PendingWorkItemView>|
            #[trigger] sorted_by(ordered, rel)
                && ordered.to_multiset() == kept.to_multiset() && capped(
                ordered,
                cap_of(query),
                result.items@,
                result.hidden as int,
            )
        },
    }
}

/// Every item `list_filter` keeps is in scope, has the wanted effort and passes the tag
/// filter.
proof fn lemma_kept_pass(query: GetPendingWork, items: Seq<PendingWorkItemView>)
    ensures
        list_filter(query, items) matches Ok(kept) ==> forall|k: int|
            0 <= k < kept.len() ==> scope_and_effort_ok(query, #[trigger] kept[k]) && tag_verdict(
                query.tags,
                kept[k].tags,
            ) == Some(true) && items.contains(kept[k]),
        list_filter(query, items) is Err ==> query.tags is Some,
    decreases items.len(),
{
    if items.len() > 0 {
        lemma_kept_pass(query, items.drop_last());
        if let Ok(kept) = list_filter(query, items) {
            assert forall|k: int| 0 <= k < kept.len() implies items.contains(#[trigger] kept[k]) by {
                let prev = list_filter(query, items.drop_last())->Ok_0;
                if k < prev.len() {
                    let j = choose|j: int| 0 <= j < items.drop_last().len() && items.drop_last()[j] == prev[k];
                    assert(items[j] == kept[k]);
                } else {
                    assert(items[items.len() - 1] == kept[k]);
                }
            }
        }
    }
}

/// Once a prefix of the items fails the filter, the whole sequence fails the same way.
proof fn lemma_filter_error_persists(query: GetPendingWork, items: Seq<PendingWorkItemView>, k: int)
    requires
        0 <= k <= items.len(),
        list_filter(query, items.take(k)) is Err,
    ensures
        list_filter(query, items) == list_filter(query, items.take(k)),
    decreases items.len(),
{
    if items.len() == k {
        assert(items.take(k) =~= items);
    } else {
        assert(items.drop_last().take(k) =~= items.take(k));
        lemma_filter_error_persists(query, items.drop_last(), k);
    }
}

/// Keeps the collected items in the query's scope with the wanted effort and, when a tag
/// filter is requested, the tags it asks for.
pub fn filter_items<E>(query: &GetPendingWork, items: Vec<PendingWorkItemView>) -> (r: Result<
    Vec<PendingWorkItemView>,
    GetPendingWorkError<E>,
>)
    ensures
        r matches Ok(kept) ==> list_filter(*query, items@) == Ok::<
            Seq<PendingWorkItemView>,
            (Seq<char>, Seq<char>),
        >(kept@),
        r matches Err(GetPendingWorkError::InvalidTags { id, raw }) ==> list_filter(*query, items@)
            == Err::<Seq<PendingWorkItemView>, (Seq<char>, Seq<char>)>((id@, raw@)),
        !(r matches Err(GetPendingWorkError::ReadStore(_))),
{
    let ghost all = items@;
    let mut kept: Vec<PendingWorkItemView> = Vec::new();
    let mut rest = items;
    let mut taken: usize = 0;
    let mut failure: Option<(String, String)> = None;
    assert(all.len() == rest.len());
    assert(rest@.skip(0) =~= rest@);
    assert(all.take(0) =~= Seq::<PendingWorkItemView>::empty());
    while rest.len() > 0 && failure.is_none()
        invariant
            taken + rest.len() == all.len(),
            all.len() <= usize::MAX,
            rest@ == all.skip(taken as int),
            failure is None ==> list_filter(*query, all.take(taken as int)) == Ok::<
                Seq<PendingWorkItemView>,
                (Seq<char>, Seq<char>),
            >(kept@),
            failure matches Some(f) ==> list_filter(*query, all) == Err::<
                Seq<PendingWorkItemView>,
                (Seq<char>, Seq<char>),
            >((f.0@, f.1@)),
        decreases rest.len(),
    {
        let item = rest.remove(0);
        proof {
            assert(item == all[taken as int]);
            assert(rest@ =~= all.skip(taken + 1));
            assert(all.take(taken + 1).drop_last() =~= all.take(taken as int));
            assert(all.take(taken + 1).last() == item);
        }
        let in_scope_now = scope_includes(
            query.scope,
            match &item.section {
                Some(s) => Some(s.as_str()),
                None => None,
            },
        );
        if in_scope_now && effort_matches(&item, query.effort) {
            match &query.tags {
                None => {
                    kept.push(item);
                },
                Some(wanted) => {
                    let verdict = match &item.tags {
                        None => Some(false),
                        Some(raw) => match parse_tag_frontmatter(raw.as_str()) {
                            None => None,
                            Some(stored) => Some(contains_all(&stored, wanted)),
                        },
                    };
                    match verdict {
                        None => {
                            let id = item.id;
                            let raw = match item.tags {
                                Some(raw) => raw,
                                None => String::new(),
                            };
                            proof {
                                assert(list_filter(*query, all.take(taken + 1)) == Err::<
                                    Seq<PendingWorkItemView>,
                                    (Seq<char>, Seq<char>),
                                >((id@, raw@)));
                                lemma_filter_error_persists(*query, all, taken + 1);
                            }
                            failure = Some((id, raw));
                        },
                        Some(true) => {
                            kept.push(item);
                        },
                        Some(false) => {},
                    }
                },
            }
        }
        taken = taken + 1;
    }
    match failure {
        Some((id, raw)) => Err(GetPendingWorkError::InvalidTags { id, raw }),
        None => {
            assert(all.take(taken as int) =~= all);
            Ok(kept)
        },
    }
}

/// Lists pending-work items: collects the listable records, keeps those in the query's
/// scope with the wanted effort and tags, orders them (grouped by section for the `All`
/// scope) and caps them, 10 by default. A tag filter fails on the first kept item whose
/// `tags` frontmatter does not parse; without one, tags are never read.
pub fn execute<S: PendingWorkStore>(query: &GetPendingWork, store: &S, projects: &ProjectRegistry) -> (r: Result<
    ListResult,
    GetPendingWorkError<S::Error>,
>)
    ensures
        r matches Ok(result) ==> exists|collected: Seq<PendingWorkItemView>|
            #[trigger] listed_from(*query, collected, result) && forall|i: int|
                0 <= i < collected.len() ==> status_included(
                    query.status_filter,
                    #[trigger] collected[i].status,
                ),
        r matches Ok(result) ==> ({
            &&& sorted_by(result.items@, list_order(query.scope == ListScope::All, query.order))
            &&& forall|i: int|
                0 <= i < result.items@.len() ==> scope_and_effort_ok(
                    *query,
                    #[trigger] result.items@[i],
                ) && tag_verdict(query.tags, result.items@[i].tags) == Some(true)
                    && status_included(query.status_filter, result.items@[i].status)
            &&& query.number != Some(0usize) ==> result.items@.len() <= cap_of(*query)
        }),
        r matches Err(GetPendingWorkError::InvalidTags { id, raw }) ==> query.tags is Some
            && exists|collected: Seq<PendingWorkItemView>|
            #[trigger] list_filter(*query, collected) == Err::<
                Seq<PendingWorkItemView>,
                (Seq<char>, Seq<char>),
            >((id@, raw@)),
{
    let collected = match collect_list_items(query, store, projects) {
        Ok(items) => items,
        Err(e) => return Err(e),
    };
    let ghost all = collected@;
    let kept = match filter_items(query, collected) {
        Ok(kept) => kept,
        Err(e) => {
            proof {
                lemma_kept_pass(*query, all);
            }
            return Err(e);
        },
    };
    proof {
        lemma_kept_pass(*query, all);
    }
    let grouped = scope_groups_output(query.scope);
    let ordered = sort_items(kept, grouped, query.order);
    let cap = match query.number {
        Some(n) => n,
        None => DEFAULT_LIST_CAP,
    };
    let ghost ord = ordered@;
    let (items, hidden) = apply_cap(ordered, cap);
    let result = ListResult { items, hidden };
    proof {
        let rel = list_order(query.scope == ListScope::All, query.order);
        assert(sorted_by(ord, rel));
        assert(capped(ord, cap_of(*query), result.items@, result.hidden as int));
        assert(list_filter(*query, all) == Ok::<Seq<PendingWorkItemView>, (Seq<char>, Seq<char>)>(kept@));
        assert(ord.to_multiset() == kept@.to_multiset());
        assert(listed_from(*query, all, result));
        assert forall|k: int| 0 <= k < result.items@.len() implies scope_and_effort_ok(
            *query,
            #[trigger] result.items@[k],
        ) && tag_verdict(query.tags, result.items@[k].tags) == Some(true) && status_included(
            query.status_filter,
            result.items@[k].status,
        ) by {
            let x = result.items@[k];
            assert(x == ord[k]);
            vstd::seq_lib::to_multiset_contains(ord, x);
            assert(ord.contains(x));
            assert(kept@.to_multiset().count(x) > 0);
            vstd::seq_lib::to_multiset_contains(kept@, x);
            let j = choose|j: int| 0 <= j < kept@.len() && kept@[j] == x;
            assert(all.contains(kept@[j]));
        }
        assert forall|i: int, j: int| 0 <= i < j < result.items@.len() implies #[trigger] rel(
            result.items@[i],
            result.items@[j],
        ) by {
            assert(result.items@[i] == ord[i]);
            assert(result.items@[j] == ord[j]);
        }
    }
    Ok(result)
}

impl<E: std::fmt::Display> GetPendingWorkError<E> {
    /// The message this failure is reported with.
    pub fn message(&self) -> (r: String)
        ensures
            match self {
                GetPendingWorkError::ReadStore(e) => exists|m: String|
                    displays(e, m@) && r@ == "pending-work read failed: "@ + m@,
                GetPendingWorkError::InvalidTags { id, raw } => r@ == "item "@ + id@
                    + " has invalid tags frontmatter: "@ + raw@,
            },
    {
        match self {
            GetPendingWorkError::ReadStore(e) => {
                let m = display_text(e);
                crate::text::concat("pending-work read failed: ", m.as_str())
            },
            GetPendingWorkError::InvalidTags { id, raw } => {
                let a = crate::text::concat("item ", id.as_str());
                let b = crate::text::concat(a.as_str(), " has invalid tags frontmatter: ");
                crate::text::concat(b.as_str(), raw.as_str())
            },
        }
    }
}

/// Ordered by identifier, items go by the number after their identifier's last `-`,
/// whatever their project codes: ascending puts the smaller number first, descending the
/// larger.
pub proof fn lemma_id_order_follows_the_number(
    order: OrderSpec,
    a: PendingWorkItemView,
    b: PendingWorkItemView,
)
    ensures
        order.field == OrderField::Id && id_suffix_of(a.id@) < id_suffix_of(b.id@) ==> ({
            &&& order.direction == OrderDirection::Asc ==> item_compare(order, a, b) < 0
            &&& order.direction == OrderDirection::Desc ==> item_compare(order, a, b) > 0
        }),
{
}

/// A list ordered by identifier number never puts a larger number before a smaller one
/// (ascending), nor a smaller before a larger (descending), whatever the project codes.
pub proof fn lemma_id_sorted_list_by_number(
    items: Seq<PendingWorkItemView>,
    order: OrderSpec,
    i: int,
    j: int,
)
    requires
        sorted_by(items, list_order(false, order)),
        order.field == OrderField::Id,
        0 <= i < j < items.len(),
    ensures
        order.direction == OrderDirection::Asc ==> id_suffix_of(items[i].id@) <= id_suffix_of(
            items[j].id@,
        ),
        order.direction == OrderDirection::Desc ==> id_suffix_of(items[j].id@) <= id_suffix_of(
            items[i].id@,
        ),
{
    assert(list_order(false, order)(items[i], items[j]));
    lemma_id_order_follows_the_number(order, items[j], items[i]);
}

/// Ordered by creation date, items go by their creation date text (none counting as the
/// earliest): ascending puts the earlier first, descending the later.
pub proof fn lemma_created_order_follows_the_date(
    order: OrderSpec,
    a: PendingWorkItemView,
    b: PendingWorkItemView,
)
    ensures
        order.field == OrderField::Created && seq_lt(created_of(a), created_of(b)) ==> ({
            &&& order.direction == OrderDirection::Asc ==> item_compare(order, a, b) < 0
            &&& order.direction == OrderDirection::Desc ==> item_compare(order, a, b) > 0
        }),
{
}

/// Ordered by project, items go by project name in the order's direction, and within one
/// project the larger identifier number comes first whatever the direction.
pub proof fn lemma_project_order(order: OrderSpec, a: PendingWorkItemView, b: PendingWorkItemView)
    ensures
        order.field == OrderField::ProjectId && seq_lt(a.project@, b.project@) ==> ({
            &&& order.direction == OrderDirection::Asc ==> item_compare(order, a, b) < 0
            &&& order.direction == OrderDirection::Desc ==> item_compare(order, a, b) > 0
        }),
        order.field == OrderField::ProjectId && a.project@ == b.project@ && id_suffix_of(b.id@)
            < id_suffix_of(a.id@) ==> item_compare(order, a, b) < 0,
{
    lemma_lt_irreflexive(a.project@);
}

proof fn lemma_last_dash_at(s: Seq<char>, k: int)
    requires
        0 <= k < s.len(),
        s[k] == '-',
        forall|i: int| k < i < s.len() ==> #[trigger] s[i] != '-',
    ensures
        last_dash(s) == Some(k),
    decreases s.len(),
{
    if k < s.len() - 1 {
        assert(s.last() != '-');
        lemma_last_dash_at(s.drop_last(), k);
    }
}

/// The number an identifier is ordered by is, for a canonical identifier, the value of its
/// four digits.
pub proof fn lemma_canonical_id_number(id: Seq<char>)
    requires
        is_work_item_id(id),
    ensures
        id_suffix_of(id) == digits_value(id.skip(id.len() - 4)),
{
    let n = id.len();
    let digits = id.skip(n - 4);
    assert forall|i: int| n - 5 < i < n implies #[trigger] id[i] != '-' by {
        assert(digits[i - (n - 4)] == id[i]);
        assert(is_ascii_digit(digits[i - (n - 4)]));
    }
    lemma_last_dash_at(id, n - 5);
    assert(id.skip(n - 5 + 1) =~= digits);
    assert(is_ascii_digit(digits[0]));
    lemma_four_digits_bound(digits);
}

} // verus!
