use std::collections::BTreeMap;
use std::fmt;

use pwf_application::pending_work::enrich::{
    derive_flags, enrich, normalize_section_label, ISSUE_NO_REPO, ISSUE_PLACEHOLDER_PROMPT,
};
use pwf_application::pending_work::find::{
    self, is_open_item, resolve_record, CreateItemFailure, CreatedItem, FindPendingWork,
    FindPendingWorkError, ItemPatch, NewItem, PendingWorkStore, ResolveRecordError,
};
use pwf_application::pending_work::list::{
    self, GetPendingWork, GetPendingWorkError, ListResult, ListScope, OrderDirection, OrderField,
    OrderSpec, StatusFilter,
};
use pwf_application::pending_work::prerequisite::{
    has_valid_persisted_status, statuses, validate_and_merge, PrerequisiteValidationError,
};
use pwf_application::pending_work::project_registry::ProjectRegistry;
use pwf_application::pending_work::tags::{
    contains_all, is_valid_tag, parse_tag_frontmatter, parse_tag_values,
};
use pwf_application::ports::{IndexPlacement, Materialization, PendingWorkItem, RecordId, WorkItemStatus};

#[derive(Debug, Clone, PartialEq)]
struct ReadError(&'static str);

impl fmt::Display for ReadError {
    fn fmt(&self, formatter: &mut fmt::Formatter<'_>) -> fmt::Result {
        formatter.write_str(self.0)
    }
}

/// Read-only records per project.
#[derive(Default)]
struct Records {
    projects: BTreeMap<String, Vec<PendingWorkItem>>,
    unreadable: bool,
}

impl Records {
    fn with_project(mut self, project: &str, items: Vec<PendingWorkItem>) -> Self {
        self.projects.entry(project.to_string()).or_default().extend(items);
        self
    }
}

impl PendingWorkStore for Records {
    type Error = ReadError;

    fn list_items(&self, project: &str) -> Result<Vec<PendingWorkItem>, Self::Error> {
        if self.unreadable {
            return Err(ReadError("records unreadable"));
        }
        Ok(self.projects.get(project).cloned().unwrap_or_default())
    }

    fn get_item(&self, project: &str, id: &str) -> Result<Option<PendingWorkItem>, Self::Error> {
        Ok(self.list_items(project)?.into_iter().find(|item| match &item.id {
            RecordId::Item(item_id) => item_id == id,
            RecordId::Inline(_) => false,
        }))
    }

    fn update_item(&self, _project: &str, _id: &str, _patch: ItemPatch) -> Result<(), Self::Error> {
        Err(ReadError("read-only"))
    }

    fn delete_item(&self, _project: &str, _id: &str) -> Result<(), Self::Error> {
        Err(ReadError("read-only"))
    }

    fn create_item(
        &self,
        _project: &str,
        _item: NewItem,
    ) -> Result<CreatedItem, CreateItemFailure<Self::Error>> {
        Err(CreateItemFailure { created_section: None, source: ReadError("read-only") })
    }
}

// ---------------------------------------------------------------------------------------
// Enrichment.

fn enrich_record(body: &str) -> PendingWorkItem {
    PendingWorkItem {
        id: RecordId::Item("PWF-0001".to_string()),
        title: "tray gui".to_string(),
        status: WorkItemStatus::Active,
        created: Some("2026-01-01".to_string()),
        completed: None,
        commits: None,
        tags: None,
        effort: None,
        prereq: None,
        section: None,
        body: body.to_string(),
        source: String::new(),
        locator: "/notes/pwf/PWF-0001.md".to_string(),
        placement: Some(IndexPlacement { index_path: "/notes/pwf/pwf.md".to_string(), line: 7 }),
        materialization: Materialization::NoteFile,
    }
}

#[test]
fn launchable_when_repo_present_and_prompt_real() {
    let enriched = enrich(&enrich_record("add startup toggle"), Some("/repo"));
    assert!(enriched.launchable);
    assert!(!enriched.needs_prompt);
    assert!(enriched.issues.is_empty());
    assert_eq!(enriched.prompt, "add startup toggle");
    assert_eq!(enriched.repo.as_deref(), Some("/repo"));
}

#[test]
fn open_item_requires_active_status_and_index_placement() {
    let active = enrich_record("body");
    assert!(is_open_item(&active));

    let unlinked = PendingWorkItem { placement: None, ..active.clone() };
    assert!(!is_open_item(&unlinked));

    let done = PendingWorkItem { status: WorkItemStatus::Done, ..active };
    assert!(!is_open_item(&done));
}

#[test]
fn note_and_line_render_the_index_placement_not_the_note_file() {
    let enriched = enrich(&enrich_record("body"), Some("/repo"));
    assert_eq!(enriched.note, "/notes/pwf/pwf.md");
    assert_eq!(enriched.line, 7);
    assert_eq!(enriched.item_file.as_deref(), Some("/notes/pwf/PWF-0001.md"));
    assert_eq!(enriched.format, "file");
}

#[test]
fn missing_repo_and_placeholder_prompt_are_not_launchable() {
    let enriched = enrich(&enrich_record("TODO"), None);
    assert!(!enriched.launchable);
    assert!(enriched.needs_prompt);
    assert_eq!(
        enriched.issues,
        [ISSUE_NO_REPO.to_string(), ISSUE_PLACEHOLDER_PROMPT.to_string()]
    );
}

#[test]
fn missing_note_wikilink_needs_attention_with_missing_note_issue() {
    let mut rec = enrich_record("");
    rec.materialization =
        Materialization::MissingNote { expected: "/notes/pwf/PWF-0001.md".to_string() };

    let enriched = enrich(&rec, Some("/repo"));

    assert!(!enriched.launchable, "missing note must not be launchable");
    assert!(enriched.needs_prompt, "empty prompt is a placeholder");
    assert_eq!(
        enriched.issues,
        [
            "Work-item note missing: /notes/pwf/PWF-0001.md".to_string(),
            ISSUE_PLACEHOLDER_PROMPT.to_string(),
        ]
    );
    assert_eq!(enriched.prompt, "");
    assert_eq!(enriched.format, "file");
    assert_eq!(enriched.item_file.as_deref(), Some("/notes/pwf/PWF-0001.md"));
}

#[test]
fn inline_legacy_record_projects_legacy_format_and_ordinal_id() {
    let inline = PendingWorkItem {
        id: RecordId::Inline(2),
        title: "legacy task".to_string(),
        body: "do the legacy thing".to_string(),
        source: "do the legacy thing".to_string(),
        locator: "/notes/pwf/pwf.md".to_string(),
        materialization: Materialization::InlineLegacy,
        ..enrich_record("")
    };

    let item = enrich(&inline, Some("/repo")).into_pending_work_item_view("pwf".to_string());

    assert_eq!(item.id, "pwf:2");
    assert_eq!(item.format, "legacy");
    assert_eq!(item.item_file, None);
    assert_eq!(item.session, "legacy task");
    assert_eq!(item.prompt, "do the legacy thing");
    assert!(item.launchable);
}

#[test]
fn empty_title_falls_back_to_id() {
    let mut rec = enrich_record("body");
    rec.title = "  ".to_string();
    assert_eq!(enrich(&rec, Some("/repo")).session, "PWF-0001");
}

#[test]
fn section_label_is_normalized() {
    let mut rec = enrich_record("body");
    rec.section = Some("Futuro".to_string());
    assert_eq!(enrich(&rec, Some("/repo")).section.as_deref(), Some("Future"));
}

#[test]
fn unknown_section_label_is_trimmed_in_enrichment() {
    assert_eq!(normalize_section_label(" SomeDay "), "SomeDay");
    let flags = derive_flags(Some("/repo"), "real prompt", None);
    assert!(flags.launchable);
    assert!(flags.issues.is_empty());
}

// ---------------------------------------------------------------------------------------
// Finding and resolving records.

fn find_record(id: &str) -> PendingWorkItem {
    PendingWorkItem {
        id: RecordId::Item(id.to_string()),
        title: format!("title {id}"),
        status: WorkItemStatus::Active,
        created: Some("2026-07-07".to_string()),
        completed: None,
        commits: None,
        tags: None,
        effort: None,
        prereq: None,
        section: None,
        body: "do the thing".to_string(),
        source: String::new(),
        locator: format!("/notes/pwf/{id}.md"),
        placement: Some(IndexPlacement { index_path: "/notes/pwf/pwf.md".to_string(), line: 7 }),
        materialization: Materialization::NoteFile,
    }
}

fn inline(ordinal: usize) -> PendingWorkItem {
    PendingWorkItem {
        id: RecordId::Inline(ordinal),
        title: "legacy task".to_string(),
        status: WorkItemStatus::Active,
        created: None,
        completed: None,
        commits: None,
        tags: None,
        effort: None,
        prereq: None,
        section: None,
        body: "do the legacy thing".to_string(),
        source: "do the legacy thing".to_string(),
        locator: "/notes/pwf/pwf.md".to_string(),
        placement: Some(IndexPlacement { index_path: "/notes/pwf/pwf.md".to_string(), line: ordinal }),
        materialization: Materialization::InlineLegacy,
    }
}

fn registry(projects: &[(&str, &str)]) -> ProjectRegistry {
    ProjectRegistry::new(
        projects
            .iter()
            .map(|(name, prefix)| {
                (name.to_string(), Some(format!("/repo/{name}")), Some(prefix.to_string()))
            })
            .collect(),
    )
}

fn find_id(
    store: &Records,
    projects: &ProjectRegistry,
    id: &str,
) -> Result<pwf_application::pending_work::dto::PendingWorkItemView, FindPendingWorkError<ReadError>>
{
    find::execute(FindPendingWork { id: id.to_string() }, store, projects)
}

#[test]
fn find_finds_open_item_enriched_with_launchability() {
    let store = Records::default().with_project("pwf", vec![find_record("PWF-0001")]);
    let projects = registry(&[("pwf", "PWF")]);

    let item = find_id(&store, &projects, "PWF-0001").unwrap();

    assert_eq!(item.id, "PWF-0001");
    assert_eq!(item.project, "pwf");
    assert_eq!(item.repo.as_deref(), Some("/repo/pwf"));
    assert_eq!(item.prompt, "do the thing");
    assert!(item.launchable);
}

#[test]
fn find_pending_work_finds_open_item_enriched_with_launchability() {
    let store = Records::default().with_project("pwf", vec![find_record("PWF-0001")]);
    let projects = registry(&[("pwf", "PWF")]);

    let item = find_id(&store, &projects, "PWF-0001").unwrap();

    assert_eq!(item.id, "PWF-0001");
    assert_eq!(item.project, "pwf");
    assert_eq!(item.repo.as_deref(), Some("/repo/pwf"));
    assert_eq!(item.prompt, "do the thing");
    assert!(item.launchable);
}

#[test]
fn canonical_id_is_case_insensitive_via_workitemid() {
    let store = Records::default().with_project("pwf", vec![find_record("PWF-0001")]);
    let projects = registry(&[("pwf", "PWF")]);

    assert_eq!(find_id(&store, &projects, "pwf-0001").unwrap().id, "PWF-0001");
}

#[test]
fn loose_id_normalization_is_application_owned() {
    let store = Records::default().with_project("pwf", vec![find_record("PWF-0001")]);
    let projects = registry(&[("pwf", "PWF")]);

    assert_eq!(find_id(&store, &projects, "pwf-0001").unwrap().id, "PWF-0001");
}

#[test]
fn find_missing_id_errors_not_found_preserving_raw_id() {
    let store = Records::default().with_project("pwf", vec![find_record("PWF-0001")]);
    let projects = registry(&[("pwf", "PWF")]);

    let error = find_id(&store, &projects, "pwf-9999").unwrap_err();

    assert!(matches!(error, FindPendingWorkError::ItemNotFound { ref id } if id == "pwf-9999"));
    assert_eq!(error.message(), "Open pending-work item not found: pwf-9999");
}

#[test]
fn find_pending_work_missing_id_errors_not_found_preserving_raw_id() {
    let store = Records::default().with_project("pwf", vec![find_record("PWF-0001")]);
    let projects = registry(&[("pwf", "PWF")]);

    let error = find_id(&store, &projects, "pwf-9999").unwrap_err();

    assert!(matches!(error, FindPendingWorkError::ItemNotFound { ref id } if id == "pwf-9999"));
    assert_eq!(error.message(), "Open pending-work item not found: pwf-9999");
}

#[test]
fn shared_prefix_across_projects_is_ambiguous_preserving_raw_id() {
    let store = Records::default()
        .with_project("alpha", vec![find_record("PWF-0001")])
        .with_project("beta", vec![find_record("PWF-0001")]);
    let projects = registry(&[("alpha", "PWF"), ("beta", "PWF")]);

    let error = find_id(&store, &projects, "pwf-0001").unwrap_err();

    assert!(matches!(error, FindPendingWorkError::AmbiguousId { ref id } if id == "pwf-0001"));
    assert_eq!(error.message(), "Pending-work id is ambiguous: pwf-0001");
}

#[test]
fn shared_project_id_across_projects_is_ambiguous_preserving_raw_id() {
    let store = Records::default()
        .with_project("alpha", vec![find_record("PWF-0001")])
        .with_project("beta", vec![find_record("PWF-0001")]);
    let projects = registry(&[("alpha", "PWF"), ("beta", "PWF")]);

    let error = find_id(&store, &projects, "pwf-0001").unwrap_err();

    assert!(matches!(error, FindPendingWorkError::AmbiguousId { ref id } if id == "pwf-0001"));
    assert_eq!(error.message(), "Pending-work id is ambiguous: pwf-0001");
}

#[test]
fn find_duplicate_link_in_one_project_is_ambiguous() {
    let store = Records::default()
        .with_project("pwf", vec![find_record("PWF-0001"), find_record("PWF-0001")]);
    let projects = registry(&[("pwf", "PWF")]);

    let error = find_id(&store, &projects, "PWF-0001").unwrap_err();

    assert!(matches!(error, FindPendingWorkError::AmbiguousId { .. }));
}

#[test]
fn find_pending_work_duplicate_link_in_one_project_is_ambiguous() {
    let store = Records::default()
        .with_project("pwf", vec![find_record("PWF-0001"), find_record("PWF-0001")]);
    let projects = registry(&[("pwf", "PWF")]);

    let error = find_id(&store, &projects, "PWF-0001").unwrap_err();

    assert!(matches!(error, FindPendingWorkError::AmbiguousId { .. }));
}

#[test]
fn find_rejects_closed_and_unlinked_active_records() {
    let done = PendingWorkItem {
        status: WorkItemStatus::Done,
        placement: None,
        ..find_record("PWF-0001")
    };
    let unlinked_active = PendingWorkItem { placement: None, ..find_record("PWF-0002") };
    let store = Records::default().with_project("pwf", vec![done, unlinked_active]);
    let projects = registry(&[("pwf", "PWF")]);

    for id in ["PWF-0001", "PWF-0002"] {
        assert!(matches!(
            find_id(&store, &projects, id),
            Err(FindPendingWorkError::ItemNotFound { id: ref missing }) if missing == id
        ));
    }
}

#[test]
fn find_unknown_prefix_renders_like_the_legacy_adapter() {
    let store = Records::default().with_project("pwf", vec![find_record("PWF-0001")]);
    let projects = registry(&[("pwf", "PWF")]);

    let error = find_id(&store, &projects, "xyz-0001").unwrap_err();

    assert!(matches!(
        error,
        FindPendingWorkError::UnknownPrefix { ref id, ref prefix }
            if id == "XYZ-0001" && prefix == "XYZ"
    ));
    assert_eq!(error.message(), "Unknown task id prefix `XYZ` for XYZ-0001");
}

#[test]
fn find_pending_work_unknown_prefix_renders_like_the_legacy_adapter() {
    let store = Records::default().with_project("pwf", vec![find_record("PWF-0001")]);
    let projects = registry(&[("pwf", "PWF")]);

    let error = find_id(&store, &projects, "xyz-0001").unwrap_err();

    assert!(matches!(
        error,
        FindPendingWorkError::UnknownPrefix { ref id, ref prefix }
            if id == "XYZ-0001" && prefix == "XYZ"
    ));
    assert_eq!(error.message(), "Unknown task id prefix `XYZ` for XYZ-0001");
}

#[test]
fn find_non_canonical_id_resolves_a_legacy_inline_prompt_case_insensitively() {
    let store = Records::default().with_project("pwf", vec![inline(1)]);
    let projects = registry(&[("pwf", "PWF")]);

    let item = find_id(&store, &projects, "PWF:1").unwrap();

    assert_eq!(item.id, "pwf:1");
    assert_eq!(item.format, "legacy");
    assert_eq!(item.session, "legacy task");
}

#[test]
fn find_pending_work_non_canonical_id_resolves_a_legacy_inline_prompt_case_insensitively() {
    let store = Records::default().with_project("pwf", vec![inline(1)]);
    let projects = registry(&[("pwf", "PWF")]);

    let item = find_id(&store, &projects, "PWF:1").unwrap();

    assert_eq!(item.id, "pwf:1");
    assert_eq!(item.format, "legacy");
    assert_eq!(item.session, "legacy task");
}

#[test]
fn find_read_failure_keeps_the_adapter_message() {
    let store = Records { unreadable: true, ..Records::default() };
    let projects = registry(&[("pwf", "PWF")]);

    let error = find_id(&store, &projects, "PWF-0001").unwrap_err();

    assert!(matches!(error, FindPendingWorkError::ReadStore(_)));
    assert_eq!(error.message(), "records unreadable");
}

const PWF_0001_SOURCE: &str = "---\nid: PWF-0001\nstatus: active\ntitle: do the thing\nproject: pwf\ncreated: 2026-06-20\n---\n\n## Goals\n- do the thing\n";

fn resolve_staged() -> (Records, ProjectRegistry) {
    let record = PendingWorkItem {
        title: "do the thing".to_string(),
        created: Some("2026-06-20".to_string()),
        body: "\n## Goals\n- do the thing\n".to_string(),
        source: PWF_0001_SOURCE.to_string(),
        placement: None,
        ..find_record("PWF-0001")
    };
    (Records::default().with_project("pwf", vec![record]), registry(&[("pwf", "PWF")]))
}

fn resolve_staged_ghost() -> (Records, ProjectRegistry) {
    let record = PendingWorkItem {
        title: "ghost".to_string(),
        created: None,
        body: String::new(),
        placement: None,
        materialization: Materialization::MissingNote {
            expected: "/notes/pwf/PWF-0002.md".to_string(),
        },
        ..find_record("PWF-0002")
    };
    (Records::default().with_project("pwf", vec![record]), registry(&[("pwf", "PWF")]))
}

fn resolve_staged_inline() -> (Records, ProjectRegistry) {
    let record = PendingWorkItem { placement: None, ..inline(1) };
    (Records::default().with_project("pwf", vec![record]), registry(&[("pwf", "PWF")]))
}

#[test]
fn resolve_record_returns_path_and_markdown() {
    let (store, registry) = resolve_staged();

    let resolved = resolve_record(&store, &registry, "PWF-0001").unwrap();

    assert_eq!(resolved.locator, "/notes/pwf/PWF-0001.md");
    assert_eq!(resolved.source, PWF_0001_SOURCE);
}

#[test]
fn resolve_returns_expected_note_path_for_missing_note_wikilink() {
    let (store, registry) = resolve_staged_ghost();

    let resolved = resolve_record(&store, &registry, "PWF-0002").unwrap();

    assert_eq!(resolved.locator, "/notes/pwf/PWF-0002.md");
}

#[test]
fn resolve_serves_inline_legacy_id_case_insensitively() {
    let (store, registry) = resolve_staged_inline();

    let resolved = resolve_record(&store, &registry, "PWF:1").unwrap();

    assert_eq!(resolved.locator, "/notes/pwf/pwf.md");
    assert_eq!(resolved.source, "do the legacy thing");
}

#[test]
fn resolve_unknown_inline_id_preserves_raw_id() {
    let (store, registry) = resolve_staged_inline();

    let error = resolve_record(&store, &registry, "pwf:9").unwrap_err();

    assert_eq!(error.message(), "Open pending-work item not found: pwf:9");
}

#[test]
fn resolve_missing_id_preserves_raw_lowercase_id() {
    let (store, registry) = resolve_staged();

    let error = resolve_record(&store, &registry, "pwf-9999").unwrap_err();

    assert_eq!(error.message(), "Open pending-work item not found: pwf-9999");
    assert!(matches!(error, ResolveRecordError::ItemNotFound { ref id } if id == "pwf-9999"));
}

// ---------------------------------------------------------------------------------------
// Listing.

fn list_record(id: &str) -> PendingWorkItem {
    PendingWorkItem {
        id: RecordId::Item(id.to_string()),
        title: id.to_string(),
        status: WorkItemStatus::Active,
        created: Some("2026-07-07".to_string()),
        completed: None,
        commits: None,
        tags: None,
        effort: None,
        prereq: None,
        section: None,
        body: String::new(),
        source: String::new(),
        locator: format!("/notes/pwf/{id}.md"),
        placement: Some(IndexPlacement { index_path: "/notes/pwf/pwf.md".to_string(), line: 1 }),
        materialization: Materialization::NoteFile,
    }
}

fn store_and_registry(items: &[(&str, PendingWorkItem)]) -> (Records, ProjectRegistry) {
    let mut store = Records::default();
    let mut projects: Vec<&str> = items.iter().map(|(project, _)| *project).collect();
    projects.sort_unstable();
    projects.dedup();
    for project in &projects {
        let staged: Vec<PendingWorkItem> = items
            .iter()
            .filter(|(candidate, _)| candidate == project)
            .map(|(_, item)| item.clone())
            .collect();
        store = store.with_project(project, staged);
    }
    let registry = ProjectRegistry::new(
        projects
            .iter()
            .map(|project| (project.to_string(), Some(format!("/repo/{project}")), None))
            .collect(),
    );
    (store, registry)
}

fn pwf_store(items: Vec<PendingWorkItem>) -> (Records, ProjectRegistry) {
    let staged: Vec<(&str, PendingWorkItem)> = items.into_iter().map(|item| ("pwf", item)).collect();
    store_and_registry(&staged)
}

fn run(
    store: &Records,
    registry: &ProjectRegistry,
    query: &GetPendingWork,
) -> Result<ListResult, GetPendingWorkError<ReadError>> {
    list::execute(query, store, registry)
}

fn sectioned(id: &str, section: &str) -> PendingWorkItem {
    PendingWorkItem { section: Some(section.to_string()), ..list_record(id) }
}

fn effort_item(id: &str, effort: &str) -> PendingWorkItem {
    PendingWorkItem { effort: Some(effort.to_string()), ..list_record(id) }
}

fn tagged_item(id: &str, tags: &str) -> PendingWorkItem {
    PendingWorkItem { tags: Some(tags.to_string()), ..list_record(id) }
}

fn requested_tags(value: &str) -> Option<Vec<String>> {
    Some(parse_tag_values(&vec![value.to_string()]).unwrap())
}

fn dated_item(id: &str, created: &str) -> PendingWorkItem {
    PendingWorkItem { created: Some(created.to_string()), ..list_record(id) }
}

fn default_query() -> GetPendingWork {
    GetPendingWork {
        only_project: None,
        scope: ListScope::Default,
        number: None,
        effort: None,
        tags: None,
        order: OrderSpec::created_desc(),
        status_filter: StatusFilter::Only(WorkItemStatus::Active),
    }
}

fn listed_ids(result: &ListResult) -> Vec<&str> {
    result.items.iter().map(|item| item.id.as_str()).collect()
}

#[test]
fn list_filters_active_only() {
    let done = PendingWorkItem { status: WorkItemStatus::Done, ..list_record("PWF-0002") };
    let cancelled =
        PendingWorkItem { status: WorkItemStatus::Cancelled, ..list_record("PWF-0003") };
    let (store, registry) = pwf_store(vec![list_record("PWF-0001"), done, cancelled]);

    let got = run(&store, &registry, &default_query()).unwrap();

    assert_eq!(listed_ids(&got), ["PWF-0001"]);
}

#[test]
fn list_status_filter_selects_exact_statuses_and_all() {
    let done = PendingWorkItem {
        status: WorkItemStatus::Done,
        placement: None,
        ..list_record("PWF-0002")
    };
    let cancelled = PendingWorkItem {
        status: WorkItemStatus::Cancelled,
        placement: None,
        ..list_record("PWF-0003")
    };
    let (store, registry) = pwf_store(vec![list_record("PWF-0001"), done, cancelled]);

    for (status, expected) in [
        (WorkItemStatus::Active, vec!["PWF-0001"]),
        (WorkItemStatus::Done, vec!["PWF-0002"]),
        (WorkItemStatus::Cancelled, vec!["PWF-0003"]),
    ] {
        let got = run(
            &store,
            &registry,
            &GetPendingWork { status_filter: StatusFilter::Only(status), ..default_query() },
        )
        .unwrap();
        assert_eq!(listed_ids(&got), expected);
    }

    let all = run(
        &store,
        &registry,
        &GetPendingWork { status_filter: StatusFilter::All, ..default_query() },
    )
    .unwrap();
    assert_eq!(listed_ids(&all), ["PWF-0003", "PWF-0002", "PWF-0001"]);
}

#[test]
fn active_orphan_is_hidden_from_active_and_all_lists() {
    let orphan = PendingWorkItem { placement: None, ..list_record("PWF-0002") };
    let (store, registry) = pwf_store(vec![list_record("PWF-0001"), orphan]);

    for status_filter in [StatusFilter::Only(WorkItemStatus::Active), StatusFilter::All] {
        let got =
            run(&store, &registry, &GetPendingWork { status_filter, ..default_query() }).unwrap();
        assert_eq!(listed_ids(&got), ["PWF-0001"]);
    }
}

#[test]
fn status_filter_applies_before_cap_and_hidden_count() {
    let active = PendingWorkItem { created: Some("2026-07-09".to_string()), ..list_record("PWF-0009") };
    let done_newer = PendingWorkItem {
        status: WorkItemStatus::Done,
        placement: None,
        created: Some("2026-07-08".to_string()),
        ..list_record("PWF-0002")
    };
    let done_older = PendingWorkItem {
        status: WorkItemStatus::Done,
        placement: None,
        created: Some("2026-07-07".to_string()),
        ..list_record("PWF-0001")
    };
    let (store, registry) = pwf_store(vec![active, done_newer, done_older]);

    let got = run(
        &store,
        &registry,
        &GetPendingWork {
            number: Some(1),
            status_filter: StatusFilter::Only(WorkItemStatus::Done),
            ..default_query()
        },
    )
    .unwrap();

    assert_eq!(listed_ids(&got), ["PWF-0002"]);
    assert_eq!(got.hidden, 1);
}

#[test]
fn default_scope_hides_human_future_and_low_prio_sections() {
    let (store, registry) = pwf_store(vec![
        list_record("PWF-0004"),
        sectioned("PWF-0003", "Human"),
        sectioned("PWF-0002", "Future"),
        sectioned("PWF-0001", "Low-prio"),
    ]);

    let got = run(&store, &registry, &default_query()).unwrap();

    assert_eq!(listed_ids(&got), ["PWF-0004"]);
}

#[test]
fn raw_section_label_is_normalized_before_scoping() {
    let (store, registry) = pwf_store(vec![sectioned("PWF-0001", "Futuro")]);

    let got = run(
        &store,
        &registry,
        &GetPendingWork { scope: ListScope::FutureOnly, ..default_query() },
    )
    .unwrap();

    assert_eq!(listed_ids(&got), ["PWF-0001"]);
}

#[test]
fn all_scope_groups_by_section_rank() {
    let (store, registry) = pwf_store(vec![
        sectioned("GLP-0004", "Future"),
        sectioned("GLP-0003", "Human"),
        sectioned("GLP-0002", "Low-prio"),
        list_record("GLP-0001"),
    ]);

    let got =
        run(&store, &registry, &GetPendingWork { scope: ListScope::All, ..default_query() })
            .unwrap();

    assert_eq!(listed_ids(&got), ["GLP-0001", "GLP-0002", "GLP-0003", "GLP-0004"]);
}

#[test]
fn human_scope_shows_only_human_items() {
    let (store, registry) = pwf_store(vec![
        list_record("PWF-0003"),
        sectioned("PWF-0002", "Human"),
        sectioned("PWF-0001", "Future"),
    ]);

    let got = run(
        &store,
        &registry,
        &GetPendingWork { scope: ListScope::HumanOnly, ..default_query() },
    )
    .unwrap();

    assert_eq!(listed_ids(&got), ["PWF-0002"]);
}

#[test]
fn effort_filter_matches_exact_tier_only() {
    let (store, registry) = pwf_store(vec![
        effort_item("PWF-0003", "3"),
        effort_item("PWF-0002", "2"),
        list_record("PWF-0001"),
    ]);

    let got =
        run(&store, &registry, &GetPendingWork { effort: Some(3), ..default_query() }).unwrap();

    assert_eq!(listed_ids(&got), ["PWF-0003"]);
}

#[test]
fn stored_effort_trims_and_bounds_the_tier() {
    let (store, registry) = pwf_store(vec![
        effort_item("PWF-0003", " 3 "),
        effort_item("PWF-0002", "0"),
        effort_item("PWF-0001", "5"),
    ]);

    let matched =
        run(&store, &registry, &GetPendingWork { effort: Some(3), ..default_query() }).unwrap();
    assert_eq!(listed_ids(&matched), ["PWF-0003"]);

    for tier in [0, 5] {
        let empty =
            run(&store, &registry, &GetPendingWork { effort: Some(tier), ..default_query() })
                .unwrap();
        assert!(empty.items.is_empty(), "tier {tier} should not match");
    }
}

#[test]
fn tag_filter_requires_every_requested_tag() {
    let (store, registry) = pwf_store(vec![
        tagged_item("PWF-0004", "[sqlite_tools, godot]"),
        tagged_item("PWF-0003", "[sqlite, godot]"),
        tagged_item("PWF-0002", "[sqlite]"),
        list_record("PWF-0001"),
    ]);

    let got = run(
        &store,
        &registry,
        &GetPendingWork { tags: requested_tags("SQLite,godot"), ..default_query() },
    )
    .unwrap();

    assert_eq!(listed_ids(&got), ["PWF-0003"]);
}

#[test]
fn corrupt_tags_fail_only_when_a_tag_filter_is_requested() {
    let (store, registry) = pwf_store(vec![tagged_item("PWF-0001", "sqlite, godot")]);
    assert!(run(&store, &registry, &default_query()).is_ok());

    let error = run(
        &store,
        &registry,
        &GetPendingWork { tags: requested_tags("sqlite"), ..default_query() },
    )
    .unwrap_err();

    let GetPendingWorkError::InvalidTags { id, raw } = error else {
        panic!("expected invalid tags error");
    };
    assert_eq!(id, "PWF-0001");
    assert_eq!(raw, "sqlite, godot");
}

#[test]
fn scope_and_effort_filters_exclude_corrupt_tags_before_parsing() {
    let (store, registry) = pwf_store(vec![
        PendingWorkItem { section: Some("Human".to_string()), ..tagged_item("PWF-0003", "corrupt") },
        PendingWorkItem { effort: Some("2".to_string()), ..tagged_item("PWF-0002", "also corrupt") },
        PendingWorkItem { effort: Some("3".to_string()), ..tagged_item("PWF-0001", "[sqlite]") },
    ]);

    let got = run(
        &store,
        &registry,
        &GetPendingWork { effort: Some(3), tags: requested_tags("sqlite"), ..default_query() },
    )
    .unwrap();

    assert_eq!(listed_ids(&got), ["PWF-0001"]);
}

#[test]
fn tag_filter_applies_before_cap_and_hidden_count() {
    let (store, registry) = pwf_store(vec![
        list_record("PWF-9999"),
        tagged_item("PWF-0002", "[sqlite]"),
        tagged_item("PWF-0001", "[sqlite]"),
    ]);

    let got = run(
        &store,
        &registry,
        &GetPendingWork { number: Some(1), tags: requested_tags("sqlite"), ..default_query() },
    )
    .unwrap();

    assert_eq!(listed_ids(&got), ["PWF-0002"]);
    assert_eq!(got.hidden, 1);
}

#[test]
fn invalid_tags_message_names_the_item_and_raw_value() {
    let error: GetPendingWorkError<ReadError> =
        GetPendingWorkError::InvalidTags { id: "PWF-0001".to_string(), raw: "corrupt".to_string() };
    assert_eq!(error.message(), "item PWF-0001 has invalid tags frontmatter: corrupt");
}

#[test]
fn tag_values_split_on_commas_and_lowercase() {
    let parsed =
        parse_tag_values(&vec!["SQLite, godot".to_string(), "Rust-2024".to_string()]).unwrap();
    assert_eq!(parsed, ["sqlite", "godot", "rust-2024"]);
    assert_eq!(parse_tag_values(&vec!["ok,bad__tag".to_string()]).unwrap_err(), "bad__tag");
    assert_eq!(parse_tag_values(&vec!["-lead".to_string()]).unwrap_err(), "-lead");
    assert_eq!(parse_tag_values(&vec!["trail_".to_string()]).unwrap_err(), "trail_");
    assert_eq!(parse_tag_values(&vec!["sp ace".to_string()]).unwrap_err(), "sp ace");
}

#[test]
fn tag_validity_follows_the_separator_rules() {
    assert!(is_valid_tag("sqlite_tools"));
    assert!(is_valid_tag("A-b_c9"));
    assert!(!is_valid_tag(""));
    assert!(!is_valid_tag("a--b"));
    assert!(!is_valid_tag("a-_b"));
    assert!(!is_valid_tag("é"));
}

#[test]
fn tag_frontmatter_needs_brackets() {
    assert_eq!(parse_tag_frontmatter(" [SQLite, godot] ").unwrap(), ["sqlite", "godot"]);
    assert_eq!(parse_tag_frontmatter("[]").unwrap(), Vec::<String>::new());
    assert!(parse_tag_frontmatter("sqlite, godot").is_none());
    assert!(parse_tag_frontmatter("[bad tag]").is_none());
    let stored = vec!["sqlite".to_string(), "godot".to_string()];
    assert!(contains_all(&stored, &vec!["godot".to_string()]));
    assert!(!contains_all(&stored, &vec!["rust".to_string()]));
}

#[test]
fn created_desc_is_default_and_flat_across_projects() {
    let (store, registry) = store_and_registry(&[
        ("pwf", dated_item("PWF-0001", "2026-01-01")),
        ("config-handler", dated_item("CFG-0001", "2026-03-01")),
    ]);

    let got = run(&store, &registry, &default_query()).unwrap();

    assert_eq!(listed_ids(&got), ["CFG-0001", "PWF-0001"]);
}

#[test]
fn created_asc_orders_oldest_first() {
    let (store, registry) = pwf_store(vec![
        dated_item("GLP-0001", "2026-01-01"),
        dated_item("GLP-0002", "2026-03-01"),
        dated_item("GLP-0003", "2026-02-01"),
    ]);

    let got = run(
        &store,
        &registry,
        &GetPendingWork {
            order: OrderSpec { field: OrderField::Created, direction: OrderDirection::Asc },
            ..default_query()
        },
    )
    .unwrap();

    assert_eq!(listed_ids(&got), ["GLP-0001", "GLP-0003", "GLP-0002"]);
}

#[test]
fn id_desc_is_flat_across_projects() {
    let (store, registry) = store_and_registry(&[
        ("config-handler", list_record("CFG-0001")),
        ("pwf", list_record("PWF-0099")),
    ]);

    let got = run(
        &store,
        &registry,
        &GetPendingWork {
            order: OrderSpec { field: OrderField::Id, direction: OrderDirection::Desc },
            ..default_query()
        },
    )
    .unwrap();

    assert_eq!(listed_ids(&got), ["PWF-0099", "CFG-0001"]);
}

#[test]
fn project_id_order_groups_by_project_then_newest_id() {
    let (store, registry) = store_and_registry(&[
        ("pwf", list_record("PWF-9999")),
        ("config-handler", list_record("CFG-0001")),
        ("config-handler", list_record("CFG-0002")),
    ]);

    let got = run(
        &store,
        &registry,
        &GetPendingWork {
            order: OrderSpec { field: OrderField::ProjectId, direction: OrderDirection::Asc },
            ..default_query()
        },
    )
    .unwrap();

    assert_eq!(listed_ids(&got), ["CFG-0002", "CFG-0001", "PWF-9999"]);
}

#[test]
fn number_zero_keeps_all_items_and_default_cap_hides_after_ten() {
    let (store, registry) =
        pwf_store((1..=12).map(|n| list_record(&format!("GLP-{n:04}"))).collect());

    let all =
        run(&store, &registry, &GetPendingWork { number: Some(0), ..default_query() }).unwrap();
    assert_eq!(all.items.len(), 12);
    assert_eq!(all.hidden, 0);

    let capped = run(&store, &registry, &default_query()).unwrap();
    assert_eq!(capped.items.len(), 10);
    assert_eq!(capped.hidden, 2);
}

#[test]
fn inline_legacy_records_list_with_project_scoped_ids() {
    let legacy = PendingWorkItem {
        id: RecordId::Inline(1),
        title: "legacy task".to_string(),
        body: "do the legacy thing".to_string(),
        source: "do the legacy thing".to_string(),
        created: None,
        materialization: Materialization::InlineLegacy,
        ..list_record("PWF-0001")
    };
    let (store, registry) = pwf_store(vec![list_record("PWF-0002"), legacy]);

    let got = run(&store, &registry, &default_query()).unwrap();

    assert_eq!(listed_ids(&got), ["PWF-0002", "pwf:1"]);
    let legacy = &got.items[1];
    assert_eq!(legacy.format, "legacy");
    assert_eq!(legacy.item_file, None);
    assert_eq!(legacy.session, "legacy task");
}

#[test]
fn only_project_scans_just_that_project() {
    let (store, registry) = store_and_registry(&[
        ("pwf", list_record("PWF-0001")),
        ("config-handler", list_record("CFG-0001")),
    ]);

    let got = run(
        &store,
        &registry,
        &GetPendingWork { only_project: Some("pwf".to_string()), ..default_query() },
    )
    .unwrap();

    assert_eq!(listed_ids(&got), ["PWF-0001"]);
}

#[test]
fn list_read_failure_is_reported_with_its_prefix() {
    let store = Records { unreadable: true, ..Records::default() };
    let registry = registry(&[("pwf", "PWF")]);

    let error = run(&store, &registry, &default_query()).unwrap_err();

    assert_eq!(error.message(), "pending-work read failed: records unreadable");
}

// ---------------------------------------------------------------------------------------
// Prerequisites.

#[test]
fn validator_parses_checks_existence_and_merges_first_seen_ids() {
    let (store, projects) = resolve_staged();
    let merged = validate_and_merge(
        Some("[[PWF-0001]], [[PWF-0001]]"),
        &vec!["pwf1, PWF-0001".to_string()],
        &store,
        &projects,
    )
    .unwrap();

    assert_eq!(merged, "[[PWF-0001]]");
}

#[test]
fn validator_preserves_prerequisite_diagnostics() {
    let (store, projects) = resolve_staged();

    let invalid =
        validate_and_merge(None, &vec!["PWF-99999".to_string()], &store, &projects).unwrap_err();
    assert!(matches!(
        invalid,
        PrerequisiteValidationError::InvalidId { ref raw } if raw == "PWF-99999"
    ));
    assert_eq!(invalid.message(), "Invalid --prereq id: PWF-99999.");

    let missing = validate_and_merge(None, &vec![", ,".to_string()], &store, &projects).unwrap_err();
    assert!(matches!(missing, PrerequisiteValidationError::MissingId));
    assert_eq!(missing.message(), "--prereq requires an id.");

    let unknown =
        validate_and_merge(None, &vec!["PWF-9999".to_string()], &store, &projects).unwrap_err();
    assert!(matches!(
        unknown,
        PrerequisiteValidationError::UnknownIds { ref ids } if ids == &vec!["PWF-9999".to_string()]
    ));
    assert_eq!(unknown.message(), "Unknown --prereq id(s): PWF-9999.");
}

#[test]
fn validator_rejects_missing_note_materializations_as_unknown() {
    let (store, projects) = resolve_staged_ghost();

    let error =
        validate_and_merge(None, &vec!["PWF-0002".to_string()], &store, &projects).unwrap_err();

    assert!(matches!(
        error,
        PrerequisiteValidationError::UnknownIds { ref ids } if ids == &vec!["PWF-0002".to_string()]
    ));
}

#[test]
fn validator_classifies_store_read_failures_as_unknown_prerequisites() {
    let (_store, projects) = resolve_staged();
    let unreadable = Records { unreadable: true, ..Records::default() };

    let error =
        validate_and_merge(None, &vec!["PWF-0001".to_string()], &unreadable, &projects).unwrap_err();

    assert!(matches!(
        error,
        PrerequisiteValidationError::UnknownIds { ref ids } if ids == &vec!["PWF-0001".to_string()]
    ));
    assert_eq!(error.message(), "Unknown --prereq id(s): PWF-0001.");
}

#[test]
fn validator_rejects_missing_or_invalid_persisted_status_as_unknown() {
    let (staged_store, projects) = resolve_staged();
    let base = staged_store.projects["pwf"][0].clone();
    for source in [
        "---\nid: PWF-0001\ntitle: task\n---\n\nbody\n",
        "---\nid: PWF-0001\nstatus: paused\ntitle: task\n---\n\nbody\n",
        "---\nid: PWF-0001\ntitle: task\n---\n\nstatus: active\n",
    ] {
        let record = PendingWorkItem { source: source.to_string(), ..base.clone() };
        let store = Records::default().with_project("pwf", vec![record]);

        let error =
            validate_and_merge(None, &vec!["PWF-0001".to_string()], &store, &projects).unwrap_err();

        assert!(matches!(
            error,
            PrerequisiteValidationError::UnknownIds { ref ids } if ids == &vec!["PWF-0001".to_string()]
        ));
    }
}

#[test]
fn persisted_status_reads_the_frontmatter_status_line() {
    let (store, _projects) = resolve_staged();
    let record = store.projects["pwf"][0].clone();
    assert!(has_valid_persisted_status(&record));

    let with_mark = PendingWorkItem {
        source: "\u{feff}---\nstatus:  done \n---\nbody".to_string(),
        ..record.clone()
    };
    assert!(has_valid_persisted_status(&with_mark));

    let inline_record = PendingWorkItem { materialization: Materialization::InlineLegacy, ..record };
    assert!(!has_valid_persisted_status(&inline_record));
}

#[test]
fn prerequisite_statuses_follow_link_order() {
    let (store, projects) = resolve_staged();

    let found = statuses("[[PWF-0001]], [[XYZ-0001]]", &store, &projects);

    assert_eq!(found.len(), 2);
    assert_eq!(found[0].id, "PWF-0001");
    assert_eq!(found[0].status, Some(WorkItemStatus::Active));
    assert_eq!(found[1].id, "XYZ-0001");
    assert_eq!(found[1].status, None);
}

#[test]
fn canonical_tags_read_back_unchanged() {
    let canonical = parse_tag_values(&vec!["SQLite, Rust-2024".to_string()]).unwrap();
    assert_eq!(parse_tag_values(&canonical).unwrap(), canonical);
    let written = format!("[{}]", canonical.join(", "));
    assert_eq!(parse_tag_frontmatter(&written).unwrap(), canonical);
}
