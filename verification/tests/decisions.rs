use pwf_application::handoff::add::{allocation_request, link_patch};
use pwf_application::handoff::lifecycle::preflight::{
    archive_move, move_unless_taken, reopen_move, close_settled, close_source, gate_item, gate_presence, handoff_tagged, newest_continuation,
    reopen_settled, reopen_source, require_directory, scaffold_destination, scaffold_of,
    scaffold_repository, settled_outcome,
};
use pwf_application::handoff::lifecycle::{CloseHandoffAction, MoveOutcome, PendingHandoffMutation};
use pwf_application::handoff::ports::LinkedPendingWork;
use pwf_application::handoff::{
    HandoffDocument, HandoffDocumentIdentifier, HandoffDocumentScopePresence, HandoffError,
    HandoffLocation, HandoffScope, HandoffStatus,
};
use pwf_application::note::add_note::note_to_insert;
use pwf_application::note::ProjectNote;
use pwf_application::pending_work::close::{close_patch, open_record, CloseError};
use pwf_application::pending_work::done::{done_mark, future_header};
use pwf_application::pending_work::session::model::AgentModel;
use pwf_application::ports::{IndexEntryState, IndexPlacement, Materialization, PendingWorkItem, RecordId};
use pwf_application::pending_work::done::ClosedItemAction;
use pwf_application::pending_work::dto::PendingWorkItemView;
use pwf_application::pending_work::find::{open_records_named, single_match, FindPendingWorkError};
use pwf_application::pending_work::session::dispatch::{
    after_first_open, after_retry, DispatchSessionError, DispatchSessionOk, TabStep,
};
use pwf_application::pending_work::session::host::ZellijTabOpenError;
use pwf_application::pending_work::session::model::{
    Agent, AgentLaunch, DispatchMode, DispatchTarget, LaunchDirectives, SessionEffort, SessionPlan,
};
use pwf_application::pending_work::session::plan::{admit_launchable, PlanSessionError};
use pwf_application::pending_work::session::verify::verification_of;
use pwf_application::ports::WorkItemStatus;

fn view(id: &str, launchable: bool, issues: &[&str]) -> PendingWorkItemView {
    PendingWorkItemView {
        id: id.to_string(),
        project: "pwf".to_string(),
        status: WorkItemStatus::Active,
        session: "ship it".to_string(),
        prompt: "ship it".to_string(),
        repo: Some("/repo/pwf".to_string()),
        note: "/notes/pwf/pwf.md".to_string(),
        item_file: None,
        line: 1,
        format: "note".to_string(),
        launchable,
        needs_prompt: false,
        issues: issues.iter().map(|issue| issue.to_string()).collect(),
        section: None,
        prereq: None,
        prerequisite_statuses: Vec::new(),
        effort: None,
        tags: None,
        created: None,
    }
}

fn document(file_name: &str, location: HandoffLocation, modified_nanos: i128) -> HandoffDocument {
    HandoffDocument {
        identifier: HandoffDocumentIdentifier { file_name: file_name.to_string(), location },
        location,
        project: Some("pwf".to_string()),
        title: "t".to_string(),
        status: Some(HandoffStatus::Active),
        created: Some("2026-07-14".to_string()),
        completed: None,
        pending_work_identifier_raw: None,
        goals_completed: 0,
        goals_total: 0,
        body: String::new(),
        source: String::new(),
        locator: format!("/repo/pwf/docs/handoffs/{file_name}"),
        modified_nanos,
    }
}

fn plan() -> SessionPlan {
    SessionPlan {
        launch: AgentLaunch {
            agent: Agent::Claude,
            task_id: "PWF-0001".to_string(),
            title: "PWF-0001 :: ship it".to_string(),
            repository: "/repo/pwf".to_string(),
            prompt: "ship it".to_string(),
            model: None,
            effort: SessionEffort::High,
        },
        mode: DispatchMode::Multiplexer,
        target: DispatchTarget { session: "pwf".to_string(), window: "PWF-0001".to_string() },
    }
}

#[test]
fn close_patch_records_status_date_commits_and_trimmed_report() {
    let patch = close_patch(
        ClosedItemAction::Cancelled,
        "2026-07-20",
        Some("a..b".to_string()),
        Some("  superseded  "),
    )
    .unwrap();
    assert_eq!(patch.status, Some(WorkItemStatus::Cancelled));
    assert_eq!(patch.completed, Some(Some("2026-07-20".to_string())));
    assert_eq!(patch.commits, Some(Some("a..b".to_string())));
    assert_eq!(patch.report.as_deref(), Some("superseded"));

    let done = close_patch(ClosedItemAction::Done, "2026-07-21", None, None).unwrap();
    assert_eq!(done.status, Some(WorkItemStatus::Done));
    assert_eq!(done.commits, None);
    assert_eq!(done.report, None);

    assert!(close_patch(ClosedItemAction::Done, "2026-07-21", None, Some(" \t")).is_none());
}

#[test]
fn verification_appends_the_selection_issue_and_blocks_the_launch() {
    let item = view("PWF-0001", true, &["first"]);
    let launch = AgentLaunch::new(
        &item,
        "ship it",
        LaunchDirectives::none(),
        Agent::Claude,
        None,
        SessionEffort::standard(),
    );
    let failed = verification_of(item.clone(), launch.clone(), Some("catalog unavailable".to_string()));
    assert!(!failed.launchable);
    assert_eq!(failed.issues, ["first", "catalog unavailable"]);
    assert_eq!(failed.task_id.as_deref(), Some("PWF-0001"));

    let clean = verification_of(item, launch, None);
    assert!(clean.launchable);
    assert_eq!(clean.issues, ["first"]);
}

#[test]
fn planning_refuses_an_item_that_is_not_launchable() {
    let refused =
        admit_launchable::<String, String>(view("PWF-0002", false, &["needs a prompt"])).unwrap_err();
    assert!(matches!(
        refused,
        PlanSessionError::NotLaunchable { ref id, ref issues }
            if id == "PWF-0002" && issues == &vec!["needs a prompt".to_string()]
    ));
    let admitted = admit_launchable::<String, String>(view("PWF-0003", true, &[])).unwrap();
    assert_eq!(admitted.id, "PWF-0003");
}

#[test]
fn single_match_distinguishes_none_one_and_several() {
    let none = single_match::<String>(Vec::new(), "pwf-1").unwrap_err();
    assert!(matches!(none, FindPendingWorkError::ItemNotFound { ref id } if id == "pwf-1"));
    let one = single_match::<String>(vec![view("PWF-0001", true, &[])], "pwf-1").unwrap();
    assert_eq!(one.id, "PWF-0001");
    let several = single_match::<String>(
        vec![view("PWF-0001", true, &[]), view("PWF-0001", true, &[])],
        "pwf-1",
    )
    .unwrap_err();
    assert!(matches!(several, FindPendingWorkError::AmbiguousId { ref id } if id == "pwf-1"));
}

#[test]
fn handoff_tags_link_only_when_they_parse_and_name_handoff() {
    assert_eq!(handoff_tagged(None), Ok(false));
    assert_eq!(handoff_tagged(Some("[sqlite, Handoff]".to_string())), Ok(true));
    assert_eq!(handoff_tagged(Some("[sqlite]".to_string())), Ok(false));
    assert_eq!(handoff_tagged(Some("handoff".to_string())), Err("handoff".to_string()));
}

#[test]
fn newest_continuation_takes_the_newest_active_document() {
    let documents = vec![
        document("2026-07-14-old.md", HandoffLocation::Active, 0),
        document("2026-07-15-api-cleanup.md", HandoffLocation::Active, 1_000_000_000),
        document("2026-07-16-archived.md", HandoffLocation::Archived, 5_000_000_000),
    ];
    let (title, prompt) = newest_continuation::<String>("/repo/pwf", &documents).unwrap();
    assert_eq!(title, "continue api cleanup");
    assert_eq!(prompt, "Continue the handoff at @docs/handoffs/2026-07-15-api-cleanup.md.");

    let archived_only = vec![document("2026-07-16-archived.md", HandoffLocation::Archived, 0)];
    let error = newest_continuation::<String>("/repo/pwf", &archived_only).unwrap_err();
    assert_eq!(error.message(), "No handoff Markdown files found in /repo/pwf/docs/handoffs.");
}

#[test]
fn continuing_needs_the_handoff_directory() {
    assert!(require_directory::<String>("/repo/pwf", HandoffDocumentScopePresence::Present).is_ok());
    let error =
        require_directory::<String>("/repo/pwf", HandoffDocumentScopePresence::DirectoryMissing)
            .unwrap_err();
    assert_eq!(error.message(), "No handoff directory found for project at /repo/pwf/docs/handoffs.");
}

#[test]
fn settled_outcome_follows_the_target_directory_lookup() {
    assert!(matches!(
        settled_outcome::<String>(Ok(Some(0)), "PWF-0001".to_string(), "/d".to_string()),
        Ok(PendingHandoffMutation::AlreadyInTargetState)
    ));
    assert!(matches!(
        settled_outcome::<String>(Ok(None), "PWF-0001".to_string(), "/d".to_string()),
        Err(HandoffError::HandoffNotFound { ref id, ref directory }) if id == "PWF-0001" && directory == "/d"
    ));
}

#[test]
fn tab_steps_keep_zellij_messages() {
    let plan = plan();
    assert!(matches!(
        after_first_open::<String>(&plan, Ok(())),
        TabStep::Finished(Ok(DispatchSessionOk::TabOpened { .. }))
    ));
    assert!(matches!(
        after_first_open::<String>(&plan, Err(ZellijTabOpenError::SessionNotFound)),
        TabStep::StartSession
    ));
    assert!(matches!(
        after_first_open::<String>(&plan, Err(ZellijTabOpenError::Rejected("busy".to_string()))),
        TabStep::Finished(Err(DispatchSessionError::TabOpen { ref message, .. })) if message == "busy"
    ));
    assert!(matches!(
        after_retry::<String>(&plan, Ok(())),
        Ok(DispatchSessionOk::MultiplexerStartedAndTabOpened { .. })
    ));
    assert!(matches!(
        after_retry::<String>(&plan, Err(ZellijTabOpenError::SessionNotFound)),
        Err(DispatchSessionError::TabOpen { ref message, .. }) if message == "session not found"
    ));
}

#[test]
fn note_to_insert_numbers_one_above_the_highest() {
    let notes = vec![
        ProjectNote { id: "PWF-NOTE-0002".to_string(), topic: "a".to_string() },
        ProjectNote { id: "PWF-NOTE-0007".to_string(), topic: "b".to_string() },
    ];
    let note = note_to_insert("PWF", &notes, "hello".to_string(), "2026-07-26".to_string()).unwrap();
    assert_eq!(note.id, "PWF-NOTE-0008");
    assert_eq!(note.message, "hello");
    assert_eq!(note.created, "2026-07-26");

    let full = vec![ProjectNote { id: "PWF-NOTE-9999".to_string(), topic: "z".to_string() }];
    assert!(note_to_insert("PWF", &full, "x".to_string(), "d".to_string()).is_none());
    assert!(note_to_insert("pwf", &notes, "x".to_string(), "d".to_string()).is_none());
}

#[test]
fn handoff_add_hands_the_link_and_the_allocation_request() {
    let patch = link_patch("PWF-0009");
    assert_eq!(patch.pending_work_identifier.as_deref(), Some("PWF-0009"));
    assert!(patch.location.is_none() && patch.status.is_none() && patch.body.is_none());
    let request = allocation_request("2026-07-26", "pwf");
    assert_eq!(request.created, "2026-07-26");
    assert_eq!(request.project, "pwf");
    assert_eq!(request.tag, "handoff");
}

fn stored(status: WorkItemStatus) -> PendingWorkItem {
    PendingWorkItem {
        id: RecordId::Item("PWF-0001".to_string()),
        title: "t".to_string(),
        status,
        created: None,
        completed: None,
        commits: None,
        tags: None,
        effort: None,
        prereq: None,
        section: None,
        body: String::new(),
        source: String::new(),
        locator: "/notes/pwf/PWF-0001.md".to_string(),
        placement: Some(IndexPlacement { index_path: "/notes/pwf/pwf.md".to_string(), line: 1 }),
        materialization: Materialization::NoteFile,
    }
}

#[test]
fn closing_needs_an_active_record() {
    let id = "PWF-0001".to_string();
    assert!(open_record::<String>(Some(stored(WorkItemStatus::Active)), &id).is_ok());
    for answer in [None, Some(stored(WorkItemStatus::Done))] {
        assert!(matches!(
            open_record::<String>(answer, &id),
            Err(CloseError::ItemNotFound { ref id }) if id == "PWF-0001"
        ));
    }
}

#[test]
fn the_done_queue_writes_a_dated_mark_and_the_future_header() {
    let mark = done_mark("PWF-0001", "2026-07-20");
    assert_eq!(mark.id, "PWF-0001");
    assert_eq!(mark.state, IndexEntryState::Done("2026-07-20".to_string()));
    assert_eq!(mark.section, "");
    assert_eq!(future_header().label, "Future");
}

#[test]
fn agent_models_convert_from_names() {
    assert_eq!(AgentModel::from(Some("opus".to_string())), AgentModel(Some("opus".to_string())));
    assert_eq!(AgentModel::from(None::<String>), AgentModel(None));
    assert_eq!(AgentModel::from("sonnet".to_string()), AgentModel(Some("sonnet".to_string())));
}

fn linked(file_name: &str, location: HandoffLocation, status: HandoffStatus, raw: &str) -> HandoffDocument {
    let mut d = document(file_name, location, 0);
    d.status = Some(status);
    d.pending_work_identifier_raw = Some(raw.to_string());
    d
}

#[test]
fn close_source_finds_the_one_active_link_ignoring_case() {
    let documents = vec![
        linked("a.md", HandoffLocation::Active, HandoffStatus::Active, "PWF-0002"),
        linked("b.md", HandoffLocation::Active, HandoffStatus::Active, "pwf-0001"),
    ];
    assert_eq!(close_source::<String>(&documents, "PWF-0001", "/d").unwrap(), Some(1));
    assert_eq!(close_source::<String>(&documents, "PWF-0003", "/d").unwrap(), None);
    let twice = vec![
        linked("a.md", HandoffLocation::Active, HandoffStatus::Active, "PWF-0001"),
        linked("b.md", HandoffLocation::Active, HandoffStatus::Active, "PWF-0001"),
    ];
    assert!(matches!(
        close_source::<String>(&twice, "PWF-0001", "/d"),
        Err(HandoffError::AmbiguousHandoff { ref id, ref directory }) if id == "PWF-0001" && directory == "/d"
    ));
}

#[test]
fn close_settles_on_an_archived_link_of_any_status() {
    let archived = vec![linked("a.md", HandoffLocation::Archived, HandoffStatus::Done, "PWF-0001")];
    assert!(matches!(
        close_settled::<String>(&archived, "PWF-0001".to_string(), "/active".to_string(), "/archived"),
        Ok(PendingHandoffMutation::AlreadyInTargetState)
    ));
    assert!(matches!(
        close_settled::<String>(&Vec::new(), "PWF-0001".to_string(), "/active".to_string(), "/archived"),
        Err(HandoffError::HandoffNotFound { ref id, ref directory }) if id == "PWF-0001" && directory == "/active"
    ));
}

#[test]
fn reopen_restores_only_an_archived_link_that_is_not_active() {
    let archived = vec![
        linked("a.md", HandoffLocation::Archived, HandoffStatus::Active, "PWF-0001"),
        linked("b.md", HandoffLocation::Archived, HandoffStatus::Done, "PWF-0001"),
    ];
    assert_eq!(reopen_source::<String>(&archived, "PWF-0001", "/archived").unwrap(), Some(1));
    let active = vec![linked("a.md", HandoffLocation::Active, HandoffStatus::Active, "PWF-0001")];
    assert!(matches!(
        reopen_settled::<String>(&active, "PWF-0001".to_string(), "/archived".to_string(), "/active"),
        Ok(PendingHandoffMutation::AlreadyInTargetState)
    ));
    let done_in_active = vec![linked("a.md", HandoffLocation::Active, HandoffStatus::Done, "PWF-0001")];
    assert!(matches!(
        reopen_settled::<String>(&done_in_active, "PWF-0001".to_string(), "/archived".to_string(), "/active"),
        Err(HandoffError::HandoffNotFound { ref directory, .. }) if directory == "/archived"
    ));
}

#[test]
fn the_gate_passes_only_a_tagged_item_of_a_configured_repository() {
    let id = "PWF-0001".to_string();
    let project = "pwf".to_string();
    let repo = "/repo/pwf".to_string();
    let blank = "  ".to_string();
    let item = |tags: Option<&str>| {
        Some(LinkedPendingWork { id: id.clone(), tags: tags.map(|t| t.to_string()) })
    };
    assert_eq!(gate_item::<String>(&id, &project, None, Some(&repo)).unwrap(), None);
    assert_eq!(gate_item::<String>(&id, &project, item(None), Some(&repo)).unwrap(), None);
    assert_eq!(gate_item::<String>(&id, &project, item(Some("[sqlite]")), Some(&repo)).unwrap(), None);
    assert_eq!(
        gate_item::<String>(&id, &project, item(Some("[handoff]")), Some(&repo)).unwrap(),
        Some("/repo/pwf".to_string())
    );
    assert!(matches!(
        gate_item::<String>(&id, &project, item(Some("handoff")), Some(&repo)),
        Err(HandoffError::InvalidTags { ref id, ref raw }) if id == "PWF-0001" && raw == "handoff"
    ));
    for repository in [None, Some(&blank)] {
        assert!(matches!(
            gate_item::<String>(&id, &project, item(Some("[handoff]")), repository),
            Err(HandoffError::UnmanagedProject { ref id, ref project }) if id == "PWF-0001" && project == "pwf"
        ));
    }
}

#[test]
fn the_gate_refuses_a_missing_repository() {
    let scope = HandoffScope { repository_root: "/repo/pwf".to_string() };
    assert!(matches!(
        gate_presence::<String>("PWF-0001".to_string(), scope.clone(), HandoffDocumentScopePresence::RepositoryMissing),
        Err(HandoffError::RepositoryMissing { ref id, ref path }) if id == "PWF-0001" && path == "/repo/pwf"
    ));
    for presence in [HandoffDocumentScopePresence::Present, HandoffDocumentScopePresence::DirectoryMissing] {
        let gate = gate_presence::<String>("PWF-0001".to_string(), scope.clone(), presence).unwrap().unwrap();
        assert_eq!(gate.pending_work_identifier, "PWF-0001");
        assert_eq!(gate.scope, scope);
    }
}

#[test]
fn a_scaffold_is_named_by_date_and_slug_unless_taken() {
    let scaffold = scaffold_of("/repo/pwf", "pwf", "API Cleanup", "2026-07-15");
    assert_eq!(scaffold.identifier.file_name, "2026-07-15-api-cleanup.md");
    assert_eq!(scaffold.path, "/repo/pwf/docs/handoffs/2026-07-15-api-cleanup.md");
    assert_eq!(scaffold.document.project, "pwf");
    assert_eq!(scaffold.document.pending_work_identifier, None);
    assert!(scaffold.document.body.starts_with("\n# API Cleanup\n"));
    assert_eq!(scaffold_destination::<String>(scaffold.clone(), false).unwrap(), scaffold);
    assert!(matches!(
        scaffold_destination::<String>(scaffold, true),
        Err(HandoffError::ActiveDestinationExists { ref path }) if path == "/repo/pwf/docs/handoffs/2026-07-15-api-cleanup.md"
    ));
    assert!(scaffold_repository::<String>("pwf", "/repo/pwf", HandoffDocumentScopePresence::DirectoryMissing).is_ok());
    assert!(matches!(
        scaffold_repository::<String>("pwf", "/repo/pwf", HandoffDocumentScopePresence::RepositoryMissing),
        Err(HandoffError::RepositoryMissing { ref id, ref path }) if id == "pwf" && path == "/repo/pwf"
    ));
}

#[test]
fn finding_keeps_the_open_records_of_the_identifier_in_order() {
    let mut other = stored(WorkItemStatus::Active);
    other.id = RecordId::Item("PWF-0002".to_string());
    let mut unlinked = stored(WorkItemStatus::Active);
    unlinked.placement = None;
    let mut second = stored(WorkItemStatus::Active);
    second.title = "second".to_string();
    let records = vec![
        stored(WorkItemStatus::Done),
        other,
        stored(WorkItemStatus::Active),
        unlinked,
        second,
    ];
    let matched = open_records_named(&records, "pwf", Some("/repo/pwf"), "PWF-0001");
    assert_eq!(matched.len(), 2);
    assert!(matched.iter().all(|view| view.id == "PWF-0001" && view.project == "pwf"));
    assert_eq!(matched[0].session, "t");
    assert_eq!(matched[1].session, "second");
    assert!(open_records_named(&records, "pwf", None, "PWF-0009").is_empty());
}

#[test]
fn moves_carry_the_close_or_reopen_patch_unless_the_destination_is_taken() {
    let scope = HandoffScope { repository_root: "/repo/pwf".to_string() };
    let mut snapshot = linked("2026-07-19-managed-flow.md", HandoffLocation::Active, HandoffStatus::Active, "PWF-0001");
    snapshot.body = "# Flow\n\n".to_string();

    let done = archive_move(scope.clone(), snapshot.clone(), CloseHandoffAction::Done, "2026-07-20", None);
    assert_eq!(done.outcome, MoveOutcome::Archived);
    assert_eq!(done.patch.location, Some(HandoffLocation::Archived));
    assert_eq!(done.patch.status, Some(HandoffStatus::Done));
    assert_eq!(done.patch.completed, Some(Some("2026-07-20".to_string())));
    assert_eq!(done.patch.body, None);

    let cancelled = archive_move(scope.clone(), snapshot.clone(), CloseHandoffAction::Cancelled, "2026-07-20", Some("dropped"));
    assert_eq!(cancelled.patch.status, Some(HandoffStatus::Cancelled));
    assert!(cancelled.patch.body.as_deref().unwrap().starts_with("# Flow"));
    assert!(cancelled.patch.body.as_deref().unwrap().contains("dropped"));

    assert!(matches!(
        move_unless_taken::<String>(done.clone(), false),
        Ok(PendingHandoffMutation::Move(ref m)) if *m == done
    ));
    assert!(matches!(
        move_unless_taken::<String>(done, true),
        Err(HandoffError::ArchivedDestinationExists { ref path }) if path == "/repo/pwf/docs/handoffs/archived/2026-07-19-managed-flow.md"
    ));

    let reopened = reopen_move(scope, snapshot);
    assert_eq!(reopened.outcome, MoveOutcome::Reopened);
    assert_eq!(reopened.patch.location, Some(HandoffLocation::Active));
    assert_eq!(reopened.patch.status, Some(HandoffStatus::Active));
    assert_eq!(reopened.patch.completed, Some(None));
    assert!(matches!(
        move_unless_taken::<String>(reopened, true),
        Err(HandoffError::ActiveDestinationExists { ref path }) if path == "/repo/pwf/docs/handoffs/2026-07-19-managed-flow.md"
    ));
}
