//! Verifies pending-work launchability without probing or rendering a provider.
use vstd::prelude::*;

use crate::pending_work::dto::PendingWorkItemView;
use crate::pending_work::find::{find_open_item, routed_error, FindPendingWorkError, PendingWorkStore};
use crate::pending_work::project_registry::ProjectRegistry;
use crate::pending_work::session::model::{
    Agent, AgentLaunch, LaunchDirectives, ModelTierCatalog, SessionEffort, VerifySessionOk,
};
use crate::pending_work::session::launch::{launch_prompt_of, thread_title_of};
use crate::pending_work::session::model_selection::{
    resolve_model, selection_reports, ModelSelectionError,
};
use crate::text::string_views;

verus! {

/// Requests optional pending-work launchability context.
#[derive(Debug, Clone, PartialEq, Eq)]
pub struct VerifySession {
    pub id: Option<String>,
    pub agent: Agent,
    pub model_override: Option<String>,
}

/// Reports pending-work lookup failures during verification.
#[derive(Debug)]
pub enum VerifySessionError<E> {
    Find(FindPendingWorkError<E>),
}

/// What verifying `item` reports: the item's identifier, its launch over its own prompt
/// with no directives and the standard effort, and its issues and launchability, with a
/// model-selection failure appended, with its message, as one more issue that makes it not
/// launchable.
pub open spec fn verified_item<E: std::fmt::Display>(
    query: VerifySession,
    item: PendingWorkItemView,
    ok: VerifySessionOk,
) -> bool {
    &&& ok.task_id == Some(item.id)
    &&& ok.launch matches Some(l) && l.agent == query.agent && l.task_id@ == item.id@
        && l.title@ == thread_title_of(item) && l.repository@ == match item.repo {
        Some(repo) => repo@,
        None => Seq::empty(),
    } && l.prompt@ == launch_prompt_of(
        item.prompt@,
        item.id@,
        LaunchDirectives { worktree: false, autonomous: false },
    ) && l.effort == SessionEffort::High && (query.model_override is Some ==> l.model
        == query.model_override)
    &&& ((ok.issues@ == item.issues@ && ok.launchable == item.launchable)
        || (query.model_override is None && !ok.launchable && ok.issues@.len() == item.issues@.len()
            + 1 && ok.issues@.take(item.issues@.len() as int) == item.issues@ && (exists|
            e: ModelSelectionError<E>,
        | #[trigger] selection_reports(&e, ok.issues@.last()@)) && (ok.launch matches Some(l)
            && l.model is None)))
}

/// The model a selection gives and, when it failed, the issue it is reported with.
pub fn selection_outcome<E: std::fmt::Display>(
    selection: Result<Option<String>, ModelSelectionError<E>>,
) -> (r: (Option<String>, Option<String>))
    ensures
        match selection {
            Ok(model) => r == (model, None::<String>),
            Err(e) => r.0 is None && (r.1 matches Some(m) && selection_reports(&e, m@)),
        },
{
    match selection {
        Ok(model) => (model, None),
        Err(issue) => (None, Some(issue.message())),
    }
}

/// What verifying a found item reports, given the launch prepared for it and the issue of
/// its model selection: the item's identifier and that launch, the item's issues followed by
/// the selection issue, and launchable exactly when the item is and selection did not fail.
pub fn verification_of(item: PendingWorkItemView, launch: AgentLaunch, model_issue: Option<String>) -> (r: VerifySessionOk)
    ensures
        r.task_id == Some(item.id),
        r.launch == Some(launch),
        r.issues@ == match model_issue {
            Some(m) => item.issues@.push(m),
            None => item.issues@,
        },
        r.launchable == (item.launchable && model_issue is None),
{
    let mut issues = item.issues;
    let mut launchable = item.launchable;
    match model_issue {
        Some(issue) => {
            launchable = false;
            issues.push(issue);
        },
        None => {},
    }
    VerifySessionOk { task_id: Some(item.id), launchable, issues, launch: Some(launch) }
}

/// Verifies one open item and prepares its provider-neutral launch. Without an identifier
/// there is nothing to check. A model-selection failure is a soft issue: it is appended to
/// the item's issues and makes the item not launchable.
pub fn execute<S: PendingWorkStore, C: ModelTierCatalog>(
    query: VerifySession,
    store: &S,
    projects: &ProjectRegistry,
    model_tiers: &C,
) -> (r: Result<VerifySessionOk, VerifySessionError<S::Error>>) where
    C::Error: std::fmt::Display,

    ensures
        query.id is None ==> (r matches Ok(ok) && ok.task_id is None && ok.launchable
            && ok.issues@.len() == 0 && ok.launch is None),
        r matches Ok(ok) ==> (query.id is Some ==> (ok.task_id is Some && ok.launch is Some)),
        r matches Ok(ok) ==> (query.id is Some && query.model_override is Some ==> (ok.launch matches Some(
            l,
        ) && l.model == query.model_override && l.agent == query.agent)),
        r matches Ok(ok) ==> (query.id is Some ==> exists|item: PendingWorkItemView|
            #[trigger] verified_item::<C::Error>(query, item, ok)),
        r matches Err(VerifySessionError::Find(e)) ==> (query.id matches Some(id) && routed_error(
            *projects,
            id@,
            Err::<PendingWorkItemView, FindPendingWorkError<S::Error>>(e),
        )),
{
    let id = match query.id {
        Some(id) => id,
        None => {
            return Ok(
                VerifySessionOk {
                    task_id: None,
                    launchable: true,
                    issues: Vec::new(),
                    launch: None,
                },
            );
        },
    };
    let item = match find_open_item(store, projects, id.as_str()) {
        Ok(item) => item,
        Err(e) => return Err(VerifySessionError::Find(e)),
    };
    let ghost seen = item;
    let ghost mut failure: Option<ModelSelectionError<C::Error>> = None;
    let (model, model_issue): (Option<String>, Option<String>) = match query.model_override {
        Some(model) => (Some(model), None),
        None => {
            let selection = resolve_model(
                model_tiers,
                query.agent,
                item.id.as_str(),
                match &item.effort {
                    Some(e) => Some(e.as_str()),
                    None => None,
                },
            );
            proof {
                if selection is Err {
                    failure = Some(selection->Err_0);
                }
            }
            selection_outcome(selection)
        },
    };
    let launch = AgentLaunch::new(
        &item,
        item.prompt.as_str(),
        LaunchDirectives::none(),
        query.agent,
        model,
        SessionEffort::standard(),
    );
    let ok = verification_of(item, launch, model_issue);
    proof {
        if ok.issues@ != seen.issues@ {
            assert(ok.issues@.take(seen.issues@.len() as int) =~= seen.issues@);
        }
        if model_issue is Some {
            assert(ok.issues@.last() == model_issue.unwrap());
            assert(selection_reports(&failure.unwrap(), ok.issues@.last()@));
        }
        assert(verified_item::<C::Error>(query, seen, ok));
    }
    Ok(ok)
}

} // verus!
