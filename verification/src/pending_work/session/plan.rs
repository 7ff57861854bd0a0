//! Plans a pending-work session before host validation or dispatch.
use vstd::prelude::*;

use crate::pending_work::find::{
    find_open_item, find_reports, routed_error, FindPendingWorkError, PendingWorkStore,
};
use crate::pending_work::project_registry::{opt_view, ProjectRegistry};
use crate::pending_work::session::host::{RepositorySessionClient, ZellijSessionClient};
use crate::pending_work::dto::PendingWorkItemView;
use crate::pending_work::session::launch::{
    dispatch_target, dispatch_target_of, launch_prompt_of, thread_title_of,
};
use crate::pending_work::session::model::{
    Agent, AgentLaunch, AgentModel, AgentProbe, DispatchConfirmation, DispatchMode, DispatchTarget,
    LaunchDirectives, ModelTierCatalog, SessionEffort, SessionPlan,
};
use crate::pending_work::session::model_selection::{
    resolve_model, selection_reports, ModelSelectionError,
};
use crate::text::{concat, join, join_with, string_views};

verus! {

/// The command line of one agent provider: its binary's availability and the argv that
/// would run a launch.
pub trait SessionProviderClient {
    fn probe(&self) -> AgentProbe;

    fn preview(&self, launch: &AgentLaunch) -> Vec<String>;
}

/// Requests one provider-neutral session plan.
#[derive(Debug, Clone, PartialEq, Eq)]
pub struct PlanSession {
    pub id: String,
    pub intent: PlanSessionIntent,
    pub mode: DispatchMode,
    pub directives: LaunchDirectives,
    pub agent: Agent,
    pub model_override: AgentModel,
}

/// Selects whether a plan is prepared for dispatch or rendered without effects.
#[derive(Debug, Clone, PartialEq, Eq)]
pub enum PlanSessionIntent {
    Dispatch { append: Option<String> },
    DryRun,
}

/// Contains the session planning outcome.
#[derive(Debug)]
pub enum PlanSessionOk {
    Dispatch(PreparedSessionDispatch),
    DryRun(DryRunSession),
}

/// A validated dry-run plan and the exact argv of its process.
#[derive(Debug)]
pub struct DryRunSession {
    plan: SessionPlan,
    argv: Vec<String>,
    probe: AgentProbe,
}

impl DryRunSession {
    pub closed spec fn plan_spec(&self) -> SessionPlan {
        self.plan
    }

    pub closed spec fn argv_spec(&self) -> Seq<String> {
        self.argv@
    }

    pub closed spec fn probe_spec(&self) -> AgentProbe {
        self.probe
    }

    /// The provider-neutral session plan.
    pub fn plan(&self) -> (r: &SessionPlan)
        ensures
            *r == self.plan_spec(),
    {
        &self.plan
    }

    /// The argv the plan would run.
    pub fn argv(&self) -> (r: &Vec<String>)
        ensures
            r@ == self.argv_spec(),
    {
        &self.argv
    }

    /// The provider binary's probe.
    pub fn probe(&self) -> (r: &AgentProbe)
        ensures
            *r == self.probe_spec(),
    {
        &self.probe
    }
}

/// A session plan with the text to append to the item before it is dispatched.
#[derive(Debug)]
pub struct PreparedSessionDispatch {
    plan: SessionPlan,
    confirmation: DispatchConfirmation,
    append: Option<String>,
    probe: AgentProbe,
}

impl PreparedSessionDispatch {
    pub closed spec fn plan_spec(&self) -> SessionPlan {
        self.plan
    }

    pub closed spec fn confirmation_spec(&self) -> DispatchConfirmation {
        self.confirmation
    }

    pub closed spec fn append_spec(&self) -> Option<String> {
        self.append
    }

    pub closed spec fn probe_spec(&self) -> AgentProbe {
        self.probe
    }

    /// The provider-neutral session plan.
    pub fn plan(&self) -> (r: &SessionPlan)
        ensures
            *r == self.plan_spec(),
    {
        &self.plan
    }

    /// The context rendered before an interactive dispatch.
    pub fn confirmation(&self) -> (r: &DispatchConfirmation)
        ensures
            *r == self.confirmation_spec(),
    {
        &self.confirmation
    }

    /// The text to append to the item before the dispatch, when one was asked for.
    pub fn append(&self) -> (r: &Option<String>)
        ensures
            *r == self.append_spec(),
    {
        &self.append
    }

    /// The provider binary's probe.
    pub fn probe(&self) -> (r: &AgentProbe)
        ensures
            *r == self.probe_spec(),
    {
        &self.probe
    }
}

/// Reports failures that prevent a session plan from being produced; `E` is the storage
/// adapter's error and `M` the model catalog's.
#[derive(Debug)]
pub enum PlanSessionError<E, M> {
    Find(FindPendingWorkError<E>),
    NotLaunchable { id: String, issues: Vec<String> },
    RepositoryMissing { project: String, path: String },
    MultiplexerNotFound,
    ModelTier(ModelSelectionError<M>),
}

fn copy_target(target: &DispatchTarget) -> (r: DispatchTarget)
    ensures
        r == *target,
{
    DispatchTarget { session: target.session.clone(), window: target.window.clone() }
}

/// What a plan of `command` holds: the requested mode and agent, the launch of the found
/// item with the overriding model when one was given, and the multiplexer target of the
/// item's identifier.
pub open spec fn planned(plan: SessionPlan, command: PlanSession) -> bool {
    &&& plan.mode == command.mode
    &&& plan.launch.agent == command.agent
    &&& plan.launch.effort == SessionEffort::High
    &&& (command.model_override.0 is Some ==> opt_view(plan.launch.model) == opt_view(
        command.model_override.0,
    ))
    &&& (plan.target.session@, plan.target.window@) == dispatch_target_of(plan.launch.task_id@)
}

/// Whether `plan` launches the found `item` for `command`: a launchable item, its identifier,
/// its thread title and repository, and its prompt under the command's directives.
pub open spec fn launches_item(plan: SessionPlan, item: PendingWorkItemView, command: PlanSession) -> bool {
    &&& item.launchable
    &&& plan.launch.task_id@ == item.id@
    &&& plan.launch.title@ == thread_title_of(item)
    &&& plan.launch.repository@ == match item.repo {
        Some(repo) => repo@,
        None => Seq::empty(),
    }
    &&& plan.launch.prompt@ == launch_prompt_of(item.prompt@, item.id@, command.directives)
}

/// Admits a found item to planning: a launchable item as it is, any other refused with its
/// identifier and issues.
pub fn admit_launchable<E, M>(item: PendingWorkItemView) -> (r: Result<
    PendingWorkItemView,
    PlanSessionError<E, M>,
>)
    ensures
        item.launchable ==> r == Ok::<PendingWorkItemView, PlanSessionError<E, M>>(item),
        !item.launchable ==> (r matches Err(PlanSessionError::NotLaunchable { id, issues }) && id
            == item.id && issues == item.issues),
{
    if item.launchable {
        Ok(item)
    } else {
        Err(PlanSessionError::NotLaunchable { id: item.id, issues: item.issues })
    }
}

/// Plans one open item without performing host I/O or persistence: the item must be found
/// and launchable, its model resolved (unless overridden) and its repository present; a
/// multiplexer dispatch also needs Zellij. A dry run renders the exact argv, wrapped in a
/// new Zellij tab for the multiplexer.
pub fn execute<S, C, R, P, Z>(
    command: &PlanSession,
    store: &S,
    projects: &ProjectRegistry,
    model_tiers: &C,
    repository: &R,
    claude: &P,
    codex: &P,
    zellij: &Z,
) -> (r: Result<PlanSessionOk, PlanSessionError<S::Error, C::Error>>) where
    S: PendingWorkStore,
    C: ModelTierCatalog,
    R: RepositorySessionClient,
    P: SessionProviderClient,
    Z: ZellijSessionClient,

    ensures
        r matches Err(PlanSessionError::Find(e)) ==> routed_error(*projects, command.id@, Err(e)),
        r matches Err(PlanSessionError::MultiplexerNotFound) ==> (command.intent is Dispatch
            && command.mode == DispatchMode::Multiplexer),
        r matches Ok(PlanSessionOk::Dispatch(d)) ==> ({
            &&& command.intent matches PlanSessionIntent::Dispatch { append } && opt_view(
                d.append_spec(),
            ) == opt_view(append)
            &&& planned(d.plan_spec(), *command)
            &&& d.confirmation_spec().task_id == d.plan_spec().launch.task_id
            &&& d.confirmation_spec().mode == command.mode
            &&& d.confirmation_spec().agent == command.agent
            &&& d.confirmation_spec().directives == command.directives
            &&& d.confirmation_spec().target == d.plan_spec().target
        }),
        r matches Ok(PlanSessionOk::DryRun(d)) ==> (command.intent is DryRun && planned(
            d.plan_spec(),
            *command,
        )),
        r matches Ok(PlanSessionOk::DryRun(d)) ==> exists|item: PendingWorkItemView|
            #[trigger] launches_item(d.plan_spec(), item, *command),
        r matches Ok(PlanSessionOk::Dispatch(d)) ==> exists|item: PendingWorkItemView|
            #[trigger] launches_item(d.plan_spec(), item, *command),
        r matches Err(PlanSessionError::NotLaunchable { id, issues }) ==> exists|
            item: PendingWorkItemView,
        | !(#[trigger] item.launchable) && item.id == id && item.issues == issues,
{
    let probe = match command.agent {
        Agent::Claude => claude.probe(),
        Agent::Codex => codex.probe(),
    };
    let item = match find_open_item(store, projects, command.id.as_str()) {
        Ok(item) => item,
        Err(e) => return Err(PlanSessionError::Find(e)),
    };
    let ghost listed = item;
    let item = match admit_launchable(item) {
        Ok(item) => item,
        Err(refused) => {
            proof {
                assert(!listed.launchable);
            }
            return Err(refused);
        },
    };
    let ghost found = item;
    let model = match &command.model_override.0 {
        Some(model) => Some(model.clone()),
        None => match resolve_model(
            model_tiers,
            command.agent,
            item.id.as_str(),
            match &item.effort {
                Some(effort) => Some(effort.as_str()),
                None => None,
            },
        ) {
            Ok(model) => model,
            Err(e) => return Err(PlanSessionError::ModelTier(e)),
        },
    };
    let shown_model = AgentModel(model.clone()).display_or_default();
    let target = dispatch_target(item.id.as_str());
    let launch = AgentLaunch::new(
        &item,
        item.prompt.as_str(),
        command.directives,
        command.agent,
        model,
        SessionEffort::High,
    );
    let plan = SessionPlan { launch, mode: command.mode, target };
    if !repository.is_directory(plan.launch.repository.as_str()) {
        return Err(
            PlanSessionError::RepositoryMissing {
                project: item.project.clone(),
                path: plan.launch.repository.clone(),
            },
        );
    }
    let dispatching = match &command.intent {
        PlanSessionIntent::Dispatch { .. } => true,
        PlanSessionIntent::DryRun => false,
    };
    if dispatching && command.mode == DispatchMode::Multiplexer && !zellij.available() {
        return Err(PlanSessionError::MultiplexerNotFound);
    }
    match &command.intent {
        PlanSessionIntent::Dispatch { append } => {
            let confirmation = DispatchConfirmation {
                task_id: plan.launch.task_id.clone(),
                title: item.session,
                created: item.created,
                mode: command.mode,
                agent: command.agent,
                directives: command.directives,
                model: shown_model,
                effort: SessionEffort::High,
                target: copy_target(&plan.target),
            };
            let prepared = PreparedSessionDispatch {
                plan,
                confirmation,
                append: append.clone(),
                probe,
            };
            proof {
                assert(launches_item(prepared.plan_spec(), found, *command));
            }
            Ok(PlanSessionOk::Dispatch(prepared))
        },
        PlanSessionIntent::DryRun => {
            let provider_argv = match command.agent {
                Agent::Claude => claude.preview(&plan.launch),
                Agent::Codex => codex.preview(&plan.launch),
            };
            let argv = match command.mode {
                DispatchMode::Inline => provider_argv,
                DispatchMode::Multiplexer => zellij.new_tab_process_argv(
                    plan.target.session.as_str(),
                    plan.launch.repository.as_str(),
                    plan.target.window.as_str(),
                    &provider_argv,
                ),
            };
            let dry = DryRunSession { plan, argv, probe };
            proof {
                assert(launches_item(dry.plan_spec(), found, *command));
            }
            Ok(PlanSessionOk::DryRun(dry))
        },
    }
}

impl<E: std::fmt::Display, M: std::fmt::Display> PlanSessionError<E, M> {
    /// The message this failure is reported with.
    pub fn message(&self) -> (r: String)
        ensures
            match self {
                PlanSessionError::Find(e) => find_reports(e, r@),
                PlanSessionError::NotLaunchable { id, issues } => r@ == "Pending-work item '"@ + id@
                    + "' is not launchable: "@ + join_with(string_views(issues@), "; "@),
                PlanSessionError::RepositoryMissing { project, path } => r@
                    == "Repo directory for project '"@ + project@ + "' does not exist: "@ + path@,
                PlanSessionError::MultiplexerNotFound => r@
                    == "zellij not found on PATH; cannot dispatch a pwf session (Linux-only feature)."@,
                PlanSessionError::ModelTier(e) => selection_reports(e, r@),
            },
    {
        match self {
            PlanSessionError::Find(e) => e.message(),
            PlanSessionError::NotLaunchable { id, issues } => {
                let a = concat("Pending-work item '", id.as_str());
                let b = concat(a.as_str(), "' is not launchable: ");
                let joined = join(issues, "; ");
                concat(b.as_str(), joined.as_str())
            },
            PlanSessionError::RepositoryMissing { project, path } => {
                let a = concat("Repo directory for project '", project.as_str());
                let b = concat(a.as_str(), "' does not exist: ");
                concat(b.as_str(), path.as_str())
            },
            PlanSessionError::MultiplexerNotFound => {
                "zellij not found on PATH; cannot dispatch a pwf session (Linux-only feature).".to_owned()
            },
            PlanSessionError::ModelTier(e) => e.message(),
        }
    }
}

} // verus!
