//! Semantic session values shared by operations and adapters.
use vstd::prelude::*;

use crate::pending_work::project_registry::opt_view;

verus! {

/// Selects a supported agent.
#[derive(Debug, Clone, Copy, PartialEq, Eq, Structural)]
pub enum Agent {
    Claude,
    Codex,
}

/// Selects where an agent runs.
#[derive(Debug, Clone, Copy, PartialEq, Eq, Structural)]
pub enum DispatchMode {
    Inline,
    Multiplexer,
}

/// Selects optional launch-prompt directives.
#[derive(Debug, Clone, Copy, PartialEq, Eq, Structural)]
pub struct LaunchDirectives {
    pub worktree: bool,
    pub autonomous: bool,
}

impl LaunchDirectives {
    /// No directives.
    pub fn none() -> (r: Self)
        ensures
            !r.worktree && !r.autonomous,
    {
        LaunchDirectives { worktree: false, autonomous: false }
    }
}

/// Selects the reasoning effort for one agent session; `High` by default.
#[derive(Debug, Clone, Copy, PartialEq, Eq, Structural)]
pub enum SessionEffort {
    Low,
    Medium,
    High,
    XHigh,
}

pub open spec fn session_effort_text(effort: SessionEffort) -> Seq<char> {
    match effort {
        SessionEffort::Low => "low"@,
        SessionEffort::Medium => "medium"@,
        SessionEffort::High => "high"@,
        SessionEffort::XHigh => "xhigh"@,
    }
}

impl SessionEffort {
    /// The default effort.
    pub fn standard() -> (r: Self)
        ensures
            r == SessionEffort::High,
    {
        SessionEffort::High
    }

    /// The effort's name.
    pub fn as_str(self) -> (r: &'static str)
        ensures
            r@ == session_effort_text(self),
    {
        match self {
            SessionEffort::Low => "low",
            SessionEffort::Medium => "medium",
            SessionEffort::High => "high",
            SessionEffort::XHigh => "xhigh",
        }
    }
}

/// An item's effort tier, selecting a model-tier catalog entry.
#[derive(Debug, Clone, Copy, PartialEq, Eq, Structural)]
pub enum EffortTier {
    Low,
    Medium,
    High,
    Highest,
}

/// The tier's number, 1 to 4.
pub open spec fn tier_number(tier: EffortTier) -> nat {
    match tier {
        EffortTier::Low => 1,
        EffortTier::Medium => 2,
        EffortTier::High => 3,
        EffortTier::Highest => 4,
    }
}

/// The tier's name.
pub open spec fn tier_name(tier: EffortTier) -> Seq<char> {
    match tier {
        EffortTier::Low => "low"@,
        EffortTier::Medium => "medium"@,
        EffortTier::High => "high"@,
        EffortTier::Highest => "highest"@,
    }
}

impl EffortTier {
    /// The tier's number, 1 to 4.
    pub fn number(self) -> (r: u8)
        ensures
            r == tier_number(self),
    {
        match self {
            EffortTier::Low => 1,
            EffortTier::Medium => 2,
            EffortTier::High => 3,
            EffortTier::Highest => 4,
        }
    }

    /// The tier's name.
    pub fn name(self) -> (r: &'static str)
        ensures
            r@ == tier_name(self),
    {
        match self {
            EffortTier::Low => "low",
            EffortTier::Medium => "medium",
            EffortTier::High => "high",
            EffortTier::Highest => "highest",
        }
    }
}

/// Describes a provider-neutral agent launch.
#[derive(Debug, Clone, PartialEq, Eq)]
pub struct AgentLaunch {
    pub agent: Agent,
    pub task_id: String,
    pub title: String,
    pub repository: String,
    pub prompt: String,
    pub model: Option<String>,
    pub effort: SessionEffort,
}

/// Identifies a multiplexer session and window.
#[derive(Debug, Clone, PartialEq, Eq)]
pub struct DispatchTarget {
    pub session: String,
    pub window: String,
}

/// Groups a provider-neutral launch with its mechanical dispatch destination.
#[derive(Debug, Clone, PartialEq, Eq)]
pub struct SessionPlan {
    pub launch: AgentLaunch,
    pub mode: DispatchMode,
    pub target: DispatchTarget,
}

/// Contains the context shown before an interactive dispatch.
#[derive(Debug, Clone, PartialEq, Eq)]
pub struct DispatchConfirmation {
    pub task_id: String,
    pub title: String,
    pub created: Option<String>,
    pub mode: DispatchMode,
    pub agent: Agent,
    pub directives: LaunchDirectives,
    pub model: String,
    pub effort: SessionEffort,
    pub target: DispatchTarget,
}

/// Contains an agent binary's availability and discovered metadata.
#[derive(Debug, Clone, PartialEq, Eq)]
pub struct AgentProbe {
    pub binary: String,
    pub available: bool,
    pub path: Option<String>,
    pub version: Option<String>,
}

/// Contains pending-work launchability and an optional provider-neutral launch.
#[derive(Debug, Clone, PartialEq, Eq)]
pub struct VerifySessionOk {
    pub task_id: Option<String>,
    pub launchable: bool,
    pub issues: Vec<String>,
    pub launch: Option<AgentLaunch>,
}

/// Contains a raw model-tier catalog entry.
#[derive(Debug, Clone, PartialEq, Eq)]
pub struct ModelTier {
    /// Preserves an empty configured value for application validation.
    pub claude_model: Option<String>,
}

/// Contains a model-tier result and its diagnostic-facing catalog path.
#[derive(Debug, Clone, PartialEq, Eq)]
pub struct ModelTierLookup {
    pub catalog: String,
    pub tier: Option<ModelTier>,
}

/// Loads model-tier entries without owning selection policy.
pub trait ModelTierCatalog {
    /// Concrete catalog failure.
    type Error;

    /// Loads the entry for an effort tier.
    fn tier(&self, effort: EffortTier) -> Result<ModelTierLookup, Self::Error>;
}

/// The agent harness' model; `None` keeps the harness default.
#[derive(Debug, Clone, PartialEq, Eq)]
pub struct AgentModel(pub Option<String>);

impl AgentModel {
    /// The model name shown when no model is selected.
    pub const MODEL_DEFAULT: &'static str = "default";

    /// The selected model, if any.
    pub fn into_inner(self) -> (r: Option<String>)
        ensures
            r == self.0,
    {
        self.0
    }

    /// The selected model, or `default`.
    pub fn display_or_default(&self) -> (r: String)
        ensures
            r@ == match self.0 {
                Some(m) => m@,
                None => "default"@,
            },
    {
        match &self.0 {
            Some(m) => m.clone(),
            None => "default".to_owned(),
        }
    }

    /// A model selection from an optional name.
    pub fn from_name(value: Option<&str>) -> (r: Self)
        ensures
            opt_view(r.0) == match value {
                Some(v) => Some(v@),
                None => None,
            },
    {
        match value {
            Some(v) => AgentModel(Some(v.to_owned())),
            None => AgentModel(None),
        }
    }
}

impl From<Option<String>> for AgentModel {
    fn from(value: Option<String>) -> (r: Self) {
        AgentModel(value)
    }
}

impl vstd::std_specs::convert::FromSpecImpl<Option<String>> for AgentModel {
    open spec fn obeys_from_spec() -> bool {
        true
    }

    open spec fn from_spec(value: Option<String>) -> Self {
        AgentModel(value)
    }
}

impl From<String> for AgentModel {
    fn from(value: String) -> (r: Self) {
        AgentModel(Some(value))
    }
}

impl vstd::std_specs::convert::FromSpecImpl<String> for AgentModel {
    open spec fn obeys_from_spec() -> bool {
        true
    }

    open spec fn from_spec(value: String) -> Self {
        AgentModel(Some(value))
    }
}

} // verus!
