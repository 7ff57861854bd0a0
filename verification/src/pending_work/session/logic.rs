//! Builds an item's agent launch and selects the model override of a session from the
//! item's named effort tier.
use vstd::prelude::*;

use crate::pending_work::dto::PendingWorkItemView;
use crate::pending_work::session::launch::{launch_prompt_of, thread_title_of};
use crate::pending_work::session::model::{
    tier_name, Agent, AgentLaunch, EffortTier, LaunchDirectives, ModelTierCatalog,
    ModelTierLookup, SessionEffort,
};
use crate::text::{chars_of, concat, str_eq, string_of, trim, trimmed};

verus! {

/// The launch of an item with its task content, directives, agent, model and effort; the
/// same launch [`AgentLaunch::new`] builds.
pub fn agent_launch(
    item: &PendingWorkItemView,
    task_content: &str,
    directives: LaunchDirectives,
    agent: Agent,
    model: Option<String>,
    effort: SessionEffort,
) -> (r: AgentLaunch)
    ensures
        r.agent == agent,
        r.task_id@ == item.id@,
        r.title@ == thread_title_of(*item),
        r.repository@ == match item.repo {
            Some(repo) => repo@,
            None => Seq::empty(),
        },
        r.prompt@ == launch_prompt_of(task_content@, item.id@, directives),
        r.model == model,
        r.effort == effort,
{
    AgentLaunch::new(item, task_content, directives, agent, model, effort)
}

/// Reports invalid effort values and incomplete model-tier configuration; `E` is the
/// catalog's error.
#[derive(Debug)]
pub enum ModelSelectionError<E> {
    InvalidEffort { task_id: String, value: String },
    Catalog(E),
    MissingTier { tier: EffortTier, catalog: String },
    MissingClaudeModel { tier: EffortTier, catalog: String },
}

/// The effort tier a raw value names: `low`, `medium`, `high` or `highest`, trimmed.
pub open spec fn named_tier(raw: Seq<char>) -> Option<EffortTier> {
    let t = trim(raw);
    if t == "low"@ {
        Some(EffortTier::Low)
    } else if t == "medium"@ {
        Some(EffortTier::Medium)
    } else if t == "high"@ {
        Some(EffortTier::High)
    } else if t == "highest"@ {
        Some(EffortTier::Highest)
    } else {
        None
    }
}

/// Reads a named effort tier.
pub fn parse_effort(raw: &str) -> (r: Option<EffortTier>)
    ensures
        r == named_tier(raw@),
{
    let v = chars_of(raw);
    let t = trimmed(&v);
    let ts = string_of(&t, 0, t.len());
    proof {
        assert(t@.subrange(0, t.len() as int) =~= t@);
    }
    if str_eq(ts.as_str(), "low") {
        Some(EffortTier::Low)
    } else if str_eq(ts.as_str(), "medium") {
        Some(EffortTier::Medium)
    } else if str_eq(ts.as_str(), "high") {
        Some(EffortTier::High)
    } else if str_eq(ts.as_str(), "highest") {
        Some(EffortTier::Highest)
    } else {
        None
    }
}

/// What a catalog answer selects for `tier`.
pub open spec fn selected_model<E>(
    tier: EffortTier,
    lookup: ModelTierLookup,
    r: Result<Option<String>, ModelSelectionError<E>>,
) -> bool {
    match lookup.tier {
        None => r matches Err(ModelSelectionError::MissingTier { tier: t, catalog }) && t == tier
            && catalog == lookup.catalog,
        Some(entry) => match entry.claude_model {
            None => r matches Err(ModelSelectionError::MissingClaudeModel { tier: t, catalog })
                && t == tier && catalog == lookup.catalog,
            Some(model) => if model@.len() == 0 {
                r matches Ok(None)
            } else {
                r matches Ok(Some(m)) && m == model
            },
        },
    }
}

/// An effort value that names no tier is reported with the task and the value.
pub open spec fn invalid_effort_reported<E>(
    task_id: Seq<char>,
    effort: Option<Seq<char>>,
    r: Result<Option<String>, ModelSelectionError<E>>,
) -> bool {
    match effort {
        Some(raw) => named_tier(raw) is None ==> (r matches Err(
            ModelSelectionError::InvalidEffort { task_id: t, value },
        ) && t@ == task_id && value@ == raw),
        None => true,
    }
}

/// The model selected by a catalog answer for `tier`.
pub fn select_model<E>(tier: EffortTier, lookup: ModelTierLookup) -> (r: Result<
    Option<String>,
    ModelSelectionError<E>,
>)
    ensures
        selected_model(tier, lookup, r),
{
    let ModelTierLookup { catalog, tier: entry } = lookup;
    let entry = match entry {
        Some(entry) => entry,
        None => return Err(ModelSelectionError::MissingTier { tier, catalog }),
    };
    let model = match entry.claude_model {
        Some(model) => model,
        None => return Err(ModelSelectionError::MissingClaudeModel { tier, catalog }),
    };
    if model.unicode_len() == 0 {
        Ok(None)
    } else {
        Ok(Some(model))
    }
}

/// Selects the model override for an item: Codex and items without effort get no override;
/// otherwise the effort must name a tier and the catalog's entry for it decides.
pub fn resolve_model<C: ModelTierCatalog>(
    catalog: &C,
    agent: Agent,
    task_id: &str,
    effort: Option<&str>,
) -> (r: Result<Option<String>, ModelSelectionError<C::Error>>)
    ensures
        agent == Agent::Codex ==> r matches Ok(None),
        agent == Agent::Claude && effort is None ==> r matches Ok(None),
        agent == Agent::Claude ==> invalid_effort_reported(
            task_id@,
            match effort {
                Some(raw) => Some(raw@),
                None => None,
            },
            r,
        ),
        agent == Agent::Claude ==> match effort {
            Some(raw) => match named_tier(raw@) {
                Some(t) => r matches Err(ModelSelectionError::Catalog(_)) || exists|
                    lookup: ModelTierLookup,
                | #[trigger] selected_model(t, lookup, r),
                None => true,
            },
            None => true,
        },
        r matches Err(ModelSelectionError::Catalog(_)) ==> agent == Agent::Claude && match effort {
            Some(raw) => named_tier(raw@) is Some,
            None => false,
        },
{
    if agent == Agent::Codex {
        return Ok(None);
    }
    let raw = match effort {
        Some(raw) => raw,
        None => return Ok(None),
    };
    let tier = match parse_effort(raw) {
        Some(tier) => tier,
        None => {
            return Err(
                ModelSelectionError::InvalidEffort {
                    task_id: task_id.to_owned(),
                    value: raw.to_owned(),
                },
            );
        },
    };
    match catalog.tier(tier) {
        Err(e) => Err(ModelSelectionError::Catalog(e)),
        Ok(lookup) => select_model(tier, lookup),
    }
}

impl<E: std::fmt::Display> ModelSelectionError<E> {
    /// The error's message.
    pub fn message(&self) -> (r: String)
        ensures
            match self {
                ModelSelectionError::InvalidEffort { task_id, value } => r@ == "item "@ + task_id@
                    + " has an invalid effort value '"@ + value@
                    + "' (expected low, medium, high, or highest)."@,
                ModelSelectionError::Catalog(e) => vstd::string::to_string_from_display_ensures::<E>(e, r),
                ModelSelectionError::MissingTier { tier, catalog } => r@ == "tier "@ + tier_name(
                    *tier,
                ) + " has no [tiers."@ + tier_name(*tier) + "] entry in "@ + catalog@,
                ModelSelectionError::MissingClaudeModel { tier, catalog } => r@ == "tier "@
                    + tier_name(*tier) + " in "@ + catalog@ + " has no claude_model set"@,
            },
    {
        match self {
            ModelSelectionError::InvalidEffort { task_id, value } => {
                let a = concat("item ", task_id.as_str());
                let b = concat(a.as_str(), " has an invalid effort value '");
                let c = concat(b.as_str(), value.as_str());
                concat(c.as_str(), "' (expected low, medium, high, or highest).")
            },
            ModelSelectionError::Catalog(e) => e.to_string(),
            ModelSelectionError::MissingTier { tier, catalog } => {
                let name = tier.name();
                let a = concat("tier ", name);
                let b = concat(a.as_str(), " has no [tiers.");
                let c = concat(b.as_str(), name);
                let d = concat(c.as_str(), "] entry in ");
                concat(d.as_str(), catalog.as_str())
            },
            ModelSelectionError::MissingClaudeModel { tier, catalog } => {
                let a = concat("tier ", tier.name());
                let b = concat(a.as_str(), " in ");
                let c = concat(b.as_str(), catalog.as_str());
                concat(c.as_str(), " has no claude_model set")
            },
        }
    }

    /// The catalog failure behind a catalog error.
    pub fn source(&self) -> (r: Option<&E>)
        ensures
            match self {
                ModelSelectionError::Catalog(e) => r == Some(e),
                _ => r is None,
            },
    {
        match self {
            ModelSelectionError::Catalog(e) => Some(e),
            _ => None,
        }
    }
}

} // verus!
