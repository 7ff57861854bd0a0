//! Selects the model override of a session from the item's effort tier.
use vstd::prelude::*;

use crate::pending_work::list::{effort_tier, parse_effort_tier};
use crate::pending_work::project_registry::opt_view;
use crate::pending_work::session::logic::named_tier;
use crate::pending_work::session::model::{
    tier_number, Agent, EffortTier, ModelTierCatalog, ModelTierLookup,
};
use crate::text::{concat, decimal, decimal_chars, displays, string_of, trim};

verus! {

/// Reports invalid effort values and incomplete model-tier configuration; `E` is the
/// catalog's error.
#[derive(Debug)]
pub enum ModelSelectionError<E> {
    InvalidEffort { task_id: String, value: String },
    Catalog(E),
    MissingTier { tier: u8, catalog: String },
    MissingClaudeModel { tier: u8, catalog: String },
}

/// The tier of a numeric effort value.
pub open spec fn tier_of_number(n: nat) -> EffortTier {
    if n == 1 {
        EffortTier::Low
    } else if n == 2 {
        EffortTier::Medium
    } else if n == 3 {
        EffortTier::High
    } else {
        EffortTier::Highest
    }
}

/// The effort tier a raw value names: a trimmed integer from 1 to 4, or a tier name
/// (`low`, `medium`, `high`, `highest`).
pub open spec fn effort_value_tier(raw: Seq<char>) -> Option<EffortTier> {
    match effort_tier(raw) {
        Some(n) => Some(tier_of_number(n)),
        None => named_tier(raw),
    }
}

/// What a catalog answer selects: no override for an empty model, the model otherwise.
pub open spec fn selected_model<E>(
    tier: EffortTier,
    lookup: ModelTierLookup,
    r: Result<Option<String>, ModelSelectionError<E>>,
) -> bool {
    match lookup.tier {
        None => r matches Err(ModelSelectionError::MissingTier { tier: t, catalog }) && t
            == tier_number(tier) && catalog == lookup.catalog,
        Some(entry) => match entry.claude_model {
            None => r matches Err(ModelSelectionError::MissingClaudeModel { tier: t, catalog })
                && t == tier_number(tier) && catalog == lookup.catalog,
            Some(model) => if model@.len() == 0 {
                r matches Ok(None)
            } else {
                r matches Ok(Some(m)) && m == model
            },
        },
    }
}

/// An effort value that names no tier is reported with the task and the value.
pub open spec fn invalid_effort_reported<E>(
    task_id: Seq<char>,
    effort: Option<Seq<char>>,
    r: Result<Option<String>, ModelSelectionError<E>>,
) -> bool {
    match effort {
        Some(raw) => effort_value_tier(raw) is None ==> (r matches Err(
            ModelSelectionError::InvalidEffort { task_id: t, value },
        ) && t@ == task_id && value@ == raw),
        None => true,
    }
}

/// The model selected by a catalog answer for `tier`.
pub fn select_model<E>(tier: EffortTier, lookup: ModelTierLookup) -> (r: Result<
    Option<String>,
    ModelSelectionError<E>,
>)
    ensures
        selected_model(tier, lookup, r),
{
    let ModelTierLookup { catalog, tier: entry } = lookup;
    let entry = match entry {
        Some(entry) => entry,
        None => return Err(ModelSelectionError::MissingTier { tier: tier.number(), catalog }),
    };
    let model = match entry.claude_model {
        Some(model) => model,
        None => return Err(ModelSelectionError::MissingClaudeModel { tier: tier.number(), catalog }),
    };
    if model.unicode_len() == 0 {
        Ok(None)
    } else {
        Ok(Some(model))
    }
}

/// Reads an effort tier, numeric or named.
pub fn parse_effort(raw: &str) -> (r: Option<EffortTier>)
    ensures
        r == effort_value_tier(raw@),
{
    match parse_effort_tier(raw) {
        Some(1) => Some(EffortTier::Low),
        Some(2) => Some(EffortTier::Medium),
        Some(3) => Some(EffortTier::High),
        Some(_) => Some(EffortTier::Highest),
        None => crate::pending_work::session::logic::parse_effort(raw),
    }
}

/// Selects the model override for an item: Codex and items without effort get no override;
/// otherwise the effort must name a tier (1 to 4, or its name) and the catalog's entry for it decides.
pub fn resolve_model<C: ModelTierCatalog>(
    catalog: &C,
    agent: Agent,
    task_id: &str,
    effort: Option<&str>,
) -> (r: Result<Option<String>, ModelSelectionError<C::Error>>)
    ensures
        agent == Agent::Codex ==> r matches Ok(None),
        agent == Agent::Claude && effort is None ==> r matches Ok(None),
        agent == Agent::Claude ==> invalid_effort_reported(
            task_id@,
            match effort {
                Some(raw) => Some(raw@),
                None => None,
            },
            r,
        ),
        r matches Err(ModelSelectionError::MissingTier { tier, catalog: _ }) ==> (effort matches Some(
            raw,
        ) && effort_value_tier(raw@) matches Some(t) && tier == tier_number(t)),
        r matches Err(ModelSelectionError::MissingClaudeModel { tier, catalog: _ }) ==> (
        effort matches Some(raw) && effort_value_tier(raw@) matches Some(t) && tier == tier_number(t)),
        agent == Agent::Claude ==> match effort {
            Some(raw) => match effort_value_tier(raw@) {
                Some(t) => r matches Err(ModelSelectionError::Catalog(_)) || exists|
                    lookup: ModelTierLookup,
                | #[trigger] selected_model(t, lookup, r),
                None => true,
            },
            None => true,
        },
        r matches Err(ModelSelectionError::Catalog(_)) ==> agent == Agent::Claude && match effort {
            Some(raw) => effort_value_tier(raw@) is Some,
            None => false,
        },
{
    if agent == Agent::Codex {
        return Ok(None);
    }
    let raw = match effort {
        Some(raw) => raw,
        None => return Ok(None),
    };
    let tier = match parse_effort(raw) {
        Some(tier) => tier,
        None => {
            return Err(
                ModelSelectionError::InvalidEffort {
                    task_id: task_id.to_owned(),
                    value: raw.to_owned(),
                },
            );
        },
    };
    match catalog.tier(tier) {
        Err(e) => Err(ModelSelectionError::Catalog(e)),
        Ok(lookup) => select_model(tier, lookup),
    }
}

/// Whether `r` is the message of a failed model selection.
pub open spec fn selection_reports<E: std::fmt::Display>(e: &ModelSelectionError<E>, r: Seq<char>) -> bool {
    match e {
        ModelSelectionError::InvalidEffort { task_id, value } => r == "item "@ + task_id@
            + " has an invalid effort value '"@ + value@ + "' (expected an integer 1-4)."@,
        ModelSelectionError::Catalog(source) => displays(source, r),
        ModelSelectionError::MissingTier { tier, catalog } => r == "tier "@ + decimal(*tier as nat)
            + " has no [tiers."@ + decimal(*tier as nat) + "] entry in "@ + catalog@,
        ModelSelectionError::MissingClaudeModel { tier, catalog } => r == "tier "@ + decimal(
            *tier as nat,
        ) + " in "@ + catalog@ + " has no claude_model set"@,
    }
}

impl<E: std::fmt::Display> ModelSelectionError<E> {
    /// The error's message.
    pub fn message(&self) -> (r: String)
        ensures
            selection_reports(self, r@),
            match self {
                ModelSelectionError::InvalidEffort { task_id, value } => r@ == "item "@ + task_id@
                    + " has an invalid effort value '"@ + value@ + "' (expected an integer 1-4)."@,
                ModelSelectionError::Catalog(e) => vstd::string::to_string_from_display_ensures::<E>(e, r),
                ModelSelectionError::MissingTier { tier, catalog } => r@ == "tier "@ + decimal(
                    *tier as nat,
                ) + " has no [tiers."@ + decimal(*tier as nat) + "] entry in "@ + catalog@,
                ModelSelectionError::MissingClaudeModel { tier, catalog } => r@ == "tier "@ + decimal(
                    *tier as nat,
                ) + " in "@ + catalog@ + " has no claude_model set"@,
            },
    {
        match self {
            ModelSelectionError::InvalidEffort { task_id, value } => {
                let a = concat("item ", task_id.as_str());
                let b = concat(a.as_str(), " has an invalid effort value '");
                let c = concat(b.as_str(), value.as_str());
                concat(c.as_str(), "' (expected an integer 1-4).")
            },
            ModelSelectionError::Catalog(e) => {
                let m = e.to_string();
                assert(vstd::string::to_string_from_display_ensures::<E>(e, m));
                m
            },
            ModelSelectionError::MissingTier { tier, catalog } => {
                let digits = decimal_chars(*tier as u64);
                let number = string_of(&digits, 0, digits.len());
                proof {
                    assert(digits@.subrange(0, digits.len() as int) =~= digits@);
                }
                let a = concat("tier ", number.as_str());
                let b = concat(a.as_str(), " has no [tiers.");
                let c = concat(b.as_str(), number.as_str());
                let d = concat(c.as_str(), "] entry in ");
                concat(d.as_str(), catalog.as_str())
            },
            ModelSelectionError::MissingClaudeModel { tier, catalog } => {
                let digits = decimal_chars(*tier as u64);
                let number = string_of(&digits, 0, digits.len());
                proof {
                    assert(digits@.subrange(0, digits.len() as int) =~= digits@);
                }
                let a = concat("tier ", number.as_str());
                let b = concat(a.as_str(), " in ");
                let c = concat(b.as_str(), catalog.as_str());
                concat(c.as_str(), " has no claude_model set")
            },
        }
    }

    /// The catalog failure behind a catalog error.
    pub fn source(&self) -> (r: Option<&E>)
        ensures
            match self {
                ModelSelectionError::Catalog(e) => r == Some(e),
                _ => r is None,
            },
    {
        match self {
            ModelSelectionError::Catalog(e) => Some(e),
            _ => None,
        }
    }
}

/// An effort value selects its tier by number or by name: a number from 1 to 4 selects
/// the tier whose number it is, and otherwise `low`, `medium`, `high` and `highest` (after
/// trimming) select the tiers numbered 1 to 4, and nothing else selects a tier.
pub proof fn lemma_effort_selects_its_tier(raw: Seq<char>)
    ensures
        effort_tier(raw) matches Some(n) ==> (effort_value_tier(raw) matches Some(t)
            && tier_number(t) == n),
        effort_tier(raw) is None ==> ({
            let t = trim(raw);
            &&& (t == "low"@ <==> (effort_value_tier(raw) is Some && tier_number(effort_value_tier(raw)->0) == 1))
            &&& (t == "medium"@ <==> (effort_value_tier(raw) is Some && tier_number(effort_value_tier(raw)->0) == 2))
            &&& (t == "high"@ <==> (effort_value_tier(raw) is Some && tier_number(effort_value_tier(raw)->0) == 3))
            &&& (t == "highest"@ <==> (effort_value_tier(raw) is Some && tier_number(effort_value_tier(raw)->0) == 4))
        }),
{
    reveal_strlit("low");
    reveal_strlit("medium");
    reveal_strlit("high");
    reveal_strlit("highest");
}

} // verus!
