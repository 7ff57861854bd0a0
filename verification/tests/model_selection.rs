use std::fmt;

use pwf_application::pending_work::session::logic;
use pwf_application::pending_work::session::model::{
    Agent, EffortTier, ModelTier, ModelTierCatalog, ModelTierLookup,
};
use pwf_application::pending_work::session::model_selection;

const CATALOG_PATH: &str = "/config/model-tiers.toml";

#[derive(Debug, Clone, PartialEq)]
struct CatalogError(&'static str);

impl fmt::Display for CatalogError {
    fn fmt(&self, formatter: &mut fmt::Formatter<'_>) -> fmt::Result {
        formatter.write_str(self.0)
    }
}

impl std::error::Error for CatalogError {}

#[derive(Clone)]
struct Catalog {
    result: Result<ModelTierLookup, CatalogError>,
}

impl ModelTierCatalog for Catalog {
    type Error = CatalogError;

    fn tier(&self, _effort: EffortTier) -> Result<ModelTierLookup, Self::Error> {
        self.result.clone()
    }
}

fn catalog(claude_model: Option<&str>) -> Catalog {
    Catalog {
        result: Ok(ModelTierLookup {
            catalog: CATALOG_PATH.to_string(),
            tier: Some(ModelTier { claude_model: claude_model.map(str::to_string) }),
        }),
    }
}

fn unavailable() -> Catalog {
    Catalog { result: Err(CatalogError("catalog unavailable")) }
}

#[test]
fn logic_codex_ignores_effort_and_the_catalog() {
    let model =
        logic::resolve_model(&unavailable(), Agent::Codex, "PWF-0001", Some("nine")).unwrap();
    assert_eq!(model, None);
}

#[test]
fn logic_claude_without_effort_does_not_read_the_catalog() {
    let model = logic::resolve_model(&unavailable(), Agent::Claude, "PWF-0001", None).unwrap();
    assert_eq!(model, None);
}

#[test]
fn logic_configured_claude_model_is_selected() {
    let model =
        logic::resolve_model(&catalog(Some("sonnet")), Agent::Claude, "PWF-0001", Some("high"))
            .unwrap();
    assert_eq!(model.as_deref(), Some("sonnet"));
}

#[test]
fn logic_empty_claude_model_is_the_no_override_sentinel() {
    let model =
        logic::resolve_model(&catalog(Some("")), Agent::Claude, "PWF-0001", Some("medium"))
            .unwrap();
    assert_eq!(model, None);
}

#[test]
fn logic_catalog_read_error_retains_its_source() {
    let error = logic::resolve_model(&unavailable(), Agent::Claude, "PWF-0001", Some("low"))
        .unwrap_err();
    assert_eq!(error.source().unwrap().to_string(), "catalog unavailable");
}

#[test]
fn logic_malformed_effort_is_an_application_error() {
    let error =
        logic::resolve_model(&catalog(Some("sonnet")), Agent::Claude, "PWF-0001", Some("nine"))
            .unwrap_err();
    assert!(matches!(
        error,
        logic::ModelSelectionError::InvalidEffort { ref task_id, ref value }
            if task_id == "PWF-0001" && value == "nine"
    ));
    assert_eq!(
        error.message(),
        "item PWF-0001 has an invalid effort value 'nine' (expected low, medium, high, or highest)."
    );
}

#[test]
fn logic_missing_tier_is_an_application_error() {
    let missing = Catalog {
        result: Ok(ModelTierLookup { catalog: CATALOG_PATH.to_string(), tier: None }),
    };
    let error =
        logic::resolve_model(&missing, Agent::Claude, "PWF-0001", Some("highest")).unwrap_err();
    assert!(matches!(
        &error,
        logic::ModelSelectionError::MissingTier { tier: EffortTier::Highest, .. }
    ));
    assert_eq!(
        error.message(),
        format!("tier highest has no [tiers.highest] entry in {CATALOG_PATH}")
    );
}

#[test]
fn logic_missing_claude_model_is_an_application_error() {
    let error = logic::resolve_model(&catalog(None), Agent::Claude, "PWF-0001", Some("highest"))
        .unwrap_err();
    assert!(matches!(
        &error,
        logic::ModelSelectionError::MissingClaudeModel { tier: EffortTier::Highest, .. }
    ));
    assert_eq!(error.message(), format!("tier highest in {CATALOG_PATH} has no claude_model set"));
}

#[test]
fn effort_text_decodes_only_plain_english_names() {
    for (raw, expected) in [
        ("low", EffortTier::Low),
        ("medium", EffortTier::Medium),
        ("high", EffortTier::High),
        ("highest", EffortTier::Highest),
    ] {
        assert_eq!(logic::parse_effort(raw), Some(expected));
    }
    for raw in ["1", "4", "abc", ""] {
        assert!(logic::parse_effort(raw).is_none());
    }
}

#[test]
fn model_selection_codex_ignores_effort_and_the_catalog() {
    let model =
        model_selection::resolve_model(&unavailable(), Agent::Codex, "PWF-0001", Some("nine"))
            .unwrap();
    assert_eq!(model, None);
}

#[test]
fn model_selection_claude_without_effort_does_not_read_the_catalog() {
    let model =
        model_selection::resolve_model(&unavailable(), Agent::Claude, "PWF-0001", None).unwrap();
    assert_eq!(model, None);
}

#[test]
fn model_selection_configured_claude_model_is_selected() {
    let model = model_selection::resolve_model(
        &catalog(Some("sonnet")),
        Agent::Claude,
        "PWF-0001",
        Some("3"),
    )
    .unwrap();
    assert_eq!(model.as_deref(), Some("sonnet"));
}

#[test]
fn model_selection_empty_claude_model_is_the_no_override_sentinel() {
    let model =
        model_selection::resolve_model(&catalog(Some("")), Agent::Claude, "PWF-0001", Some("2"))
            .unwrap();
    assert_eq!(model, None);
}

#[test]
fn model_selection_catalog_read_error_retains_its_source() {
    let error =
        model_selection::resolve_model(&unavailable(), Agent::Claude, "PWF-0001", Some("1"))
            .unwrap_err();
    assert_eq!(error.source().unwrap().to_string(), "catalog unavailable");
}

#[test]
fn model_selection_malformed_effort_is_an_application_error() {
    let error = model_selection::resolve_model(
        &catalog(Some("sonnet")),
        Agent::Claude,
        "PWF-0001",
        Some("nine"),
    )
    .unwrap_err();
    assert!(matches!(
        error,
        model_selection::ModelSelectionError::InvalidEffort { ref task_id, ref value }
            if task_id == "PWF-0001" && value == "nine"
    ));
}

#[test]
fn model_selection_missing_tier_is_an_application_error() {
    let missing = Catalog {
        result: Ok(ModelTierLookup { catalog: CATALOG_PATH.to_string(), tier: None }),
    };
    let error = model_selection::resolve_model(&missing, Agent::Claude, "PWF-0001", Some("4"))
        .unwrap_err();
    assert!(matches!(&error, model_selection::ModelSelectionError::MissingTier { tier: 4, .. }));
    assert_eq!(error.message(), format!("tier 4 has no [tiers.4] entry in {CATALOG_PATH}"));
}

#[test]
fn model_selection_missing_claude_model_is_an_application_error() {
    let error =
        model_selection::resolve_model(&catalog(None), Agent::Claude, "PWF-0001", Some("4"))
            .unwrap_err();
    assert!(matches!(
        &error,
        model_selection::ModelSelectionError::MissingClaudeModel { tier: 4, .. }
    ));
    assert_eq!(error.message(), format!("tier 4 in {CATALOG_PATH} has no claude_model set"));
}

#[test]
fn model_selection_reads_tier_names_as_well_as_numbers() {
    let model = model_selection::resolve_model(
        &catalog(Some("sonnet")),
        Agent::Claude,
        "PWF-0001",
        Some(" highest "),
    )
    .unwrap();
    assert_eq!(model.as_deref(), Some("sonnet"));
    let missing = Catalog {
        result: Ok(ModelTierLookup { catalog: CATALOG_PATH.to_string(), tier: None }),
    };
    let error = model_selection::resolve_model(&missing, Agent::Claude, "PWF-0001", Some("medium"))
        .unwrap_err();
    assert!(matches!(&error, model_selection::ModelSelectionError::MissingTier { tier: 2, .. }));
}
