//! Agent sessions for pending-work items: launches, model selection, dispatch targets and
//! verification.
pub mod dispatch;
pub mod host;
pub mod launch;
pub mod logic;
pub mod model;
pub mod model_selection;
pub mod plan;
pub mod verify;
