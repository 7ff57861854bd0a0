//! Rejects retired pending-work create forms after optional project resolution.
use vstd::prelude::*;

use crate::pending_work::project_registry::{
    resolution_of, resolve_rows, ProjectRegistry, ProjectResolutionError, Resolution,
};

verus! {

/// Requests rejection of a retired create form.
#[derive(Debug, Clone, PartialEq, Eq)]
pub struct RejectPendingWorkCreate {
    /// Selects the project that must resolve before rejection, when present.
    pub project_identifier: Option<String>,
}

/// The rejection outcome.
#[derive(Debug, Clone, Copy, PartialEq, Eq)]
pub struct RejectPendingWorkCreateOk;

/// The project given with a retired create form did not resolve.
#[derive(Debug)]
pub enum RejectPendingWorkCreateError {
    ProjectResolution(ProjectResolutionError),
}

/// Resolves an optional project before returning the retired-create outcome.
pub fn execute(query: &RejectPendingWorkCreate, projects: &ProjectRegistry) -> (r: Result<
    RejectPendingWorkCreateOk,
    RejectPendingWorkCreateError,
>)
    ensures
        match query.project_identifier {
            None => r is Ok,
            Some(identifier) => match resolve_rows(projects.rows(), identifier@) {
                Resolution::Found(_) => r is Ok,
                resolution => r matches Err(RejectPendingWorkCreateError::ProjectResolution(e))
                    && resolution_of(Err(e)) == resolution,
            },
        },
{
    match &query.project_identifier {
        Some(identifier) => match projects.resolve(identifier.as_str()) {
            Ok(_) => Ok(RejectPendingWorkCreateOk),
            Err(e) => Err(RejectPendingWorkCreateError::ProjectResolution(e)),
        },
        None => Ok(RejectPendingWorkCreateOk),
    }
}

} // verus!
