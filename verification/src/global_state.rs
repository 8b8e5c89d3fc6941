//! The project shared by the API views.

use vstd::prelude::*;
use std::sync::Arc;
use crate::models::{ApiEnvironment, ApiProject};
use crate::project_copy::same_project;

verus! {

/// The current project, and the cached environments.
pub struct GlobalApiState {
    pub project: ApiProject,
    pub environments: Vec<ApiEnvironment>,
}

impl GlobalApiState {
    /// An empty project and no cached environments.
    pub fn new() -> (r: Self)
        ensures
            r.project.collections@.len() == 0,
            r.project.environments@.len() == 0,
            r.project.active_env_id is None,
            r.project.history@.len() == 0,
            r.environments@.len() == 0,
    {
        GlobalApiState { project: ApiProject::default(), environments: Vec::new() }
    }

    /// A shared copy of the current project.
    pub fn get_project(&self) -> (r: Arc<ApiProject>)
        ensures
            same_project(*r, self.project),
    {
        Arc::new(self.project.duplicate())
    }

    /// Makes `project` the current project.
    pub fn set_project(&mut self, project: ApiProject)
        ensures
            final(self).project == project,
            final(self).environments == old(self).environments,
    {
        self.project = project;
    }
}

impl Default for GlobalApiState {
    fn default() -> (r: Self)
        ensures
            r.project.collections@.len() == 0,
            r.project.environments@.len() == 0,
            r.project.active_env_id is None,
            r.project.history@.len() == 0,
            r.environments@.len() == 0,
    {
        GlobalApiState::new()
    }
}

} // verus!
