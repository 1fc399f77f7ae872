use vstd::prelude::*;

use crate::application::Application;
use crate::error::InstallerError;

verus! {

/// What the pre-flight check decided to do with the workspace directory.
#[derive(Clone, Copy, Debug, PartialEq, Eq, Structural)]
pub enum WorkspaceAction {
    LeaveAlone,
    RemoveThenCreate,
    Create,
}

/// Checks the ground before a build touches it.
pub struct Checker;

impl Checker {
    pub fn new() -> (r: Checker) {
        Checker {  }
    }

    /// What to do with the workspace directory: nothing when building
    /// beside an existing snapshot; wipe and recreate an existing one only
    /// under an explicit overwrite; refuse an existing one otherwise; and
    /// create a missing one.
    pub fn plan(
        &self,
        application: &Application,
        workspace_exists: bool,
        should_overwrite: bool,
    ) -> (r: Result<WorkspaceAction, InstallerError>)
        ensures
            match r {
                Ok(action) => {
                    &&& (application.image_seed_spec() is Image ==> action
                        == WorkspaceAction::LeaveAlone)
                    &&& (!(application.image_seed_spec() is Image) && should_overwrite
                        && workspace_exists ==> action == WorkspaceAction::RemoveThenCreate)
                    &&& (!(application.image_seed_spec() is Image) && !workspace_exists ==> action
                        == WorkspaceAction::Create)
                },
                Err(e) => {
                    &&& !(application.image_seed_spec() is Image)
                    &&& workspace_exists
                    &&& !should_overwrite
                    &&& e matches InstallerError::WorkspaceAlreadyExists(p) && p@
                        == application.workspace_view()
                },
            },
            r is Err <==> !(application.image_seed_spec() is Image) && workspace_exists
                && !should_overwrite,
    {
        if application.image_seed().is_image_file() {
            return Ok(WorkspaceAction::LeaveAlone);
        }
        if should_overwrite && workspace_exists {
            return Ok(WorkspaceAction::RemoveThenCreate);
        }
        if workspace_exists {
            return Err(
                InstallerError::WorkspaceAlreadyExists(application.workspace().to_owned()),
            );
        }
        Ok(WorkspaceAction::Create)
    }
}

} // verus!
