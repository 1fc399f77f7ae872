use vstd::prelude::*;

use crate::paths::{join_of, join_path};

verus! {

/// The workspace directory used when none is named.
pub const DEFAULT_DIRECTORY: &'static str = "glamoroustoolkit";

/// The repository the application's releases come from.
pub const VM_REPOSITORY_OWNER: &'static str = "feenkcom";

pub const VM_REPOSITORY_NAME: &'static str = "gtoolkit-vm";

/// The repository the image's releases come from.
pub const GTOOLKIT_REPOSITORY_OWNER: &'static str = "feenkcom";

pub const GTOOLKIT_REPOSITORY_NAME: &'static str = "gtoolkit";

/// The choices every invocation carries: the workspace and the verbosity.
#[derive(Clone, Debug)]
pub struct AppOptions {
    verbose: bool,
    workspace: String,
}

impl AppOptions {
    pub closed spec fn verbose_spec(&self) -> bool {
        self.verbose
    }

    pub closed spec fn workspace_view(&self) -> Seq<char> {
        self.workspace@
    }

    pub fn new(verbose: bool, workspace: &str) -> (r: AppOptions)
        ensures
            r.verbose_spec() == verbose,
            r.workspace_view() == workspace@,
    {
        AppOptions { verbose, workspace: workspace.to_owned() }
    }

    pub fn verbose(&self) -> (r: bool)
        ensures
            r == self.verbose_spec(),
    {
        self.verbose
    }

    /// The workspace, anchored: a relative one is joined under the given
    /// current directory, an absolute one stands as it is.
    pub fn workspace(&self, current_dir: &str) -> (r: String)
        ensures
            self.workspace_view().len() > 0 && self.workspace_view()[0] == '/' ==> r@
                == self.workspace_view(),
            self.workspace_view().len() == 0 || self.workspace_view()[0] != '/' ==> r@ == join_of(
                current_dir@,
                self.workspace_view(),
            ),
    {
        let n = self.workspace.as_str().unicode_len();
        if n > 0 && self.workspace.as_str().get_char(0) == '/' {
            self.workspace.clone()
        } else {
            join_path(current_dir, self.workspace.as_str())
        }
    }
}

} // verus!
