use vstd::prelude::*;

use crate::error::InstallerError;
use crate::invocation::{rendered_of, CommandInvocation};
use crate::smalltalk::execution::{
    first_false, lemma_first_false_at, lemma_first_false_none, StepStatus,
};

verus! {

/// One script run against a chosen interpreter and image, with its quit
/// and window flags; used where the interpreter pair is picked per step.
#[derive(Clone, Debug)]
pub struct SmalltalkScriptToExecute {
    executable: String,
    image: String,
    script: String,
    should_quit: bool,
    interactive: bool,
}

impl SmalltalkScriptToExecute {
    pub closed spec fn executable_view(&self) -> Seq<char> {
        self.executable@
    }

    pub closed spec fn image_view(&self) -> Seq<char> {
        self.image@
    }

    pub closed spec fn script_view(&self) -> Seq<char> {
        self.script@
    }

    pub closed spec fn should_quit_spec(&self) -> bool {
        self.should_quit
    }

    pub closed spec fn interactive_spec(&self) -> bool {
        self.interactive
    }

    /// A fresh step: quitting at the end, without a window.
    pub fn new(executable: &str, image: &str, script: &str) -> (r: SmalltalkScriptToExecute)
        ensures
            r.executable_view() == executable@,
            r.image_view() == image@,
            r.script_view() == script@,
            r.should_quit_spec() == true,
            r.interactive_spec() == false,
    {
        SmalltalkScriptToExecute {
            executable: executable.to_owned(),
            image: image.to_owned(),
            script: script.to_owned(),
            should_quit: true,
            interactive: false,
        }
    }

    /// The same step, with the interpreter staying resident afterwards.
    pub fn no_quit(self) -> (r: SmalltalkScriptToExecute)
        ensures
            r.executable_view() == self.executable_view(),
            r.image_view() == self.image_view(),
            r.script_view() == self.script_view(),
            r.should_quit_spec() == false,
            r.interactive_spec() == self.interactive_spec(),
    {
        SmalltalkScriptToExecute {
            executable: self.executable,
            image: self.image,
            script: self.script,
            should_quit: false,
            interactive: self.interactive,
        }
    }

    /// The same step, run with a window.
    pub fn interactive(self) -> (r: SmalltalkScriptToExecute)
        ensures
            r.executable_view() == self.executable_view(),
            r.image_view() == self.image_view(),
            r.script_view() == self.script_view(),
            r.should_quit_spec() == self.should_quit_spec(),
            r.interactive_spec() == true,
    {
        SmalltalkScriptToExecute {
            executable: self.executable,
            image: self.image,
            script: self.script,
            should_quit: self.should_quit,
            interactive: true,
        }
    }

    /// The invocation of this step: its interpreter, run in the given
    /// workspace with both outputs discarded, the image, the `st` verb,
    /// the quit flag, the interactive flag or an empty placeholder, and
    /// the script.
    pub fn create_command(&self, workspace: &str) -> (r: CommandInvocation)
        ensures
            r.program_view() == self.executable_view(),
            r.current_dir_view() == workspace@,
            r.args_view() == step_args_of(self),
            r.stdout_is_null_spec(),
            r.stderr_is_null_spec(),
    {
        let mut invocation = CommandInvocation::new(self.executable.as_str(), workspace);
        invocation.set_outputs_null();
        invocation.push_arg(self.image.as_str());
        invocation.push_arg("st");
        if self.should_quit {
            invocation.push_arg("--quit");
        } else {
            invocation.push_arg("--no-quit");
        }
        if self.interactive {
            invocation.push_arg("--interactive");
        } else {
            invocation.push_arg("");
        }
        invocation.push_arg(self.script.as_str());
        proof {
            assert(invocation.args_view() =~= step_args_of(self));
        }
        invocation
    }
}

/// The arguments a per-step invocation carries.
pub open spec fn step_args_of(s: &SmalltalkScriptToExecute) -> Seq<Seq<char>> {
    seq![s.image_view(), "st"@].push(
        if s.should_quit_spec() {
            "--quit"@
        } else {
            "--no-quit"@
        },
    ).push(
        if s.interactive_spec() {
            "--interactive"@
        } else {
            ""@
        },
    ).push(s.script_view())
}

/// An ordered list of per-step script runs in one workspace; steps run
/// strictly in order and the first failure halts the rest.
#[derive(Clone, Debug)]
pub struct SmalltalkScriptsToExecute {
    workspace: String,
    scripts: Vec<SmalltalkScriptToExecute>,
    statuses: Vec<StepStatus>,
}

impl SmalltalkScriptsToExecute {
    pub closed spec fn workspace_view(&self) -> Seq<char> {
        self.workspace@
    }

    pub closed spec fn scripts_view(&self) -> Seq<SmalltalkScriptToExecute> {
        self.scripts@
    }

    pub closed spec fn statuses_view(&self) -> Seq<StepStatus> {
        self.statuses@
    }

    pub open spec fn wf(&self) -> bool {
        self.scripts_view().len() == self.statuses_view().len()
    }

    pub fn new(workspace: &str) -> (r: SmalltalkScriptsToExecute)
        ensures
            r.wf(),
            r.workspace_view() == workspace@,
            r.scripts_view().len() == 0,
    {
        SmalltalkScriptsToExecute {
            workspace: workspace.to_owned(),
            scripts: Vec::new(),
            statuses: Vec::new(),
        }
    }

    pub fn add(self, script: SmalltalkScriptToExecute) -> (r: SmalltalkScriptsToExecute)
        requires
            self.wf(),
        ensures
            r.wf(),
            r.workspace_view() == self.workspace_view(),
            r.scripts_view() == self.scripts_view().push(script),
            r.statuses_view() == self.statuses_view().push(StepStatus::Pending),
    {
        let mut scripts = self.scripts;
        let mut statuses = self.statuses;
        scripts.push(script);
        statuses.push(StepStatus::Pending);
        SmalltalkScriptsToExecute { workspace: self.workspace, scripts, statuses }
    }

    pub fn len(&self) -> (r: usize)
        ensures
            r == self.scripts_view().len(),
    {
        self.scripts.len()
    }

    pub fn status_of(&self, i: usize) -> (r: StepStatus)
        requires
            i < self.statuses_view().len(),
        ensures
            r == self.statuses_view()[i as int],
    {
        self.statuses[i]
    }

    pub fn script_at(&self, i: usize) -> (r: &SmalltalkScriptToExecute)
        requires
            i < self.scripts_view().len(),
        ensures
            *r == self.scripts_view()[i as int],
    {
        &self.scripts[i]
    }

    /// Runs the whole queue in order against the supplied outcome of each
    /// step: every step before the first failure reports success, the
    /// failing step reports failure and carries its exact command line,
    /// and every later step never leaves pending.
    pub fn apply_outcomes(&mut self, outcomes: &Vec<bool>) -> (r: Result<(), InstallerError>)
        requires
            old(self).wf(),
            outcomes@.len() == old(self).scripts_view().len(),
            forall|i: int|
                0 <= i < old(self).statuses_view().len() ==> old(self).statuses_view()[i]
                    == StepStatus::Pending,
        ensures
            final(self).wf(),
            final(self).scripts_view() == old(self).scripts_view(),
            final(self).workspace_view() == old(self).workspace_view(),
            match first_false(outcomes@) {
                None => (forall|i: int|
                    0 <= i < final(self).statuses_view().len() ==> final(self).statuses_view()[i]
                        == StepStatus::Succeeded) && r is Ok,
                Some(k) => {
                    &&& (forall|i: int|
                        0 <= i < k ==> final(self).statuses_view()[i] == StepStatus::Succeeded)
                    &&& final(self).statuses_view()[k] == StepStatus::Failed
                    &&& (forall|i: int|
                        k < i < final(self).statuses_view().len()
                            ==> final(self).statuses_view()[i] == StepStatus::Pending)
                    &&& r matches Err(e) && (e matches InstallerError::CommandExecutionFailed(c)
                        && c@ == rendered_of(
                        old(self).scripts_view()[k].executable_view(),
                        step_args_of(&old(self).scripts_view()[k]),
                    ))
                },
            },
    {
        let n = self.scripts.len();
        let mut k: usize = 0;
        while k < n
            invariant
                0 <= k <= n,
                self.wf(),
                n == self.scripts_view().len(),
                outcomes@.len() == n,
                self.scripts_view() == old(self).scripts_view(),
                self.workspace_view() == old(self).workspace_view(),
                forall|i: int| 0 <= i < k ==> self.statuses_view()[i] == StepStatus::Succeeded,
                forall|i: int| k <= i < n ==> self.statuses_view()[i] == StepStatus::Pending,
                forall|i: int| 0 <= i < k ==> outcomes@[i],
            decreases n - k,
        {
            self.statuses.set(k, StepStatus::Running);
            let ok = outcomes[k];
            self.statuses.set(
                k,
                if ok {
                    StepStatus::Succeeded
                } else {
                    StepStatus::Failed
                },
            );
            if !ok {
                let invocation = self.scripts[k].create_command(self.workspace.as_str());
                proof {
                    lemma_first_false_at(outcomes@, k as int);
                }
                return Err(InstallerError::CommandExecutionFailed(invocation.rendered()));
            }
            k = k + 1;
        }
        proof {
            lemma_first_false_none(outcomes@);
        }
        Ok(())
    }
}

} // verus!
