use vstd::prelude::*;

use crate::invocation::CommandInvocation;
use crate::smalltalk::evaluator::{base_args_of, SmalltalkEvaluator};

verus! {

/// One script file to run against the interpreter.
#[derive(Clone, Debug)]
pub struct SmalltalkScriptToExecute {
    script: String,
}

impl SmalltalkScriptToExecute {
    pub closed spec fn script_view(&self) -> Seq<char> {
        self.script@
    }

    pub fn new(script: &str) -> (r: SmalltalkScriptToExecute)
        ensures
            r.script_view() == script@,
    {
        SmalltalkScriptToExecute { script: script.to_owned() }
    }

    pub fn name(&self) -> (r: String)
        ensures
            r@ == self.script_view(),
    {
        self.script.clone()
    }

    /// The invocation running this script: the run's base arguments, the
    /// `st` verb, the quit, save and interactive flags as the run asks,
    /// and the script path.
    pub fn create_command(&self, evaluator: &SmalltalkEvaluator, workspace_exists: bool) -> (r:
        CommandInvocation)
        ensures
            r.program_view() == crate::paths::join_of(
                crate::smalltalk::evaluator::effective_workspace_of(
                    evaluator.workspace_view(),
                    workspace_exists,
                ),
                evaluator.executable_view(),
            ),
            r.args_view() == base_args_of(evaluator).push("st"@).push(
                if evaluator.should_quit_spec() {
                    "--quit"@
                } else {
                    "--no-quit"@
                },
            ).push(
                if evaluator.should_save_spec() {
                    "--save"@
                } else {
                    ""@
                },
            ).push(
                if evaluator.interactive_spec() {
                    "--interactive"@
                } else {
                    ""@
                },
            ).push(self.script_view()),
    {
        let mut invocation = evaluator.command(workspace_exists);
        invocation.push_arg("st");
        if evaluator.should_quit() {
            invocation.push_arg("--quit");
        } else {
            invocation.push_arg("--no-quit");
        }
        if evaluator.should_save() {
            invocation.push_arg("--save");
        } else {
            invocation.push_arg("");
        }
        if evaluator.wants_interactive() {
            invocation.push_arg("--interactive");
        } else {
            invocation.push_arg("");
        }
        invocation.push_arg(self.script.as_str());
        invocation
    }
}

} // verus!
