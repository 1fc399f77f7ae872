use vstd::prelude::*;

use crate::error::InstallerError;
use crate::invocation::{rendered_of, CommandInvocation};
use crate::smalltalk::command::SmalltalkCommand;
use crate::smalltalk::evaluator::{base_args_of, effective_workspace_of, SmalltalkEvaluator};
use crate::smalltalk::expression::{effective_expression_of, SmalltalkExpression};
use crate::smalltalk::script::SmalltalkScriptToExecute;

verus! {

/// Anything a run can execute: a sub-command, an inline expression, or a
/// script file.
#[derive(Clone, Debug)]
pub enum ExecutableSmalltalk {
    Command(SmalltalkCommand),
    Expression(SmalltalkExpression),
    Script(SmalltalkScriptToExecute),
}

/// The arguments the invocation of a runnable carries, after the run's
/// base arguments.
pub open spec fn command_args_of(x: ExecutableSmalltalk, e: &SmalltalkEvaluator) -> Seq<
    Seq<char>,
> {
    match x {
        ExecutableSmalltalk::Command(c) => base_args_of(e).push(c.command_view())
            + c.arguments_view(),
        ExecutableSmalltalk::Expression(ex) => base_args_of(e).push("eval"@).push(
            if e.should_quit_spec() {
                ""@
            } else {
                "--no-quit"@
            },
        ).push(
            if e.interactive_spec() {
                "--interactive"@
            } else {
                ""@
            },
        ).push(effective_expression_of(ex.expression_view(), e.should_save_spec())),
        ExecutableSmalltalk::Script(s) => base_args_of(e).push("st"@).push(
            if e.should_quit_spec() {
                "--quit"@
            } else {
                "--no-quit"@
            },
        ).push(
            if e.should_save_spec() {
                "--save"@
            } else {
                ""@
            },
        ).push(
            if e.interactive_spec() {
                "--interactive"@
            } else {
                ""@
            },
        ).push(s.script_view()),
    }
}

/// What a runnable calls itself: its command, expression, or script path.
pub open spec fn name_view_of(x: ExecutableSmalltalk) -> Seq<char> {
    match x {
        ExecutableSmalltalk::Command(c) => c.command_view(),
        ExecutableSmalltalk::Expression(ex) => ex.expression_view(),
        ExecutableSmalltalk::Script(s) => s.script_view(),
    }
}

impl ExecutableSmalltalk {
    pub fn create_command(&self, evaluator: &SmalltalkEvaluator, workspace_exists: bool) -> (r:
        CommandInvocation)
        ensures
            r.program_view() == crate::paths::join_of(
                effective_workspace_of(evaluator.workspace_view(), workspace_exists),
                evaluator.executable_view(),
            ),
            r.args_view() == command_args_of(*self, evaluator),
    {
        match self {
            ExecutableSmalltalk::Command(c) => c.create_command(evaluator, workspace_exists),
            ExecutableSmalltalk::Expression(ex) => ex.create_command(evaluator, workspace_exists),
            ExecutableSmalltalk::Script(s) => s.create_command(evaluator, workspace_exists),
        }
    }

    pub fn name(&self) -> (r: String)
        ensures
            r@ == name_view_of(*self),
    {
        match self {
            ExecutableSmalltalk::Command(c) => c.name(),
            ExecutableSmalltalk::Expression(ex) => ex.name(),
            ExecutableSmalltalk::Script(s) => s.name(),
        }
    }
}

/// What an external process's exit means: anything but success is a single
/// failure naming the exact command line that was run.
pub fn execution_result(invocation: &CommandInvocation, exit_success: bool) -> (r: Result<
    (),
    InstallerError,
>)
    ensures
        match r {
            Ok(()) => exit_success,
            Err(e) => !exit_success && (e matches InstallerError::CommandExecutionFailed(c) && c@
                == rendered_of(invocation.program_view(), invocation.args_view())),
        },
{
    if exit_success {
        Ok(())
    } else {
        Err(InstallerError::CommandExecutionFailed(invocation.rendered()))
    }
}

pub open spec fn is_space(c: char) -> bool {
    c == ' ' || c == '\t' || c == '\r' || c == '\n'
}

pub open spec fn trim_left_of(s: Seq<char>) -> Seq<char>
    decreases s.len(),
{
    if s.len() > 0 && is_space(s[0]) {
        trim_left_of(s.drop_first())
    } else {
        s
    }
}

pub open spec fn trim_right_of(s: Seq<char>) -> Seq<char>
    decreases s.len(),
{
    if s.len() > 0 && is_space(s.last()) {
        trim_right_of(s.drop_last())
    } else {
        s
    }
}

/// The text with leading and trailing whitespace removed.
pub open spec fn trim_of(s: Seq<char>) -> Seq<char> {
    trim_right_of(trim_left_of(s))
}

proof fn lemma_trim_left_skip(s: Seq<char>, i: int)
    requires
        0 <= i <= s.len(),
        forall|j: int| 0 <= j < i ==> is_space(#[trigger] s[j]),
    ensures
        trim_left_of(s) == trim_left_of(s.subrange(i, s.len() as int)),
    decreases i,
{
    if i > 0 {
        assert(is_space(s[0]));
        assert(s.drop_first() =~= s.subrange(1, s.len() as int));
        lemma_trim_left_skip(s.drop_first(), i - 1);
        assert(s.drop_first().subrange(i - 1, s.drop_first().len() as int) =~= s.subrange(
            i,
            s.len() as int,
        ));
    } else {
        assert(s.subrange(0, s.len() as int) =~= s);
    }
}

proof fn lemma_trim_right_skip(s: Seq<char>, j: int)
    requires
        0 <= j <= s.len(),
        forall|k: int| j <= k < s.len() ==> is_space(#[trigger] s[k]),
    ensures
        trim_right_of(s) == trim_right_of(s.subrange(0, j)),
    decreases s.len() - j,
{
    if j < s.len() {
        assert(is_space(s.last()));
        assert(s.drop_last() =~= s.subrange(0, s.len() - 1));
        lemma_trim_right_skip(s.drop_last(), j);
        assert(s.drop_last().subrange(0, j) =~= s.subrange(0, j));
    } else {
        assert(s.subrange(0, s.len() as int) =~= s);
    }
}

/// Whether the character is whitespace that trimming removes.
fn is_space_char(c: char) -> (r: bool)
    ensures
        r == is_space(c),
{
    c == ' ' || c == '\t' || c == '\r' || c == '\n'
}

/// Removes leading and trailing whitespace.
pub fn trim(s: &str) -> (r: String)
    ensures
        r@ == trim_of(s@),
{
    let n = s.unicode_len();
    let mut i: usize = 0;
    while i < n && is_space_char(s.get_char(i))
        invariant
            n == s@.len(),
            0 <= i <= n,
            forall|j: int| 0 <= j < i ==> is_space(#[trigger] s@[j]),
        decreases n - i,
    {
        i = i + 1;
    }
    let mut j: usize = n;
    while j > i && is_space_char(s.get_char(j - 1))
        invariant
            n == s@.len(),
            0 <= i <= j <= n,
            forall|k: int| 0 <= k < i ==> is_space(#[trigger] s@[k]),
            forall|k: int| j <= k < n ==> is_space(#[trigger] s@[k]),
        decreases j,
    {
        j = j - 1;
    }
    let r = crate::strutil::substring_copy(s, i, j);
    proof {
        lemma_trim_left_skip(s@, i as int);
        let mid = s@.subrange(i as int, n as int);
        if i < n {
            assert(!is_space(mid[0]));
        }
        assert(trim_left_of(mid) == mid);
        lemma_trim_right_skip(mid, j - i);
        assert(mid.subrange(0, j - i) =~= s@.subrange(i as int, j as int));
        let out = s@.subrange(i as int, j as int);
        if i < j {
            assert(!is_space(out.last()));
        }
        assert(trim_right_of(out) == out);
    }
    r
}

/// What a captured run's outcome means: it succeeds exactly when the
/// process exited well and its standard output decoded as text, and then
/// answers that output trimmed; anything else fails with the exact
/// command line that was run and the captured standard error.
pub fn execution_output_result(
    invocation: &CommandInvocation,
    exit_success: bool,
    stdout: Option<&str>,
    stderr: &str,
) -> (r: Result<String, InstallerError>)
    ensures
        match r {
            Ok(s) => exit_success && (stdout matches Some(o) && s@ == trim_of(o@)),
            Err(e) => (!exit_success || stdout is None) && (
            e matches InstallerError::CommandExecutionFailedWithStderr(c, captured) && c@
                == rendered_of(invocation.program_view(), invocation.args_view()) && captured@
                == stderr@),
        },
{
    match stdout {
        Some(output) if exit_success => Ok(trim(output)),
        _ => Err(
            InstallerError::CommandExecutionFailedWithStderr(
                invocation.rendered(),
                stderr.to_owned(),
            ),
        ),
    }
}

/// Where one step of an ordered script run stands.
#[derive(Clone, Copy, Debug, PartialEq, Eq, Structural)]
pub enum StepStatus {
    Pending,
    Running,
    Succeeded,
    Failed,
}

/// The position of the first failing outcome, if any.
pub open spec fn first_false(s: Seq<bool>) -> Option<int>
    decreases s.len(),
{
    if s.len() == 0 {
        None
    } else if !s[0] {
        Some(0int)
    } else {
        match first_false(s.drop_first()) {
            Some(i) => Some(i + 1),
            None => None,
        }
    }
}

/// Characterises the first failing outcome from the run that found it.
pub proof fn lemma_first_false_at(s: Seq<bool>, k: int)
    requires
        0 <= k < s.len(),
        !s[k],
        forall|i: int| 0 <= i < k ==> s[i],
    ensures
        first_false(s) == Some(k),
    decreases k,
{
    if k > 0 {
        lemma_first_false_at(s.drop_first(), k - 1);
    }
}

/// A run with no failing outcome has no first failure.
pub proof fn lemma_first_false_none(s: Seq<bool>)
    requires
        forall|i: int| 0 <= i < s.len() ==> s[i],
    ensures
        first_false(s) is None,
    decreases s.len(),
{
    if s.len() > 0 {
        lemma_first_false_none(s.drop_first());
    }
}

/// An ordered list of runnables and the status of each step; steps run
/// strictly in order and a failure halts the rest.
#[derive(Clone, Debug)]
pub struct SmalltalkScriptsToExecute {
    scripts: Vec<ExecutableSmalltalk>,
    statuses: Vec<StepStatus>,
}

impl SmalltalkScriptsToExecute {
    pub closed spec fn scripts_view(&self) -> Seq<ExecutableSmalltalk> {
        self.scripts@
    }

    pub closed spec fn statuses_view(&self) -> Seq<StepStatus> {
        self.statuses@
    }

    /// Each step has a status.
    pub open spec fn wf(&self) -> bool {
        self.scripts_view().len() == self.statuses_view().len()
    }

    pub fn new() -> (r: SmalltalkScriptsToExecute)
        ensures
            r.wf(),
            r.scripts_view().len() == 0,
    {
        SmalltalkScriptsToExecute { scripts: Vec::new(), statuses: Vec::new() }
    }

    pub fn add(&mut self, script: ExecutableSmalltalk)
        requires
            old(self).wf(),
        ensures
            final(self).wf(),
            final(self).scripts_view() == old(self).scripts_view().push(script),
            final(self).statuses_view() == old(self).statuses_view().push(StepStatus::Pending),
    {
        self.scripts.push(script);
        self.statuses.push(StepStatus::Pending);
    }

    pub fn len(&self) -> (r: usize)
        ensures
            r == self.scripts_view().len(),
    {
        self.scripts.len()
    }

    pub fn status_of(&self, i: usize) -> (r: StepStatus)
        requires
            i < self.statuses_view().len(),
        ensures
            r == self.statuses_view()[i as int],
    {
        self.statuses[i]
    }

    pub fn script_at(&self, i: usize) -> (r: &ExecutableSmalltalk)
        requires
            i < self.scripts_view().len(),
        ensures
            *r == self.scripts_view()[i as int],
    {
        &self.scripts[i]
    }

    /// The next step to run: the first still pending, provided no earlier
    /// step failed; a failure halts the whole queue.
    pub fn next_to_run(&self) -> (r: Option<usize>)
        requires
            self.wf(),
        ensures
            match r {
                Some(k) => {
                    &&& k < self.statuses_view().len()
                    &&& self.statuses_view()[k as int] == StepStatus::Pending
                    &&& forall|i: int|
                        0 <= i < self.statuses_view().len() ==> self.statuses_view()[i]
                            != StepStatus::Failed
                    &&& forall|i: int| 0 <= i < k ==> self.statuses_view()[i] != StepStatus::Pending
                },
                None => (exists|i: int|
                    0 <= i < self.statuses_view().len() && self.statuses_view()[i]
                        == StepStatus::Failed) || (forall|i: int|
                    0 <= i < self.statuses_view().len() ==> self.statuses_view()[i]
                        != StepStatus::Pending),
            },
    {
        let n = self.statuses.len();
        let mut k: usize = 0;
        while k < n
            invariant
                0 <= k <= n,
                n == self.statuses_view().len(),
                forall|i: int| 0 <= i < k ==> self.statuses_view()[i] != StepStatus::Failed,
            decreases n - k,
        {
            if matches!(self.statuses[k], StepStatus::Failed) {
                return None;
            }
            k = k + 1;
        }
        let mut k: usize = 0;
        while k < n
            invariant
                0 <= k <= n,
                n == self.statuses_view().len(),
                forall|i: int| 0 <= i < n ==> self.statuses_view()[i] != StepStatus::Failed,
                forall|i: int| 0 <= i < k ==> self.statuses_view()[i] != StepStatus::Pending,
            decreases n - k,
        {
            if matches!(self.statuses[k], StepStatus::Pending) {
                return Some(k);
            }
            k = k + 1;
        }
        None
    }

    /// Marks a pending step as running.
    pub fn begin_step(&mut self, k: usize)
        requires
            old(self).wf(),
            k < old(self).statuses_view().len(),
            old(self).statuses_view()[k as int] == StepStatus::Pending,
        ensures
            final(self).wf(),
            final(self).scripts_view() == old(self).scripts_view(),
            final(self).statuses_view() == old(self).statuses_view().update(
                k as int,
                StepStatus::Running,
            ),
    {
        self.statuses.set(k, StepStatus::Running);
    }

    /// Records how a running step ended.
    pub fn finish_step(&mut self, k: usize, success: bool)
        requires
            old(self).wf(),
            k < old(self).statuses_view().len(),
            old(self).statuses_view()[k as int] == StepStatus::Running,
        ensures
            final(self).wf(),
            final(self).scripts_view() == old(self).scripts_view(),
            final(self).statuses_view() == old(self).statuses_view().update(
                k as int,
                if success {
                    StepStatus::Succeeded
                } else {
                    StepStatus::Failed
                },
            ),
    {
        self.statuses.set(
            k,
            if success {
                StepStatus::Succeeded
            } else {
                StepStatus::Failed
            },
        );
    }

    /// Runs the whole queue in order against the supplied outcome of each
    /// step: every step before the first failure reports success, the
    /// failing step reports failure and carries its exact command line,
    /// and every later step never leaves pending.
    pub fn apply_outcomes(
        &mut self,
        evaluator: &SmalltalkEvaluator,
        workspace_exists: bool,
        outcomes: &Vec<bool>,
    ) -> (r: Result<(), InstallerError>)
        requires
            old(self).wf(),
            outcomes@.len() == old(self).scripts_view().len(),
            forall|i: int|
                0 <= i < old(self).statuses_view().len() ==> old(self).statuses_view()[i]
                    == StepStatus::Pending,
        ensures
            final(self).wf(),
            final(self).scripts_view() == old(self).scripts_view(),
            match first_false(outcomes@) {
                None => (forall|i: int|
                    0 <= i < final(self).statuses_view().len() ==> final(self).statuses_view()[i]
                        == StepStatus::Succeeded) && r is Ok,
                Some(k) => {
                    &&& (forall|i: int|
                        0 <= i < k ==> final(self).statuses_view()[i] == StepStatus::Succeeded)
                    &&& final(self).statuses_view()[k] == StepStatus::Failed
                    &&& (forall|i: int|
                        k < i < final(self).statuses_view().len()
                            ==> final(self).statuses_view()[i] == StepStatus::Pending)
                    &&& r matches Err(e) && (e matches InstallerError::CommandExecutionFailed(c)
                        && c@ == rendered_of(
                        crate::paths::join_of(
                            effective_workspace_of(evaluator.workspace_view(), workspace_exists),
                            evaluator.executable_view(),
                        ),
                        command_args_of(old(self).scripts_view()[k], evaluator),
                    ))
                },
            },
    {
        let n = self.scripts.len();
        let mut k: usize = 0;
        while k < n
            invariant
                0 <= k <= n,
                self.wf(),
                n == self.scripts_view().len(),
                outcomes@.len() == n,
                self.scripts_view() == old(self).scripts_view(),
                forall|i: int| 0 <= i < k ==> self.statuses_view()[i] == StepStatus::Succeeded,
                forall|i: int| k <= i < n ==> self.statuses_view()[i] == StepStatus::Pending,
                forall|i: int| 0 <= i < k ==> outcomes@[i],
            decreases n - k,
        {
            self.begin_step(k);
            let ok = outcomes[k];
            self.finish_step(k, ok);
            if !ok {
                let invocation = self.scripts[k].create_command(evaluator, workspace_exists);
                proof {
                    lemma_first_false_at(outcomes@, k as int);
                }
                return Err(InstallerError::CommandExecutionFailed(invocation.rendered()));
            }
            k = k + 1;
        }
        proof {
            lemma_first_false_none(outcomes@);
        }
        Ok(())
    }
}

} // verus!
