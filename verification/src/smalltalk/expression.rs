use vstd::prelude::*;

use crate::invocation::CommandInvocation;
use crate::smalltalk::evaluator::{base_args_of, SmalltalkEvaluator};

verus! {

/// The directive appended to an expression that should persist its work:
/// snapshot the image and carry on.
pub const SNAPSHOT_AND_CONTINUE: &'static str = "Smalltalk snapshot: true andQuit: false";

/// Expressions chained into one, a dot between each pair.
pub open spec fn dot_joined(s: Seq<Seq<char>>) -> Seq<char>
    decreases s.len(),
{
    if s.len() == 0 {
        Seq::<char>::empty()
    } else if s.len() == 1 {
        s[0]
    } else {
        dot_joined(s.drop_last()) + seq!['.'] + s.last()
    }
}

/// The expression actually handed to the interpreter: suffixed with the
/// snapshot directive when the run should save.
pub open spec fn effective_expression_of(expression: Seq<char>, should_save: bool) -> Seq<char> {
    if should_save {
        expression + seq!['.'] + SNAPSHOT_AND_CONTINUE@
    } else {
        expression
    }
}

/// One inline expression to evaluate.
#[derive(Clone, Debug)]
pub struct SmalltalkExpression {
    expression: String,
}

impl SmalltalkExpression {
    pub closed spec fn expression_view(&self) -> Seq<char> {
        self.expression@
    }

    pub fn new(expression: &str) -> (r: SmalltalkExpression)
        ensures
            r.expression_view() == expression@,
    {
        SmalltalkExpression { expression: expression.to_owned() }
    }

    pub fn expression(&self) -> (r: &str)
        ensures
            r@ == self.expression_view(),
    {
        self.expression.as_str()
    }

    pub fn name(&self) -> (r: String)
        ensures
            r@ == self.expression_view(),
    {
        self.expression.clone()
    }

    /// The invocation evaluating this expression: the run's base
    /// arguments, the `eval` verb, the no-quit flag when the run stays
    /// resident, the interactive flag when it wants a window, and the
    /// expression, saved-suffixed when the run should save.
    pub fn create_command(&self, evaluator: &SmalltalkEvaluator, workspace_exists: bool) -> (r:
        CommandInvocation)
        ensures
            r.program_view() == crate::paths::join_of(
                crate::smalltalk::evaluator::effective_workspace_of(
                    evaluator.workspace_view(),
                    workspace_exists,
                ),
                evaluator.executable_view(),
            ),
            r.args_view() == base_args_of(evaluator).push("eval"@).push(
                if evaluator.should_quit_spec() {
                    ""@
                } else {
                    "--no-quit"@
                },
            ).push(
                if evaluator.interactive_spec() {
                    "--interactive"@
                } else {
                    ""@
                },
            ).push(effective_expression_of(self.expression_view(), evaluator.should_save_spec())),
    {
        let expression: String = if evaluator.should_save() {
            let mut e = self.expression.clone();
            e.append(".");
            e.append(SNAPSHOT_AND_CONTINUE);
            proof {
                reveal_strlit(".");
                assert("."@ =~= seq!['.']);
                assert(e@ =~= effective_expression_of(
                    self.expression_view(),
                    evaluator.should_save_spec(),
                ));
            }
            e
        } else {
            self.expression.clone()
        };
        let mut invocation = evaluator.command(workspace_exists);
        invocation.push_arg("eval");
        if evaluator.should_quit() {
            invocation.push_arg("");
        } else {
            invocation.push_arg("--no-quit");
        }
        if evaluator.wants_interactive() {
            invocation.push_arg("--interactive");
        } else {
            invocation.push_arg("");
        }
        invocation.push_arg(expression.as_str());
        invocation
    }
}

/// Builds one chained expression out of several, a dot between each pair.
#[derive(Clone, Debug)]
pub struct SmalltalkExpressionBuilder {
    expressions: Vec<String>,
}

impl SmalltalkExpressionBuilder {
    pub closed spec fn expressions_view(&self) -> Seq<Seq<char>> {
        self.expressions@.map_values(|s: String| s@)
    }

    pub fn new() -> (r: SmalltalkExpressionBuilder)
        ensures
            r.expressions_view() == Seq::<Seq<char>>::empty(),
    {
        let r = SmalltalkExpressionBuilder { expressions: Vec::new() };
        proof {
            assert(r.expressions_view() =~= Seq::<Seq<char>>::empty());
        }
        r
    }

    pub fn add(&mut self, expression: &str)
        ensures
            final(self).expressions_view() == old(self).expressions_view().push(expression@),
    {
        self.expressions.push(expression.to_owned());
        proof {
            assert(self.expressions_view() =~= old(self).expressions_view().push(expression@));
        }
    }

    pub fn build(&self) -> (r: SmalltalkExpression)
        ensures
            r.expression_view() == dot_joined(self.expressions_view()),
    {
        let n = self.expressions.len();
        if n == 0 {
            proof {
                reveal_strlit("");
                assert(""@ =~= Seq::<char>::empty());
            }
            return SmalltalkExpression::new("");
        }
        let mut text = self.expressions[0].clone();
        proof {
            assert(self.expressions_view().subrange(0, 1).len() == 1);
            assert(self.expressions_view().subrange(0, 1)[0] == self.expressions_view()[0]);
        }
        let mut i: usize = 1;
        while i < n
            invariant
                1 <= i <= n,
                n == self.expressions_view().len(),
                text@ == dot_joined(self.expressions_view().subrange(0, i as int)),
            decreases n - i,
        {
            text.append(".");
            text.append(self.expressions[i].as_str());
            proof {
                reveal_strlit(".");
                assert("."@ =~= seq!['.']);
                assert(self.expressions_view().subrange(0, i + 1).drop_last()
                    =~= self.expressions_view().subrange(0, i as int));
                assert(self.expressions_view().subrange(0, i + 1).last()
                    == self.expressions_view()[i as int]);
                assert(text@ =~= dot_joined(self.expressions_view().subrange(0, i + 1)));
            }
            i = i + 1;
        }
        proof {
            assert(self.expressions_view().subrange(0, n as int) =~= self.expressions_view());
        }
        SmalltalkExpression::new(text.as_str())
    }
}

} // verus!
