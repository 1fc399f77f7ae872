use vstd::prelude::*;

use crate::invocation::CommandInvocation;
use crate::smalltalk::evaluator::{base_args_of, SmalltalkEvaluator};

verus! {

/// A sub-command of the interpreter, with its own arguments; empty
/// arguments are dropped rather than passed.
#[derive(Clone, Debug)]
pub struct SmalltalkCommand {
    command: String,
    arguments: Vec<String>,
}

/// The given argument texts with the empty ones dropped.
pub open spec fn nonempty_of(s: Seq<Seq<char>>) -> Seq<Seq<char>> {
    s.filter(|a: Seq<char>| a.len() > 0)
}

impl SmalltalkCommand {
    pub closed spec fn command_view(&self) -> Seq<char> {
        self.command@
    }

    /// The argument texts of the command.
    pub closed spec fn arguments_view(&self) -> Seq<Seq<char>> {
        self.arguments@.map_values(|s: String| s@)
    }

    pub fn new(command: &str) -> (r: SmalltalkCommand)
        ensures
            r.command_view() == command@,
            r.arguments_view() == Seq::<Seq<char>>::empty(),
    {
        let r = SmalltalkCommand { command: command.to_owned(), arguments: Vec::new() };
        proof {
            assert(r.arguments_view() =~= Seq::<Seq<char>>::empty());
        }
        r
    }

    /// Appends an argument; an empty one is dropped.
    pub fn arg(self, arg: &str) -> (r: SmalltalkCommand)
        ensures
            r.command_view() == self.command_view(),
            arg@.len() == 0 ==> r.arguments_view() == self.arguments_view(),
            arg@.len() > 0 ==> r.arguments_view() == self.arguments_view().push(
                arg@,
            ),
    {
        if arg.unicode_len() == 0 {
            return self;
        }
        let mut arguments = self.arguments;
        arguments.push(arg.to_owned());
        let r = SmalltalkCommand { command: self.command, arguments };
        proof {
            assert(r.arguments_view() =~= self.arguments_view().push(arg@));
        }
        r
    }

    /// Appends each of the given arguments in order, dropping empty ones.
    pub fn args(self, args: &Vec<String>) -> (r: SmalltalkCommand)
        ensures
            r.command_view() == self.command_view(),
            r.arguments_view() == self.arguments_view() + nonempty_of(
                args@.map_values(|s: String| s@),
            ),
    {
        let ghost all = args@.map_values(|s: String| s@);
        let ghost cmd0 = self.command_view();
        let mut r = self;
        let n = args.len();
        let mut i: usize = 0;
        let ghost orig = r.arguments_view();
        proof {
            reveal(Seq::filter);
            assert(all.subrange(0, 0) =~= Seq::<Seq<char>>::empty());
            assert(nonempty_of(all.subrange(0, 0)) =~= Seq::<Seq<char>>::empty());
            assert(r.arguments_view() =~= orig + nonempty_of(all.subrange(0, 0)));
        }
        while i < n
            invariant
                0 <= i <= n,
                n == args@.len(),
                all == args@.map_values(|s: String| s@),
                r.command_view() == cmd0,
                r.arguments_view() == orig + nonempty_of(all.subrange(0, i as int)),
            decreases n - i,
        {
            r = r.arg(args[i].as_str());
            proof {
                let prefix = all.subrange(0, i as int);
                assert(all.subrange(0, i + 1) =~= prefix.push(all[i as int]));
                lemma_filter_push(prefix, all[i as int]);
                assert(r.arguments_view() =~= orig + nonempty_of(all.subrange(0, i + 1)));
            }
            i = i + 1;
        }
        proof {
            assert(all.subrange(0, n as int) =~= all);
        }
        r
    }

    pub fn name(&self) -> (r: String)
        ensures
            r@ == self.command_view(),
    {
        self.command.clone()
    }

    /// The full invocation this sub-command makes against a run: the run's
    /// base arguments, the sub-command, its arguments.
    pub fn create_command(&self, evaluator: &SmalltalkEvaluator, workspace_exists: bool) -> (r:
        CommandInvocation)
        ensures
            r.program_view() == crate::paths::join_of(
                crate::smalltalk::evaluator::effective_workspace_of(
                    evaluator.workspace_view(),
                    workspace_exists,
                ),
                evaluator.executable_view(),
            ),
            r.args_view() == base_args_of(evaluator).push(self.command_view())
                + self.arguments_view(),
    {
        let mut invocation = evaluator.command(workspace_exists);
        invocation.push_arg(self.command.as_str());
        let n = self.arguments.len();
        let mut i: usize = 0;
        while i < n
            invariant
                0 <= i <= n,
                n == self.arguments_view().len(),
                invocation.program_view() == crate::paths::join_of(
                    crate::smalltalk::evaluator::effective_workspace_of(
                        evaluator.workspace_view(),
                        workspace_exists,
                    ),
                    evaluator.executable_view(),
                ),
                invocation.args_view() == base_args_of(evaluator).push(self.command_view())
                    + self.arguments_view().subrange(0, i as int),
            decreases n - i,
        {
            invocation.push_arg(self.arguments[i].as_str());
            proof {
                assert(self.arguments_view().subrange(0, i + 1).drop_last()
                    =~= self.arguments_view().subrange(0, i as int));
                assert(self.arguments_view().subrange(0, i + 1).last()
                    == self.arguments_view()[i as int]);
                assert(invocation.args_view() =~= base_args_of(evaluator).push(self.command_view())
                    + self.arguments_view().subrange(0, i + 1));
            }
            i = i + 1;
        }
        proof {
            assert(self.arguments_view().subrange(0, n as int) =~= self.arguments_view());
            assert(invocation.args_view() =~= base_args_of(evaluator).push(self.command_view())
                + self.arguments_view());
        }
        invocation
    }
}

/// Filtering after appending one element keeps or drops just that element.
proof fn lemma_filter_push(s: Seq<Seq<char>>, x: Seq<char>)
    ensures
        x.len() > 0 ==> nonempty_of(s.push(x)) == nonempty_of(s).push(x),
        x.len() == 0 ==> nonempty_of(s.push(x)) == nonempty_of(s),
{
    reveal(Seq::filter);
    assert(s.push(x).drop_last() =~= s);
    assert(s.push(x).last() == x);
}

} // verus!
