use vstd::prelude::*;

verus! {

/// Where a launched process's output stream goes: inherited from this
/// process, discarded, or appended to a log file.
#[derive(Clone, Debug)]
pub enum OutputMode {
    Inherit,
    Null,
    AppendTo(String),
}

/// The log file an output mode appends to, if any.
pub open spec fn output_target_view(m: OutputMode) -> Option<Seq<char>> {
    match m {
        OutputMode::Inherit => None,
        OutputMode::Null => None,
        OutputMode::AppendTo(p) => Some(p@),
    }
}

/// One external-process launch, fully described: the program, the working
/// directory it runs in, its arguments in order, and where its output goes.
#[derive(Clone, Debug)]
pub struct CommandInvocation {
    program: String,
    current_dir: String,
    args: Vec<String>,
    stdout_mode: OutputMode,
    stderr_mode: OutputMode,
}

/// The argument texts of an argument list.
pub open spec fn arg_views(args: Seq<String>) -> Seq<Seq<char>> {
    args.map_values(|s: String| s@)
}

/// A command line rendered as one text: the program, then each argument
/// after a single space.
pub open spec fn rendered_args_of(args: Seq<Seq<char>>) -> Seq<char>
    decreases args.len(),
{
    if args.len() == 0 {
        Seq::<char>::empty()
    } else {
        rendered_args_of(args.drop_last()) + seq![' '] + args.last()
    }
}

pub open spec fn rendered_of(program: Seq<char>, args: Seq<Seq<char>>) -> Seq<char> {
    program + rendered_args_of(args)
}

impl CommandInvocation {
    pub closed spec fn program_view(&self) -> Seq<char> {
        self.program@
    }

    pub closed spec fn current_dir_view(&self) -> Seq<char> {
        self.current_dir@
    }

    pub closed spec fn args_view(&self) -> Seq<Seq<char>> {
        arg_views(self.args@)
    }

    pub closed spec fn stdout_spec(&self) -> Option<Seq<char>> {
        output_target_view(self.stdout_mode)
    }

    pub closed spec fn stderr_spec(&self) -> Option<Seq<char>> {
        output_target_view(self.stderr_mode)
    }

    pub closed spec fn stdout_is_null_spec(&self) -> bool {
        self.stdout_mode is Null
    }

    pub closed spec fn stderr_is_null_spec(&self) -> bool {
        self.stderr_mode is Null
    }

    pub fn new(program: &str, current_dir: &str) -> (r: CommandInvocation)
        ensures
            r.program_view() == program@,
            r.current_dir_view() == current_dir@,
            r.args_view() == Seq::<Seq<char>>::empty(),
            r.stdout_spec() is None,
            r.stderr_spec() is None,
            !r.stdout_is_null_spec(),
            !r.stderr_is_null_spec(),
    {
        let r = CommandInvocation {
            program: program.to_owned(),
            current_dir: current_dir.to_owned(),
            args: Vec::new(),
            stdout_mode: OutputMode::Inherit,
            stderr_mode: OutputMode::Inherit,
        };
        proof {
            assert(r.args_view() =~= Seq::<Seq<char>>::empty());
        }
        r
    }

    pub fn push_arg(&mut self, arg: &str)
        ensures
            final(self).program_view() == old(self).program_view(),
            final(self).current_dir_view() == old(self).current_dir_view(),
            final(self).args_view() == old(self).args_view().push(arg@),
            final(self).stdout_spec() == old(self).stdout_spec(),
            final(self).stderr_spec() == old(self).stderr_spec(),
            final(self).stdout_is_null_spec() == old(self).stdout_is_null_spec(),
            final(self).stderr_is_null_spec() == old(self).stderr_is_null_spec(),
    {
        self.args.push(arg.to_owned());
        proof {
            assert(self.args_view() =~= old(self).args_view().push(arg@));
        }
    }

    pub fn set_outputs_null(&mut self)
        ensures
            final(self).program_view() == old(self).program_view(),
            final(self).current_dir_view() == old(self).current_dir_view(),
            final(self).args_view() == old(self).args_view(),
            final(self).stdout_spec() is None,
            final(self).stderr_spec() is None,
            final(self).stdout_is_null_spec(),
            final(self).stderr_is_null_spec(),
    {
        self.stdout_mode = OutputMode::Null;
        self.stderr_mode = OutputMode::Null;
    }

    pub fn stdout_is_null(&self) -> (r: bool)
        ensures
            r == self.stdout_is_null_spec(),
    {
        matches!(self.stdout_mode, OutputMode::Null)
    }

    pub fn stderr_is_null(&self) -> (r: bool)
        ensures
            r == self.stderr_is_null_spec(),
    {
        matches!(self.stderr_mode, OutputMode::Null)
    }

    pub fn set_stdout_append(&mut self, path: &str)
        ensures
            final(self).program_view() == old(self).program_view(),
            final(self).current_dir_view() == old(self).current_dir_view(),
            final(self).args_view() == old(self).args_view(),
            final(self).stdout_spec() == Some(path@),
            !final(self).stdout_is_null_spec(),
            final(self).stderr_spec() == old(self).stderr_spec(),
            final(self).stderr_is_null_spec() == old(self).stderr_is_null_spec(),
    {
        self.stdout_mode = OutputMode::AppendTo(path.to_owned());
    }

    pub fn set_stderr_append(&mut self, path: &str)
        ensures
            final(self).program_view() == old(self).program_view(),
            final(self).current_dir_view() == old(self).current_dir_view(),
            final(self).args_view() == old(self).args_view(),
            final(self).stdout_spec() == old(self).stdout_spec(),
            final(self).stdout_is_null_spec() == old(self).stdout_is_null_spec(),
            final(self).stderr_spec() == Some(path@),
            !final(self).stderr_is_null_spec(),
    {
        self.stderr_mode = OutputMode::AppendTo(path.to_owned());
    }

    pub fn program(&self) -> (r: &str)
        ensures
            r@ == self.program_view(),
    {
        self.program.as_str()
    }

    pub fn current_dir(&self) -> (r: &str)
        ensures
            r@ == self.current_dir_view(),
    {
        self.current_dir.as_str()
    }

    pub fn arg_count(&self) -> (r: usize)
        ensures
            r == self.args_view().len(),
    {
        self.args.len()
    }

    pub fn arg_at(&self, i: usize) -> (r: &str)
        requires
            i < self.args_view().len(),
        ensures
            r@ == self.args_view()[i as int],
    {
        self.args[i].as_str()
    }

    pub fn stdout_log(&self) -> (r: Option<&str>)
        ensures
            match r {
                Some(p) => self.stdout_spec() == Some(p@),
                None => self.stdout_spec() is None,
            },
    {
        match &self.stdout_mode {
            OutputMode::Inherit => None,
            OutputMode::Null => None,
            OutputMode::AppendTo(p) => Some(p.as_str()),
        }
    }

    pub fn stderr_log(&self) -> (r: Option<&str>)
        ensures
            match r {
                Some(p) => self.stderr_spec() == Some(p@),
                None => self.stderr_spec() is None,
            },
    {
        match &self.stderr_mode {
            OutputMode::Inherit => None,
            OutputMode::Null => None,
            OutputMode::AppendTo(p) => Some(p.as_str()),
        }
    }

    /// The command line as one text, for error messages and logs.
    pub fn rendered(&self) -> (r: String)
        ensures
            r@ == rendered_of(self.program_view(), self.args_view()),
    {
        let mut r = self.program.clone();
        let n = self.args.len();
        let mut i: usize = 0;
        while i < n
            invariant
                0 <= i <= n,
                n == self.args_view().len(),
                r@ == rendered_of(self.program_view(), self.args_view().subrange(0, i as int)),
        decreases n - i,
        {
            r.append(" ");
            r.append(self.args[i].as_str());
            proof {
                reveal_strlit(" ");
                assert(" "@ =~= seq![' ']);
                assert(self.args_view().subrange(0, i + 1).drop_last() =~= self.args_view()
                    .subrange(0, i as int));
                assert(self.args_view().subrange(0, i + 1).last() == self.args_view()[i as int]);
                assert(r@ =~= rendered_of(
                    self.program_view(),
                    self.args_view().subrange(0, i + 1),
                ));
            }
            i = i + 1;
        }
        proof {
            assert(self.args_view().subrange(0, n as int) =~= self.args_view());
        }
        r
    }
}

} // verus!
