use vstd::prelude::*;

use crate::invocation::CommandInvocation;
use crate::paths::{join_of, join_path};
use crate::smalltalk::smalltalk::{flag_of, Smalltalk, SmalltalkFlags};

verus! {

/// The directory an interpreter runs in: the workspace when it exists on
/// disk, the current directory otherwise.
pub open spec fn effective_workspace_of(workspace: Seq<char>, workspace_exists: bool) -> Seq<
    char,
> {
    if workspace_exists {
        workspace
    } else {
        "."@
    }
}

/// The settings of one run against an interpreter and image: window or
/// not, quit at the end or stay, snapshot on success, and where output
/// goes.
#[derive(Clone, Debug)]
pub struct SmalltalkEvaluator {
    executable: String,
    image: String,
    workspace: String,
    flags: SmalltalkFlags,
    interactive: bool,
    should_quit: bool,
    should_save: bool,
    verbose: bool,
    use_image: bool,
}

impl SmalltalkEvaluator {
    pub closed spec fn executable_view(&self) -> Seq<char> {
        self.executable@
    }

    pub closed spec fn image_view(&self) -> Seq<char> {
        self.image@
    }

    pub closed spec fn workspace_view(&self) -> Seq<char> {
        self.workspace@
    }

    pub closed spec fn flags_spec(&self) -> SmalltalkFlags {
        self.flags
    }

    pub closed spec fn interactive_spec(&self) -> bool {
        self.interactive
    }

    pub closed spec fn should_quit_spec(&self) -> bool {
        self.should_quit
    }

    pub closed spec fn should_save_spec(&self) -> bool {
        self.should_save
    }

    pub closed spec fn verbose_spec(&self) -> bool {
        self.verbose
    }

    pub closed spec fn use_image_spec(&self) -> bool {
        self.use_image
    }

    /// A fresh run: headless, quitting at the end, not saving, against the
    /// image.
    pub fn new(smalltalk: &Smalltalk) -> (r: SmalltalkEvaluator)
        ensures
            r.executable_view() == smalltalk.executable_view(),
            r.image_view() == smalltalk.image_view(),
            r.workspace_view() == smalltalk.workspace_view(),
            r.flags_spec().interactive_view() == smalltalk.flags_spec().interactive_view(),
            r.flags_spec().headless_view() == smalltalk.flags_spec().headless_view(),
            r.interactive_spec() == false,
            r.should_quit_spec() == true,
            r.should_save_spec() == false,
            r.verbose_spec() == smalltalk.verbose_spec(),
            r.use_image_spec() == true,
    {
        SmalltalkEvaluator {
            executable: smalltalk.executable().to_owned(),
            image: smalltalk.image().to_owned(),
            workspace: smalltalk.workspace().to_owned(),
            flags: smalltalk.flags().duplicate(),
            interactive: false,
            should_quit: true,
            should_save: false,
            verbose: smalltalk.verbose(),
            use_image: true,
        }
    }

    pub fn interactive(&mut self, interactive: bool)
        ensures
            final(self).interactive_spec() == interactive,
            evaluator_unchanged_but_toggles(*old(self), *final(self)),
            final(self).should_quit_spec() == old(self).should_quit_spec(),
            final(self).should_save_spec() == old(self).should_save_spec(),
            final(self).verbose_spec() == old(self).verbose_spec(),
            final(self).use_image_spec() == old(self).use_image_spec(),
    {
        self.interactive = interactive;
    }

    pub fn quit(&mut self, should_quit: bool)
        ensures
            final(self).should_quit_spec() == should_quit,
            evaluator_unchanged_but_toggles(*old(self), *final(self)),
            final(self).interactive_spec() == old(self).interactive_spec(),
            final(self).should_save_spec() == old(self).should_save_spec(),
            final(self).verbose_spec() == old(self).verbose_spec(),
            final(self).use_image_spec() == old(self).use_image_spec(),
    {
        self.should_quit = should_quit;
    }

    pub fn save(&mut self, should_save: bool)
        ensures
            final(self).should_save_spec() == should_save,
            evaluator_unchanged_but_toggles(*old(self), *final(self)),
            final(self).interactive_spec() == old(self).interactive_spec(),
            final(self).should_quit_spec() == old(self).should_quit_spec(),
            final(self).verbose_spec() == old(self).verbose_spec(),
            final(self).use_image_spec() == old(self).use_image_spec(),
    {
        self.should_save = should_save;
    }

    pub fn verbose(&mut self, verbose: bool)
        ensures
            final(self).verbose_spec() == verbose,
            evaluator_unchanged_but_toggles(*old(self), *final(self)),
            final(self).interactive_spec() == old(self).interactive_spec(),
            final(self).should_quit_spec() == old(self).should_quit_spec(),
            final(self).should_save_spec() == old(self).should_save_spec(),
            final(self).use_image_spec() == old(self).use_image_spec(),
    {
        self.verbose = verbose;
    }

    pub fn without_image(&mut self)
        ensures
            final(self).use_image_spec() == false,
            evaluator_unchanged_but_toggles(*old(self), *final(self)),
            final(self).interactive_spec() == old(self).interactive_spec(),
            final(self).should_quit_spec() == old(self).should_quit_spec(),
            final(self).should_save_spec() == old(self).should_save_spec(),
            final(self).verbose_spec() == old(self).verbose_spec(),
    {
        self.use_image = false;
    }

    pub fn workspace(&self) -> (r: &str)
        ensures
            r@ == self.workspace_view(),
    {
        self.workspace.as_str()
    }

    pub fn executable(&self) -> (r: &str)
        ensures
            r@ == self.executable_view(),
    {
        self.executable.as_str()
    }

    pub fn image(&self) -> (r: &str)
        ensures
            r@ == self.image_view(),
    {
        self.image.as_str()
    }

    pub fn should_save(&self) -> (r: bool)
        ensures
            r == self.should_save_spec(),
    {
        self.should_save
    }

    pub fn should_quit(&self) -> (r: bool)
        ensures
            r == self.should_quit_spec(),
    {
        self.should_quit
    }

    pub fn wants_interactive(&self) -> (r: bool)
        ensures
            r == self.interactive_spec(),
    {
        self.interactive
    }

    pub fn interactive_or_headless_flag(&self) -> (r: Option<&str>)
        ensures
            match r {
                Some(f) => flag_of(&self.flags_spec(), self.interactive_spec()) == Some(f@),
                None => flag_of(&self.flags_spec(), self.interactive_spec()) is None,
            },
    {
        self.flags.interactive_or_headless_flag(self.interactive)
    }

    pub fn is_verbose(&self) -> (r: bool)
        ensures
            r == self.verbose_spec(),
    {
        self.verbose
    }

    /// The start of every invocation this run issues: the interpreter,
    /// run in the workspace, the window flag when the family has one, the
    /// image as the first positional argument, output inherited when
    /// verbose and appended to the two install logs otherwise.
    pub fn command(&self, workspace_exists: bool) -> (r: CommandInvocation)
        ensures
            r.program_view() == join_of(
                effective_workspace_of(self.workspace_view(), workspace_exists),
                self.executable_view(),
            ),
            r.current_dir_view() == effective_workspace_of(
                self.workspace_view(),
                workspace_exists,
            ),
            r.args_view() == base_args_of(self),
            self.verbose_spec() ==> r.stdout_spec() is None && r.stderr_spec() is None,
            !r.stdout_is_null_spec() && !r.stderr_is_null_spec(),
            !self.verbose_spec() ==> r.stdout_spec() == Some(
                join_of(
                    effective_workspace_of(self.workspace_view(), workspace_exists),
                    "install.log"@,
                ),
            ) && r.stderr_spec() == Some(
                join_of(
                    effective_workspace_of(self.workspace_view(), workspace_exists),
                    "install-errors.log"@,
                ),
            ),
    {
        let workspace: &str = if workspace_exists {
            self.workspace.as_str()
        } else {
            "."
        };
        let program = join_path(workspace, self.executable.as_str());
        let mut invocation = CommandInvocation::new(program.as_str(), workspace);
        if !self.verbose {
            let out = join_path(workspace, "install.log");
            let err = join_path(workspace, "install-errors.log");
            invocation.set_stdout_append(out.as_str());
            invocation.set_stderr_append(err.as_str());
        }
        match self.interactive_or_headless_flag() {
            Some(flag) => {
                let f = flag.to_owned();
                invocation.push_arg(f.as_str());
            },
            None => {},
        }
        if self.use_image {
            invocation.push_arg(self.image.as_str());
        }
        proof {
            assert(invocation.args_view() =~= base_args_of(self));
        }
        invocation
    }
}

/// The arguments every invocation of a run opens with: the window flag
/// when there is one, then the image when the run uses one.
pub open spec fn base_args_of(e: &SmalltalkEvaluator) -> Seq<Seq<char>> {
    let with_flag = match flag_of(&e.flags_spec(), e.interactive_spec()) {
        Some(f) => seq![f],
        None => Seq::<Seq<char>>::empty(),
    };
    if e.use_image_spec() {
        with_flag.push(e.image_view())
    } else {
        with_flag
    }
}

/// The identifying texts of a run agree; only its toggles may differ.
pub open spec fn evaluator_unchanged_but_toggles(
    a: SmalltalkEvaluator,
    b: SmalltalkEvaluator,
) -> bool {
    &&& a.executable_view() == b.executable_view()
    &&& a.image_view() == b.image_view()
    &&& a.workspace_view() == b.workspace_view()
    &&& a.flags_spec().interactive_view() == b.flags_spec().interactive_view()
    &&& a.flags_spec().headless_view() == b.flags_spec().headless_view()
}

} // verus!
