use vstd::prelude::*;

use crate::application::Application;

verus! {

/// Which flags an interpreter family understands for running with or
/// without a window.
#[derive(Clone, Debug)]
pub struct SmalltalkFlags {
    interactive: Option<String>,
    headless: Option<String>,
}

impl SmalltalkFlags {
    pub closed spec fn interactive_view(&self) -> Option<Seq<char>> {
        match self.interactive {
            Some(f) => Some(f@),
            None => None,
        }
    }

    pub closed spec fn headless_view(&self) -> Option<Seq<char>> {
        match self.headless {
            Some(f) => Some(f@),
            None => None,
        }
    }

    /// The base interpreter knows only a headless flag.
    pub fn pharo() -> (r: SmalltalkFlags)
        ensures
            r.interactive_view() is None,
            r.headless_view() == Some("--headless"@),
    {
        SmalltalkFlags { interactive: None, headless: Some("--headless".to_owned()) }
    }

    /// The toolkit's interpreter knows only an interactive flag.
    pub fn gtoolkit() -> (r: SmalltalkFlags)
        ensures
            r.interactive_view() == Some("--interactive"@),
            r.headless_view() is None,
    {
        SmalltalkFlags { interactive: Some("--interactive".to_owned()), headless: None }
    }

    /// A field-for-field copy.
    pub fn duplicate(&self) -> (r: SmalltalkFlags)
        ensures
            r.interactive_view() == self.interactive_view(),
            r.headless_view() == self.headless_view(),
    {
        SmalltalkFlags {
            interactive: match &self.interactive {
                Some(f) => Some(f.clone()),
                None => None,
            },
            headless: match &self.headless {
                Some(f) => Some(f.clone()),
                None => None,
            },
        }
    }

    pub fn interactive_or_headless_flag(&self, is_interactive: bool) -> (r: Option<&str>)
        ensures
            match r {
                Some(f) => flag_of(self, is_interactive) == Some(f@),
                None => flag_of(self, is_interactive) is None,
            },
    {
        if is_interactive {
            match &self.interactive {
                Some(f) => Some(f.as_str()),
                None => None,
            }
        } else {
            match &self.headless {
                Some(f) => Some(f.as_str()),
                None => None,
            }
        }
    }
}

/// The flag a run passes, by whether it wants a window.
pub open spec fn flag_of(flags: &SmalltalkFlags, is_interactive: bool) -> Option<Seq<char>> {
    if is_interactive {
        flags.interactive_view()
    } else {
        flags.headless_view()
    }
}

/// One interpreter and image to run things against, with the workspace and
/// verbosity they inherit from the installation record.
#[derive(Clone, Debug)]
pub struct Smalltalk {
    executable: String,
    image: String,
    workspace: String,
    flags: SmalltalkFlags,
    verbose: bool,
}

impl Smalltalk {
    pub closed spec fn executable_view(&self) -> Seq<char> {
        self.executable@
    }

    pub closed spec fn image_view(&self) -> Seq<char> {
        self.image@
    }

    pub closed spec fn workspace_view(&self) -> Seq<char> {
        self.workspace@
    }

    pub closed spec fn flags_spec(&self) -> SmalltalkFlags {
        self.flags
    }

    pub closed spec fn verbose_spec(&self) -> bool {
        self.verbose
    }

    pub fn new(executable: &str, image: &str, flags: SmalltalkFlags, application: &Application) -> (r:
        Smalltalk)
        ensures
            r.executable_view() == executable@,
            r.image_view() == image@,
            r.workspace_view() == application.workspace_view(),
            r.flags_spec().interactive_view() == flags.interactive_view(),
            r.flags_spec().headless_view() == flags.headless_view(),
            r.verbose_spec() == application.verbose_spec(),
    {
        Smalltalk {
            executable: executable.to_owned(),
            image: image.to_owned(),
            workspace: application.workspace().to_owned(),
            flags,
            verbose: application.is_verbose(),
        }
    }

    pub fn executable(&self) -> (r: &str)
        ensures
            r@ == self.executable_view(),
    {
        self.executable.as_str()
    }

    pub fn image(&self) -> (r: &str)
        ensures
            r@ == self.image_view(),
    {
        self.image.as_str()
    }

    pub fn workspace(&self) -> (r: &str)
        ensures
            r@ == self.workspace_view(),
    {
        self.workspace.as_str()
    }

    pub fn flags(&self) -> (r: &SmalltalkFlags)
        ensures
            r.interactive_view() == self.flags_spec().interactive_view(),
            r.headless_view() == self.flags_spec().headless_view(),
    {
        &self.flags
    }

    pub fn verbose(&self) -> (r: bool)
        ensures
            r == self.verbose_spec(),
    {
        self.verbose
    }

    /// A fresh run against this interpreter and image, inheriting the
    /// verbosity.
    pub fn evaluator(&self) -> (r: crate::smalltalk::evaluator::SmalltalkEvaluator)
        ensures
            r.executable_view() == self.executable_view(),
            r.image_view() == self.image_view(),
            r.workspace_view() == self.workspace_view(),
            r.flags_spec().interactive_view() == self.flags_spec().interactive_view(),
            r.flags_spec().headless_view() == self.flags_spec().headless_view(),
            r.interactive_spec() == false,
            r.should_quit_spec() == true,
            r.should_save_spec() == false,
            r.verbose_spec() == self.verbose_spec(),
            r.use_image_spec() == true,
    {
        crate::smalltalk::evaluator::SmalltalkEvaluator::new(self)
    }
}

} // verus!
