use vstd::prelude::*;

use crate::application::Application;
use crate::platform::PlatformOS;
use crate::smalltalk::command::{nonempty_of, SmalltalkCommand};
use crate::smalltalk::expression::{dot_joined, SmalltalkExpression, SmalltalkExpressionBuilder};
use crate::smalltalk::smalltalk::{Smalltalk, SmalltalkFlags};
use crate::version::VersionBump;

verus! {

impl Application {
    /// The toolkit interpreter of this workspace, against its image.
    pub fn gtoolkit(&self) -> (r: Smalltalk)
        ensures
            r.executable_view() == self.app_cli_path_of(self.host_spec()),
            r.image_view() == crate::paths::join_of(
                self.workspace_view(),
                self.image_name_view() + seq!['.'] + self.image_extension_view(),
            ),
            r.workspace_view() == self.workspace_view(),
            r.flags_spec().interactive_view() == Some("--interactive"@),
            r.flags_spec().headless_view() is None,
            r.verbose_spec() == self.verbose_spec(),
    {
        let cli = self.gtoolkit_app_cli();
        let image = self.image();
        Smalltalk::new(cli.as_str(), image.as_str(), SmalltalkFlags::gtoolkit(), self)
    }

    /// The base interpreter of this workspace, against its image; the
    /// phone platform has none.
    pub fn pharo(&self) -> (r: Smalltalk)
        requires
            self.host_spec() != PlatformOS::AndroidAarch64,
        ensures
            r.image_view() == crate::paths::join_of(
                self.workspace_view(),
                self.image_name_view() + seq!['.'] + self.image_extension_view(),
            ),
            r.workspace_view() == self.workspace_view(),
            r.flags_spec().interactive_view() is None,
            r.flags_spec().headless_view() == Some("--headless"@),
            r.verbose_spec() == self.verbose_spec(),
    {
        let executable = match self.pharo_executable() {
            Some(p) => p,
            None => {
                proof {
                    assert(false);
                }
                ""
            },
        };
        let image = self.image();
        Smalltalk::new(executable, image.as_str(), SmalltalkFlags::pharo(), self)
    }
}

/// The arguments common to the example, test and slide runs: the package
/// selection, the report flag, then the verbosity, deprecation and skip
/// flags where they are on.
pub open spec fn examples_args_of(
    packages: Seq<Seq<char>>,
    verbose: bool,
    disable_deprecation_rewrites: bool,
    skip_argument: Option<Seq<char>>,
) -> Seq<Seq<char>> {
    let base = nonempty_of(packages).push("--junit-xml-output"@);
    let with_verbose = if verbose {
        base.push("--verbose"@)
    } else {
        base
    };
    let with_rewrites = if disable_deprecation_rewrites {
        with_verbose.push("--disable-deprecation-rewrites"@)
    } else {
        with_verbose
    };
    match skip_argument {
        Some(s) => if s.len() > 0 {
            with_rewrites.push(s)
        } else {
            with_rewrites
        },
        None => with_rewrites,
    }
}

impl Smalltalk {
    /// The sub-command that answers the loaded toolkit's version.
    pub fn get_gtoolkit_version_command(&self) -> (r: SmalltalkCommand)
        ensures
            r.command_view() == "getgtoolkitversion"@,
            r.arguments_view() == Seq::<Seq<char>>::empty(),
    {
        SmalltalkCommand::new("getgtoolkitversion")
    }

    /// The sub-command that prints the commits new since the last release.
    pub fn print_new_commits_command(&self) -> (r: SmalltalkCommand)
        ensures
            r.command_view() == "printNewCommits"@,
            r.arguments_view() == Seq::<Seq<char>>::empty(),
    {
        SmalltalkCommand::new("printNewCommits")
    }

    /// The expression that sets an image up for a release, bumping the
    /// chosen version component.
    pub fn perform_setup_for_release_expression(&self, bump: VersionBump) -> (r:
        SmalltalkExpression)
        ensures
            r.expression_view() == "GtImageSetup performSetupForRelease: '"@ + bump_text_of(bump)
                + "'"@,
    {
        let mut text = "GtImageSetup performSetupForRelease: '".to_owned();
        text.append(bump.to_str());
        text.append("'");
        proof {
            assert(text@ =~= "GtImageSetup performSetupForRelease: '"@ + bump_text_of(bump)
                + "'"@);
        }
        SmalltalkExpression::new(text.as_str())
    }

    /// The expression that sets an image up for a local build.
    pub fn perform_setup_for_local_build_expression(&self) -> (r: SmalltalkExpression)
        ensures
            r.expression_view() == "GtImageSetup performLocalSetup"@,
    {
        SmalltalkExpression::new("GtImageSetup performLocalSetup")
    }

    /// The expression that scrubs credentials, forgets repositories and
    /// collects garbage after a load.
    pub fn iceberg_clean_up_expression(&self) -> (r: SmalltalkExpression)
        ensures
            r.expression_view() == dot_joined(
                seq![
                    "IceCredentialsProvider sshCredentials publicKey: ''; privateKey: ''"@,
                    "IceCredentialsProvider useCustomSsh: false"@,
                    "IceRepository registry removeAll"@,
                    "3 timesRepeat: [ Smalltalk garbageCollect ]"@,
                ],
            ),
    {
        let mut builder = SmalltalkExpressionBuilder::new();
        builder.add("IceCredentialsProvider sshCredentials publicKey: ''; privateKey: ''");
        builder.add("IceCredentialsProvider useCustomSsh: false");
        builder.add("IceRepository registry removeAll");
        builder.add("3 timesRepeat: [ Smalltalk garbageCollect ]");
        let r = builder.build();
        proof {
            assert(builder.expressions_view() =~= seq![
                "IceCredentialsProvider sshCredentials publicKey: ''; privateKey: ''"@,
                "IceCredentialsProvider useCustomSsh: false"@,
                "IceRepository registry removeAll"@,
                "3 timesRepeat: [ Smalltalk garbageCollect ]"@,
            ]);
        }
        r
    }

    /// The sub-command running the examples of chosen packages.
    pub fn run_examples_command(
        &self,
        packages: &Vec<String>,
        disable_deprecation_rewrites: bool,
        skip_argument: Option<String>,
    ) -> (r: SmalltalkCommand)
        ensures
            r.command_view() == "examples"@,
            r.arguments_view() == examples_args_of(
                packages@.map_values(|s: String| s@),
                self.verbose_spec(),
                disable_deprecation_rewrites,
                match skip_argument {
                    Some(s) => Some(s@),
                    None => None,
                },
            ),
    {
        let mut command = SmalltalkCommand::new("examples").args(packages).arg(
            "--junit-xml-output",
        );
        if self.verbose() {
            command = command.arg("--verbose");
        }
        if disable_deprecation_rewrites {
            command = command.arg("--disable-deprecation-rewrites");
        }
        let r = match skip_argument {
            Some(s) => command.arg(s.as_str()),
            None => command,
        };
        proof {
            reveal_strlit("--junit-xml-output");
            reveal_strlit("--verbose");
            reveal_strlit("--disable-deprecation-rewrites");
            assert("--junit-xml-output"@.len() > 0);
            assert("--verbose"@.len() > 0);
            assert("--disable-deprecation-rewrites"@.len() > 0);
            assert(r.arguments_view() =~= examples_args_of(
                packages@.map_values(|s: String| s@),
                self.verbose_spec(),
                disable_deprecation_rewrites,
                match skip_argument {
                    Some(s) => Some(s@),
                    None => None,
                },
            ));
        }
        r
    }

    /// The sub-command running the release branch's own examples.
    pub fn run_release_examples_command(
        &self,
        disable_deprecation_rewrites: bool,
        skip_argument: Option<String>,
    ) -> (r: SmalltalkCommand)
        ensures
            r.command_view() == "dedicatedReleaseBranchExamples"@,
            r.arguments_view() == examples_args_of(
                Seq::<Seq<char>>::empty(),
                self.verbose_spec(),
                disable_deprecation_rewrites,
                match skip_argument {
                    Some(s) => Some(s@),
                    None => None,
                },
            ),
    {
        let mut command = SmalltalkCommand::new("dedicatedReleaseBranchExamples").arg(
            "--junit-xml-output",
        );
        proof {
            lemma_nonempty_of_empty();
        }
        if self.verbose() {
            command = command.arg("--verbose");
        }
        if disable_deprecation_rewrites {
            command = command.arg("--disable-deprecation-rewrites");
        }
        let r = match skip_argument {
            Some(s) => command.arg(s.as_str()),
            None => command,
        };
        proof {
            reveal_strlit("--junit-xml-output");
            reveal_strlit("--verbose");
            reveal_strlit("--disable-deprecation-rewrites");
            assert("--junit-xml-output"@.len() > 0);
            assert("--verbose"@.len() > 0);
            assert("--disable-deprecation-rewrites"@.len() > 0);
            assert(r.arguments_view() =~= examples_args_of(
                Seq::<Seq<char>>::empty(),
                self.verbose_spec(),
                disable_deprecation_rewrites,
                match skip_argument {
                    Some(s) => Some(s@),
                    None => None,
                },
            ));
        }
        r
    }

    /// The sub-command running the release branch's slides.
    pub fn run_release_slides_command(
        &self,
        disable_deprecation_rewrites: bool,
        skip_argument: Option<String>,
    ) -> (r: SmalltalkCommand)
        ensures
            r.command_view() == "dedicatedReleaseBranchSlides"@,
            r.arguments_view() == examples_args_of(
                Seq::<Seq<char>>::empty(),
                self.verbose_spec(),
                disable_deprecation_rewrites,
                match skip_argument {
                    Some(s) => Some(s@),
                    None => None,
                },
            ),
    {
        let mut command = SmalltalkCommand::new("dedicatedReleaseBranchSlides").arg(
            "--junit-xml-output",
        );
        proof {
            lemma_nonempty_of_empty();
        }
        if self.verbose() {
            command = command.arg("--verbose");
        }
        if disable_deprecation_rewrites {
            command = command.arg("--disable-deprecation-rewrites");
        }
        let r = match skip_argument {
            Some(s) => command.arg(s.as_str()),
            None => command,
        };
        proof {
            reveal_strlit("--junit-xml-output");
            reveal_strlit("--verbose");
            reveal_strlit("--disable-deprecation-rewrites");
            assert("--junit-xml-output"@.len() > 0);
            assert("--verbose"@.len() > 0);
            assert("--disable-deprecation-rewrites"@.len() > 0);
            assert(r.arguments_view() =~= examples_args_of(
                Seq::<Seq<char>>::empty(),
                self.verbose_spec(),
                disable_deprecation_rewrites,
                match skip_argument {
                    Some(s) => Some(s@),
                    None => None,
                },
            ));
        }
        r
    }

    /// The sub-command running the tests of chosen packages.
    pub fn run_tests_command(&self, packages: &Vec<String>) -> (r: SmalltalkCommand)
        ensures
            r.command_view() == "test"@,
            r.arguments_view() == nonempty_of(packages@.map_values(|s: String| s@)).push(
                "--junit-xml-output"@,
            ),
    {
        let r = SmalltalkCommand::new("test").args(packages).arg("--junit-xml-output");
        proof {
            reveal_strlit("--junit-xml-output");
            assert("--junit-xml-output"@.len() > 0);
            assert(r.arguments_view() =~= nonempty_of(packages@.map_values(|s: String| s@)).push(
                "--junit-xml-output"@,
            ));
        }
        r
    }

    /// The sub-command exporting the architectural report.
    pub fn run_architectural_report_command(&self) -> (r: SmalltalkCommand)
        ensures
            r.command_view() == "gtexportreport"@,
            r.arguments_view() == Seq::<Seq<char>>::empty().push(
                "--report=GtGtoolkitArchitecturalReport"@,
            ),
    {
        let r = SmalltalkCommand::new("gtexportreport").arg(
            "--report=GtGtoolkitArchitecturalReport",
        );
        proof {
            reveal_strlit("--report=GtGtoolkitArchitecturalReport");
            assert("--report=GtGtoolkitArchitecturalReport"@.len() > 0);
            assert(r.arguments_view() =~= Seq::<Seq<char>>::empty().push(
                "--report=GtGtoolkitArchitecturalReport"@,
            ));
        }
        r
    }
}

/// The text of a bump choice.
pub open spec fn bump_text_of(bump: VersionBump) -> Seq<char> {
    match bump {
        VersionBump::Major => "major"@,
        VersionBump::Minor => "minor"@,
        VersionBump::Patch => "patch"@,
    }
}

proof fn lemma_nonempty_of_empty()
    ensures
        nonempty_of(Seq::<Seq<char>>::empty()) == Seq::<Seq<char>>::empty(),
{
    reveal(Seq::filter);
}

} // verus!
