use vstd::prelude::*;

use crate::application::Application;
use crate::paths::{join_of, with_file_name_of, with_file_name_path};
use crate::smalltalk::command::SmalltalkCommand;

verus! {

/// The new name of the image, without its extension.
#[derive(Clone, Debug)]
pub struct RenameOptions {
    name: String,
}

impl RenameOptions {
    pub closed spec fn name_view(&self) -> Seq<char> {
        self.name@
    }

    pub fn new(name: &str) -> (r: RenameOptions)
        ensures
            r.name_view() == name@,
    {
        RenameOptions { name: name.to_owned() }
    }

    pub fn name(&self) -> (r: &str)
        ensures
            r@ == self.name_view(),
    {
        self.name.as_str()
    }
}

/// Renames the image, deleting the old one.
pub struct Renamer;

impl Renamer {
    pub fn new() -> (r: Renamer) {
        Renamer {  }
    }

    /// The sub-command that saves the image under its new name and drops
    /// the old one.
    pub fn rename_command(&self, rename_options: &RenameOptions) -> (r: SmalltalkCommand)
        ensures
            r.command_view() == "save"@,
            rename_options.name_view().len() > 0 ==> r.arguments_view() == Seq::<
                Seq<char>,
            >::empty().push(rename_options.name_view()).push("--delete-old"@),
    {
        let r = SmalltalkCommand::new("save").arg(rename_options.name()).arg("--delete-old");
        proof {
            reveal_strlit("--delete-old");
            assert("--delete-old"@.len() > 0);
            if rename_options.name_view().len() > 0 {
                assert(r.arguments_view() =~= Seq::<Seq<char>>::empty().push(
                    rename_options.name_view(),
                ).push("--delete-old"@));
            }
        }
        r
    }

    /// Where the renamed image lies: beside the old one, under the new
    /// name with the image extension.
    pub fn new_image_path(&self, application: &Application, rename_options: &RenameOptions) -> (r:
        String)
        ensures
            r@ == with_file_name_of(
                join_of(
                    application.workspace_view(),
                    application.image_name_view() + seq!['.']
                        + application.image_extension_view(),
                ),
                rename_options.name_view() + ".image"@,
            ),
    {
        let image = application.image();
        let mut file_name = rename_options.name.clone();
        file_name.append(".image");
        let r = with_file_name_path(image.as_str(), file_name.as_str());
        proof {
            assert(file_name@ =~= rename_options.name_view() + ".image"@);
        }
        r
    }

    /// Where the current changes file lies: beside the image, under its
    /// name with the changes extension.
    pub fn current_changes_path(&self, application: &Application) -> (r: String)
        ensures
            r@ == with_file_name_of(
                join_of(
                    application.workspace_view(),
                    application.image_name_view() + seq!['.']
                        + application.image_extension_view(),
                ),
                application.image_name_view() + ".changes"@,
            ),
    {
        let image = application.image();
        let mut file_name = application.image_name().to_owned();
        file_name.append(".changes");
        let r = with_file_name_path(image.as_str(), file_name.as_str());
        proof {
            assert(file_name@ =~= application.image_name_view() + ".changes"@);
        }
        r
    }
}

} // verus!
