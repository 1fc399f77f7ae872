use vstd::prelude::*;

use crate::application::Application;
use crate::smalltalk::expression::{dot_joined, SmalltalkExpression};

verus! {

/// Cleans an image up after loading: scrubs credentials, forgets
/// repositories, collects garbage.
pub struct Cleaner;

impl Cleaner {
    pub fn new() -> (r: Cleaner) {
        Cleaner {  }
    }

    /// The expression a clean-up runs, saved on success.
    pub fn clean_up_expression(&self, application: &Application) -> (r: SmalltalkExpression)
        ensures
            r.expression_view() == dot_joined(
                seq![
                    "IceCredentialsProvider sshCredentials publicKey: ''; privateKey: ''"@,
                    "IceCredentialsProvider useCustomSsh: false"@,
                    "IceRepository registry removeAll"@,
                    "3 timesRepeat: [ Smalltalk garbageCollect ]"@,
                ],
            ),
    {
        application.gtoolkit().iceberg_clean_up_expression()
    }
}

} // verus!
