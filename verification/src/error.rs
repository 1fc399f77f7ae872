use vstd::prelude::*;

use crate::strutil::{dec_of, u64_to_dec};

verus! {

/// Everything that can go wrong during an installation; each variant carries
/// what its message names.
#[derive(Clone, Debug)]
pub enum InstallerError {
    IoError(String),
    ArchiveError(String),
    CanonicalizeError(String),
    SerializationError(String),
    SerializationFileReadError(String),
    VersionParseError(String),
    UrlParseError(String),
    DownloadFailed(String, u16),
    FailedToDownloadReleaserVersion(String, u16),
    FailedToDetectGlamorousAppVersion,
    FailedToDetectGlamorousImageVersion,
    LoaderParseError(String),
    WorkspaceAlreadyExists(String),
    CommandExecutionFailed(String),
    CommandExecutionFailedWithStderr(String, String),
    SshKeysConfigurationError(Option<String>, Option<String>),
    PrivateKeyDoesNotExist(String),
    PublicKeyDoesNotExist(String),
    FailedToReadFileName(String),
    FailedToReadFileExtension(String),
    NoParentDirectory(String),
    NoFileMatch(String, String),
    AmbiguousFileMatch(String, String),
    InvalidPattern(String),
    TemplateError(String),
}

/// The one user-facing line that an error prints as.
pub open spec fn message_of(e: InstallerError) -> Seq<char> {
    match e {
        InstallerError::IoError(s) => "Input/Output error: "@ + s@,
        InstallerError::ArchiveError(s) => "Archive error: "@ + s@,
        InstallerError::CanonicalizeError(p) => "Failed to canonicalize a path "@ + p@,
        InstallerError::SerializationError(s) => "Failed to serialize as yaml: "@ + s@,
        InstallerError::SerializationFileReadError(p) => "Failed to read serialized state file "@
            + p@,
        InstallerError::VersionParseError(s) => "Version parse error: "@ + s@,
        InstallerError::UrlParseError(s) => "Failed to parse URL "@ + s@,
        InstallerError::DownloadFailed(url, status) => "Couldn't download URL: "@ + url@
            + ". Error: "@ + dec_of(status as nat),
        InstallerError::FailedToDownloadReleaserVersion(url, status) => {
            "Failed to download releaser version from "@ + url@ + ", with status code "@ + dec_of(
                status as nat,
            )
        },
        InstallerError::FailedToDetectGlamorousAppVersion => {
            "Failed to detect the latest released version of the gtoolkit-vm from its GitHub repository"@
        },
        InstallerError::FailedToDetectGlamorousImageVersion => {
            "Failed to detect the version of the gtoolkit"@
        },
        InstallerError::LoaderParseError(s) => "Failed to parse the loader "@ + s@,
        InstallerError::WorkspaceAlreadyExists(p) => "Workspace already exists: "@ + p@,
        InstallerError::CommandExecutionFailed(cmd) => "Command "@ + cmd@
            + " failed. See install.log or install-errors.log for more info"@,
        InstallerError::CommandExecutionFailedWithStderr(cmd, stderr) => "Command "@ + cmd@
            + " failed: "@ + stderr@,
        InstallerError::SshKeysConfigurationError(_private_key, _public_key) => {
            "Both private and public key must be set, or none"@
        },
        InstallerError::PrivateKeyDoesNotExist(p) => "Specified private key "@ + p@
            + " does not exist"@,
        InstallerError::PublicKeyDoesNotExist(p) => "Specified public key "@ + p@
            + " does not exist"@,
        InstallerError::FailedToReadFileName(p) => "Failed to read the file name of "@ + p@,
        InstallerError::FailedToReadFileExtension(p) => "Failed to read the file extension of "@
            + p@,
        InstallerError::NoParentDirectory(p) => "Failed to get a parent directory of "@ + p@,
        InstallerError::NoFileMatch(pattern, dir) => "Could not find a file matching "@ + pattern@
            + " in "@ + dir@,
        InstallerError::AmbiguousFileMatch(pattern, dir) => "Found more than one file matching "@
            + pattern@ + " in "@ + dir@,
        InstallerError::InvalidPattern(p) => "Invalid file pattern "@ + p@,
        InstallerError::TemplateError(s) => "Mustache template error: "@ + s@,
    }
}

impl InstallerError {
    /// Renders the user-facing message.
    pub fn message(&self) -> (r: String)
        ensures
            r@ == message_of(*self),
    {
        match self {
            InstallerError::IoError(s) => {
                let mut r = "Input/Output error: ".to_owned();
                r.append(s.as_str());
                proof {
                    assert(r@ =~= message_of(*self));
                }
                r
            },
            InstallerError::ArchiveError(s) => {
                let mut r = "Archive error: ".to_owned();
                r.append(s.as_str());
                proof {
                    assert(r@ =~= message_of(*self));
                }
                r
            },
            InstallerError::CanonicalizeError(p) => {
                let mut r = "Failed to canonicalize a path ".to_owned();
                r.append(p.as_str());
                proof {
                    assert(r@ =~= message_of(*self));
                }
                r
            },
            InstallerError::SerializationError(s) => {
                let mut r = "Failed to serialize as yaml: ".to_owned();
                r.append(s.as_str());
                proof {
                    assert(r@ =~= message_of(*self));
                }
                r
            },
            InstallerError::SerializationFileReadError(p) => {
                let mut r = "Failed to read serialized state file ".to_owned();
                r.append(p.as_str());
                proof {
                    assert(r@ =~= message_of(*self));
                }
                r
            },
            InstallerError::VersionParseError(s) => {
                let mut r = "Version parse error: ".to_owned();
                r.append(s.as_str());
                proof {
                    assert(r@ =~= message_of(*self));
                }
                r
            },
            InstallerError::UrlParseError(s) => {
                let mut r = "Failed to parse URL ".to_owned();
                r.append(s.as_str());
                proof {
                    assert(r@ =~= message_of(*self));
                }
                r
            },
            InstallerError::DownloadFailed(url, status) => {
                let mut r = "Couldn't download URL: ".to_owned();
                r.append(url.as_str());
                r.append(". Error: ");
                let code = u64_to_dec(*status as u64);
                r.append(code.as_str());
                proof {
                    assert(r@ =~= message_of(*self));
                }
                r
            },
            InstallerError::FailedToDownloadReleaserVersion(url, status) => {
                let mut r = "Failed to download releaser version from ".to_owned();
                r.append(url.as_str());
                r.append(", with status code ");
                let code = u64_to_dec(*status as u64);
                r.append(code.as_str());
                proof {
                    assert(r@ =~= message_of(*self));
                }
                r
            },
            InstallerError::FailedToDetectGlamorousAppVersion => {
                "Failed to detect the latest released version of the gtoolkit-vm from its GitHub repository".to_owned()
            },
            InstallerError::FailedToDetectGlamorousImageVersion => {
                "Failed to detect the version of the gtoolkit".to_owned()
            },
            InstallerError::LoaderParseError(s) => {
                let mut r = "Failed to parse the loader ".to_owned();
                r.append(s.as_str());
                proof {
                    assert(r@ =~= message_of(*self));
                }
                r
            },
            InstallerError::WorkspaceAlreadyExists(p) => {
                let mut r = "Workspace already exists: ".to_owned();
                r.append(p.as_str());
                proof {
                    assert(r@ =~= message_of(*self));
                }
                r
            },
            InstallerError::CommandExecutionFailed(cmd) => {
                let mut r = "Command ".to_owned();
                r.append(cmd.as_str());
                r.append(" failed. See install.log or install-errors.log for more info");
                proof {
                    assert(r@ =~= message_of(*self));
                }
                r
            },
            InstallerError::CommandExecutionFailedWithStderr(cmd, stderr) => {
                let mut r = "Command ".to_owned();
                r.append(cmd.as_str());
                r.append(" failed: ");
                r.append(stderr.as_str());
                proof {
                    assert(r@ =~= message_of(*self));
                }
                r
            },
            InstallerError::SshKeysConfigurationError(_private_key, _public_key) => {
                "Both private and public key must be set, or none".to_owned()
            },
            InstallerError::PrivateKeyDoesNotExist(p) => {
                let mut r = "Specified private key ".to_owned();
                r.append(p.as_str());
                r.append(" does not exist");
                proof {
                    assert(r@ =~= message_of(*self));
                }
                r
            },
            InstallerError::PublicKeyDoesNotExist(p) => {
                let mut r = "Specified public key ".to_owned();
                r.append(p.as_str());
                r.append(" does not exist");
                proof {
                    assert(r@ =~= message_of(*self));
                }
                r
            },
            InstallerError::FailedToReadFileName(p) => {
                let mut r = "Failed to read the file name of ".to_owned();
                r.append(p.as_str());
                proof {
                    assert(r@ =~= message_of(*self));
                }
                r
            },
            InstallerError::FailedToReadFileExtension(p) => {
                let mut r = "Failed to read the file extension of ".to_owned();
                r.append(p.as_str());
                proof {
                    assert(r@ =~= message_of(*self));
                }
                r
            },
            InstallerError::NoParentDirectory(p) => {
                let mut r = "Failed to get a parent directory of ".to_owned();
                r.append(p.as_str());
                proof {
                    assert(r@ =~= message_of(*self));
                }
                r
            },
            InstallerError::NoFileMatch(pattern, dir) => {
                let mut r = "Could not find a file matching ".to_owned();
                r.append(pattern.as_str());
                r.append(" in ");
                r.append(dir.as_str());
                proof {
                    assert(r@ =~= message_of(*self));
                }
                r
            },
            InstallerError::AmbiguousFileMatch(pattern, dir) => {
                let mut r = "Found more than one file matching ".to_owned();
                r.append(pattern.as_str());
                r.append(" in ");
                r.append(dir.as_str());
                proof {
                    assert(r@ =~= message_of(*self));
                }
                r
            },
            InstallerError::InvalidPattern(p) => {
                let mut r = "Invalid file pattern ".to_owned();
                r.append(p.as_str());
                proof {
                    assert(r@ =~= message_of(*self));
                }
                r
            },
            InstallerError::TemplateError(s) => {
                let mut r = "Mustache template error: ".to_owned();
                r.append(s.as_str());
                proof {
                    assert(r@ =~= message_of(*self));
                }
                r
            },
        }
    }
}

} // verus!
