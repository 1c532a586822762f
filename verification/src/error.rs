use vstd::prelude::*;
use vstd::string::StringExecFns;

verus! {

/// Everything that can stop a release. The first error ends the run.
#[derive(Debug)]
pub enum ReleaseError {
    /// A command could not be started at all.
    Spawn { detail: String },
    /// A command ran and reported failure.
    CommandFailed { command: String, status: String },
    /// The manifest could not be read or written.
    Io { detail: String },
    /// The metadata command printed bytes that are not UTF-8.
    InvalidUtf8 { detail: String },
    /// The metadata command printed something that is not JSON.
    Metadata { detail: String },
    /// The metadata has no string member `workspace_root`.
    MissingWorkspaceRoot,
    /// The manifest is not a TOML document.
    Manifest { detail: String },
    /// The manifest has no string `package.name`.
    PackageNameMissing,
    /// The manifest has no string `package.version`.
    VersionMissing,
    /// `package.version` is not a semantic version.
    Version { detail: String },
    /// The current version carries no pre-release tag, so it was released already.
    FinalVersion { version: String },
    /// The minor component cannot grow any further.
    MinorOverflow { version: String },
    /// The run was told of something it was not waiting for.
    OutOfTurn,
}

impl ReleaseError {
    /// The line shown to the user for this error.
    pub open spec fn message_text(self) -> Seq<char> {
        match self {
            ReleaseError::Spawn { detail } => detail@,
            ReleaseError::CommandFailed { command, status } => "Command "@ + command@
                + " failed with status "@ + status@,
            ReleaseError::Io { detail } => detail@,
            ReleaseError::InvalidUtf8 { detail } => detail@,
            ReleaseError::Metadata { detail } => detail@,
            ReleaseError::MissingWorkspaceRoot => "Missing workspace root"@,
            ReleaseError::Manifest { detail } => detail@,
            ReleaseError::PackageNameMissing => "Package name missing!"@,
            ReleaseError::VersionMissing => "Version missing!"@,
            ReleaseError::Version { detail } => detail@,
            ReleaseError::FinalVersion { version } => "Cannot make release from final version: "@
                + version@,
            ReleaseError::MinorOverflow { version } => "Cannot increment the minor version of "@
                + version@,
            ReleaseError::OutOfTurn => "Unexpected event"@,
        }
    }

    pub fn message(&self) -> (text: String)
        ensures
            text@ == self.message_text(),
    {
        match self {
            ReleaseError::Spawn { detail } => detail.clone(),
            ReleaseError::CommandFailed { command, status } => {
                let mut text = String::from_str("Command ");
                text.append(command.as_str());
                text.append(" failed with status ");
                text.append(status.as_str());
                text
            },
            ReleaseError::Io { detail } => detail.clone(),
            ReleaseError::InvalidUtf8 { detail } => detail.clone(),
            ReleaseError::Metadata { detail } => detail.clone(),
            ReleaseError::MissingWorkspaceRoot => String::from_str("Missing workspace root"),
            ReleaseError::Manifest { detail } => detail.clone(),
            ReleaseError::PackageNameMissing => String::from_str("Package name missing!"),
            ReleaseError::VersionMissing => String::from_str("Version missing!"),
            ReleaseError::Version { detail } => detail.clone(),
            ReleaseError::FinalVersion { version } => {
                let mut text = String::from_str("Cannot make release from final version: ");
                text.append(version.as_str());
                text
            },
            ReleaseError::MinorOverflow { version } => {
                let mut text = String::from_str("Cannot increment the minor version of ");
                text.append(version.as_str());
                text
            },
            ReleaseError::OutOfTurn => String::from_str("Unexpected event"),
        }
    }
}

} // verus!
