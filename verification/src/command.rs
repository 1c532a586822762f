use crate::error::ReleaseError;
use vstd::prelude::*;
use vstd::string::StringExecFns;

verus! {

/// An external command: what to run, with which arguments, and where.
#[derive(Debug)]
pub struct Command {
    pub program: String,
    pub args: Vec<String>,
    /// The working directory; `None` keeps the caller's.
    pub dir: Option<String>,
    /// How the command is named when it fails.
    pub label: String,
}

/// What a [`Command`] stands for.
pub struct CommandView {
    pub program: Seq<char>,
    pub args: Seq<Seq<char>>,
    pub dir: Option<Seq<char>>,
    pub label: Seq<char>,
}

impl View for Command {
    type V = CommandView;

    open spec fn view(&self) -> CommandView {
        CommandView {
            program: self.program@,
            args: self.args@.map_values(|s: String| s@),
            dir: match self.dir {
                Some(dir) => Some(dir@),
                None => None,
            },
            label: self.label@,
        }
    }
}

/// `cargo metadata --format-version 1`, in the caller's directory.
pub open spec fn metadata_command_spec() -> CommandView {
    CommandView {
        program: "cargo"@,
        args: seq!["metadata"@, "--format-version"@, "1"@],
        dir: None,
        label: "cargo metadata"@,
    }
}

/// `cargo update --package <name>`, in the workspace root.
pub open spec fn update_lock_spec(root: Seq<char>, name: Seq<char>) -> CommandView {
    CommandView {
        program: "cargo"@,
        args: seq!["update"@, "--package"@, name],
        dir: Some(root),
        label: "cargo update --package "@ + name,
    }
}

/// `git commit --all --message <message>`, in the workspace root.
pub open spec fn commit_all_spec(root: Seq<char>, message: Seq<char>) -> CommandView {
    CommandView {
        program: "git"@,
        args: seq!["commit"@, "--all"@, "--message"@, message],
        dir: Some(root),
        label: "git commit --all"@,
    }
}

/// The name of the tag for a release: `<name>-<version>`.
pub open spec fn tag_name(name: Seq<char>, version: Seq<char>) -> Seq<char> {
    name + "-"@ + version
}

/// The message of the tag for a release: `<name> <version>`.
pub open spec fn tag_message(name: Seq<char>, version: Seq<char>) -> Seq<char> {
    name + " "@ + version
}

/// The message of the commit for a release: `Release <version>`.
pub open spec fn release_message(version: Seq<char>) -> Seq<char> {
    "Release "@ + version
}

/// `git tag --sign --message <name> <version> <name>-<version>`, in the workspace root.
pub open spec fn make_tag_spec(root: Seq<char>, version: Seq<char>, name: Seq<char>)
    -> CommandView {
    CommandView {
        program: "git"@,
        args: seq![
            "tag"@,
            "--sign"@,
            "--message"@,
            tag_message(name, version),
            tag_name(name, version),
        ],
        dir: Some(root),
        label: "git tag --sign"@,
    }
}

/// The command that reports the workspace's metadata.
pub fn metadata_command() -> (c: Command)
    ensures
        c@ == metadata_command_spec(),
{
    let mut args: Vec<String> = Vec::new();
    args.push(String::from_str("metadata"));
    args.push(String::from_str("--format-version"));
    args.push(String::from_str("1"));
    let c = Command {
        program: String::from_str("cargo"),
        args,
        dir: None,
        label: String::from_str("cargo metadata"),
    };
    proof {
        assert(c@.args =~= metadata_command_spec().args);
    }
    c
}

/// The command that updates the lock file for the package `name`.
pub fn update_lock(root: &str, name: &str) -> (c: Command)
    ensures
        c@ == update_lock_spec(root@, name@),
{
    let mut args: Vec<String> = Vec::new();
    args.push(String::from_str("update"));
    args.push(String::from_str("--package"));
    args.push(String::from_str(name));
    let mut label = String::from_str("cargo update --package ");
    label.append(name);
    let c = Command {
        program: String::from_str("cargo"),
        args,
        dir: Some(String::from_str(root)),
        label,
    };
    proof {
        assert(c@.args =~= update_lock_spec(root@, name@).args);
    }
    c
}

/// The command that commits all tracked changes with `message`.
pub fn commit_all(root: &str, message: &str) -> (c: Command)
    ensures
        c@ == commit_all_spec(root@, message@),
{
    let mut args: Vec<String> = Vec::new();
    args.push(String::from_str("commit"));
    args.push(String::from_str("--all"));
    args.push(String::from_str("--message"));
    args.push(String::from_str(message));
    let c = Command {
        program: String::from_str("git"),
        args,
        dir: Some(String::from_str(root)),
        label: String::from_str("git commit --all"),
    };
    proof {
        assert(c@.args =~= commit_all_spec(root@, message@).args);
    }
    c
}

/// The command that creates the signed tag of the release of `name` at `version`.
pub fn make_tag(root: &str, version: &str, name: &str) -> (c: Command)
    ensures
        c@ == make_tag_spec(root@, version@, name@),
{
    let mut message = String::from_str(name);
    message.append(" ");
    message.append(version);
    let mut tag = String::from_str(name);
    tag.append("-");
    tag.append(version);
    let mut args: Vec<String> = Vec::new();
    args.push(String::from_str("tag"));
    args.push(String::from_str("--sign"));
    args.push(String::from_str("--message"));
    args.push(message);
    args.push(tag);
    let c = Command {
        program: String::from_str("git"),
        args,
        dir: Some(String::from_str(root)),
        label: String::from_str("git tag --sign"),
    };
    proof {
        assert(c@.args =~= make_tag_spec(root@, version@, name@).args);
    }
    c
}

/// The message of the commit that releases `version`.
pub fn commit_message(version: &str) -> (message: String)
    ensures
        message@ == release_message(version@),
{
    let mut message = String::from_str("Release ");
    message.append(version);
    message
}

/// Judges a finished command by its exit status alone.
pub fn check_exit(label: &str, success: bool, status: &str) -> (r: Result<(), ReleaseError>)
    ensures
        success ==> r is Ok,
        !success ==> (r matches Err(ReleaseError::CommandFailed { command, status: shown })
            && command@ == label@ && shown@ == status@),
{
    if success {
        Ok(())
    } else {
        Err(
            ReleaseError::CommandFailed {
                command: String::from_str(label),
                status: String::from_str(status),
            },
        )
    }
}

} // verus!
