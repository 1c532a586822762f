use crate::command::{
    check_exit, commit_all, commit_all_spec, commit_message, make_tag, make_tag_spec,
    metadata_command, metadata_command_spec, release_message, update_lock, update_lock_spec,
    Command, CommandView,
};
use crate::error::ReleaseError;
use crate::manifest::{
    document_text, package_name_of, parse_manifest, render_manifest, toml_parse, version_of,
};
use crate::metadata::{json_parse, json_strings, reads_workspace_root, workspace_root};
use crate::release::{plan_release, plans, Release};
use crate::version::VersionView;
use vstd::prelude::*;
use vstd::string::StringExecFns;
use vstd::utf8::{decode_utf8, valid_utf8};

verus! {

/// What the later steps of a run need to know: where the workspace is, which package
/// is released, and the text of its new version.
#[derive(Debug)]
pub struct Pending {
    pub root: String,
    pub name: String,
    pub version: String,
}

/// Where a run stands: what it is waiting for.
#[derive(Debug)]
pub enum State {
    /// Nothing has happened yet.
    Start,
    /// The metadata command is running.
    Locating,
    /// The manifest is being read.
    Reading { root: String },
    /// The manifest is being written.
    Writing { pending: Pending },
    /// The lock file is being updated.
    Locking { pending: Pending },
    /// The release is being committed.
    Committing { pending: Pending },
    /// The release is being tagged.
    Tagging,
    /// The release is made.
    Done,
    /// The run has failed.
    Failed,
}

/// What the driver reports back.
#[derive(Debug)]
pub enum Event {
    /// The run is to begin.
    Begin,
    /// A captured command finished with an exit status, shown as `status`, and printed
    /// `stdout`.
    Output { success: bool, status: String, stdout: Vec<u8> },
    /// A command finished with an exit status, shown as `status`.
    Exit { success: bool, status: String },
    /// The manifest was read and holds `text`.
    Text { text: String },
    /// The manifest was written.
    Written,
    /// What was asked for could not be done at all.
    Refused { detail: String },
}

/// What the driver is asked to do next.
#[derive(Debug)]
pub enum Action {
    /// Run a command and report what it printed.
    Capture { command: Command },
    /// Run a command and report its exit status.
    Run { command: Command },
    /// Read the file `file` in `dir`.
    Read { dir: String, file: String },
    /// Overwrite the file `file` in `dir` with `text`.
    Write { dir: String, file: String, text: String },
    /// Stop: the release is made.
    Finish,
    /// Stop: the run has failed.
    Fail { error: ReleaseError },
}

/// The name of the manifest file.
pub open spec fn manifest_file() -> Seq<char> {
    "Cargo.toml"@
}

impl Action {
    /// An action that changes something outside: a write or a command other than the
    /// metadata query.
    pub open spec fn has_effect(self) -> bool {
        self is Write || self is Run
    }
}

/// The run fails because the event is not the one it was waiting for.
pub open spec fn out_of_turn(next: State, action: Action) -> bool {
    next is Failed && action matches Action::Fail { error: ReleaseError::OutOfTurn }
}

/// The run fails because the driver could not start a command.
pub open spec fn spawn_failed(detail: Seq<char>, next: State, action: Action) -> bool {
    &&& next is Failed
    &&& action matches Action::Fail { error: ReleaseError::Spawn { detail: shown } }
    &&& shown@ == detail
}

/// The run fails because the driver could not read or write the manifest.
pub open spec fn io_failed(detail: Seq<char>, next: State, action: Action) -> bool {
    &&& next is Failed
    &&& action matches Action::Fail { error: ReleaseError::Io { detail: shown } }
    &&& shown@ == detail
}

/// The run fails because a command reported failure.
pub open spec fn command_failed(
    label: Seq<char>,
    status: Seq<char>,
    next: State,
    action: Action,
) -> bool {
    &&& next is Failed
    &&& action matches Action::Fail {
        error: ReleaseError::CommandFailed { command, status: shown },
    }
    &&& command@ == label
    &&& shown@ == status
}

/// The driver is asked to run `command` and report its exit status.
pub open spec fn runs(command: CommandView, action: Action) -> bool {
    action matches Action::Run { command: asked } && asked@ == command
}

impl Pending {
    pub open spec fn same(self, other: Pending) -> bool {
        &&& self.root@ == other.root@
        &&& self.name@ == other.name@
        &&& self.version@ == other.version@
    }
}

/// The manifest `doc` is rewritten for `release`: `after` is what planning made of it,
/// `written` is the text of `after`, and `pending` carries the release along.
pub open spec fn rewrites(
    doc: toml_edit::Document,
    after: toml_edit::Document,
    release: Release,
    written: Seq<char>,
    pending: Pending,
) -> bool {
    &&& plans(doc, after, Ok(release))
    &&& written == document_text(after)
    &&& pending.name@ == release.name@
    &&& pending.version@ == release.version@.text()
}

/// What the run does with the manifest's text once the workspace root is known.
pub open spec fn reads_manifest(
    root: Seq<char>,
    text: Seq<char>,
    next: State,
    action: Action,
) -> bool {
    match toml_parse(text) {
        None => next is Failed && action matches Action::Fail {
            error: ReleaseError::Manifest { .. },
        },
        Some(doc) => match action {
            Action::Write { dir, file, text: written } => {
                &&& dir@ == root
                &&& file@ == manifest_file()
                &&& next matches State::Writing { pending }
                &&& pending.root@ == root
                &&& exists|after: toml_edit::Document, release: Release| #[trigger]
                    rewrites(doc, after, release, written@, pending)
            },
            Action::Fail { error } => next is Failed && plans(doc, doc, Err(error)),
            _ => false,
        },
    }
}

/// One step of a run: from where it stands and what was reported, to where it stands
/// next and what is to be done.
pub open spec fn steps(state: State, event: Event, next: State, action: Action) -> bool {
    match (state, event) {
        (State::Start, Event::Begin) => {
            &&& next is Locating
            &&& action matches Action::Capture { command }
            &&& command@ == metadata_command_spec()
        },
        (State::Locating, Event::Output { success, status, stdout }) => match action {
            Action::Read { dir, file } => {
                &&& reads_workspace_root(success, status@, stdout@, Ok(dir))
                &&& file@ == manifest_file()
                &&& next matches State::Reading { root }
                &&& root@ == dir@
            },
            Action::Fail { error } => next is Failed && reads_workspace_root(
                success,
                status@,
                stdout@,
                Err(error),
            ),
            _ => false,
        },
        (State::Locating, Event::Refused { detail }) => spawn_failed(detail@, next, action),
        (State::Reading { root }, Event::Text { text }) => reads_manifest(
            root@,
            text@,
            next,
            action,
        ),
        (State::Reading { root }, Event::Refused { detail }) => io_failed(detail@, next, action),
        (State::Writing { pending }, Event::Written) => {
            &&& next matches State::Locking { pending: kept }
            &&& kept.same(pending)
            &&& runs(update_lock_spec(pending.root@, pending.name@), action)
        },
        (State::Writing { pending }, Event::Refused { detail }) => io_failed(
            detail@,
            next,
            action,
        ),
        (State::Locking { pending }, Event::Exit { success, status }) => if success {
            &&& next matches State::Committing { pending: kept }
            &&& kept.same(pending)
            &&& runs(
                commit_all_spec(pending.root@, release_message(pending.version@)),
                action,
            )
        } else {
            command_failed(
                update_lock_spec(pending.root@, pending.name@).label,
                status@,
                next,
                action,
            )
        },
        (State::Locking { pending }, Event::Refused { detail }) => spawn_failed(
            detail@,
            next,
            action,
        ),
        (State::Committing { pending }, Event::Exit { success, status }) => if success {
            &&& next is Tagging
            &&& runs(make_tag_spec(pending.root@, pending.version@, pending.name@), action)
        } else {
            command_failed("git commit --all"@, status@, next, action)
        },
        (State::Committing { pending }, Event::Refused { detail }) => spawn_failed(
            detail@,
            next,
            action,
        ),
        (State::Tagging, Event::Exit { success, status }) => if success {
            next is Done && action is Finish
        } else {
            command_failed("git tag --sign"@, status@, next, action)
        },
        (State::Tagging, Event::Refused { detail }) => spawn_failed(detail@, next, action),
        _ => out_of_turn(next, action),
    }
}

fn fail(error: ReleaseError) -> (r: (State, Action))
    ensures
        r.0 is Failed,
        r.1 == (Action::Fail { error }),
{
    (State::Failed, Action::Fail { error })
}

/// The step taken once the metadata command has finished.
fn locate(success: bool, status: String, stdout: Vec<u8>) -> (r: (State, Action))
    ensures
        steps(State::Locating, Event::Output { success, status, stdout }, r.0, r.1),
{
    match workspace_root(success, status.as_str(), stdout.as_slice()) {
        Ok(root) => {
            let dir = root.clone();
            (State::Reading { root }, Action::Read { dir, file: String::from_str("Cargo.toml") })
        },
        Err(error) => fail(error),
    }
}

/// The step taken once the manifest has been read and holds `text`.
fn rewrite(root: String, text: String) -> (r: (State, Action))
    ensures
        reads_manifest(root@, text@, r.0, r.1),
{
    let mut doc = match parse_manifest(text.as_str()) {
        Ok(doc) => doc,
        Err(error) => {
            return fail(error);
        },
    };
    let ghost before = doc;
    match plan_release(&mut doc) {
        Ok(release) => {
            let written = render_manifest(&doc);
            let version = release.version.to_text();
            let ghost planned = release;
            let dir = root.clone();
            let pending = Pending { root, name: release.name, version };
            let r = (
                State::Writing { pending },
                Action::Write { dir, file: String::from_str("Cargo.toml"), text: written },
            );
            proof {
                let parsed = toml_parse(text@)->0;
                assert(parsed == before);
                assert(r.0 matches State::Writing { pending: kept } && kept == pending);
                assert(r.1 matches Action::Write { text: shown, .. } && shown == written);
                assert(rewrites(parsed, doc, planned, written@, pending));
                assert(exists|after: toml_edit::Document, release: Release| #[trigger]
                    rewrites(parsed, after, release, written@, pending));
                assert(reads_manifest(root@, text@, r.0, r.1));
            }
            r
        },
        Err(error) => fail(error),
    }
}

/// Takes one step of a run.
///
/// The driver starts with [`State::Start`] and [`Event::Begin`], carries out each
/// action it is handed and reports the outcome, until it is handed
/// [`Action::Finish`] or [`Action::Fail`].
pub fn step(state: State, event: Event) -> (r: (State, Action))
    ensures
        steps(state, event, r.0, r.1),
{
    match state {
        State::Start => match event {
            Event::Begin => (State::Locating, Action::Capture { command: metadata_command() }),
            _ => fail(ReleaseError::OutOfTurn),
        },
        State::Locating => match event {
            Event::Output { success, status, stdout } => locate(success, status, stdout),
            Event::Refused { detail } => fail(ReleaseError::Spawn { detail }),
            _ => fail(ReleaseError::OutOfTurn),
        },
        State::Reading { root } => match event {
            Event::Text { text } => rewrite(root, text),
            Event::Refused { detail } => fail(ReleaseError::Io { detail }),
            _ => fail(ReleaseError::OutOfTurn),
        },
        State::Writing { pending } => match event {
            Event::Written => {
                let command = update_lock(pending.root.as_str(), pending.name.as_str());
                (State::Locking { pending }, Action::Run { command })
            },
            Event::Refused { detail } => fail(ReleaseError::Io { detail }),
            _ => fail(ReleaseError::OutOfTurn),
        },
        State::Locking { pending } => match event {
            Event::Exit { success, status } => {
                let label = update_lock(pending.root.as_str(), pending.name.as_str()).label;
                match check_exit(label.as_str(), success, status.as_str()) {
                    Ok(()) => {
                        let message = commit_message(pending.version.as_str());
                        let command = commit_all(pending.root.as_str(), message.as_str());
                        (State::Committing { pending }, Action::Run { command })
                    },
                    Err(error) => fail(error),
                }
            },
            Event::Refused { detail } => fail(ReleaseError::Spawn { detail }),
            _ => fail(ReleaseError::OutOfTurn),
        },
        State::Committing { pending } => match event {
            Event::Exit { success, status } => {
                match check_exit("git commit --all", success, status.as_str()) {
                    Ok(()) => {
                        let command = make_tag(
                            pending.root.as_str(),
                            pending.version.as_str(),
                            pending.name.as_str(),
                        );
                        (State::Tagging, Action::Run { command })
                    },
                    Err(error) => fail(error),
                }
            },
            Event::Refused { detail } => fail(ReleaseError::Spawn { detail }),
            _ => fail(ReleaseError::OutOfTurn),
        },
        State::Tagging => match event {
            Event::Exit { success, status } => {
                match check_exit("git tag --sign", success, status.as_str()) {
                    Ok(()) => (State::Done, Action::Finish),
                    Err(error) => fail(error),
                }
            },
            Event::Refused { detail } => fail(ReleaseError::Spawn { detail }),
            _ => fail(ReleaseError::OutOfTurn),
        },
        State::Done => fail(ReleaseError::OutOfTurn),
        State::Failed => fail(ReleaseError::OutOfTurn),
    }
}

/// A final version is never released again: whatever else the manifest holds, the step
/// that reads it ends the run and asks for nothing to be written or run. Where the
/// manifest names its package, the error names the version.
pub proof fn final_version_is_refused(
    root: String,
    text: String,
    next: State,
    action: Action,
    doc: toml_edit::Document,
    version: VersionView,
)
    requires
        steps(State::Reading { root }, Event::Text { text }, next, action),
        toml_parse(text@) == Some(doc),
        version_of(doc) == Some(version),
        !version.is_prerelease(),
    ensures
        next is Failed,
        action is Fail,
        !action.has_effect(),
        package_name_of(doc) is Some ==> (action matches Action::Fail {
            error: ReleaseError::FinalVersion { version: shown },
        } && shown@ == version.text()),
{
}

/// Where the metadata command fails, the run ends there, whatever the command printed:
/// the manifest is not read, nothing is written and no other command is run.
pub proof fn failed_lookup_ends_the_run(
    status: String,
    stdout: Vec<u8>,
    next: State,
    action: Action,
)
    requires
        steps(State::Locating, Event::Output { success: false, status, stdout }, next, action),
    ensures
        next is Failed,
        command_failed("cargo metadata"@, status@, next, action),
        !(action is Read),
        !action.has_effect(),
{
}

/// The manifest is read only after the metadata command has succeeded and printed
/// UTF-8 that is JSON with a string member `workspace_root`, and it is read there.
pub proof fn manifest_is_read_at_the_reported_root(
    state: State,
    event: Event,
    next: State,
    action: Action,
)
    requires
        steps(state, event, next, action),
        action is Read,
    ensures
        state is Locating,
        event matches Event::Output { success, status, stdout } && success && valid_utf8(stdout@)
            && (json_parse(decode_utf8(stdout@)) matches Some(value) && json_strings(
            value,
        ).contains_key("workspace_root"@) && action->Read_dir@ == json_strings(
            value,
        )["workspace_root"@]),
{
}

/// A planned release reads as planned: after the step that rewrites the manifest, the
/// document that was written out holds the next minor release of the version that was
/// read, and the commit and the tag that follow are named after it.
pub proof fn written_manifest_holds_the_next_minor(
    root: String,
    text: String,
    next: State,
    action: Action,
)
    requires
        steps(State::Reading { root }, Event::Text { text }, next, action),
        action is Write,
    ensures
        toml_parse(text@) is Some,
        version_of(toml_parse(text@)->0) matches Some(current) && current.is_prerelease()
            && (exists|after: toml_edit::Document|
            {
                &&& action->text@ == #[trigger] document_text(after)
                &&& version_of(after) == Some(current.next_minor())
                &&& next matches State::Writing { pending }
                &&& pending.version@ == current.next_minor().text()
            }),
{
    let doc = toml_parse(text@)->0;
    let pending = next->Writing_pending;
    let (after, release) = choose|after: toml_edit::Document, release: Release| #[trigger]
        rewrites(doc, after, release, action->text@, pending);
    assert(plans(doc, after, Ok(release)));
    let current = version_of(doc)->0;
    assert(action->text@ == document_text(after));
    assert(version_of(after) == Some(current.next_minor()));
}

/// A run that has failed stays failed, and asks for nothing more.
pub proof fn failed_run_stays_failed(event: Event, next: State, action: Action)
    requires
        steps(State::Failed, event, next, action),
    ensures
        next is Failed,
        action is Fail,
        !action.has_effect(),
{
}

/// Nothing is written before the manifest has been read, and no command but the
/// metadata query is run before the manifest has been written.
pub proof fn effects_come_in_order(state: State, event: Event, next: State, action: Action)
    requires
        steps(state, event, next, action),
        action.has_effect(),
    ensures
        action is Write ==> state is Reading && next is Writing,
        action is Run ==> state is Writing || state is Locking || state is Committing,
{
}

} // verus!
