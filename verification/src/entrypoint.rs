//! The entrypoint: what the launcher's own binary does inside the container.
//!
//! It finds the handshake file, creates the user that the file names, and
//! hands over to the user's shell. The caller reads the file, runs the
//! user-management tool and replaces the process; what to do next is decided
//! here.

use crate::env::{
    getenv_required_utf8, lookup, lookup_env, models, required, EnvValue, EnvVar, EnvVarModel,
    Lookup,
};
use crate::error::{ErrorModel, ToolboxError};
use crate::handshake::{decode, decoding, HandshakeModel};
use crate::text::{chars_of, decimal, decimal_string, has_suffix, matches_at, texts};
use vstd::prelude::*;
use vstd::string::*;

verus! {

/// The role that a process plays.
#[derive(Debug, Clone, Copy, PartialEq, Eq, Structural)]
pub enum Mode {
    /// On the host: start the container.
    Launcher,
    /// In the container: create the user and start the shell.
    Entrypoint,
}

/// The role of a process invoked under the name `argv0`: the entrypoint
/// where the name ends in `.entrypoint` or the subcommand asks for it, and
/// the launcher otherwise.
pub open spec fn mode_of(argv0: Seq<char>, subcommand: bool) -> Mode {
    if subcommand || has_suffix(argv0, ".entrypoint"@) {
        Mode::Entrypoint
    } else {
        Mode::Launcher
    }
}

/// Whether a process invoked under the name `argv0` is the entrypoint
/// whatever its arguments are.
pub fn invoked_as_entrypoint(argv0: &str) -> (b: bool)
    ensures
        b == has_suffix(argv0@, ".entrypoint"@),
{
    let name = chars_of(argv0);
    let suffix = chars_of(".entrypoint");
    if suffix.len() > name.len() {
        return false;
    }
    matches_at(&name, name.len() - suffix.len(), &suffix)
}

/// Chooses the role of a process from the name it was invoked under and from
/// whether its arguments hold the subcommand `entrypoint`.
pub fn select_mode(argv0: &str, subcommand: bool) -> (mode: Mode)
    ensures
        mode == mode_of(argv0@, subcommand),
{
    if subcommand || invoked_as_entrypoint(argv0) {
        Mode::Entrypoint
    } else {
        Mode::Launcher
    }
}

/// Where the container sees the handshake file: below `/host`, in the
/// host's runtime directory.
pub open spec fn handshake_path_of(runtime_dir: Seq<char>, statefile: Seq<char>) -> Seq<char> {
    if runtime_dir.len() > 0 && runtime_dir[0] == '/' {
        "/host"@ + runtime_dir + "/"@ + statefile
    } else {
        "/host/"@ + runtime_dir + "/"@ + statefile
    }
}

/// The path of the handshake file in the environment of the entrypoint, or
/// the error owed for the first of `TOOLBOX_STATEFILE` and `XDG_RUNTIME_DIR`
/// that is not there.
pub open spec fn handshake_located(env: Seq<EnvVarModel>) -> Result<Seq<char>, ErrorModel> {
    match required(env, "TOOLBOX_STATEFILE"@) {
        Err(e) => Err(e),
        Ok(statefile) => match required(env, "XDG_RUNTIME_DIR"@) {
            Err(e) => Err(e),
            Ok(runtime_dir) => Ok(handshake_path_of(runtime_dir, statefile)),
        },
    }
}

/// The arguments of the user-management tool that create the user of a
/// handshake record: without a home directory, in the group `wheel`.
pub open spec fn useradd_args_of(state: HandshakeModel) -> Seq<Seq<char>> {
    seq![
        "--no-create-home"@,
        "--uid"@,
        decimal(state.uid as nat),
        "--groups"@,
        "wheel"@,
        state.username,
    ]
}

/// The shell to start: what `SHELL` holds where it holds text, and `sh` otherwise.
pub open spec fn shell_of(env: Seq<EnvVarModel>) -> Seq<char> {
    match lookup(env, "SHELL"@) {
        Lookup::Text(v) => v,
        _ => "sh"@,
    }
}

/// Builds the path at which the container sees the handshake file.
pub fn handshake_path(runtime_dir: &str, statefile: &str) -> (path: String)
    ensures
        path@ == handshake_path_of(runtime_dir@, statefile@),
{
    let dir = chars_of(runtime_dir);
    let mut path = if dir.len() > 0 && dir[0] == '/' {
        String::from_str("/host")
    } else {
        String::from_str("/host/")
    };
    path.append(runtime_dir);
    path.append("/");
    path.append(statefile);
    path
}

/// Finds the handshake file from the environment of the entrypoint.
pub fn locate_handshake(env: &Vec<EnvVar>) -> (r: Result<String, ToolboxError>)
    ensures
        match handshake_located(models(env@)) {
            Ok(path) => r is Ok && r->Ok_0@ == path,
            Err(e) => r is Err && r->Err_0@ == e,
        },
{
    let statefile_key = String::from_str("TOOLBOX_STATEFILE");
    let statefile = match getenv_required_utf8(env, &statefile_key) {
        Ok(v) => v,
        Err(e) => {
            return Err(e);
        },
    };
    let runtime_key = String::from_str("XDG_RUNTIME_DIR");
    let runtime_dir = match getenv_required_utf8(env, &runtime_key) {
        Ok(v) => v,
        Err(e) => {
            return Err(e);
        },
    };
    Ok(handshake_path(runtime_dir.as_str(), statefile.as_str()))
}

/// The arguments with which the user-management tool creates the user `name`
/// with the id `uid`.
pub fn adduser(name: &str, uid: u32) -> (args: Vec<String>)
    ensures
        texts(args@) == useradd_args_of(
            HandshakeModel { username: name@, uid, ostree_based_host: false },
        ),
{
    let mut args: Vec<String> = Vec::new();
    args.push(String::from_str("--no-create-home"));
    args.push(String::from_str("--uid"));
    args.push(decimal_string(uid));
    args.push(String::from_str("--groups"));
    args.push(String::from_str("wheel"));
    args.push(String::from_str(name));
    assert(texts(args@) =~= useradd_args_of(
        HandshakeModel { username: name@, uid, ostree_based_host: false },
    ));
    args
}

/// The shell to start in the given environment.
pub fn resolve_shell(env: &Vec<EnvVar>) -> (shell: String)
    ensures
        shell@ == shell_of(models(env@)),
{
    let key = String::from_str("SHELL");
    match lookup_env(env, &key) {
        EnvValue::Text(v) => v,
        _ => String::from_str("sh"),
    }
}

/// How far the entrypoint has come.
#[derive(Debug, Clone, Copy, PartialEq, Eq, Structural)]
pub enum EntryState {
    /// Nothing has been done yet.
    Start,
    /// The handshake file is being read.
    Reading,
    /// The user is being created.
    AddingUser,
    /// The process is being replaced with the chosen shell.
    StartingShell,
    /// The process is being replaced with the basic shell.
    StartingBasicShell,
    /// The entrypoint has failed.
    Done,
}

/// What the caller reports of the action it was given.
#[derive(Debug, Clone, PartialEq, Eq)]
pub enum EntryEvent {
    /// The file was read and holds this text.
    Read(String),
    /// The tool ended with status zero.
    Succeeded,
    /// The file could not be read, the tool did not end with status zero, or
    /// the process could not be replaced.
    Failed,
}

/// Mathematical value of an [`EntryEvent`].
pub enum EntryEventModel {
    Read(Seq<char>),
    Succeeded,
    Failed,
}

impl View for EntryEvent {
    type V = EntryEventModel;

    open spec fn view(&self) -> EntryEventModel {
        match self {
            EntryEvent::Read(t) => EntryEventModel::Read(t@),
            EntryEvent::Succeeded => EntryEventModel::Succeeded,
            EntryEvent::Failed => EntryEventModel::Failed,
        }
    }
}

/// What the caller is to do next.
#[derive(Debug, Clone, PartialEq, Eq)]
pub enum EntryAction {
    /// Read the file at this path and report its text.
    ReadFile(String),
    /// Run this program, the user-management tool, with these arguments and
    /// report how it ended.
    AddUser { program: String, args: Vec<String> },
    /// Replace the process with this program; report if that fails.
    Exec(String),
    /// Give up with this error.
    Stop(ToolboxError),
    /// Nothing: the entrypoint had ended before.
    Nothing,
}

/// Mathematical value of an [`EntryAction`].
pub enum EntryActionModel {
    ReadFile(Seq<char>),
    AddUser { program: Seq<char>, args: Seq<Seq<char>> },
    Exec(Seq<char>),
    Stop(ErrorModel),
    Nothing,
}

impl View for EntryAction {
    type V = EntryActionModel;

    open spec fn view(&self) -> EntryActionModel {
        match self {
            EntryAction::ReadFile(p) => EntryActionModel::ReadFile(p@),
            EntryAction::AddUser { program, args } => EntryActionModel::AddUser {
                program: program@,
                args: texts(args@),
            },
            EntryAction::Exec(p) => EntryActionModel::Exec(p@),
            EntryAction::Stop(e) => EntryActionModel::Stop(e@),
            EntryAction::Nothing => EntryActionModel::Nothing,
        }
    }
}

/// The next state and the next action of the entrypoint, in a state and
/// after an event. In the first state nothing has been done, and the event
/// is not looked at.
pub open spec fn entry_next(state: EntryState, event: EntryEventModel, env: Seq<EnvVarModel>) -> (
    EntryState,
    EntryActionModel,
) {
    match state {
        EntryState::Start => match handshake_located(env) {
            Ok(path) => (EntryState::Reading, EntryActionModel::ReadFile(path)),
            Err(e) => (EntryState::Done, EntryActionModel::Stop(e)),
        },
        EntryState::Reading => match event {
            EntryEventModel::Read(text) => match decoding(text) {
                Some(state) => (
                    EntryState::AddingUser,
                    EntryActionModel::AddUser {
                        program: "useradd"@,
                        args: useradd_args_of(state),
                    },
                ),
                None => (
                    EntryState::Done,
                    EntryActionModel::Stop(ErrorModel::HandshakeParseError),
                ),
            },
            _ => (EntryState::Done, EntryActionModel::Stop(ErrorModel::HandshakeReadError)),
        },
        EntryState::AddingUser => match event {
            EntryEventModel::Succeeded => (
                EntryState::StartingShell,
                EntryActionModel::Exec(shell_of(env)),
            ),
            _ => (EntryState::Done, EntryActionModel::Stop(ErrorModel::UserCreationError)),
        },
        EntryState::StartingShell => (
            EntryState::StartingBasicShell,
            EntryActionModel::Exec("sh"@),
        ),
        EntryState::StartingBasicShell => (
            EntryState::Done,
            EntryActionModel::Stop(ErrorModel::ShellExecFailed),
        ),
        EntryState::Done => (EntryState::Done, EntryActionModel::Nothing),
    }
}

/// One step of the entrypoint.
pub fn entrypoint(state: EntryState, event: &EntryEvent, env: &Vec<EnvVar>) -> (r: (
    EntryState,
    EntryAction,
))
    ensures
        r.0 == entry_next(state, event@, models(env@)).0,
        r.1@ == entry_next(state, event@, models(env@)).1,
{
    match state {
        EntryState::Start => match locate_handshake(env) {
            Ok(path) => (EntryState::Reading, EntryAction::ReadFile(path)),
            Err(e) => (EntryState::Done, EntryAction::Stop(e)),
        },
        EntryState::Reading => match event {
            EntryEvent::Read(text) => match decode(text.as_str()) {
                Ok(found) => {
                    let args = adduser(found.username.as_str(), found.uid);
                    assert(texts(args@) =~= useradd_args_of(found@));
                    (
                        EntryState::AddingUser,
                        EntryAction::AddUser { program: String::from_str("useradd"), args },
                    )
                },
                Err(e) => (EntryState::Done, EntryAction::Stop(e)),
            },
            _ => (EntryState::Done, EntryAction::Stop(ToolboxError::HandshakeReadError)),
        },
        EntryState::AddingUser => match event {
            EntryEvent::Succeeded => (
                EntryState::StartingShell,
                EntryAction::Exec(resolve_shell(env)),
            ),
            _ => (EntryState::Done, EntryAction::Stop(ToolboxError::UserCreationError)),
        },
        EntryState::StartingShell => (
            EntryState::StartingBasicShell,
            EntryAction::Exec(String::from_str("sh")),
        ),
        EntryState::StartingBasicShell => (
            EntryState::Done,
            EntryAction::Stop(ToolboxError::ShellExecFailed),
        ),
        EntryState::Done => (EntryState::Done, EntryAction::Nothing),
    }
}

} // verus!
