//! The launcher's plan: the arguments for the container runtime and the
//! handshake file to leave before the runtime starts.

use crate::env::{
    env_arg, env_arg_string, env_args, forwarded, forwarded_env_args, getenv_required_utf8, models,
    required, unforwardable, EnvVar, EnvVarModel,
};
use crate::error::{ErrorModel, ToolboxError};
use crate::entrypoint::handshake_path_of;
use crate::handshake::{
    decoding, decoding_inverts_encoding, encoding, statefile_name, statefile_name_of,
    HandshakeModel, HandshakeState,
};
use crate::host::{
    chosen_from, existing_paths, is_ostree_based_host, ostree_based, probed_paths, process_id,
    random_number, real_uid,
};
use crate::image::{cmd_podman, runtime_program_of, RuntimeProgram, RuntimeProgramModel};
use crate::mounts::{
    device_args, device_mount_args, host_args, host_mount_args, self_arg, self_arg_string,
};
use crate::text::texts;
use crate::uidmap::{mappable, mapping_of, uid_mapping};
use vstd::prelude::*;
use vstd::string::*;

verus! {

/// What a launch is asked to do and on whose behalf.
#[derive(Debug, Clone, PartialEq, Eq)]
pub struct LaunchConfig {
    /// The container image to run.
    pub image: String,
    /// The real UID of the invoking user.
    pub real_uid: u32,
    /// The host's runtime directory, where the handshake file is left.
    pub runtime_dir: String,
    /// The process id of the launcher.
    pub pid: i32,
}

/// Mathematical value of a [`LaunchConfig`].
pub struct LaunchConfigModel {
    pub image: Seq<char>,
    pub real_uid: u32,
    pub runtime_dir: Seq<char>,
    pub pid: i32,
}

impl View for LaunchConfig {
    type V = LaunchConfigModel;

    open spec fn view(&self) -> LaunchConfigModel {
        LaunchConfigModel {
            image: self.image@,
            real_uid: self.real_uid,
            runtime_dir: self.runtime_dir@,
            pid: self.pid,
        }
    }
}

/// What the launcher has found out about the host.
#[derive(Debug, Clone, PartialEq, Eq)]
pub struct Host {
    /// The path of the launcher's own executable.
    pub self_bin: String,
    /// The environment of the launcher.
    pub env: Vec<EnvVar>,
    /// The paths that exist on the host, as far as they were asked about.
    pub existing: Vec<String>,
}

/// Mathematical value of a [`Host`].
pub struct HostModel {
    pub self_bin: Seq<char>,
    pub env: Seq<EnvVarModel>,
    pub existing: Seq<Seq<char>>,
}

impl View for Host {
    type V = HostModel;

    open spec fn view(&self) -> HostModel {
        HostModel {
            self_bin: self.self_bin@,
            env: models(self.env@),
            existing: texts(self.existing@),
        }
    }
}

/// What the launcher does once the image is there: the file it writes, and
/// the arguments with which it hands over to the container runtime.
#[derive(Debug, Clone, PartialEq, Eq)]
pub struct LaunchPlan {
    /// The program to run as the container runtime.
    pub program: RuntimeProgram,
    /// The arguments of the container runtime.
    pub args: Vec<String>,
    /// Where the handshake file is written.
    pub statefile_path: String,
    /// The record that the handshake file carries.
    pub state: HandshakeState,
    /// The text of the handshake file.
    pub statefile_text: String,
}

/// Mathematical value of a [`LaunchPlan`].
pub struct LaunchPlanModel {
    pub program: RuntimeProgramModel,
    pub args: Seq<Seq<char>>,
    pub statefile_path: Seq<char>,
    pub state: HandshakeModel,
    pub statefile_text: Seq<char>,
}

impl View for LaunchPlan {
    type V = LaunchPlanModel;

    open spec fn view(&self) -> LaunchPlanModel {
        LaunchPlanModel {
            program: self.program@,
            args: texts(self.args@),
            statefile_path: self.statefile_path@,
            state: self.state@,
            statefile_text: self.statefile_text@,
        }
    }
}

/// The configuration of a launch in the given environment, which must name
/// the runtime directory.
pub open spec fn configured(image: Seq<char>, real_uid: u32, pid: i32, env: Seq<EnvVarModel>) -> Result<
    LaunchConfigModel,
    ErrorModel,
> {
    match required(env, "XDG_RUNTIME_DIR"@) {
        Ok(dir) => Ok(LaunchConfigModel { image, real_uid, runtime_dir: dir, pid }),
        Err(e) => Err(e),
    }
}

/// The options that every launch passes to the container runtime first.
pub open spec fn runtime_options() -> Seq<Seq<char>> {
    seq![
        "run"@,
        "--rm"@,
        "-ti"@,
        "--hostname"@,
        "toolbox"@,
        "--name"@,
        "coreos-toolbox"@,
        "--network"@,
        "host"@,
        "--privileged"@,
        "--security-opt"@,
        "label-disable"@,
    ]
}

/// The arguments of the container runtime for a launch whose handshake file
/// has the given name.
pub open spec fn launch_args(config: LaunchConfigModel, host: HostModel, statefile: Seq<char>) -> Seq<
    Seq<char>,
> {
    runtime_options() + seq![self_arg(host.self_bin)] + mapping_of(config.real_uid).args()
        + device_args(host.existing) + host_args(ostree_based(host.existing)) + env_args(
        forwarded(host.env),
    ) + seq![
        env_arg("TOOLBOX_STATEFILE"@, statefile),
        "--entrypoint=/toolbox.entrypoint"@,
        config.image,
    ]
}

/// The plan of a launch, or the error that stops it: a real UID that cannot
/// be mapped, then a preserved variable that is not text, then a missing or
/// unreadable `USER`.
pub open spec fn planned(config: LaunchConfigModel, host: HostModel, random: u32) -> Result<
    LaunchPlanModel,
    ErrorModel,
> {
    if !mappable(config.real_uid) {
        Err(ErrorModel::UidOutOfRange(config.real_uid))
    } else {
        match unforwardable(host.env) {
            Some(n) => Err(ErrorModel::InvalidEncoding(n)),
            None => match required(host.env, "USER"@) {
                Err(e) => Err(e),
                Ok(user) => {
                    let statefile = statefile_name_of(config.pid, random);
                    let state = HandshakeModel {
                        username: user,
                        uid: config.real_uid,
                        ostree_based_host: ostree_based(host.existing),
                    };
                    Ok(
                        LaunchPlanModel {
                            program: runtime_program_of(host.env),
                            args: launch_args(config, host, statefile),
                            statefile_path: config.runtime_dir + "/"@ + statefile,
                            state,
                            statefile_text: encoding(state),
                        },
                    )
                },
            },
        }
    }
}

impl LaunchConfig {
    /// The configuration of a launch of `image` by the user and process
    /// given, in the environment given.
    pub fn new(image: String, real_uid: u32, pid: i32, env: &Vec<EnvVar>) -> (r: Result<
        LaunchConfig,
        ToolboxError,
    >)
        ensures
            match configured(image@, real_uid, pid, models(env@)) {
                Ok(c) => r is Ok && r->Ok_0@ == c,
                Err(e) => r is Err && r->Err_0@ == e,
            },
    {
        let name = String::from_str("XDG_RUNTIME_DIR");
        match getenv_required_utf8(env, &name) {
            Ok(runtime_dir) => Ok(LaunchConfig { image, real_uid, runtime_dir, pid }),
            Err(e) => Err(e),
        }
    }

    /// The configuration of a launch of `image` by this process and its
    /// user, in the environment given. Which user and which process these
    /// are is for the system to say.
    pub fn for_this_process(image: String, env: &Vec<EnvVar>) -> (r: Result<
        LaunchConfig,
        ToolboxError,
    >)
        ensures
            exists|real_uid: u32, pid: i32|
                match #[trigger] configured(image@, real_uid, pid, models(env@)) {
                    Ok(c) => r is Ok && r->Ok_0@ == c,
                    Err(e) => r is Err && r->Err_0@ == e,
                },
    {
        let uid = real_uid();
        let pid = process_id();
        let r = LaunchConfig::new(image, uid, pid, env);
        assert(match configured(image@, uid, pid, models(env@)) {
            Ok(c) => r is Ok && r->Ok_0@ == c,
            Err(e) => r is Err && r->Err_0@ == e,
        });
        r
    }
}

impl Host {
    /// What is found out about this host now, beside what the caller
    /// brings: which of the probed paths exist. That is for the file system
    /// to say.
    pub fn observe(self_bin: String, env: Vec<EnvVar>) -> (host: Host)
        ensures
            host@.self_bin == self_bin@,
            host@.env == models(env@),
            chosen_from(host@.existing, probed_paths(), probed_paths().len() as int),
    {
        Host { self_bin, env, existing: existing_paths() }
    }
}

/// The options that every launch passes to the container runtime first.
pub fn runtime_option_strings() -> (args: Vec<String>)
    ensures
        texts(args@) == runtime_options(),
{
    let mut args: Vec<String> = Vec::new();
    args.push(String::from_str("run"));
    args.push(String::from_str("--rm"));
    args.push(String::from_str("-ti"));
    args.push(String::from_str("--hostname"));
    args.push(String::from_str("toolbox"));
    args.push(String::from_str("--name"));
    args.push(String::from_str("coreos-toolbox"));
    args.push(String::from_str("--network"));
    args.push(String::from_str("host"));
    args.push(String::from_str("--privileged"));
    args.push(String::from_str("--security-opt"));
    args.push(String::from_str("label-disable"));
    assert(texts(args@) =~= runtime_options());
    args
}

/// Plans a launch: maps the real UID, chooses the mounts, forwards the
/// preserved variables, names the handshake file after the launcher's
/// process id and `random`, and fills the handshake record.
pub fn launch_plan(config: &LaunchConfig, host: &Host, random: u32) -> (r: Result<
    LaunchPlan,
    ToolboxError,
>)
    ensures
        match planned(config@, host@, random) {
            Ok(p) => r is Ok && r->Ok_0@ == p,
            Err(e) => r is Err && r->Err_0@ == e,
        },
{
    let mapping = match uid_mapping(config.real_uid) {
        Ok(m) => m,
        Err(e) => {
            return Err(e);
        },
    };
    let mut forwarded_args = match forwarded_env_args(&host.env) {
        Ok(a) => a,
        Err(e) => {
            return Err(e);
        },
    };
    let user_name = String::from_str("USER");
    let username = match getenv_required_utf8(&host.env, &user_name) {
        Ok(u) => u,
        Err(e) => {
            return Err(e);
        },
    };
    let statefile = statefile_name(config.pid, random);

    let mut args = runtime_option_strings();
    args.push(self_arg_string(host.self_bin.as_str()));
    let mut uid_args = mapping.to_args();
    args.append(&mut uid_args);
    let ostree_based_host = is_ostree_based_host(&host.existing);
    let mut device_args = device_mount_args(&host.existing);
    args.append(&mut device_args);
    let mut host_args = host_mount_args(ostree_based_host);
    args.append(&mut host_args);
    args.append(&mut forwarded_args);
    let statefile_key = String::from_str("TOOLBOX_STATEFILE");
    args.push(env_arg_string(&statefile_key, &statefile));
    args.push(String::from_str("--entrypoint=/toolbox.entrypoint"));
    args.push(config.image.clone());
    assert(texts(args@) =~= launch_args(config@, host@, statefile@));

    let mut statefile_path = config.runtime_dir.clone();
    statefile_path.append("/");
    statefile_path.append(statefile.as_str());
    let state = HandshakeState { username, uid: config.real_uid, ostree_based_host };
    let statefile_text = state.encode();
    let program = cmd_podman(&host.env);
    Ok(LaunchPlan { program, args, statefile_path, state, statefile_text })
}

/// Plans a launch as [`launch_plan`] does, with a random number drawn from
/// the operating system now. Where the operating system gives none, the
/// launch fails.
pub fn run(config: &LaunchConfig, host: &Host) -> (r: Result<LaunchPlan, ToolboxError>)
    ensures
        (r is Err && r->Err_0@ == ErrorModel::LaunchFailed) || (exists|random: u32|
            match #[trigger] planned(config@, host@, random) {
                Ok(p) => r is Ok && r->Ok_0@ == p,
                Err(e) => r is Err && r->Err_0@ == e,
            }),
{
    match random_number() {
        None => Err(ToolboxError::LaunchFailed),
        Some(random) => {
            let r = launch_plan(config, host, random);
            assert(match planned(config@, host@, random) {
                Ok(p) => r is Ok && r->Ok_0@ == p,
                Err(e) => r is Err && r->Err_0@ == e,
            });
            r
        },
    }
}

/// The entrypoint finds what the launcher left: the record read back from
/// the text of the handshake file is the record of the plan, and where the
/// runtime directory is an absolute path, the entrypoint looks for the file
/// at the path where the launcher wrote it, below `/host`.
pub proof fn handshake_reaches_entrypoint(config: LaunchConfigModel, host: HostModel, random: u32)
    requires
        planned(config, host, random) is Ok,
    ensures
        ({
            let plan = planned(config, host, random)->Ok_0;
            let statefile = statefile_name_of(config.pid, random);
            &&& decoding(plan.statefile_text) == Some(plan.state)
            &&& plan.state.uid == config.real_uid
            &&& plan.state.ostree_based_host == ostree_based(host.existing)
            &&& required(host.env, "USER"@) == Ok::<Seq<char>, ErrorModel>(plan.state.username)
            &&& ((config.runtime_dir.len() > 0 && config.runtime_dir[0] == '/')
                ==> handshake_path_of(config.runtime_dir, statefile) == "/host"@
                + plan.statefile_path)
        }),
{
    let plan = planned(config, host, random)->Ok_0;
    let statefile = statefile_name_of(config.pid, random);
    decoding_inverts_encoding(plan.state);
    if config.runtime_dir.len() > 0 && config.runtime_dir[0] == '/' {
        assert("/host"@ + config.runtime_dir + "/"@ + statefile =~= "/host"@ + (config.runtime_dir
            + "/"@ + statefile));
    }
}

} // verus!
