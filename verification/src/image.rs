//! Making sure that the container image is in local storage before a launch.
//!
//! The runtime is asked whether it has the image; where it has not, it is
//! asked to pull it. The caller runs the runtime and reports how each run
//! ended; what to do next is decided here.

use crate::env::{lookup, lookup_env, models, EnvValue, EnvVar, EnvVarModel, Lookup};
use crate::error::{ErrorModel, ToolboxError};
use crate::text::texts;
use vstd::prelude::*;
use vstd::string::*;

verus! {

/// What the runtime is asked to inspect.
#[derive(Debug, Clone, Copy, PartialEq, Eq, Structural)]
pub enum InspectType {
    Container,
    Image,
}

/// How far the search for the image has come.
#[derive(Debug, Clone, Copy, PartialEq, Eq, Structural)]
pub enum ImageState {
    /// Nothing has been asked yet.
    Start,
    /// The runtime is asked whether it has the image.
    Inspecting,
    /// The runtime is asked to pull the image.
    Pulling,
    /// The image is there, or the search has failed.
    Done,
}

/// How a run of the runtime ended.
#[derive(Debug, Clone, Copy, PartialEq, Eq, Structural)]
pub enum Exit {
    /// It ended with status zero.
    Succeeded,
    /// It ended with another status.
    Failed,
    /// It could not be started.
    NotStarted,
}

/// What the caller is to do next.
#[derive(Debug, Clone, PartialEq, Eq)]
pub enum ImageAction {
    /// Run the runtime with these arguments, without output, and report the exit.
    Inspect(Vec<String>),
    /// Run the runtime with these arguments and report the exit.
    Pull(Vec<String>),
    /// Go on with the launch: the image is there.
    Proceed,
    /// Give up with this error.
    Stop(ToolboxError),
    /// Nothing: the search had ended before.
    Nothing,
}

/// Mathematical value of an [`ImageAction`].
pub enum ImageActionModel {
    Inspect(Seq<Seq<char>>),
    Pull(Seq<Seq<char>>),
    Proceed,
    Stop(ErrorModel),
    Nothing,
}

impl View for ImageAction {
    type V = ImageActionModel;

    open spec fn view(&self) -> ImageActionModel {
        match self {
            ImageAction::Inspect(a) => ImageActionModel::Inspect(texts(a@)),
            ImageAction::Pull(a) => ImageActionModel::Pull(texts(a@)),
            ImageAction::Proceed => ImageActionModel::Proceed,
            ImageAction::Stop(e) => ImageActionModel::Stop(e@),
            ImageAction::Nothing => ImageActionModel::Nothing,
        }
    }
}

/// The program that is run as the container runtime.
#[derive(Debug, Clone, PartialEq, Eq)]
pub enum RuntimeProgram {
    /// The program of this name.
    Named(String),
    /// What the variable `podman` holds, which is not text: the caller takes
    /// it from the environment as it is.
    AsSet,
}

/// Mathematical value of a [`RuntimeProgram`].
pub enum RuntimeProgramModel {
    Named(Seq<char>),
    AsSet,
}

impl View for RuntimeProgram {
    type V = RuntimeProgramModel;

    open spec fn view(&self) -> RuntimeProgramModel {
        match self {
            RuntimeProgram::Named(n) => RuntimeProgramModel::Named(n@),
            RuntimeProgram::AsSet => RuntimeProgramModel::AsSet,
        }
    }
}

/// The image that is launched where none is asked for.
pub open spec fn default_image_name() -> Seq<char> {
    "registry.fedoraproject.org/f30/fedora-toolbox:30"@
}

/// The program that is run as the container runtime: what the variable
/// `podman` holds where it is set, and `podman` where it is not.
pub open spec fn runtime_program_of(env: Seq<EnvVarModel>) -> RuntimeProgramModel {
    match lookup(env, "podman"@) {
        Lookup::Unset => RuntimeProgramModel::Named("podman"@),
        Lookup::Text(v) => RuntimeProgramModel::Named(v),
        Lookup::NotText => RuntimeProgramModel::AsSet,
    }
}

/// The word by which the runtime knows a kind of object.
pub open spec fn inspect_word(t: InspectType) -> Seq<char> {
    match t {
        InspectType::Container => "container"@,
        InspectType::Image => "image"@,
    }
}

/// The arguments that ask the runtime whether it has an object.
pub open spec fn inspect_args_of(t: InspectType, name: Seq<char>) -> Seq<Seq<char>> {
    seq!["inspect"@, "--type"@, inspect_word(t), name]
}

/// The arguments that ask the runtime to pull an image.
pub open spec fn pull_args_of(name: Seq<char>) -> Seq<Seq<char>> {
    seq!["pull"@, name]
}

/// The next state and the next action of the search for the image `name`,
/// in a state and after a run that ended as given. In the first state no run
/// has been made, and how one ended is not looked at.
pub open spec fn image_next(state: ImageState, exit: Exit, name: Seq<char>) -> (
    ImageState,
    ImageActionModel,
) {
    match state {
        ImageState::Start => (
            ImageState::Inspecting,
            ImageActionModel::Inspect(inspect_args_of(InspectType::Image, name)),
        ),
        ImageState::Inspecting => match exit {
            Exit::Succeeded => (ImageState::Done, ImageActionModel::Proceed),
            Exit::Failed => (ImageState::Pulling, ImageActionModel::Pull(pull_args_of(name))),
            Exit::NotStarted => (
                ImageState::Done,
                ImageActionModel::Stop(ErrorModel::LaunchFailed),
            ),
        },
        ImageState::Pulling => match exit {
            Exit::Succeeded => (ImageState::Done, ImageActionModel::Proceed),
            Exit::Failed => (ImageState::Done, ImageActionModel::Stop(ErrorModel::ImagePullError)),
            Exit::NotStarted => (
                ImageState::Done,
                ImageActionModel::Stop(ErrorModel::LaunchFailed),
            ),
        },
        ImageState::Done => (ImageState::Done, ImageActionModel::Nothing),
    }
}

/// The image that is launched where none is asked for.
pub fn default_image() -> (name: String)
    ensures
        name@ == default_image_name(),
{
    String::from_str("registry.fedoraproject.org/f30/fedora-toolbox:30")
}

/// The program to run as the container runtime in the given environment.
pub fn cmd_podman(env: &Vec<EnvVar>) -> (program: RuntimeProgram)
    ensures
        program@ == runtime_program_of(models(env@)),
{
    let name = String::from_str("podman");
    match lookup_env(env, &name) {
        EnvValue::Unset => RuntimeProgram::Named(name),
        EnvValue::Text(v) => RuntimeProgram::Named(v),
        EnvValue::NotText => RuntimeProgram::AsSet,
    }
}

/// The arguments that ask the runtime whether it has the object `name`.
pub fn inspect_args(t: InspectType, name: &str) -> (args: Vec<String>)
    ensures
        texts(args@) == inspect_args_of(t, name@),
{
    let mut args: Vec<String> = Vec::new();
    args.push(String::from_str("inspect"));
    args.push(String::from_str("--type"));
    args.push(
        match t {
            InspectType::Container => String::from_str("container"),
            InspectType::Image => String::from_str("image"),
        },
    );
    args.push(String::from_str(name));
    assert(texts(args@) =~= inspect_args_of(t, name@));
    args
}

/// The arguments that ask the runtime to pull the image `name`.
pub fn pull_args(name: &str) -> (args: Vec<String>)
    ensures
        texts(args@) == pull_args_of(name@),
{
    let mut args: Vec<String> = Vec::new();
    args.push(String::from_str("pull"));
    args.push(String::from_str(name));
    assert(texts(args@) =~= pull_args_of(name@));
    args
}

/// Whether the runtime has an object, as the exit of its inspection tells:
/// it has it if the inspection succeeded, it has not if the inspection
/// failed, and an inspection that could not be started is an error.
pub fn podman_has(exit: Exit) -> (r: Result<bool, ToolboxError>)
    ensures
        exit == Exit::Succeeded ==> r == Ok::<bool, ToolboxError>(true),
        exit == Exit::Failed ==> r == Ok::<bool, ToolboxError>(false),
        exit == Exit::NotStarted ==> r is Err && r->Err_0@ == ErrorModel::LaunchFailed,
{
    match exit {
        Exit::Succeeded => Ok(true),
        Exit::Failed => Ok(false),
        Exit::NotStarted => Err(ToolboxError::LaunchFailed),
    }
}

/// One step of the search for the image `name`: pulls it if the runtime has
/// it not, and fails if the pull fails.
pub fn ensure_image(state: ImageState, exit: Exit, name: &str) -> (r: (ImageState, ImageAction))
    ensures
        r.0 == image_next(state, exit, name@).0,
        r.1@ == image_next(state, exit, name@).1,
{
    match state {
        ImageState::Start => (
            ImageState::Inspecting,
            ImageAction::Inspect(inspect_args(InspectType::Image, name)),
        ),
        ImageState::Inspecting => match podman_has(exit) {
            Ok(true) => (ImageState::Done, ImageAction::Proceed),
            Ok(false) => (ImageState::Pulling, ImageAction::Pull(pull_args(name))),
            Err(e) => (ImageState::Done, ImageAction::Stop(e)),
        },
        ImageState::Pulling => match exit {
            Exit::Succeeded => (ImageState::Done, ImageAction::Proceed),
            Exit::Failed => (ImageState::Done, ImageAction::Stop(ToolboxError::ImagePullError)),
            Exit::NotStarted => (ImageState::Done, ImageAction::Stop(ToolboxError::LaunchFailed)),
        },
        ImageState::Done => (ImageState::Done, ImageAction::Nothing),
    }
}

/// A search that has begun ends with the next exit or the one after it. It
/// goes on with the launch exactly if the inspection succeeded or, after a
/// failed inspection, the pull did; it fails on the pull exactly if both the
/// inspection and the pull failed.
pub proof fn image_search_ends(first: Exit, second: Exit, name: Seq<char>)
    ensures
        ({
            let after_first = image_next(ImageState::Inspecting, first, name);
            let after_second = image_next(after_first.0, second, name);
            let pulled = after_first.0 == ImageState::Pulling;
            &&& after_first.0 == ImageState::Done || after_second.0 == ImageState::Done
            &&& ((after_first.1 == ImageActionModel::Proceed) <==> first == Exit::Succeeded)
            &&& ((pulled && after_second.1 == ImageActionModel::Proceed) <==> (first
                == Exit::Failed && second == Exit::Succeeded))
            &&& ((pulled && after_second.1 == ImageActionModel::Stop(ErrorModel::ImagePullError))
                <==> (first == Exit::Failed && second == Exit::Failed))
        }),
{
}

} // verus!
