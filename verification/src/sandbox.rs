//! The host's side of a build: what the sandbox is granted, and the order in
//! which engine, sandbox and snapshot are made.
//!
//! The sandbox engine and the snapshot tool are driven from outside. The
//! build decides what is asked of them next and what the caller receives.

use vstd::prelude::*;
use vstd::slice::slice_to_vec;
use vstd::string::*;
use vstd::utf8::encode_utf8;

verus! {

/// The name under which the guest finds the path of its preload directory.
pub const PRELOAD_PATH_VARIABLE: &'static str = "RUVY_PRELOAD_PATH";

/// What the guest may do with a mounted directory or the files in it.
#[derive(Debug, Clone, Copy, PartialEq, Eq, Structural)]
pub enum Permissions {
    /// Reading only.
    Read,
    /// Reading and writing.
    ReadWrite,
}

/// One named value in the guest's environment.
#[derive(Debug, PartialEq, Eq)]
pub struct Variable {
    pub name: String,
    pub value: String,
}

/// One directory of the host, mounted into the guest.
#[derive(Debug, PartialEq, Eq)]
pub struct Mount {
    /// The directory on the host.
    pub host: String,
    /// The path under which the guest sees it.
    pub guest: String,
    /// What the guest may do with the directory.
    pub directory: Permissions,
    /// What the guest may do with the files in it.
    pub files: Permissions,
}

/// Everything that a sandbox is granted.
#[derive(Debug, PartialEq, Eq)]
pub struct SandboxConfig {
    /// The bytes that the guest reads from its standard input.
    pub stdin: Vec<u8>,
    /// Whether the guest writes to the host's standard output.
    pub inherit_stdout: bool,
    /// Whether the guest writes to the host's standard error.
    pub inherit_stderr: bool,
    /// The guest's environment.
    pub env: Vec<Variable>,
    /// The directories mounted into the guest.
    pub mounts: Vec<Mount>,
}

/// What a build grants its sandbox: the script on standard input, the
/// host's standard output and error, and, if and only if a preload directory
/// is asked for, that directory mounted for reading under its own path, with
/// that path in the environment.
pub open spec fn grants(config: SandboxConfig, script: Seq<char>, preload: Option<String>) -> bool {
    &&& config.stdin@ == encode_utf8(script)
    &&& config.inherit_stdout
    &&& config.inherit_stderr
    &&& match preload {
        None => config.env@.len() == 0 && config.mounts@.len() == 0,
        Some(path) => {
            &&& config.env@.len() == 1
            &&& config.env@[0].name@ == PRELOAD_PATH_VARIABLE@
            &&& config.env@[0].value == path
            &&& config.mounts@ == seq![
                (Mount {
                    host: path,
                    guest: path,
                    directory: Permissions::Read,
                    files: Permissions::Read,
                }),
            ]
        },
    }
}

/// The sandbox configuration for a build of `ruby_code`.
pub fn wasi(ruby_code: &str, preload_path: Option<String>) -> (config: SandboxConfig)
    ensures
        grants(config, ruby_code@, preload_path),
{
    let stdin = slice_to_vec(ruby_code.as_bytes());
    let mut env: Vec<Variable> = Vec::new();
    let mut mounts: Vec<Mount> = Vec::new();
    match preload_path {
        Some(path) => {
            env.push(Variable { name: String::from_str(PRELOAD_PATH_VARIABLE), value: path.clone() });
            let guest = path.clone();
            mounts.push(
                Mount { host: path, guest, directory: Permissions::Read, files: Permissions::Read },
            );
        },
        None => {},
    }
    SandboxConfig { stdin, inherit_stdout: true, inherit_stderr: true, env, mounts }
}

/// Why a build yielded no module.
#[derive(Debug, PartialEq, Eq)]
pub enum BuildError {
    /// The sandbox engine could not be set up.
    Engine(String),
    /// The sandbox could not be given what it is granted.
    Context(String),
    /// The guest could not be instantiated or initialized, or its state
    /// could not be serialized.
    Snapshot(String),
    /// The build was driven against its protocol.
    OutOfTurn,
}

/// What a failed build says of itself.
pub open spec fn build_error_text(e: BuildError) -> Seq<char> {
    match e {
        BuildError::Engine(cause) => cause@,
        BuildError::Context(cause) => cause@,
        BuildError::Snapshot(cause) => cause@,
        BuildError::OutOfTurn => "build driven out of turn"@,
    }
}

impl BuildError {
    /// The failure as text.
    pub fn message(&self) -> (text: String)
        ensures
            text@ == build_error_text(*self),
    {
        match self {
            BuildError::Engine(cause) => cause.clone(),
            BuildError::Context(cause) => cause.clone(),
            BuildError::Snapshot(cause) => cause.clone(),
            BuildError::OutOfTurn => String::from_str("build driven out of turn"),
        }
    }
}

/// What a build is waiting for.
#[derive(Debug, Clone, Copy, PartialEq, Eq, Structural)]
pub enum BuildPhase {
    /// The sandbox engine is being set up.
    CreatingEngine,
    /// The sandbox is being given what it is granted.
    BuildingContext,
    /// The guest is being instantiated, initialized and serialized.
    Snapshotting,
    /// The build has ended, well or badly.
    Finished,
}

/// What the driver reports back.
#[derive(Debug, PartialEq, Eq)]
pub enum BuildEvent {
    /// The engine was set up, or why it was not.
    EngineCreated(Result<(), String>),
    /// The sandbox has what it is granted, or why it has not.
    ContextBuilt(Result<(), String>),
    /// The bytes of the new module, or why there are none.
    Snapshot(Result<Vec<u8>, String>),
}

/// What the driver is asked to do next.
#[derive(Debug, PartialEq, Eq)]
pub enum BuildAction {
    /// Set up the sandbox engine.
    CreateEngine { async_support: bool },
    /// Make the one sandbox of this build, granting it this.
    BuildContext(SandboxConfig),
    /// Instantiate the guest in the sandbox, invoke its initialize hook,
    /// and serialize its state into a new module.
    Wizen,
    /// Stop: the build has this outcome.
    Finish(Result<Vec<u8>, BuildError>),
}

/// One build.
#[derive(Debug, PartialEq, Eq)]
pub struct Build {
    /// What the build is waiting for.
    pub phase: BuildPhase,
    /// What the sandbox will be granted, until it has been handed out.
    pub config: Option<SandboxConfig>,
}

/// The build ended with `outcome`.
pub open spec fn build_ended(outcome: Result<Vec<u8>, BuildError>) -> (Build, BuildAction) {
    (Build { phase: BuildPhase::Finished, config: None }, BuildAction::Finish(outcome))
}

/// The build's rule. The engine is set up, then the sandbox, then the
/// snapshot is taken, each only after the one before succeeded. The first
/// failure ends the build with that failure, and bytes are handed to the
/// caller only as they come from a snapshot that succeeded. A report that
/// does not answer the last action ends the build with `OutOfTurn`.
pub open spec fn build_next(b: Build, event: BuildEvent) -> (Build, BuildAction) {
    match (b.phase, event, b.config) {
        (BuildPhase::CreatingEngine, BuildEvent::EngineCreated(Ok(_)), Some(config)) => (
            Build { phase: BuildPhase::BuildingContext, config: None },
            BuildAction::BuildContext(config),
        ),
        (BuildPhase::CreatingEngine, BuildEvent::EngineCreated(Err(cause)), _) => build_ended(
            Err(BuildError::Engine(cause)),
        ),
        (BuildPhase::BuildingContext, BuildEvent::ContextBuilt(Ok(_)), _) => (
            Build { phase: BuildPhase::Snapshotting, config: None },
            BuildAction::Wizen,
        ),
        (BuildPhase::BuildingContext, BuildEvent::ContextBuilt(Err(cause)), _) => build_ended(
            Err(BuildError::Context(cause)),
        ),
        (BuildPhase::Snapshotting, BuildEvent::Snapshot(Ok(module)), _) => build_ended(Ok(module)),
        (BuildPhase::Snapshotting, BuildEvent::Snapshot(Err(cause)), _) => build_ended(
            Err(BuildError::Snapshot(cause)),
        ),
        _ => build_ended(Err(BuildError::OutOfTurn)),
    }
}

impl Build {
    fn end(&mut self, outcome: Result<Vec<u8>, BuildError>) -> (action: BuildAction)
        ensures
            (*final(self), action) == build_ended(outcome),
    {
        self.phase = BuildPhase::Finished;
        self.config = None;
        BuildAction::Finish(outcome)
    }

    /// Takes what the driver reports and says what to do next.
    pub fn step(&mut self, event: BuildEvent) -> (action: BuildAction)
        ensures
            (*final(self), action) == build_next(*old(self), event),
    {
        let config = self.config.take();
        match (self.phase, event, config) {
            (BuildPhase::CreatingEngine, BuildEvent::EngineCreated(Ok(_)), Some(config)) => {
                self.phase = BuildPhase::BuildingContext;
                BuildAction::BuildContext(config)
            },
            (BuildPhase::CreatingEngine, BuildEvent::EngineCreated(Err(cause)), _) => self.end(
                Err(BuildError::Engine(cause)),
            ),
            (BuildPhase::BuildingContext, BuildEvent::ContextBuilt(Ok(_)), _) => {
                self.phase = BuildPhase::Snapshotting;
                BuildAction::Wizen
            },
            (BuildPhase::BuildingContext, BuildEvent::ContextBuilt(Err(cause)), _) => self.end(
                Err(BuildError::Context(cause)),
            ),
            (BuildPhase::Snapshotting, BuildEvent::Snapshot(Ok(module)), _) => self.end(
                Ok(module),
            ),
            (BuildPhase::Snapshotting, BuildEvent::Snapshot(Err(cause)), _) => self.end(
                Err(BuildError::Snapshot(cause)),
            ),
            _ => self.end(Err(BuildError::OutOfTurn)),
        }
    }
}

/// Starts the build of a module from `ruby_code`: the sandbox's grants are
/// fixed, and the engine is to be set up first.
pub fn wizen(ruby_code: &str, preload_path: Option<String>) -> (start: (Build, BuildAction))
    ensures
        start.0.phase == BuildPhase::CreatingEngine,
        start.0.config matches Some(config) && grants(config, ruby_code@, preload_path),
        start.1 == (BuildAction::CreateEngine { async_support: true }),
{
    let config = wasi(ruby_code, preload_path);
    (
        Build { phase: BuildPhase::CreatingEngine, config: Some(config) },
        BuildAction::CreateEngine { async_support: true },
    )
}

/// A whole build, driven faithfully from its start: each action is carried
/// out and answered with `engine`, `context` and `snapshot` in turn.
pub open spec fn build_run(
    config: SandboxConfig,
    engine: Result<(), String>,
    context: Result<(), String>,
    snapshot: Result<Vec<u8>, String>,
) -> Result<Vec<u8>, BuildError> {
    let start = Build { phase: BuildPhase::CreatingEngine, config: Some(config) };
    let first = build_next(start, BuildEvent::EngineCreated(engine));
    match first.1 {
        BuildAction::BuildContext(_) => {
            let second = build_next(first.0, BuildEvent::ContextBuilt(context));
            match second.1 {
                BuildAction::Wizen => {
                    let third = build_next(second.0, BuildEvent::Snapshot(snapshot));
                    match third.1 {
                        BuildAction::Finish(outcome) => outcome,
                        _ => Err(BuildError::OutOfTurn),
                    }
                },
                BuildAction::Finish(outcome) => outcome,
                _ => Err(BuildError::OutOfTurn),
            }
        },
        BuildAction::Finish(outcome) => outcome,
        _ => Err(BuildError::OutOfTurn),
    }
}

/// A build hands out a module exactly when engine, sandbox and snapshot all
/// succeeded, and then the snapshot's bytes, unchanged. Otherwise it fails
/// with the first failure, and what a later step would have given is not
/// looked at.
pub proof fn module_only_on_full_success(
    config: SandboxConfig,
    engine: Result<(), String>,
    context: Result<(), String>,
    snapshot: Result<Vec<u8>, String>,
)
    ensures
        build_run(config, engine, context, snapshot) == (match (engine, context, snapshot) {
            (Err(cause), _, _) => Err::<Vec<u8>, BuildError>(BuildError::Engine(cause)),
            (Ok(_), Err(cause), _) => Err(BuildError::Context(cause)),
            (Ok(_), Ok(_), Err(cause)) => Err(BuildError::Snapshot(cause)),
            (Ok(_), Ok(_), Ok(module)) => Ok(module),
        }),
{
}

/// Bytes reach the caller by one way only: as the answer to a snapshot that
/// succeeded, with those bytes.
pub proof fn bytes_come_from_the_snapshot(b: Build, event: BuildEvent, module: Vec<u8>)
    requires
        build_next(b, event).1 == BuildAction::Finish(Ok(module)),
    ensures
        b.phase == BuildPhase::Snapshotting,
        event == BuildEvent::Snapshot(Ok(module)),
{
}

/// One sandbox to a build: the sandbox is asked for only in answer to the
/// engine's success at the very start, and the build then holds no grants
/// from which a second one could be asked for.
pub proof fn one_sandbox_per_build(b: Build, event: BuildEvent)
    requires
        build_next(b, event).1 is BuildContext,
    ensures
        b.phase == BuildPhase::CreatingEngine,
        event matches BuildEvent::EngineCreated(Ok(_)),
        build_next(b, event).0 == (Build { phase: BuildPhase::BuildingContext, config: None }),
        forall|later: BuildEvent| !(#[trigger] build_next(build_next(b, event).0, later).1
            is BuildContext),
{
}

/// What a sandbox is granted depends on the script and the preload
/// directory alone: two configurations for the same two hold the same
/// standard input, the same streams, the same environment and the same
/// mounts.
pub proof fn same_inputs_same_grants(
    first: SandboxConfig,
    second: SandboxConfig,
    script: Seq<char>,
    preload: Option<String>,
)
    requires
        grants(first, script, preload),
        grants(second, script, preload),
    ensures
        first.stdin@ == second.stdin@,
        first.inherit_stdout == second.inherit_stdout,
        first.inherit_stderr == second.inherit_stderr,
        first.mounts@ == second.mounts@,
        first.env@.len() == second.env@.len(),
        forall|i: int|
            0 <= i < first.env@.len() ==> first.env@[i].name@ == second.env@[i].name@
                && first.env@[i].value == second.env@[i].value,
{
    if preload is None {
        assert(first.mounts@ =~= second.mounts@);
    }
}

} // verus!
