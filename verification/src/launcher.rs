//! How the backend is launched: in development by an interpreter, of which
//! several candidates are tried in turn, and in production as the sidecar
//! binary that is packaged with the program.
//!
//! The launcher describes the process to create; creating it is the caller's
//! part, who reports how it went.

use vstd::prelude::*;
use vstd::string::*;
use crate::config::{BuildMode, Platform};
use crate::error::{StartupError, StartupErrorKind, StartupErrorView};
use crate::text::{decimal, decimal_string, texts, push_text, push_string};

verus! {

/// Environment variable that tells the backend its host.
pub const ENV_BACKEND_HOST: &'static str = "ANCIA_BACKEND_HOST";

/// Environment variable that tells the backend its port.
pub const ENV_BACKEND_PORT: &'static str = "ANCIA_BACKEND_PORT";

/// Environment variable that tells the backend where the application keeps its data.
pub const ENV_BACKEND_DATA_DIR: &'static str = "ANCIA_BACKEND_DATA_DIR";

/// Environment variable that makes the interpreter write its output at once.
pub const ENV_UNBUFFERED: &'static str = "PYTHONUNBUFFERED";

/// Where a program is looked for.
#[derive(Clone, Copy, Debug, PartialEq, Eq, Structural)]
pub enum ProgramBase {
    /// Below the project's root directory.
    ProjectRoot,
    /// On the system's search path.
    SearchPath,
    /// Below the directory of the packaged resources.
    ResourceDir,
}

/// What a standard stream of the child is connected to.
#[derive(Clone, Copy, Debug, PartialEq, Eq, Structural)]
pub enum StdioMode {
    /// To nothing.
    Null,
    /// To the stream of the parent.
    Inherit,
}

/// The three standard streams of the child.
#[derive(Clone, Copy, Debug, PartialEq, Eq, Structural)]
pub struct StdioPlan {
    pub stdin: StdioMode,
    pub stdout: StdioMode,
    pub stderr: StdioMode,
}

/// One environment variable.
#[derive(Debug)]
pub struct EnvVar {
    pub name: String,
    pub value: String,
}

/// What an environment variable holds, as plain values.
pub struct EnvVarView {
    pub name: Seq<char>,
    pub value: Seq<char>,
}

impl View for EnvVar {
    type V = EnvVarView;

    open spec fn view(&self) -> EnvVarView {
        EnvVarView { name: self.name@, value: self.value@ }
    }
}

/// What a list of environment variables holds.
pub open spec fn env_view(env: Seq<EnvVar>) -> Seq<EnvVarView> {
    Seq::new(env.len(), |i: int| env[i]@)
}

/// The process to create.
#[derive(Debug)]
pub struct LaunchCommand {
    /// Where the program is looked for.
    pub base: ProgramBase,
    /// The program's path from there, one component after the other.
    pub program: Vec<String>,
    pub args: Vec<String>,
    /// The variables that are added to the environment.
    pub env: Vec<EnvVar>,
    /// Whether `ANCIA_BACKEND_DATA_DIR` is set, to the application's data directory.
    pub data_dir_env: bool,
    /// Whether the process starts in the project's root directory.
    pub in_project_root: bool,
    pub stdio: StdioPlan,
}

/// What a launch command holds, as plain values.
pub struct LaunchCommandView {
    pub base: ProgramBase,
    pub program: Seq<Seq<char>>,
    pub args: Seq<Seq<char>>,
    pub env: Seq<EnvVarView>,
    pub data_dir_env: bool,
    pub in_project_root: bool,
    pub stdio: StdioPlan,
}

impl View for LaunchCommand {
    type V = LaunchCommandView;

    open spec fn view(&self) -> LaunchCommandView {
        LaunchCommandView {
            base: self.base,
            program: texts(self.program@),
            args: texts(self.args@),
            env: env_view(self.env@),
            data_dir_env: self.data_dir_env,
            in_project_root: self.in_project_root,
            stdio: self.stdio,
        }
    }
}

/// A candidate that could not be started.
#[derive(Debug)]
pub struct SpawnFailure {
    /// The executable, as the message is to name it.
    pub executable: String,
    /// What the system said.
    pub error: String,
}

/// What became of the search for the sidecar binary.
#[derive(Debug)]
pub enum SidecarLookup {
    /// The resource directory could not be found.
    NoResourceDir { error: String },
    /// No file is at the sidecar's place, `path`.
    Missing { path: String },
    /// The sidecar is in its place.
    Found,
}

/// The streams of a child: no input, and output only in development.
pub open spec fn child_stdio(mode: BuildMode) -> StdioPlan {
    match mode {
        BuildMode::Development => StdioPlan {
            stdin: StdioMode::Null,
            stdout: StdioMode::Inherit,
            stderr: StdioMode::Inherit,
        },
        BuildMode::Production => StdioPlan {
            stdin: StdioMode::Null,
            stdout: StdioMode::Null,
            stderr: StdioMode::Null,
        },
    }
}

/// Number of interpreters that are tried in development.
pub open spec fn dev_candidate_count(platform: Platform) -> nat {
    match platform {
        Platform::Windows => 3,
        Platform::Unix => 4,
    }
}

/// Where the interpreter candidate `index` is looked for: those of the
/// project's virtual environment come first.
pub open spec fn dev_program_base(platform: Platform, index: int) -> ProgramBase {
    match platform {
        Platform::Windows => if index == 0 {
            ProgramBase::ProjectRoot
        } else {
            ProgramBase::SearchPath
        },
        Platform::Unix => if index <= 1 {
            ProgramBase::ProjectRoot
        } else {
            ProgramBase::SearchPath
        },
    }
}

/// The path of the interpreter candidate `index`.
pub open spec fn dev_program(platform: Platform, index: int) -> Seq<Seq<char>> {
    match platform {
        Platform::Windows => if index == 0 {
            seq![".venv"@, "Scripts"@, "python.exe"@]
        } else if index == 1 {
            seq!["python"@]
        } else {
            seq!["py"@]
        },
        Platform::Unix => if index == 0 {
            seq![".venv"@, "bin"@, "python3"@]
        } else if index == 1 {
            seq![".venv"@, "bin"@, "python"@]
        } else if index == 2 {
            seq!["python3"@]
        } else {
            seq!["python"@]
        },
    }
}

/// The arguments that make an interpreter serve the backend at `host` and `port`.
pub open spec fn backend_module_args(host: Seq<char>, port: u16) -> Seq<Seq<char>> {
    seq![
        "-m"@,
        "uvicorn"@,
        "backend.main:app"@,
        "--host"@,
        host,
        "--port"@,
        decimal(port as nat),
    ]
}

/// The arguments of the interpreter candidate `index`: the Windows launcher
/// is told first which major version to start.
pub open spec fn dev_args(platform: Platform, index: int, host: Seq<char>, port: u16) -> Seq<
    Seq<char>,
> {
    if platform == Platform::Windows && index >= 2 {
        seq!["-3"@] + backend_module_args(host, port)
    } else {
        backend_module_args(host, port)
    }
}

/// The variables that tell the backend its endpoint.
pub open spec fn endpoint_env(host: Seq<char>, port: u16) -> Seq<EnvVarView> {
    seq![
        EnvVarView { name: ENV_BACKEND_HOST@, value: host },
        EnvVarView { name: ENV_BACKEND_PORT@, value: decimal(port as nat) },
    ]
}

/// The command of the interpreter candidate `index`.
pub open spec fn dev_command(
    platform: Platform,
    index: int,
    has_data_dir: bool,
    host: Seq<char>,
    port: u16,
    mode: BuildMode,
) -> LaunchCommandView {
    LaunchCommandView {
        base: dev_program_base(platform, index),
        program: dev_program(platform, index),
        args: dev_args(platform, index, host, port),
        env: endpoint_env(host, port).push(EnvVarView { name: ENV_UNBUFFERED@, value: "1"@ }),
        data_dir_env: has_data_dir,
        in_project_root: true,
        stdio: child_stdio(mode),
    }
}

/// The name of the sidecar binary.
pub open spec fn sidecar_name(platform: Platform) -> Seq<char> {
    match platform {
        Platform::Windows => "ancia-backend.exe"@,
        Platform::Unix => "ancia-backend"@,
    }
}

/// The path of the sidecar binary below the resource directory.
pub open spec fn sidecar_program(platform: Platform) -> Seq<Seq<char>> {
    seq!["bin"@, sidecar_name(platform)]
}

/// The command of the sidecar binary.
pub open spec fn release_command(
    platform: Platform,
    has_data_dir: bool,
    host: Seq<char>,
    port: u16,
    mode: BuildMode,
) -> LaunchCommandView {
    LaunchCommandView {
        base: ProgramBase::ResourceDir,
        program: sidecar_program(platform),
        args: Seq::empty(),
        env: endpoint_env(host, port),
        data_dir_env: has_data_dir,
        in_project_root: false,
        stdio: child_stdio(mode),
    }
}

/// The message that names the candidate that failed last.
pub open spec fn annotated_failure(executable: Seq<char>, error: Seq<char>) -> Seq<char> {
    executable + ": "@ + error
}

/// Message of a resource directory that could not be found.
pub open spec fn resource_dir_text(error: Seq<char>) -> Seq<char> {
    "resource_dir: "@ + error
}

/// Message of a sidecar that is not in its place.
pub open spec fn sidecar_missing_text(path: Seq<char>) -> Seq<char> {
    "sidecar not found: "@ + path + " (expected backend binary in src-tauri/bin during build)"@
}

/// What a command or an error holds.
pub open spec fn launch_view(launch: Result<LaunchCommand, StartupError>) -> Result<
    LaunchCommandView,
    StartupErrorView,
> {
    match launch {
        Ok(command) => Ok(command@),
        Err(error) => Err(error@),
    }
}

/// How the launch in development goes on after the candidates before
/// `failures.len()` have failed: with the next candidate, or, where none is
/// left, with the error of the last one, which names its executable.
pub open spec fn dev_launch(
    platform: Platform,
    has_data_dir: bool,
    host: Seq<char>,
    port: u16,
    mode: BuildMode,
    failures: Seq<SpawnFailure>,
) -> Result<LaunchCommandView, StartupErrorView> {
    if failures.len() < dev_candidate_count(platform) {
        Ok(dev_command(platform, failures.len() as int, has_data_dir, host, port, mode))
    } else {
        let last = failures[dev_candidate_count(platform) - 1];
        Err(
            StartupErrorView {
                kind: StartupErrorKind::SpawnFailed,
                message: annotated_failure(last.executable@, last.error@),
            },
        )
    }
}

/// How the launch in production goes: with the sidecar's command where the
/// sidecar was found, else with an error that says what is missing.
pub open spec fn release_launch(
    platform: Platform,
    lookup: SidecarLookup,
    has_data_dir: bool,
    host: Seq<char>,
    port: u16,
    mode: BuildMode,
) -> Result<LaunchCommandView, StartupErrorView> {
    match lookup {
        SidecarLookup::NoResourceDir { error } => Err(
            StartupErrorView {
                kind: StartupErrorKind::SpawnFailed,
                message: resource_dir_text(error@),
            },
        ),
        SidecarLookup::Missing { path } => Err(
            StartupErrorView {
                kind: StartupErrorKind::SpawnFailed,
                message: sidecar_missing_text(path@),
            },
        ),
        SidecarLookup::Found => Ok(release_command(platform, has_data_dir, host, port, mode)),
    }
}

fn push_env(env: &mut Vec<EnvVar>, name: &str, value: String)
    ensures
        env_view(final(env)@) == env_view(old(env)@).push(
            EnvVarView { name: name@, value: value@ },
        ),
{
    env.push(EnvVar { name: String::from_str(name), value });
    assert(env_view(env@) =~= env_view(old(env)@).push(
        EnvVarView { name: name@, value: value@ },
    ));
}

fn endpoint_environment(host: &str, port: u16) -> (env: Vec<EnvVar>)
    ensures
        env_view(env@) == endpoint_env(host@, port),
{
    let mut env: Vec<EnvVar> = Vec::new();
    assert(env_view(env@) =~= Seq::<EnvVarView>::empty());
    push_env(&mut env, ENV_BACKEND_HOST, String::from_str(host));
    push_env(&mut env, ENV_BACKEND_PORT, decimal_string(port as u64));
    assert(env_view(env@) =~= endpoint_env(host@, port));
    env
}

/// Connects the standard streams of the child that `command` describes: no
/// input, and output only in development.
pub fn spawn_child(command: LaunchCommand, mode: BuildMode) -> (ready: LaunchCommand)
    ensures
        ready@ == (LaunchCommandView { stdio: child_stdio(mode), ..command@ }),
{
    let stdio = match mode {
        BuildMode::Development => StdioPlan {
            stdin: StdioMode::Null,
            stdout: StdioMode::Inherit,
            stderr: StdioMode::Inherit,
        },
        BuildMode::Production => StdioPlan {
            stdin: StdioMode::Null,
            stdout: StdioMode::Null,
            stderr: StdioMode::Null,
        },
    };
    LaunchCommand {
        base: command.base,
        program: command.program,
        args: command.args,
        env: command.env,
        data_dir_env: command.data_dir_env,
        in_project_root: command.in_project_root,
        stdio,
    }
}

fn dev_candidate(platform: Platform, index: usize) -> (candidate: (ProgramBase, Vec<String>))
    requires
        index < dev_candidate_count(platform),
    ensures
        candidate.0 == dev_program_base(platform, index as int),
        texts(candidate.1@) == dev_program(platform, index as int),
{
    let mut program: Vec<String> = Vec::new();
    assert(texts(program@) =~= Seq::<Seq<char>>::empty());
    let in_project = match platform {
        Platform::Windows => index == 0,
        Platform::Unix => index <= 1,
    };
    if in_project {
        push_text(&mut program, ".venv");
        match platform {
            Platform::Windows => {
                push_text(&mut program, "Scripts");
                push_text(&mut program, "python.exe");
            },
            Platform::Unix => {
                push_text(&mut program, "bin");
                if index == 0 {
                    push_text(&mut program, "python3");
                } else {
                    push_text(&mut program, "python");
                }
            },
        }
        assert(texts(program@) =~= dev_program(platform, index as int));
        (ProgramBase::ProjectRoot, program)
    } else {
        match platform {
            Platform::Windows => {
                if index == 1 {
                    push_text(&mut program, "python");
                } else {
                    push_text(&mut program, "py");
                }
            },
            Platform::Unix => {
                if index == 2 {
                    push_text(&mut program, "python3");
                } else {
                    push_text(&mut program, "python");
                }
            },
        }
        assert(texts(program@) =~= dev_program(platform, index as int));
        (ProgramBase::SearchPath, program)
    }
}

fn dev_arguments(platform: Platform, index: usize, host: &str, port: u16) -> (args: Vec<String>)
    ensures
        texts(args@) == dev_args(platform, index as int, host@, port),
{
    let mut args: Vec<String> = Vec::new();
    assert(texts(args@) =~= Seq::<Seq<char>>::empty());
    if platform == Platform::Windows && index >= 2 {
        push_text(&mut args, "-3");
    }
    push_text(&mut args, "-m");
    push_text(&mut args, "uvicorn");
    push_text(&mut args, "backend.main:app");
    push_text(&mut args, "--host");
    push_text(&mut args, host);
    push_text(&mut args, "--port");
    push_string(&mut args, decimal_string(port as u64));
    assert(texts(args@) =~= dev_args(platform, index as int, host@, port));
    args
}

/// Says how the launch in development goes on after the candidates in
/// `failures` could not be started: gives the command of the next candidate
/// to try, or, where all have failed, the error of the last one.
pub fn try_spawn_dev_backend(
    platform: Platform,
    has_data_dir: bool,
    host: &str,
    port: u16,
    mode: BuildMode,
    failures: &[SpawnFailure],
) -> (launch: Result<LaunchCommand, StartupError>)
    ensures
        launch_view(launch) == dev_launch(platform, has_data_dir, host@, port, mode, failures@),
{
    let candidates: usize = match platform {
        Platform::Windows => 3,
        Platform::Unix => 4,
    };
    let index = failures.len();
    if index < candidates {
        let (base, program) = dev_candidate(platform, index);
        let args = dev_arguments(platform, index, host, port);
        let mut env = endpoint_environment(host, port);
        push_env(&mut env, ENV_UNBUFFERED, String::from_str("1"));
        let command = LaunchCommand {
            base,
            program,
            args,
            env,
            data_dir_env: has_data_dir,
            in_project_root: true,
            stdio: StdioPlan {
                stdin: StdioMode::Null,
                stdout: StdioMode::Null,
                stderr: StdioMode::Null,
            },
        };
        Ok(spawn_child(command, mode))
    } else {
        let last = &failures[candidates - 1];
        let mut message = last.executable.clone();
        message.append(": ");
        message.append(last.error.as_str());
        Err(StartupError::spawn_failed(message))
    }
}

/// The path of the sidecar binary below the resource directory.
pub fn sidecar_path(platform: Platform) -> (program: Vec<String>)
    ensures
        texts(program@) == sidecar_program(platform),
{
    let mut program: Vec<String> = Vec::new();
    assert(texts(program@) =~= Seq::<Seq<char>>::empty());
    push_text(&mut program, "bin");
    match platform {
        Platform::Windows => push_text(&mut program, "ancia-backend.exe"),
        Platform::Unix => push_text(&mut program, "ancia-backend"),
    }
    assert(texts(program@) =~= sidecar_program(platform));
    program
}

/// Says how the launch in production goes, given what the search for the
/// sidecar found: gives the sidecar's command, or the error that says what
/// is missing, so that a binary that was not packaged is told from one that
/// does not start.
pub fn try_spawn_release_backend(
    platform: Platform,
    lookup: &SidecarLookup,
    has_data_dir: bool,
    host: &str,
    port: u16,
    mode: BuildMode,
) -> (launch: Result<LaunchCommand, StartupError>)
    ensures
        launch_view(launch) == release_launch(platform, *lookup, has_data_dir, host@, port, mode),
{
    match lookup {
        SidecarLookup::NoResourceDir { error } => {
            let mut message = String::from_str("resource_dir: ");
            message.append(error.as_str());
            Err(StartupError::spawn_failed(message))
        },
        SidecarLookup::Missing { path } => {
            let mut message = String::from_str("sidecar not found: ");
            message.append(path.as_str());
            message.append(" (expected backend binary in src-tauri/bin during build)");
            Err(StartupError::spawn_failed(message))
        },
        SidecarLookup::Found => {
            let args: Vec<String> = Vec::new();
            assert(texts(args@) =~= Seq::<Seq<char>>::empty());
            let command = LaunchCommand {
                base: ProgramBase::ResourceDir,
                program: sidecar_path(platform),
                args,
                env: endpoint_environment(host, port),
                data_dir_env: has_data_dir,
                in_project_root: false,
                stdio: StdioPlan {
                    stdin: StdioMode::Null,
                    stdout: StdioMode::Null,
                    stderr: StdioMode::Null,
                },
            };
            Ok(spawn_child(command, mode))
        },
    }
}

/// In development every candidate is tried, in its order, before the launch
/// gives up: it goes on with a command exactly while fewer candidates have
/// failed than there are, and a child never gets standard input.
pub proof fn dev_launch_tries_every_candidate(
    platform: Platform,
    has_data_dir: bool,
    host: Seq<char>,
    port: u16,
    mode: BuildMode,
    failures: Seq<SpawnFailure>,
)
    ensures
        dev_launch(platform, has_data_dir, host, port, mode, failures) is Ok <==> failures.len()
            < dev_candidate_count(platform),
        dev_launch(platform, has_data_dir, host, port, mode, failures) matches Ok(command)
            ==> command.stdio.stdin == StdioMode::Null,
{
}

} // verus!
