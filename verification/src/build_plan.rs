//! Building the native programs: which cargo commands are run, in which
//! order, and what is said after each. Running the commands is left to
//! the caller.

use vstd::prelude::*;
use vstd::string::StringExecFns;

verus! {

/// How the native program is built.
#[derive(Debug, Clone, Copy, PartialEq, Eq, Structural)]
pub enum ProgramBuildArgs {
    Default,
    WithTracing,
}

/// One invocation of cargo: the arguments after the word `cargo`.
#[derive(Debug, Clone, PartialEq, Eq)]
pub struct CargoCommand {
    pub args: Vec<String>,
}

/// The arguments as mathematical values.
pub open spec fn args_view(args: Seq<String>) -> Seq<Seq<char>> {
    Seq::new(args.len(), |i: int| args[i]@)
}

impl View for CargoCommand {
    type V = Seq<Seq<char>>;

    open spec fn view(&self) -> Seq<Seq<char>> {
        args_view(self.args@)
    }
}

/// The arguments that build the native program `program`.
pub open spec fn native_program_args(program: Seq<char>, program_args: ProgramBuildArgs) -> Seq<
    Seq<char>,
> {
    let base = seq![
        "build"@,
        "--workspace"@,
        "--bin"@,
        program,
        "--profile"@,
        "release-client-lto"@,
    ];
    match program_args {
        ProgramBuildArgs::Default => base,
        ProgramBuildArgs::WithTracing => base + seq!["--features"@, "tracing-subscriber"@],
    }
}

/// The arguments that build the native host runner into `target_dir`.
pub open spec fn host_runner_args(target_dir: Seq<char>) -> Seq<Seq<char>> {
    seq![
        "build"@,
        "--workspace"@,
        "--bin"@,
        "native_host_runner"@,
        "--release"@,
        "--target-dir"@,
        target_dir,
    ]
}

/// The line that tells cargo what was built, with which profile and when.
pub open spec fn notice_text(what: Seq<char>, profile: Seq<char>, when: Seq<char>) -> Seq<char> {
    "cargo:warning="@ + what + " built with "@ + profile + " profile at "@ + when
}

/// The command that builds the native program `program`, with the
/// client's release profile and, if asked for, with tracing.
pub fn build_native_program(program: &str, program_args: ProgramBuildArgs) -> (command: CargoCommand)
    ensures
        command@ == native_program_args(program@, program_args),
{
    let mut args: Vec<String> = Vec::new();
    args.push("build".to_owned());
    args.push("--workspace".to_owned());
    args.push("--bin".to_owned());
    args.push(program.to_owned());
    args.push("--profile".to_owned());
    args.push("release-client-lto".to_owned());
    match program_args {
        ProgramBuildArgs::Default => {},
        ProgramBuildArgs::WithTracing => {
            args.push("--features".to_owned());
            args.push("tracing-subscriber".to_owned());
        },
    }
    let command = CargoCommand { args };
    assert(command@ =~= native_program_args(program@, program_args));
    command
}

/// The command that builds the native host runner into `target_dir`.
pub fn host_runner_command(target_dir: &str) -> (command: CargoCommand)
    ensures
        command@ == host_runner_args(target_dir@),
{
    let mut args: Vec<String> = Vec::new();
    args.push("build".to_owned());
    args.push("--workspace".to_owned());
    args.push("--bin".to_owned());
    args.push("native_host_runner".to_owned());
    args.push("--release".to_owned());
    args.push("--target-dir".to_owned());
    args.push(target_dir.to_owned());
    let command = CargoCommand { args };
    assert(command@ =~= host_runner_args(target_dir@));
    command
}

/// `base` with `child` adjoined, by `Utf8Path::join` of the `camino`
/// crate that `cargo_metadata` hands out. Which separator stands between
/// the two is the platform's matter, so nothing is claimed of the result.
#[verifier::external_body]
fn join_path(base: &str, child: &str) -> (joined: String) {
    cargo_metadata::camino::Utf8Path::new(base).join(child).into_string()
}

/// The local date and time, by `Local::now` and `format` of the `chrono`
/// crate. It depends on the clock and the time zone, so nothing is claimed
/// of the result.
#[verifier::external_body]
pub(crate) fn current_datetime() -> (now: String) {
    chrono::Local::now().format("%Y-%m-%d %H:%M:%S").to_string()
}

/// The command that builds the native host runner. It is built into a
/// directory of its own below cargo's target directory, so that the two
/// builds do not wait for each other's lock.
pub fn build_native_host_runner(target_directory: &str) -> (command: CargoCommand)
    ensures
        exists|target_dir: Seq<char>| command@ == host_runner_args(target_dir),
{
    let target_dir = join_path(target_directory, "native_host_runner");
    let command = host_runner_command(target_dir.as_str());
    assert(command@ == host_runner_args(target_dir@));
    command
}

/// The line that tells cargo what was built, with which profile and when.
pub fn build_notice(what: &str, profile: &str, when: &str) -> (notice: String)
    ensures
        notice@ == notice_text(what@, profile@, when@),
{
    let mut notice = "cargo:warning=".to_owned();
    notice.append(what);
    notice.append(" built with ");
    notice.append(profile);
    notice.append(" profile at ");
    notice.append(when);
    notice
}

/// How a program is built for the zkVM.
#[derive(Debug, Clone, PartialEq, Eq)]
pub struct ZkvmBuild {
    /// The directory of the program's sources.
    pub program_dir: String,
    /// The name the ELF is written under.
    pub elf_name: String,
    /// Whether the build runs in Docker.
    pub docker: bool,
    /// The tag of the toolchain image.
    pub tag: String,
}

/// The build of `program`, whose sources lie below `programs_dir`.
pub fn zkvm_build(programs_dir: &str, program: &str) -> (build: ZkvmBuild)
    ensures
        build.program_dir@ == programs_dir@ + "/"@ + program@,
        build.elf_name@ == program@ + "-elf"@,
        build.docker,
        build.tag@ == "v4.0.0-rc.3"@,
{
    let mut program_dir = programs_dir.to_owned();
    program_dir.append("/");
    program_dir.append(program);
    let mut elf_name = program.to_owned();
    elf_name.append("-elf");
    ZkvmBuild { program_dir, elf_name, docker: true, tag: "v4.0.0-rc.3".to_owned() }
}

/// The build of `program` for the zkVM, in a workspace rooted at
/// `workspace_root`: its sources lie in the workspace's `programs`
/// directory.
pub fn build_zkvm_program(program: &str, workspace_root: &str) -> (build: ZkvmBuild)
    ensures
        exists|programs_dir: Seq<char>| build.program_dir@ == programs_dir + "/"@ + program@,
        build.elf_name@ == program@ + "-elf"@,
        build.docker,
        build.tag@ == "v4.0.0-rc.3"@,
{
    let programs_dir = join_path(workspace_root, "programs");
    let build = zkvm_build(programs_dir.as_str(), program);
    assert(build.program_dir@ == programs_dir@ + "/"@ + program@);
    build
}

/// What the build is told.
#[derive(Debug, Clone, PartialEq, Eq)]
pub enum BuildEvent {
    /// The build begins.
    Started,
    /// The build of the native program ended, with success or without.
    NativeProgramExited(bool),
    /// Cargo's metadata was read; this is its target directory.
    MetadataRead(String),
    /// Cargo's metadata could not be read.
    MetadataFailed,
    /// The build of the native host runner ended, with success or without.
    HostRunnerExited(bool),
    /// Cargo could not be started.
    CommandNotStarted,
}

/// What is to be done next in the build.
#[derive(Debug, Clone, PartialEq, Eq)]
pub enum BuildStep {
    /// Run cargo with these arguments and come back with how it ended.
    Run(CargoCommand),
    /// Read cargo's metadata and come back with the target directory.
    ReadMetadata,
    /// Nothing: all is built.
    Finished,
    /// Give up, with this message.
    Abort(String),
}

/// A line to print, if there is one, and the next step.
#[derive(Debug, Clone, PartialEq, Eq)]
pub struct BuildAction {
    pub notice: Option<String>,
    pub next: BuildStep,
}

/// The next step as a mathematical value. A command that is run and a
/// message are their texts.
pub enum BuildStepView {
    Run(Seq<Seq<char>>),
    ReadMetadata,
    Finished,
    Abort(Seq<char>),
}

impl View for BuildStep {
    type V = BuildStepView;

    open spec fn view(&self) -> BuildStepView {
        match self {
            BuildStep::Run(command) => BuildStepView::Run(command@),
            BuildStep::ReadMetadata => BuildStepView::ReadMetadata,
            BuildStep::Finished => BuildStepView::Finished,
            BuildStep::Abort(message) => BuildStepView::Abort(message@),
        }
    }
}

/// Whether `next` is the step that follows `event`. The native program
/// `range` is built first, then the native host runner; a build that
/// fails ends everything.
pub open spec fn is_build_step(program_args: ProgramBuildArgs, event: BuildEvent, next: BuildStepView) -> bool {
    match event {
        BuildEvent::Started => next == BuildStepView::Run(
            native_program_args("range"@, program_args),
        ),
        BuildEvent::NativeProgramExited(true) => next == BuildStepView::ReadMetadata,
        BuildEvent::NativeProgramExited(false) => next == BuildStepView::Abort(
            "Failed to build range"@,
        ),
        BuildEvent::MetadataRead(_) => exists|target_dir: Seq<char>|
            next == BuildStepView::Run(host_runner_args(target_dir)),
        BuildEvent::MetadataFailed => next == BuildStepView::Abort("Failed to get cargo metadata"@),
        BuildEvent::HostRunnerExited(true) => next == BuildStepView::Finished,
        BuildEvent::HostRunnerExited(false) => next == BuildStepView::Abort(
            "Failed to build native_host_runner"@,
        ),
        BuildEvent::CommandNotStarted => next == BuildStepView::Abort(
            "Failed to execute cargo build command"@,
        ),
    }
}

/// Whether `notice` is what is printed after `event`: a line after each
/// build that succeeded, nothing otherwise.
pub open spec fn is_build_notice(event: BuildEvent, notice: Option<String>) -> bool {
    match event {
        BuildEvent::NativeProgramExited(true) => notice matches Some(line) && exists|when: Seq<char>|
            line@ == notice_text("range"@, "release-client-lto"@, when),
        BuildEvent::HostRunnerExited(true) => notice matches Some(line) && exists|when: Seq<char>|
            line@ == notice_text("native_host_runner"@, "release"@, when),
        _ => notice is None,
    }
}

/// Builds the native program `range` and then the native host runner,
/// one step for each call: told what has happened, it says what to print
/// and what to do next.
pub fn build_all(program_args: ProgramBuildArgs, event: BuildEvent) -> (action: BuildAction)
    ensures
        is_build_step(program_args, event, action.next@),
        is_build_notice(event, action.notice),
{
    match event {
        BuildEvent::Started => BuildAction {
            notice: None,
            next: BuildStep::Run(build_native_program("range", program_args)),
        },
        BuildEvent::NativeProgramExited(success) => {
            if success {
                let now = current_datetime();
                let line = build_notice("range", "release-client-lto", now.as_str());
                assert(line@ == notice_text("range"@, "release-client-lto"@, now@));
                BuildAction { notice: Some(line), next: BuildStep::ReadMetadata }
            } else {
                BuildAction {
                    notice: None,
                    next: BuildStep::Abort("Failed to build range".to_owned()),
                }
            }
        },
        BuildEvent::MetadataRead(target_directory) => BuildAction {
            notice: None,
            next: BuildStep::Run(build_native_host_runner(target_directory.as_str())),
        },
        BuildEvent::MetadataFailed => BuildAction {
            notice: None,
            next: BuildStep::Abort("Failed to get cargo metadata".to_owned()),
        },
        BuildEvent::HostRunnerExited(success) => {
            if success {
                let now = current_datetime();
                let line = build_notice("native_host_runner", "release", now.as_str());
                assert(line@ == notice_text("native_host_runner"@, "release"@, now@));
                BuildAction { notice: Some(line), next: BuildStep::Finished }
            } else {
                BuildAction {
                    notice: None,
                    next: BuildStep::Abort("Failed to build native_host_runner".to_owned()),
                }
            }
        },
        BuildEvent::CommandNotStarted => BuildAction {
            notice: None,
            next: BuildStep::Abort("Failed to execute cargo build command".to_owned()),
        },
    }
}

} // verus!
