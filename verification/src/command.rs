//! The description of a child process, ready to be started.

use vstd::prelude::*;
use crate::paths::{Location, LocationView};
use crate::platform::Platform;

verus! {

/// Where one output stream of the child goes.
#[derive(Clone, Copy, Debug, PartialEq, Eq, Structural)]
pub enum Sink {
    /// The supervisor's own stream.
    Inherit,
    /// The end of the backend's log file.
    LogFile,
    /// Nowhere: what the child writes is discarded.
    Null,
}

/// What is run: a file at a known place, or a name that the operating system
/// resolves.
#[derive(Debug, PartialEq, Eq)]
pub enum Program {
    At(Location),
    Named(String),
}

/// Mathematical content of a [`Program`].
pub enum ProgramView {
    At(LocationView),
    Named(Seq<char>),
}

impl View for Program {
    type V = ProgramView;

    open spec fn view(&self) -> ProgramView {
        match self {
            Program::At(location) => ProgramView::At(location@),
            Program::Named(name) => ProgramView::Named(name@),
        }
    }
}

/// Everything that decides how the backend process is created.
#[derive(Debug, PartialEq, Eq)]
pub struct CommandSpec {
    pub program: Program,
    pub args: Vec<Location>,
    pub current_dir: String,
    /// Variables added to the child's environment, as name and value.
    pub env: Vec<(String, String)>,
    pub stdout: Sink,
    pub stderr: Sink,
    /// Operating-system creation flags, where any are to be set.
    pub creation_flags: Option<u32>,
}

/// Mathematical content of a [`CommandSpec`].
pub struct CommandView {
    pub program: ProgramView,
    pub args: Seq<LocationView>,
    pub current_dir: Seq<char>,
    pub env: Seq<(Seq<char>, Seq<char>)>,
    pub stdout: Sink,
    pub stderr: Sink,
    pub creation_flags: Option<u32>,
}

impl View for CommandSpec {
    type V = CommandView;

    open spec fn view(&self) -> CommandView {
        CommandView {
            program: self.program@,
            args: self.args.deep_view(),
            current_dir: self.current_dir@,
            env: self.env.deep_view(),
            stdout: self.stdout,
            stderr: self.stderr,
            creation_flags: self.creation_flags,
        }
    }
}

/// Address the backend binds to.
pub const BIND_HOST: &'static str = "127.0.0.1";

/// Port the backend binds to.
pub const BIND_PORT: &'static str = "6969";

/// Value that tells the backend not to open a browser by itself.
pub const AUTO_OPEN_DISABLED: &'static str = "0";

/// The variables through which the supervisor configures the backend. The
/// names and their order are fixed; only the two directories vary.
pub open spec fn environment_contract(base_dir: Seq<char>, data_dir: Seq<char>) -> Seq<
    (Seq<char>, Seq<char>),
> {
    seq![
        ("MKDSC_BASE_DIR"@, base_dir),
        ("MKDSC_DATA_DIR"@, data_dir),
        ("MKDSC_HOST"@, BIND_HOST@),
        ("MKDSC_PORT"@, BIND_PORT@),
        ("MKDSC_AUTO_OPEN"@, AUTO_OPEN_DISABLED@),
    ]
}

pub fn child_environment(base_dir: &String, data_dir: &String) -> (env: Vec<(String, String)>)
    ensures
        env.deep_view() == environment_contract(base_dir@, data_dir@),
{
    let mut env: Vec<(String, String)> = Vec::new();
    env.push(("MKDSC_BASE_DIR".to_owned(), base_dir.clone()));
    env.push(("MKDSC_DATA_DIR".to_owned(), data_dir.clone()));
    env.push(("MKDSC_HOST".to_owned(), BIND_HOST.to_owned()));
    env.push(("MKDSC_PORT".to_owned(), BIND_PORT.to_owned()));
    env.push(("MKDSC_AUTO_OPEN".to_owned(), AUTO_OPEN_DISABLED.to_owned()));
    assert(env.deep_view() =~= environment_contract(base_dir@, data_dir@));
    env
}

/// The command that runs `program` with `args` as the backend: in the base
/// directory, with the environment contract, both streams inherited and no
/// creation flags.
pub open spec fn backend_command_view(
    program: ProgramView,
    args: Seq<LocationView>,
    base_dir: Seq<char>,
    data_dir: Seq<char>,
) -> CommandView {
    CommandView {
        program,
        args,
        current_dir: base_dir,
        env: environment_contract(base_dir, data_dir),
        stdout: Sink::Inherit,
        stderr: Sink::Inherit,
        creation_flags: None,
    }
}

pub fn backend_command(
    program: Program,
    args: Vec<Location>,
    base_dir: &String,
    data_dir: &String,
) -> (command: CommandSpec)
    ensures
        command@ == backend_command_view(program@, args.deep_view(), base_dir@, data_dir@),
{
    CommandSpec {
        program,
        args,
        current_dir: base_dir.clone(),
        env: child_environment(base_dir, data_dir),
        stdout: Sink::Inherit,
        stderr: Sink::Inherit,
        creation_flags: None,
    }
}

/// Keeps the child from opening a console window of its own. Only Windows
/// knows such windows; elsewhere the command stays as it is.
pub fn set_no_window(command: &mut CommandSpec, platform: Platform)
    ensures
        final(command)@ == (CommandView {
            creation_flags: match platform.no_window_flags() {
                Some(flags) => Some(flags),
                None => old(command).creation_flags,
            },
            ..old(command)@
        }),
{
    match platform.creation_flags() {
        Some(flags) => {
            command.creation_flags = Some(flags);
        },
        None => {},
    }
}

} // verus!
