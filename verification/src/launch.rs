//! The two ways to start the backend, and what each of them runs.
//!
//! The backend ships either as a native executable or as a script for an
//! interpreter. This module says where the executable is looked for, which
//! interpreter is taken, and what the finished command of either way holds.

use vstd::prelude::*;
use crate::command::{
    backend_command, backend_command_view, set_no_window, CommandSpec, CommandView, Program,
    ProgramView,
};
use crate::paths::{
    child_of, first_found, first_found_at, marker_location, none_found, Location, LocationView,
    Probe, MARKER_FILE,
};
use crate::platform::Platform;
use crate::stdio::{configure_backend_stdio, stdio_policy, LogAttempt};

verus! {

/// Environment variable whose mere presence asks for the interpreter first.
pub const FORCE_INTERPRETER_VARIABLE: &'static str = "MKDSC_FORCE_PYTHON";

/// Environment variable that names the interpreter to run.
pub const INTERPRETER_VARIABLE: &'static str = "MKDSC_PYTHON";

/// Whether the interpreter is tried before the native executable: always in
/// a development build, and in a packaged build when it is asked for.
pub fn prefer_interpreter(debug_build: bool, force_interpreter: bool) -> (prefer: bool)
    ensures
        prefer == (debug_build || force_interpreter),
{
    debug_build || force_interpreter
}

/// The places where the native executable may lie, in the order they are
/// tried: the installed layout, then the build tree.
pub open spec fn binary_candidates_view(base_dir: Seq<char>, platform: Platform) -> Seq<
    LocationView,
> {
    seq![
        LocationView { root: base_dir, steps: seq!["bin"@, platform.backend_binary_text()] },
        LocationView {
            root: base_dir,
            steps: seq!["src-tauri"@, "bin"@, platform.backend_binary_text()],
        },
    ]
}

pub fn binary_candidates(base_dir: &String, platform: Platform) -> (candidates: Vec<Location>)
    ensures
        candidates.deep_view() == binary_candidates_view(base_dir@, platform),
{
    let mut installed: Vec<String> = Vec::new();
    installed.push("bin".to_owned());
    installed.push(platform.backend_binary_name());
    assert(installed.deep_view() =~= seq!["bin"@, platform.backend_binary_text()]);
    let mut build_tree: Vec<String> = Vec::new();
    build_tree.push("src-tauri".to_owned());
    build_tree.push("bin".to_owned());
    build_tree.push(platform.backend_binary_name());
    assert(build_tree.deep_view() =~= seq![
        "src-tauri"@,
        "bin"@,
        platform.backend_binary_text(),
    ]);
    let mut candidates: Vec<Location> = Vec::new();
    candidates.push(Location { root: base_dir.clone(), steps: installed });
    candidates.push(Location { root: base_dir.clone(), steps: build_tree });
    assert(candidates.deep_view() =~= binary_candidates_view(base_dir@, platform));
    candidates
}

/// The native executable to run: the first candidate that exists. That none
/// exists is no failure; it only means that this way is not open.
pub fn select_binary(candidates: Vec<Probe<Location>>) -> (executable: Option<Location>)
    ensures
        match executable {
            Some(location) => exists|i: int|
                first_found_at(candidates@, i) && (#[trigger] candidates@[i]).subject == location,
            None => none_found(candidates@),
        },
{
    first_found(candidates)
}

/// Where the interpreter of a virtual environment below the base directory
/// would lie.
pub open spec fn venv_interpreter_view(base_dir: Seq<char>, platform: Platform) -> LocationView {
    LocationView { root: base_dir, steps: platform.venv_interpreter_steps_text() }
}

pub fn venv_interpreter(base_dir: &String, platform: Platform) -> (location: Location)
    ensures
        location@ == venv_interpreter_view(base_dir@, platform),
{
    Location { root: base_dir.clone(), steps: platform.venv_interpreter_steps() }
}

/// The interpreter that these inputs call for: the one named explicitly;
/// else the virtual environment's, if it is there; else the platform's
/// default name.
pub open spec fn interpreter_of(
    explicit: Option<Seq<char>>,
    venv: LocationView,
    venv_found: bool,
    platform: Platform,
) -> ProgramView {
    match explicit {
        Some(name) => ProgramView::Named(name),
        None => if venv_found {
            ProgramView::At(venv)
        } else {
            ProgramView::Named(platform.default_interpreter_text())
        },
    }
}

pub fn resolve_interpreter(
    explicit: Option<String>,
    venv: Probe<Location>,
    platform: Platform,
) -> (interpreter: Program)
    ensures
        interpreter@ == interpreter_of(explicit.deep_view(), venv.subject@, venv.found, platform),
{
    match explicit {
        Some(name) => Program::Named(name),
        None => if venv.found {
            Program::At(venv.subject)
        } else {
            Program::Named(platform.default_interpreter())
        },
    }
}

/// What is the same in every backend command, whichever way it is started:
/// the working directory and environment, the stream policy and the
/// platform's creation flags.
pub open spec fn launch_command_view(
    program: ProgramView,
    args: Seq<LocationView>,
    base_dir: Seq<char>,
    data_dir: Seq<char>,
    debug_build: bool,
    log: Option<LogAttempt>,
    platform: Platform,
) -> CommandView {
    CommandView {
        stdout: stdio_policy(debug_build, log).stdout,
        stderr: stdio_policy(debug_build, log).stderr,
        creation_flags: platform.no_window_flags(),
        ..backend_command_view(program, args, base_dir, data_dir)
    }
}

/// The command that starts the native executable: the executable itself,
/// without arguments.
pub fn binary_command(
    executable: Location,
    base_dir: &String,
    data_dir: &String,
    debug_build: bool,
    log: Option<LogAttempt>,
    platform: Platform,
) -> (command: CommandSpec)
    ensures
        command@ == launch_command_view(
            ProgramView::At(executable@),
            Seq::empty(),
            base_dir@,
            data_dir@,
            debug_build,
            log,
            platform,
        ),
{
    let args: Vec<Location> = Vec::new();
    assert(args.deep_view() =~= Seq::<LocationView>::empty());
    let mut command = backend_command(Program::At(executable), args, base_dir, data_dir);
    configure_backend_stdio(&mut command, debug_build, log);
    set_no_window(&mut command, platform);
    command
}

/// The command that starts the backend through an interpreter: the
/// interpreter, with the backend's script in the base directory as its only
/// argument.
pub fn interpreter_command(
    interpreter: Program,
    base_dir: &String,
    data_dir: &String,
    debug_build: bool,
    log: Option<LogAttempt>,
    platform: Platform,
) -> (command: CommandSpec)
    ensures
        command@ == launch_command_view(
            interpreter@,
            seq![child_of(base_dir@, MARKER_FILE@)],
            base_dir@,
            data_dir@,
            debug_build,
            log,
            platform,
        ),
{
    let mut args: Vec<Location> = Vec::new();
    args.push(marker_location(base_dir));
    assert(args.deep_view() =~= seq![child_of(base_dir@, MARKER_FILE@)]);
    let mut command = backend_command(interpreter, args, base_dir, data_dir);
    configure_backend_stdio(&mut command, debug_build, log);
    set_no_window(&mut command, platform);
    command
}

} // verus!
