use backend_supervisor::command::{CommandSpec, Program, Sink};
use backend_supervisor::launch::{
    binary_candidates, binary_command, interpreter_command, prefer_interpreter,
    resolve_interpreter, select_binary, venv_interpreter, FORCE_INTERPRETER_VARIABLE,
    INTERPRETER_VARIABLE,
};
use backend_supervisor::paths::{Location, Probe};
use backend_supervisor::platform::Platform;
use backend_supervisor::stdio::LogAttempt;

fn location(root: &str, steps: &[&str]) -> Location {
    Location { root: root.to_string(), steps: steps.iter().map(|s| s.to_string()).collect() }
}

fn pair(name: &str, value: &str) -> (String, String) {
    (name.to_string(), value.to_string())
}

fn environment(base_dir: &str, data_dir: &str) -> Vec<(String, String)> {
    vec![
        pair("MKDSC_BASE_DIR", base_dir),
        pair("MKDSC_DATA_DIR", data_dir),
        pair("MKDSC_HOST", "127.0.0.1"),
        pair("MKDSC_PORT", "6969"),
        pair("MKDSC_AUTO_OPEN", "0"),
    ]
}

#[test]
fn variable_names_are_fixed() {
    assert_eq!(FORCE_INTERPRETER_VARIABLE, "MKDSC_FORCE_PYTHON");
    assert_eq!(INTERPRETER_VARIABLE, "MKDSC_PYTHON");
}

#[test]
fn interpreter_is_preferred_in_development_or_on_request() {
    assert!(prefer_interpreter(true, false));
    assert!(prefer_interpreter(true, true));
    assert!(prefer_interpreter(false, true));
    assert!(!prefer_interpreter(false, false));
}

#[test]
fn binary_is_looked_for_in_two_places_on_unix() {
    assert_eq!(
        binary_candidates(&"/opt/app".to_string(), Platform::Unix),
        vec![
            location("/opt/app", &["bin", "mkdsc-backend"]),
            location("/opt/app", &["src-tauri", "bin", "mkdsc-backend"]),
        ]
    );
}

#[test]
fn binary_is_looked_for_in_two_places_on_windows() {
    assert_eq!(
        binary_candidates(&"C:\\app".to_string(), Platform::Windows),
        vec![
            location("C:\\app", &["bin", "mkdsc-backend.exe"]),
            location("C:\\app", &["src-tauri", "bin", "mkdsc-backend.exe"]),
        ]
    );
}

fn probed(found: [bool; 2]) -> Vec<Probe<Location>> {
    binary_candidates(&"/opt/app".to_string(), Platform::Unix)
        .into_iter()
        .zip(found)
        .map(|(subject, found)| Probe { subject, found })
        .collect()
}

#[test]
fn installed_binary_is_taken_first() {
    assert_eq!(
        select_binary(probed([true, true])),
        Some(location("/opt/app", &["bin", "mkdsc-backend"]))
    );
    assert_eq!(
        select_binary(probed([true, false])),
        Some(location("/opt/app", &["bin", "mkdsc-backend"]))
    );
}

#[test]
fn build_tree_binary_is_taken_second() {
    assert_eq!(
        select_binary(probed([false, true])),
        Some(location("/opt/app", &["src-tauri", "bin", "mkdsc-backend"]))
    );
}

#[test]
fn absent_binary_is_no_candidate() {
    assert_eq!(select_binary(probed([false, false])), None);
    assert_eq!(select_binary(Vec::new()), None);
}

#[test]
fn venv_interpreter_lies_below_the_base_dir() {
    assert_eq!(
        venv_interpreter(&"/opt/app".to_string(), Platform::Unix),
        location("/opt/app", &[".venv", "bin", "python"])
    );
    assert_eq!(
        venv_interpreter(&"C:\\app".to_string(), Platform::Windows),
        location("C:\\app", &[".venv", "Scripts", "python.exe"])
    );
}

fn venv(found: bool, platform: Platform) -> Probe<Location> {
    Probe { subject: venv_interpreter(&"/opt/app".to_string(), platform), found }
}

#[test]
fn explicit_interpreter_wins() {
    let named = Some("/usr/bin/pypy3".to_string());
    assert_eq!(
        resolve_interpreter(named.clone(), venv(true, Platform::Unix), Platform::Unix),
        Program::Named("/usr/bin/pypy3".to_string())
    );
    assert_eq!(
        resolve_interpreter(named, venv(false, Platform::Windows), Platform::Windows),
        Program::Named("/usr/bin/pypy3".to_string())
    );
}

#[test]
fn venv_interpreter_is_taken_when_present() {
    assert_eq!(
        resolve_interpreter(None, venv(true, Platform::Unix), Platform::Unix),
        Program::At(location("/opt/app", &[".venv", "bin", "python"]))
    );
    assert_eq!(
        resolve_interpreter(None, venv(true, Platform::Windows), Platform::Windows),
        Program::At(location("/opt/app", &[".venv", "Scripts", "python.exe"]))
    );
}

#[test]
fn default_interpreter_is_the_last_resort() {
    assert_eq!(
        resolve_interpreter(None, venv(false, Platform::Unix), Platform::Unix),
        Program::Named("python3".to_string())
    );
    assert_eq!(
        resolve_interpreter(None, venv(false, Platform::Windows), Platform::Windows),
        Program::Named("python".to_string())
    );
}

#[test]
fn binary_command_on_packaged_unix() {
    let command = binary_command(
        location("/opt/app", &["bin", "mkdsc-backend"]),
        &"/opt/app".to_string(),
        &"/home/u/data".to_string(),
        false,
        Some(LogAttempt::Opened { duplicated: true }),
        Platform::Unix,
    );
    assert_eq!(
        command,
        CommandSpec {
            program: Program::At(location("/opt/app", &["bin", "mkdsc-backend"])),
            args: Vec::new(),
            current_dir: "/opt/app".to_string(),
            env: environment("/opt/app", "/home/u/data"),
            stdout: Sink::LogFile,
            stderr: Sink::LogFile,
            creation_flags: None,
        }
    );
}

#[test]
fn binary_command_on_packaged_windows_without_log() {
    let command = binary_command(
        location("C:\\app", &["src-tauri", "bin", "mkdsc-backend.exe"]),
        &"C:\\app".to_string(),
        &"C:\\data".to_string(),
        false,
        Some(LogAttempt::DirUnavailable),
        Platform::Windows,
    );
    assert_eq!(
        command,
        CommandSpec {
            program: Program::At(location("C:\\app", &["src-tauri", "bin", "mkdsc-backend.exe"])),
            args: Vec::new(),
            current_dir: "C:\\app".to_string(),
            env: environment("C:\\app", "C:\\data"),
            stdout: Sink::Null,
            stderr: Sink::Null,
            creation_flags: Some(0x0800_0000),
        }
    );
}

#[test]
fn interpreter_command_in_development() {
    let command = interpreter_command(
        Program::Named("python3".to_string()),
        &"/src/app".to_string(),
        &"/src/app".to_string(),
        true,
        None,
        Platform::Unix,
    );
    assert_eq!(
        command,
        CommandSpec {
            program: Program::Named("python3".to_string()),
            args: vec![location("/src/app", &["tauri_backend.py"])],
            current_dir: "/src/app".to_string(),
            env: environment("/src/app", "/src/app"),
            stdout: Sink::Inherit,
            stderr: Sink::Inherit,
            creation_flags: None,
        }
    );
}

#[test]
fn interpreter_command_with_venv_on_packaged_windows() {
    let command = interpreter_command(
        Program::At(location("C:\\app", &[".venv", "Scripts", "python.exe"])),
        &"C:\\app".to_string(),
        &"C:\\data".to_string(),
        false,
        Some(LogAttempt::Opened { duplicated: false }),
        Platform::Windows,
    );
    assert_eq!(
        command,
        CommandSpec {
            program: Program::At(location("C:\\app", &[".venv", "Scripts", "python.exe"])),
            args: vec![location("C:\\app", &["tauri_backend.py"])],
            current_dir: "C:\\app".to_string(),
            env: environment("C:\\app", "C:\\data"),
            stdout: Sink::LogFile,
            stderr: Sink::Null,
            creation_flags: Some(0x0800_0000),
        }
    );
}

#[test]
fn denied_log_directory_still_gives_a_command() {
    let command = interpreter_command(
        Program::Named("python3".to_string()),
        &"/opt/app".to_string(),
        &"/readonly".to_string(),
        false,
        Some(LogAttempt::DirUnavailable),
        Platform::Unix,
    );
    assert_eq!((command.stdout, command.stderr), (Sink::Null, Sink::Null));
    assert_eq!(command.program, Program::Named("python3".to_string()));
    assert_eq!(command.env, environment("/opt/app", "/readonly"));
}
