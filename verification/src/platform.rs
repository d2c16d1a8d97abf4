//! What differs between the operating systems the supervisor runs on.

use vstd::prelude::*;

verus! {

/// Process-creation flag that keeps Windows from opening a console window
/// for the child.
pub const CREATE_NO_WINDOW: u32 = 0x0800_0000;

/// The operating-system family the supervisor runs on.
#[derive(Clone, Copy, Debug, PartialEq, Eq, Structural)]
pub enum Platform {
    Windows,
    Unix,
}

impl Platform {
    /// Suffix that the platform puts behind the name of an executable file.
    pub open spec fn suffix_text(self) -> Seq<char> {
        match self {
            Platform::Windows => ".exe"@,
            Platform::Unix => ""@,
        }
    }

    /// File name of the native backend executable.
    pub open spec fn backend_binary_text(self) -> Seq<char> {
        "mkdsc-backend"@ + self.suffix_text()
    }

    /// Name under which the interpreter is looked up on the search path when
    /// nothing more specific is known.
    pub open spec fn default_interpreter_text(self) -> Seq<char> {
        match self {
            Platform::Windows => "python"@,
            Platform::Unix => "python3"@,
        }
    }

    /// Names to descend through, from the base directory, to the interpreter
    /// of a virtual environment.
    pub open spec fn venv_interpreter_steps_text(self) -> Seq<Seq<char>> {
        match self {
            Platform::Windows => seq![".venv"@, "Scripts"@, "python.exe"@],
            Platform::Unix => seq![".venv"@, "bin"@, "python"@],
        }
    }

    /// Creation flags that suppress a console window, where the platform has
    /// such a thing.
    pub open spec fn no_window_flags(self) -> Option<u32> {
        match self {
            Platform::Windows => Some(CREATE_NO_WINDOW),
            Platform::Unix => None,
        }
    }

    pub fn executable_suffix(self) -> (suffix: &'static str)
        ensures
            suffix@ == self.suffix_text(),
    {
        match self {
            Platform::Windows => ".exe",
            Platform::Unix => "",
        }
    }

    pub fn backend_binary_name(self) -> (name: String)
        ensures
            name@ == self.backend_binary_text(),
    {
        "mkdsc-backend".to_owned().concat(self.executable_suffix())
    }

    pub fn default_interpreter(self) -> (name: String)
        ensures
            name@ == self.default_interpreter_text(),
    {
        match self {
            Platform::Windows => "python".to_owned(),
            Platform::Unix => "python3".to_owned(),
        }
    }

    pub fn venv_interpreter_steps(self) -> (steps: Vec<String>)
        ensures
            steps.deep_view() == self.venv_interpreter_steps_text(),
    {
        let mut steps: Vec<String> = Vec::new();
        steps.push(".venv".to_owned());
        match self {
            Platform::Windows => {
                steps.push("Scripts".to_owned());
                steps.push("python.exe".to_owned());
            },
            Platform::Unix => {
                steps.push("bin".to_owned());
                steps.push("python".to_owned());
            },
        }
        assert(steps.deep_view() =~= self.venv_interpreter_steps_text());
        steps
    }

    pub fn creation_flags(self) -> (flags: Option<u32>)
        ensures
            flags == self.no_window_flags(),
    {
        match self {
            Platform::Windows => Some(CREATE_NO_WINDOW),
            Platform::Unix => None,
        }
    }
}

} // verus!
