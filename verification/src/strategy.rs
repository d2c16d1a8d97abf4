//! In which order the two ways of starting the backend are tried.
//!
//! Starting a process cannot be undone, so the ways are never tried ahead of
//! time. A [`Launch`] names the way to try now; the caller tries it and
//! reports the outcome, and is told whether the backend runs, whether to try
//! the other way, or that nothing is left to try.

use vstd::prelude::*;

verus! {

/// A way of starting the backend.
#[derive(Clone, Copy, Debug, PartialEq, Eq, Structural)]
pub enum Mechanism {
    /// Run the native executable.
    Binary,
    /// Run the backend's script through an interpreter.
    Interpreter,
}

/// How one attempt went.
#[derive(Debug, PartialEq, Eq)]
pub enum Outcome<H, E> {
    /// The process was created; `H` is the handle onto it.
    Started(H),
    /// There was nothing to start: no executable at any of its places.
    NoCandidate,
    /// The operating system refused to create the process.
    Failed(E),
}

/// Why no backend runs.
#[derive(Debug, PartialEq, Eq)]
pub enum LaunchError<E> {
    /// No way had anything to start, and none failed.
    NothingToLaunch,
    /// A process could not be created; `E` is the refusal met last.
    SpawnFailed(E),
}

/// A launch that is under way.
#[derive(Debug, PartialEq, Eq)]
pub struct Launch<E> {
    /// The way to try now.
    pub mechanism: Mechanism,
    /// The way to try after it, if it yields no process.
    pub fallback: Option<Mechanism>,
    /// The refusal met last, if any attempt was refused.
    pub last_error: Option<E>,
}

/// What follows from the report of an attempt.
#[derive(Debug, PartialEq, Eq)]
pub enum Progress<H, E> {
    /// No process yet: try the way that this launch names.
    Retry(Launch<E>),
    /// The backend runs.
    Running(H),
    /// Every way was tried and none gave a process.
    GaveUp(LaunchError<E>),
}

impl<E> Launch<E> {
    /// The launch before any attempt: the preferred way first, the other as
    /// fallback.
    pub open spec fn initial(prefer_interpreter: bool) -> Launch<E> {
        if prefer_interpreter {
            Launch {
                mechanism: Mechanism::Interpreter,
                fallback: Some(Mechanism::Binary),
                last_error: None,
            }
        } else {
            Launch {
                mechanism: Mechanism::Binary,
                fallback: Some(Mechanism::Interpreter),
                last_error: None,
            }
        }
    }

    /// The refusal to remember once `outcome` is known: the new one if this
    /// attempt was refused, else the one remembered before.
    pub open spec fn error_after<H>(self, outcome: Outcome<H, E>) -> Option<E> {
        match outcome {
            Outcome::Failed(error) => Some(error),
            _ => self.last_error,
        }
    }

    /// The transition: what follows when the attempt of `self.mechanism`
    /// ended in `outcome`.
    pub open spec fn step<H>(self, outcome: Outcome<H, E>) -> Progress<H, E> {
        match outcome {
            Outcome::Started(handle) => Progress::Running(handle),
            _ => match self.fallback {
                Some(next) => Progress::Retry(
                    Launch { mechanism: next, fallback: None, last_error: self.error_after(outcome) },
                ),
                None => Progress::GaveUp(
                    match self.error_after(outcome) {
                        Some(error) => LaunchError::SpawnFailed(error),
                        None => LaunchError::NothingToLaunch,
                    },
                ),
            },
        }
    }

    pub fn begin(prefer_interpreter: bool) -> (launch: Launch<E>)
        ensures
            launch == Launch::<E>::initial(prefer_interpreter),
    {
        if prefer_interpreter {
            Launch {
                mechanism: Mechanism::Interpreter,
                fallback: Some(Mechanism::Binary),
                last_error: None,
            }
        } else {
            Launch {
                mechanism: Mechanism::Binary,
                fallback: Some(Mechanism::Interpreter),
                last_error: None,
            }
        }
    }

    /// Takes the outcome of the attempt of `self.mechanism` and says what
    /// follows.
    pub fn report<H>(self, outcome: Outcome<H, E>) -> (progress: Progress<H, E>)
        ensures
            progress == self.step(outcome),
    {
        let last_error = match outcome {
            Outcome::Started(handle) => {
                return Progress::Running(handle);
            },
            Outcome::NoCandidate => self.last_error,
            Outcome::Failed(error) => Some(error),
        };
        match self.fallback {
            Some(next) => Progress::Retry(Launch { mechanism: next, fallback: None, last_error }),
            None => Progress::GaveUp(
                match last_error {
                    Some(error) => LaunchError::SpawnFailed(error),
                    None => LaunchError::NothingToLaunch,
                },
            ),
        }
    }
}

/// How the attempt of `mechanism` ends in a world where the native
/// executable would end in `binary` and the interpreter in `interpreter`.
pub open spec fn outcome_of<H, E>(
    mechanism: Mechanism,
    binary: Outcome<H, E>,
    interpreter: Outcome<H, E>,
) -> Outcome<H, E> {
    match mechanism {
        Mechanism::Binary => binary,
        Mechanism::Interpreter => interpreter,
    }
}

/// A launch from start to end.
pub struct Run<H, E> {
    /// The ways that were tried, in the order they were tried.
    pub attempts: Seq<Mechanism>,
    /// The handle of the running backend, or why there is none.
    pub result: Result<H, LaunchError<E>>,
}

/// The course that `launch` takes to its end in a world where the native
/// executable would end in `binary` and the interpreter in `interpreter`.
pub open spec fn run<H, E>(
    launch: Launch<E>,
    binary: Outcome<H, E>,
    interpreter: Outcome<H, E>,
) -> Run<H, E>
    decreases
        (if launch.fallback is Some {
            1nat
        } else {
            0nat
        }),
{
    match launch.step(outcome_of(launch.mechanism, binary, interpreter)) {
        Progress::Retry(next) => {
            let rest = run(next, binary, interpreter);
            Run { attempts: seq![launch.mechanism] + rest.attempts, result: rest.result }
        },
        Progress::Running(handle) => Run { attempts: seq![launch.mechanism], result: Ok(handle) },
        Progress::GaveUp(error) => Run { attempts: seq![launch.mechanism], result: Err(error) },
    }
}

/// With the native executable preferred, present and startable, the
/// interpreter is never tried: the executable is the only attempt, and its
/// process is the backend.
pub proof fn binary_first_success_skips_interpreter<H, E>(handle: H, interpreter: Outcome<H, E>)
    ensures
        run(Launch::<E>::initial(false), Outcome::Started(handle), interpreter) == (Run::<H, E> {
            attempts: seq![Mechanism::Binary],
            result: Ok(handle),
        }),
        !run(
            Launch::<E>::initial(false),
            Outcome::Started(handle),
            interpreter,
        ).attempts.contains(Mechanism::Interpreter),
{
}

/// With the native executable preferred but at none of its places, the
/// interpreter is tried exactly once, after the executable, and decides the
/// launch.
pub proof fn binary_first_absent_tries_interpreter_once<H, E>(interpreter: Outcome<H, E>)
    ensures
        run(Launch::<E>::initial(false), Outcome::NoCandidate, interpreter) == (Run::<H, E> {
            attempts: seq![Mechanism::Binary, Mechanism::Interpreter],
            result: match interpreter {
                Outcome::Started(handle) => Ok(handle),
                Outcome::NoCandidate => Err(LaunchError::NothingToLaunch),
                Outcome::Failed(error) => Err(LaunchError::SpawnFailed(error)),
            },
        }),
        run(Launch::<E>::initial(false), Outcome::NoCandidate, interpreter).attempts.filter(
            |m: Mechanism| m == Mechanism::Interpreter,
        ).len() == 1,
{
    reveal_with_fuel(run, 2);
    let attempts = run(Launch::<E>::initial(false), Outcome::NoCandidate, interpreter).attempts;
    assert(attempts =~= seq![Mechanism::Binary, Mechanism::Interpreter]);
    let wanted = |m: Mechanism| m == Mechanism::Interpreter;
    reveal_with_fuel(Seq::filter, 3);
    assert(attempts.drop_last() =~= seq![Mechanism::Binary]);
    assert(attempts.drop_last().drop_last() =~= Seq::<Mechanism>::empty());
    assert(attempts.filter(wanted) =~= seq![Mechanism::Interpreter]);
}

/// With the interpreter preferred and refused, the native executable is
/// tried before the launch is given up: it is the second attempt, its
/// process is the backend if it starts, and only if it does not start is a
/// failure reported, with the refusal met last.
pub proof fn interpreter_first_failure_falls_back<H, E>(binary: Outcome<H, E>, refusal: E)
    ensures
        run(Launch::<E>::initial(true), binary, Outcome::Failed(refusal)) == (Run::<H, E> {
            attempts: seq![Mechanism::Interpreter, Mechanism::Binary],
            result: match binary {
                Outcome::Started(handle) => Ok(handle),
                Outcome::NoCandidate => Err(LaunchError::SpawnFailed(refusal)),
                Outcome::Failed(error) => Err(LaunchError::SpawnFailed(error)),
            },
        }),
{
    reveal_with_fuel(run, 2);
    let attempts = run(Launch::<E>::initial(true), binary, Outcome::Failed(refusal)).attempts;
    assert(attempts =~= seq![Mechanism::Interpreter, Mechanism::Binary]);
}

/// Whichever way is preferred, the way tried first is the preferred one, a
/// way is tried at most once, and the launch ends with a running backend
/// exactly if one of the ways that were tried started a process.
pub proof fn launch_succeeds_iff_an_attempt_starts<H, E>(
    prefer_interpreter: bool,
    binary: Outcome<H, E>,
    interpreter: Outcome<H, E>,
)
    ensures
        ({
            let course = run(Launch::<E>::initial(prefer_interpreter), binary, interpreter);
            let first = if prefer_interpreter {
                Mechanism::Interpreter
            } else {
                Mechanism::Binary
            };
            &&& 1 <= course.attempts.len() <= 2
            &&& course.attempts[0] == first
            &&& course.attempts.len() == 2 ==> course.attempts[1] != first
            &&& course.attempts.len() == 1 <==> outcome_of(first, binary, interpreter) is Started
            &&& course.result is Ok <==> (binary is Started || interpreter is Started)
        }),
{
    reveal_with_fuel(run, 2);
}

} // verus!
