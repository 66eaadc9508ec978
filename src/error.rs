use vstd::prelude::*;

verus! {

/// How an attempt to start a child process ended, as reported by the
/// operating system.
#[derive(Debug)]
pub enum SpawnOutcome {
    /// The child ran and terminated: `Some(code)` for an exit code,
    /// `None` when a signal ended it.
    Exited(Option<i32>),
    /// The base command does not exist on this system.
    NotFound,
    /// Any other failure to start the child, with the system's message.
    Failed(String),
}

/// Why a launch did not succeed.
#[derive(Debug)]
pub enum LaunchFailed {
    /// The base command was not found; carries the subcommand name.
    NotFound(String),
    /// The subcommand name is forbidden for this launcher.
    Blacklisted(String),
    /// The child ran but reported failure: the subcommand name and the exit
    /// code, `None` when a signal ended it.
    BadExitCode(String, Option<i32>),
    /// Another failure to start the child, with the system's message.
    Io(String),
}

/// Mathematical view of a [`LaunchFailed`].
pub ghost enum Failure {
    NotFound(Seq<char>),
    Blacklisted(Seq<char>),
    BadExitCode(Seq<char>, Option<i32>),
    Io(Seq<char>),
}

impl View for LaunchFailed {
    type V = Failure;

    open spec fn view(&self) -> Failure {
        match self {
            LaunchFailed::NotFound(n) => Failure::NotFound(n@),
            LaunchFailed::Blacklisted(n) => Failure::Blacklisted(n@),
            LaunchFailed::BadExitCode(n, c) => Failure::BadExitCode(n@, *c),
            LaunchFailed::Io(m) => Failure::Io(m@),
        }
    }
}

/// What a child process's outcome means for the launch of subcommand `name`.
pub open spec fn outcome_result(name: Seq<char>, o: SpawnOutcome) -> Result<(), Failure> {
    match o {
        SpawnOutcome::Exited(Some(code)) => if code == 0 {
            Ok(())
        } else {
            Err(Failure::BadExitCode(name, Some(code)))
        },
        SpawnOutcome::Exited(None) => Err(Failure::BadExitCode(name, None)),
        SpawnOutcome::NotFound => Err(Failure::NotFound(name)),
        SpawnOutcome::Failed(m) => Err(Failure::Io(m@)),
    }
}

} // verus!
