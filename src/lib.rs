//! Launcher for rit subcommands: a blacklist, a child process and an
//! in-process fallback, composed into one dispatch chain.
pub mod error;
pub mod launcher;
pub mod laws;

pub use error::{LaunchFailed, SpawnOutcome};
pub use launcher::{
    get_default_launcher, BlacklistLauncher, Command, FallbackLauncher, Launcher, LibLauncher,
    ProcLauncher, RitLauncher, Step,
};
