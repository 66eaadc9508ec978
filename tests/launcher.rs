use rit_launcher::{
    get_default_launcher, BlacklistLauncher, Command, FallbackLauncher, LaunchFailed, Launcher,
    LibLauncher, ProcLauncher, RitLauncher, SpawnOutcome, Step,
};

/// A stand-in for the operating system: `true` and `git` exit with code 0,
/// `false` with code 1, `killed` by a signal, `locked` cannot be started, and
/// no other program exists.
fn simulated_system(cmd: &Command) -> SpawnOutcome {
    match cmd.program.as_str() {
        "true" | "git" => SpawnOutcome::Exited(Some(0)),
        "false" => SpawnOutcome::Exited(Some(1)),
        "killed" => SpawnOutcome::Exited(None),
        "locked" => SpawnOutcome::Failed("permission denied".to_string()),
        _ => SpawnOutcome::NotFound,
    }
}

/// Runs a launch to its end, with the child processes it asks for answered
/// by `simulated_system`; also returns the commands that were asked for.
fn run(l: &impl RitLauncher, name: &str, args: &[String]) -> (Result<(), LaunchFailed>, Vec<Command>) {
    let mut outcomes = Vec::new();
    let mut spawned = Vec::new();
    loop {
        match l.launch(name, args, &outcomes) {
            Step::Spawn(c) => {
                outcomes.push(simulated_system(&c));
                spawned.push(c);
            }
            Step::Done(r) => return (r, spawned),
        }
    }
}

fn succeeding() -> Launcher {
    Launcher::Lib(LibLauncher::new())
}

fn failing() -> Launcher {
    Launcher::Proc(ProcLauncher::new("false"))
}

fn blacklist_of(names: &[&str]) -> Vec<String> {
    names.iter().map(|n| n.to_string()).collect()
}

#[test]
fn proclauncher_launches_processes() {
    let launcher = ProcLauncher::new("true");
    assert!(run(&launcher, "whatever", &[]).0.is_ok());
}

#[test]
fn proclauncher_fails_on_nonexistent() {
    let launcher = ProcLauncher::new("not-a-real-command");
    assert!(run(&launcher, "this-shouldnt-exist", &[]).0.is_err());
}

#[test]
fn liblauncher_launches_libs() {
    let launcher = LibLauncher::new();
    assert!(run(&launcher, "test", &[]).0.is_ok());
}

// The in-process launcher is a stub that succeeds for every name.
#[test]
fn liblauncher_fails_on_nonexistent() {
    let launcher = LibLauncher::new();
    assert!(run(&launcher, "this-shouldnt-exist", &[]).0.is_ok());
}

#[test]
fn blacklistlauncher_works_on_others() {
    let launcher = BlacklistLauncher::new(succeeding(), blacklist_of(&["blacklisted"]));
    assert!(run(&launcher, "not-blacklisted", &[]).0.is_ok());
}

#[test]
fn blacklistlauncher_fails_on_blacklisted() {
    let launcher = BlacklistLauncher::new(succeeding(), blacklist_of(&["blacklisted"]));
    assert!(run(&launcher, "blacklisted", &[]).0.is_err());
}

#[test]
fn fallbacklauncher_falls_back() {
    let launcher = FallbackLauncher::new(vec![failing(), succeeding()]).unwrap();
    assert!(run(&launcher, "whatever", &[]).0.is_ok());
}

#[test]
fn fallbacklauncher_ultimately_fails() {
    let launcher = FallbackLauncher::new(vec![failing(), failing()]).unwrap();
    assert!(run(&launcher, "whatever", &[]).0.is_err());
}

#[test]
fn dummy_launcher_combination_works() {
    let launcher = FallbackLauncher::new(vec![
        Launcher::Blacklist(BlacklistLauncher::new(succeeding(), blacklist_of(&["help"]))),
        Launcher::Lib(LibLauncher::new()),
    ])
    .unwrap();
    assert!(run(&launcher, "status", &[]).0.is_ok());
}

#[test]
fn default_launcher_works() {
    let launcher = get_default_launcher();
    assert!(run(&launcher, "help", &[]).0.is_ok());
}

// The in-process fallback masks the failure of the child process.
#[test]
fn default_launcher_fails_on_nonexistent() {
    let launcher = get_default_launcher();
    assert!(run(&launcher, "not-a-real-command", &[]).0.is_ok());
}

#[test]
fn fallback_chain_without_launchers_is_refused() {
    assert!(FallbackLauncher::new(vec![]).is_none());
}

#[test]
fn proc_command_puts_name_before_args() {
    let launcher = ProcLauncher::new("git");
    let args = vec!["-s".to_string(), "--branch".to_string()];
    let (r, spawned) = run(&launcher, "status", &args);
    assert!(r.is_ok());
    assert_eq!(spawned.len(), 1);
    assert_eq!(spawned[0].program, "git");
    assert_eq!(spawned[0].args, vec!["status", "-s", "--branch"]);
}

#[test]
fn proc_not_found_names_the_subcommand() {
    let launcher = ProcLauncher::new("not-a-real-command");
    let r = run(&launcher, "this-shouldnt-exist", &[]).0;
    assert!(matches!(r, Err(LaunchFailed::NotFound(n)) if n == "this-shouldnt-exist"));
}

#[test]
fn proc_bad_exit_code_carries_code() {
    let launcher = ProcLauncher::new("false");
    let r = run(&launcher, "commit", &[]).0;
    assert!(matches!(r, Err(LaunchFailed::BadExitCode(n, Some(1))) if n == "commit"));
}

#[test]
fn proc_signal_is_bad_exit_without_code() {
    let launcher = ProcLauncher::new("killed");
    let r = run(&launcher, "log", &[]).0;
    assert!(matches!(r, Err(LaunchFailed::BadExitCode(n, None)) if n == "log"));
}

#[test]
fn proc_other_spawn_failure_is_io() {
    let launcher = ProcLauncher::new("locked");
    let r = run(&launcher, "log", &[]).0;
    assert!(matches!(r, Err(LaunchFailed::Io(m)) if m == "permission denied"));
}

#[test]
fn finish_maps_outcomes() {
    assert!(ProcLauncher::finish("x", &SpawnOutcome::Exited(Some(0))).is_ok());
    assert!(matches!(
        ProcLauncher::finish("x", &SpawnOutcome::Exited(Some(2))),
        Err(LaunchFailed::BadExitCode(n, Some(2))) if n == "x"
    ));
    assert!(matches!(
        ProcLauncher::finish("x", &SpawnOutcome::NotFound),
        Err(LaunchFailed::NotFound(n)) if n == "x"
    ));
}

#[test]
fn blacklisted_error_names_the_subcommand_and_spawns_nothing() {
    let guarded = Launcher::Proc(ProcLauncher::new("git"));
    let launcher = BlacklistLauncher::new(guarded, blacklist_of(&["help", "blacklisted"]));
    let (r, spawned) = run(&launcher, "blacklisted", &[]);
    assert!(matches!(r, Err(LaunchFailed::Blacklisted(n)) if n == "blacklisted"));
    assert!(spawned.is_empty());
}

#[test]
fn blacklist_match_is_exact() {
    let launcher = BlacklistLauncher::new(succeeding(), blacklist_of(&["help"]));
    assert!(launcher.is_forbidden("help"));
    assert!(!launcher.is_forbidden("Help"));
    assert!(!launcher.is_forbidden("hel"));
    assert!(run(&launcher, "Help", &[]).0.is_ok());
}

#[test]
fn blacklist_passes_through_wrapped_error() {
    let launcher = BlacklistLauncher::new(failing(), blacklist_of(&["help"]));
    let r = run(&launcher, "status", &[]).0;
    assert!(matches!(r, Err(LaunchFailed::BadExitCode(n, Some(1))) if n == "status"));
}

#[test]
fn fallback_reports_last_error() {
    let launcher = FallbackLauncher::new(vec![
        Launcher::Proc(ProcLauncher::new("not-a-real-command")),
        failing(),
    ])
    .unwrap();
    let r = run(&launcher, "whatever", &[]).0;
    assert!(matches!(r, Err(LaunchFailed::BadExitCode(n, Some(1))) if n == "whatever"));
}

#[test]
fn fallback_stops_at_first_success() {
    let launcher = FallbackLauncher::new(vec![
        failing(),
        Launcher::Proc(ProcLauncher::new("true")),
        failing(),
    ])
    .unwrap();
    let (r, spawned) = run(&launcher, "whatever", &[]);
    assert!(r.is_ok());
    let programs: Vec<&str> = spawned.iter().map(|c| c.program.as_str()).collect();
    assert_eq!(programs, vec!["false", "true"]);
}

#[test]
fn fallback_of_one_is_that_launcher() {
    let launcher = FallbackLauncher::new(vec![failing()]).unwrap();
    assert!(run(&launcher, "x", &[]).0.is_err());
}

#[test]
fn default_launcher_help_spawns_nothing() {
    let launcher = get_default_launcher();
    let (r, spawned) = run(&launcher, "help", &[]);
    assert!(r.is_ok());
    assert!(spawned.is_empty());
}

#[test]
fn default_launcher_runs_git_status() {
    let launcher = get_default_launcher();
    let first = launcher.launch("status", &[], &[]);
    match first {
        Step::Spawn(c) => {
            assert_eq!(c.program, "git");
            assert_eq!(c.args, vec!["status"]);
        }
        Step::Done(_) => panic!("expected a child process"),
    }
    let done = launcher.launch("status", &[], &[SpawnOutcome::Exited(Some(0))]);
    assert!(matches!(done, Step::Done(Ok(()))));
}

#[test]
fn default_launcher_masks_missing_git() {
    let launcher = get_default_launcher();
    let done = launcher.launch("not-a-real-command", &[], &[SpawnOutcome::NotFound]);
    assert!(matches!(done, Step::Done(Ok(()))));
}
