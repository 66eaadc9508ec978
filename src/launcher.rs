use vstd::prelude::*;

use crate::error::{outcome_result, Failure, LaunchFailed, SpawnOutcome};

verus! {

/// The subcommand arguments as character sequences.
pub open spec fn view_strings(s: Seq<String>) -> Seq<Seq<char>> {
    s.map_values(|x: String| x@)
}

/// A request to run `program` with the argument vector `args`.
#[derive(Debug)]
pub struct Command {
    pub program: String,
    pub args: Vec<String>,
}

/// What a launch asks of its caller next: to start a child process and
/// report how it ended, or nothing more, with the launch's result.
#[derive(Debug)]
pub enum Step {
    Spawn(Command),
    Done(Result<(), LaunchFailed>),
}

/// Mathematical view of a [`Step`].
pub ghost enum StepView {
    Spawn(Seq<char>, Seq<Seq<char>>),
    Done(Result<(), Failure>),
}

impl View for Step {
    type V = StepView;

    open spec fn view(&self) -> StepView {
        match self {
            Step::Spawn(c) => StepView::Spawn(c.program@, view_strings(c.args@)),
            Step::Done(Ok(())) => StepView::Done(Ok(())),
            Step::Done(Err(e)) => StepView::Done(Err(e@)),
        }
    }
}

/// Launches subcommands as `<cmd_name> <name> <args...>` in a child process.
pub struct ProcLauncher {
    /// Name of the base command, nominally rit or git.
    pub cmd_name: String,
}

/// Launches subcommands in process. No subcommand is implemented in process
/// yet, so every launch succeeds without doing anything.
pub struct LibLauncher;

/// Wraps another launcher and fails at once when the subcommand name is in
/// its blacklist.
pub struct BlacklistLauncher {
    /// Launcher to be wrapped.
    pub launcher: Box<Launcher>,
    /// Forbidden subcommand names.
    pub blacklist: Vec<String>,
}

/// Tries its launchers in order and falls back to the next one when a launch
/// fails; the last one's result is the chain's.
pub struct FallbackLauncher {
    /// Launchers in the order they are tried; never empty.
    pub launchers: Vec<Launcher>,
}

/// One of the launchers.
pub enum Launcher {
    Proc(ProcLauncher),
    Lib(LibLauncher),
    Blacklist(BlacklistLauncher),
    Fallback(FallbackLauncher),
}

/// Mathematical view of a launch result.
pub open spec fn result_view(r: Result<(), LaunchFailed>) -> Result<(), Failure> {
    match r {
        Ok(()) => Ok(()),
        Err(e) => Err(e@),
    }
}

impl ProcLauncher {
    /// The step of this launcher when `outs[at..]` holds the outcomes of the
    /// child processes not yet accounted for; the second component is the
    /// position after the outcomes used.
    pub open spec fn eval(
        self,
        name: Seq<char>,
        args: Seq<Seq<char>>,
        outs: Seq<SpawnOutcome>,
        at: nat,
    ) -> (StepView, nat) {
        if at < outs.len() {
            (StepView::Done(outcome_result(name, outs[at as int])), at + 1)
        } else {
            (StepView::Spawn(self.cmd_name@, seq![name] + args), at)
        }
    }
}

impl BlacklistLauncher {
    /// `name` is one of the forbidden names, compared exactly.
    pub open spec fn forbids(self, name: Seq<char>) -> bool {
        exists|i: int| 0 <= i < self.blacklist@.len() && #[trigger] self.blacklist@[i]@ == name
    }

    pub open spec fn wf(self) -> bool
        decreases self, 0int,
    {
        self.launcher.wf()
    }

    /// A forbidden name fails at once, without the wrapped launcher; any
    /// other name is the wrapped launcher's.
    pub open spec fn eval(
        self,
        name: Seq<char>,
        args: Seq<Seq<char>>,
        outs: Seq<SpawnOutcome>,
        at: nat,
    ) -> (StepView, nat)
        decreases self, 0int,
    {
        if self.forbids(name) {
            (StepView::Done(Err(Failure::Blacklisted(name))), at)
        } else {
            self.launcher.eval(name, args, outs, at)
        }
    }
}

impl FallbackLauncher {
    /// The chain is non-empty and each of its launchers is well-formed.
    pub open spec fn wf(self) -> bool
        decreases self, 0int,
    {
        &&& self.launchers@.len() > 0
        &&& forall|i: int| 0 <= i < self.launchers@.len() ==> (#[trigger] self.launchers@[i]).wf()
    }

    pub open spec fn eval(
        self,
        name: Seq<char>,
        args: Seq<Seq<char>>,
        outs: Seq<SpawnOutcome>,
        at: nat,
    ) -> (StepView, nat)
        decreases self, 0int,
    {
        fallback_eval(self.launchers@, 0, name, args, outs, at)
    }
}

impl Launcher {
    /// Well-formed: every fallback chain in the tree is non-empty.
    pub open spec fn wf(self) -> bool
        decreases self, 0int,
    {
        match self {
            Launcher::Blacklist(b) => b.wf(),
            Launcher::Fallback(f) => f.wf(),
            _ => true,
        }
    }

    /// The step that launching subcommand `name` with `args` takes, given
    /// that `outs[at..]` holds, in order, the outcomes of the child processes
    /// that earlier steps of the same launch asked for. The second component
    /// is the position in `outs` after the outcomes that this launch used.
    pub open spec fn eval(
        self,
        name: Seq<char>,
        args: Seq<Seq<char>>,
        outs: Seq<SpawnOutcome>,
        at: nat,
    ) -> (StepView, nat)
        decreases self, 0int,
    {
        match self {
            Launcher::Proc(p) => p.eval(name, args, outs, at),
            Launcher::Lib(_) => (StepView::Done(Ok(())), at),
            Launcher::Blacklist(b) => b.eval(name, args, outs, at),
            Launcher::Fallback(f) => f.eval(name, args, outs, at),
        }
    }
}

/// The step of the fallback chain made of `ls[i..]`: the first launcher
/// whose launch does not fail decides it, and the last one decides it in
/// any case.
pub open spec fn fallback_eval(
    ls: Seq<Launcher>,
    i: int,
    name: Seq<char>,
    args: Seq<Seq<char>>,
    outs: Seq<SpawnOutcome>,
    at: nat,
) -> (StepView, nat)
    decreases ls, ls.len() - i,
{
    if 0 <= i < ls.len() {
        let (s, p) = ls[i].eval(name, args, outs, at);
        if i == ls.len() - 1 {
            (s, p)
        } else {
            match s {
                StepView::Done(Err(_)) => fallback_eval(ls, i + 1, name, args, outs, p),
                _ => (s, p),
            }
        }
    } else {
        (StepView::Done(Ok(())), at)
    }
}

impl ProcLauncher {
    pub fn new(cmd_name: &str) -> (r: Self)
        ensures
            r.cmd_name@ == cmd_name@,
    {
        ProcLauncher { cmd_name: cmd_name.to_owned() }
    }

    /// The child process that launching `name` with `args` starts:
    /// the base command with `name` in front of `args`.
    pub fn command(&self, name: &str, args: &[String]) -> (r: Command)
        ensures
            r.program@ == self.cmd_name@,
            view_strings(r.args@) == seq![name@] + view_strings(args@),
    {
        let mut v: Vec<String> = Vec::new();
        v.push(name.to_owned());
        let mut i: usize = 0;
        while i < args.len()
            invariant
                0 <= i <= args@.len(),
                v@.len() == i + 1,
                v@[0]@ == name@,
                forall|j: int| 0 <= j < i ==> #[trigger] v@[j + 1]@ == args@[j]@,
            decreases args@.len() - i,
        {
            v.push(args[i].clone());
            i = i + 1;
        }
        assert forall|k: int| 1 <= k < v@.len() implies v@[k]@ == args@[k - 1]@ by {
            assert(v@[(k - 1) + 1]@ == args@[k - 1]@);
        }
        assert(view_strings(v@) =~= seq![name@] + view_strings(args@));
        Command { program: self.cmd_name.clone(), args: v }
    }

    /// The result of launching `name` when its child process ended with
    /// `outcome`: success exactly on exit code 0.
    pub fn finish(name: &str, outcome: &SpawnOutcome) -> (r: Result<(), LaunchFailed>)
        ensures
            result_view(r) == outcome_result(name@, *outcome),
    {
        match outcome {
            SpawnOutcome::Exited(Some(code)) => {
                if *code == 0 {
                    Ok(())
                } else {
                    Err(LaunchFailed::BadExitCode(name.to_owned(), Some(*code)))
                }
            },
            SpawnOutcome::Exited(None) => Err(LaunchFailed::BadExitCode(name.to_owned(), None)),
            SpawnOutcome::NotFound => Err(LaunchFailed::NotFound(name.to_owned())),
            SpawnOutcome::Failed(m) => Err(LaunchFailed::Io(m.clone())),
        }
    }

    fn launch_from(&self, name: &str, args: &[String], outcomes: &[SpawnOutcome], at: usize) -> (r: (
        Step,
        usize,
    ))
        requires
            at <= outcomes@.len(),
        ensures
            (r.0@, r.1 as nat) == self.eval(name@, view_strings(args@), outcomes@, at as nat),
            r.1 <= outcomes@.len(),
    {
        if at < outcomes.len() {
            (Step::Done(ProcLauncher::finish(name, &outcomes[at])), at + 1)
        } else {
            (Step::Spawn(self.command(name, args)), at)
        }
    }
}

impl LibLauncher {
    pub fn new() -> Self {
        LibLauncher
    }
}

impl BlacklistLauncher {
    pub fn new(launcher: Launcher, blacklist: Vec<String>) -> (r: Self)
        ensures
            *r.launcher == launcher,
            r.blacklist@ == blacklist@,
    {
        BlacklistLauncher { launcher: Box::new(launcher), blacklist }
    }

    /// Whether `name` is in the blacklist.
    pub fn is_forbidden(&self, name: &str) -> (r: bool)
        ensures
            r == self.forbids(name@),
    {
        let owned = name.to_owned();
        let mut i: usize = 0;
        while i < self.blacklist.len()
            invariant
                0 <= i <= self.blacklist@.len(),
                owned@ == name@,
                forall|j: int| 0 <= j < i ==> #[trigger] self.blacklist@[j]@ != name@,
            decreases self.blacklist@.len() - i,
        {
            if self.blacklist[i] == owned {
                return true;
            }
            i = i + 1;
        }
        false
    }

    fn launch_from(&self, name: &str, args: &[String], outcomes: &[SpawnOutcome], at: usize) -> (r: (
        Step,
        usize,
    ))
        requires
            self.wf(),
            at <= outcomes@.len(),
        ensures
            (r.0@, r.1 as nat) == self.eval(name@, view_strings(args@), outcomes@, at as nat),
            r.1 <= outcomes@.len(),
        decreases self, 0int,
    {
        if self.is_forbidden(name) {
            (Step::Done(Err(LaunchFailed::Blacklisted(name.to_owned()))), at)
        } else {
            self.launcher.launch_from(name, args, outcomes, at)
        }
    }
}

impl FallbackLauncher {
    /// A chain of `launchers`; there is none without a launcher.
    pub fn new(launchers: Vec<Launcher>) -> (r: Option<Self>)
        ensures
            r is None <==> launchers@.len() == 0,
            r matches Some(f) ==> f.launchers@ == launchers@,
    {
        if launchers.len() == 0 {
            None
        } else {
            Some(FallbackLauncher { launchers })
        }
    }

    fn launch_from(&self, name: &str, args: &[String], outcomes: &[SpawnOutcome], at: usize) -> (r: (
        Step,
        usize,
    ))
        requires
            self.wf(),
            at <= outcomes@.len(),
        ensures
            (r.0@, r.1 as nat) == self.eval(name@, view_strings(args@), outcomes@, at as nat),
            r.1 <= outcomes@.len(),
        decreases self, 0int,
    {
        let n = self.launchers.len();
        let mut i: usize = 0;
        let mut pos: usize = at;
        loop
            invariant
                0 <= i < n,
                n == self.launchers@.len(),
                pos <= outcomes@.len(),
                self.wf(),
                fallback_eval(self.launchers@, i as int, name@, view_strings(args@), outcomes@, pos as nat)
                    == self.eval(name@, view_strings(args@), outcomes@, at as nat),
            decreases n - i,
        {
            assert(self.launchers@[i as int].wf());
            let (s, p) = self.launchers[i].launch_from(name, args, outcomes, pos);
            if i + 1 == n {
                return (s, p);
            }
            let failed = match &s {
                Step::Done(Err(_)) => true,
                _ => false,
            };
            if !failed {
                return (s, p);
            }
            i = i + 1;
            pos = p;
        }
    }
}

impl Launcher {
    fn launch_from(&self, name: &str, args: &[String], outcomes: &[SpawnOutcome], at: usize) -> (r: (
        Step,
        usize,
    ))
        requires
            self.wf(),
            at <= outcomes@.len(),
        ensures
            (r.0@, r.1 as nat) == self.eval(name@, view_strings(args@), outcomes@, at as nat),
            r.1 <= outcomes@.len(),
        decreases self, 0int,
    {
        match self {
            Launcher::Proc(p) => p.launch_from(name, args, outcomes, at),
            Launcher::Lib(_) => (Step::Done(Ok(())), at),
            Launcher::Blacklist(b) => b.launch_from(name, args, outcomes, at),
            Launcher::Fallback(f) => f.launch_from(name, args, outcomes, at),
        }
    }
}

/// Runs subcommands. A launch goes by steps: while it needs a child process
/// it returns [`Step::Spawn`]; the caller starts that process and launches
/// again with its outcome added to `outcomes`, until [`Step::Done`].
pub trait RitLauncher {
    /// The launcher can run: every fallback chain in it is non-empty.
    spec fn launchable(&self) -> bool;

    /// The step that launching `name` with `args` takes, once `outs` holds
    /// the outcomes of the child processes that the launch asked for so far.
    spec fn launch_step(&self, name: Seq<char>, args: Seq<Seq<char>>, outs: Seq<SpawnOutcome>) -> StepView;

    fn launch(&self, name: &str, args: &[String], outcomes: &[SpawnOutcome]) -> (r: Step)
        requires
            self.launchable(),
        ensures
            r@ == self.launch_step(name@, view_strings(args@), outcomes@),
    ;
}

impl RitLauncher for ProcLauncher {
    open spec fn launchable(&self) -> bool {
        true
    }

    open spec fn launch_step(&self, name: Seq<char>, args: Seq<Seq<char>>, outs: Seq<SpawnOutcome>) -> StepView {
        self.eval(name, args, outs, 0).0
    }

    fn launch(&self, name: &str, args: &[String], outcomes: &[SpawnOutcome]) -> (r: Step) {
        self.launch_from(name, args, outcomes, 0).0
    }
}

impl RitLauncher for LibLauncher {
    open spec fn launchable(&self) -> bool {
        true
    }

    open spec fn launch_step(&self, name: Seq<char>, args: Seq<Seq<char>>, outs: Seq<SpawnOutcome>) -> StepView {
        StepView::Done(Ok(()))
    }

    fn launch(&self, name: &str, args: &[String], outcomes: &[SpawnOutcome]) -> (r: Step) {
        Step::Done(Ok(()))
    }
}

impl RitLauncher for BlacklistLauncher {
    open spec fn launchable(&self) -> bool {
        self.wf()
    }

    open spec fn launch_step(&self, name: Seq<char>, args: Seq<Seq<char>>, outs: Seq<SpawnOutcome>) -> StepView {
        self.eval(name, args, outs, 0).0
    }

    fn launch(&self, name: &str, args: &[String], outcomes: &[SpawnOutcome]) -> (r: Step) {
        self.launch_from(name, args, outcomes, 0).0
    }
}

impl RitLauncher for FallbackLauncher {
    open spec fn launchable(&self) -> bool {
        self.wf()
    }

    open spec fn launch_step(&self, name: Seq<char>, args: Seq<Seq<char>>, outs: Seq<SpawnOutcome>) -> StepView {
        self.eval(name, args, outs, 0).0
    }

    fn launch(&self, name: &str, args: &[String], outcomes: &[SpawnOutcome]) -> (r: Step) {
        self.launch_from(name, args, outcomes, 0).0
    }
}

impl RitLauncher for Launcher {
    open spec fn launchable(&self) -> bool {
        self.wf()
    }

    open spec fn launch_step(&self, name: Seq<char>, args: Seq<Seq<char>>, outs: Seq<SpawnOutcome>) -> StepView {
        self.eval(name, args, outs, 0).0
    }

    fn launch(&self, name: &str, args: &[String], outcomes: &[SpawnOutcome]) -> (r: Step) {
        self.launch_from(name, args, outcomes, 0).0
    }
}

/// `l` is the default launcher: a chain that first runs subcommands through
/// `git`, except `help`, which the base command handles itself, and then
/// falls back to the in-process launcher.
pub open spec fn is_default_launcher(l: Launcher) -> bool {
    match l {
        Launcher::Fallback(f) => {
            &&& f.launchers@.len() == 2
            &&& match f.launchers@[0] {
                Launcher::Blacklist(b) => {
                    &&& b.blacklist@.len() == 1
                    &&& b.blacklist@[0]@ == "help"@
                    &&& match *b.launcher {
                        Launcher::Proc(p) => p.cmd_name@ == "git"@,
                        _ => false,
                    }
                },
                _ => false,
            }
            &&& f.launchers@[1] is Lib
        },
        _ => false,
    }
}

/// The default launcher: `git` for every subcommand but `help`, then the
/// in-process launcher.
pub fn get_default_launcher() -> (r: Launcher)
    ensures
        r.wf(),
        is_default_launcher(r),
{
    let mut blacklist: Vec<String> = Vec::new();
    blacklist.push("help".to_owned());
    let guarded = BlacklistLauncher::new(Launcher::Proc(ProcLauncher::new("git")), blacklist);
    assert(guarded.launcher.wf());
    assert(guarded.wf());
    let mut launchers: Vec<Launcher> = Vec::new();
    launchers.push(Launcher::Blacklist(guarded));
    launchers.push(Launcher::Lib(LibLauncher::new()));
    let chain = FallbackLauncher { launchers };
    assert(chain.launchers@[0].wf());
    assert(chain.launchers@[1].wf());
    assert(chain.wf());
    Launcher::Fallback(chain)
}

} // verus!
