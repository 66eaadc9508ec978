use vstd::prelude::*;

use crate::error::{outcome_result, Failure, SpawnOutcome};
use crate::launcher::{
    fallback_eval, BlacklistLauncher, FallbackLauncher, Launcher, ProcLauncher, RitLauncher,
    StepView,
};

verus! {

/// A name that is not in the blacklist is launched by the wrapped launcher,
/// step for step and with the same result.
pub proof fn lemma_blacklist_delegates(
    b: BlacklistLauncher,
    name: Seq<char>,
    args: Seq<Seq<char>>,
    outs: Seq<SpawnOutcome>,
)
    requires
        !b.forbids(name),
    ensures
        b.launch_step(name, args, outs) == (*b.launcher).launch_step(name, args, outs),
{
}

/// A name in the blacklist fails with `Blacklisted(name)` at once: the
/// wrapped launcher asks for no child process and uses no outcome.
pub proof fn lemma_blacklist_rejects(
    b: BlacklistLauncher,
    name: Seq<char>,
    args: Seq<Seq<char>>,
    outs: Seq<SpawnOutcome>,
    at: nat,
)
    requires
        b.forbids(name),
    ensures
        b.eval(name, args, outs, at) == (StepView::Done(Err(Failure::Blacklisted(name))), at),
        b.launch_step(name, args, outs) == StepView::Done(Err(Failure::Blacklisted(name))),
{
}

/// Where each launcher of `ls[i..]` but the last fails, the position in the
/// outcomes at which the last one starts; `None` where one of them does not
/// fail.
pub open spec fn all_but_last_fail(
    ls: Seq<Launcher>,
    i: int,
    name: Seq<char>,
    args: Seq<Seq<char>>,
    outs: Seq<SpawnOutcome>,
    at: nat,
) -> Option<nat>
    decreases ls.len() - i,
{
    if 0 <= i < ls.len() - 1 {
        let (s, p) = ls[i].eval(name, args, outs, at);
        match s {
            StepView::Done(Err(_)) => all_but_last_fail(ls, i + 1, name, args, outs, p),
            _ => None,
        }
    } else {
        Some(at)
    }
}

/// When every launcher of a chain but the last fails, the chain's step is
/// exactly the last launcher's: the earlier errors are dropped.
pub proof fn lemma_fallback_last_decides(
    ls: Seq<Launcher>,
    i: int,
    name: Seq<char>,
    args: Seq<Seq<char>>,
    outs: Seq<SpawnOutcome>,
    at: nat,
    p: nat,
)
    requires
        0 <= i < ls.len(),
        all_but_last_fail(ls, i, name, args, outs, at) == Some(p),
    ensures
        fallback_eval(ls, i, name, args, outs, at) == ls.last().eval(name, args, outs, p),
    decreases ls.len() - i,
{
    if i < ls.len() - 1 {
        let (s, q) = ls[i].eval(name, args, outs, at);
        lemma_fallback_last_decides(ls, i + 1, name, args, outs, q, p);
    }
}

/// A chain whose launchers all fail but the last, which succeeds, succeeds.
pub proof fn lemma_fallback_succeeds_last(
    f: FallbackLauncher,
    name: Seq<char>,
    args: Seq<Seq<char>>,
    outs: Seq<SpawnOutcome>,
    p: nat,
)
    requires
        f.wf(),
        all_but_last_fail(f.launchers@, 0, name, args, outs, 0) == Some(p),
        f.launchers@.last().eval(name, args, outs, p).0 == StepView::Done(Ok(())),
    ensures
        f.launch_step(name, args, outs) == StepView::Done(Ok(())),
{
    lemma_fallback_last_decides(f.launchers@, 0, name, args, outs, 0, p);
}

/// A chain whose launchers all fail fails with the last launcher's error.
pub proof fn lemma_fallback_fails_last(
    f: FallbackLauncher,
    name: Seq<char>,
    args: Seq<Seq<char>>,
    outs: Seq<SpawnOutcome>,
    p: nat,
    e: Failure,
)
    requires
        f.wf(),
        all_but_last_fail(f.launchers@, 0, name, args, outs, 0) == Some(p),
        f.launchers@.last().eval(name, args, outs, p).0 == StepView::Done(Err(e)),
    ensures
        f.launch_step(name, args, outs) == StepView::Done(Err(e)),
{
    lemma_fallback_last_decides(f.launchers@, 0, name, args, outs, 0, p);
}

/// A process launcher first asks for `<cmd_name> <name> <args...>`; once
/// that child has ended, it succeeds exactly on exit code 0, and fails with
/// `NotFound(name)` where the base command does not exist.
pub proof fn lemma_proc_launch(p: ProcLauncher, name: Seq<char>, args: Seq<Seq<char>>, o: SpawnOutcome)
    ensures
        p.launch_step(name, args, seq![]) == StepView::Spawn(p.cmd_name@, seq![name] + args),
        p.launch_step(name, args, seq![o]) == StepView::Done(outcome_result(name, o)),
        p.launch_step(name, args, seq![o]) == StepView::Done(Ok(())) <==> o == SpawnOutcome::Exited(
            Some(0),
        ),
        o is NotFound ==> p.launch_step(name, args, seq![o]) == StepView::Done(
            Err(Failure::NotFound(name)),
        ),
{
}

} // verus!
