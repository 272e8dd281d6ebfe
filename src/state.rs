use vstd::prelude::*;

verus! {

/// The power state of a managed server.
#[derive(Debug, Clone, Copy, PartialEq, Eq, Structural)]
pub enum PowerState {
    Uninstalled,
    Installing,
    Offline,
    Starting,
    Running,
    Stopping,
    Crashed,
    /// Terminal: the container and the directory are gone.
    Removed,
}

/// What drives a server from one power state to the next.
#[derive(Debug, Clone, Copy, PartialEq, Eq, Structural)]
pub enum Trigger {
    Install,
    InstallSucceeded,
    InstallFailed,
    Start,
    StartSucceeded,
    StartFailed,
    Stop,
    StopSucceeded,
    /// The graceful stop and the kill both failed: the container keeps running.
    StopFailed,
    /// The runtime reports that a running container exited on its own.
    ContainerExited,
    Restart,
    Remove,
}

/// The transition table: the state that `t` leads to from `s`, or `None`
/// where `t` is not admitted in `s`.
pub open spec fn next_state(s: PowerState, t: Trigger) -> Option<PowerState> {
    match (s, t) {
        (PowerState::Uninstalled, Trigger::Install) => Some(PowerState::Installing),
        (PowerState::Installing, Trigger::InstallSucceeded) => Some(PowerState::Offline),
        (PowerState::Installing, Trigger::InstallFailed) => Some(PowerState::Uninstalled),
        (PowerState::Offline, Trigger::Start) => Some(PowerState::Starting),
        (PowerState::Starting, Trigger::StartSucceeded) => Some(PowerState::Running),
        (PowerState::Starting, Trigger::StartFailed) => Some(PowerState::Crashed),
        (PowerState::Running, Trigger::Stop) => Some(PowerState::Stopping),
        (PowerState::Stopping, Trigger::StopSucceeded) => Some(PowerState::Offline),
        (PowerState::Stopping, Trigger::StopFailed) => Some(PowerState::Running),
        (PowerState::Running, Trigger::ContainerExited) => Some(PowerState::Crashed),
        (PowerState::Crashed, Trigger::Restart) => Some(PowerState::Starting),
        (PowerState::Removed, Trigger::Remove) => None,
        (_, Trigger::Remove) => Some(PowerState::Removed),
        _ => None,
    }
}

/// The state reached from `s` by the triggers `ts` in order, or `None` when
/// one of them is not admitted where it comes.
pub open spec fn run(s: PowerState, ts: Seq<Trigger>) -> Option<PowerState>
    decreases ts.len(),
{
    if ts.len() == 0 {
        Some(s)
    } else {
        match next_state(s, ts[0]) {
            Some(n) => run(n, ts.drop_first()),
            None => None,
        }
    }
}

/// The state that `t` leads to from `s`, or `None` where it is not admitted.
pub fn transition(s: PowerState, t: Trigger) -> (r: Option<PowerState>)
    ensures
        r == next_state(s, t),
{
    match (s, t) {
        (PowerState::Uninstalled, Trigger::Install) => Some(PowerState::Installing),
        (PowerState::Installing, Trigger::InstallSucceeded) => Some(PowerState::Offline),
        (PowerState::Installing, Trigger::InstallFailed) => Some(PowerState::Uninstalled),
        (PowerState::Offline, Trigger::Start) => Some(PowerState::Starting),
        (PowerState::Starting, Trigger::StartSucceeded) => Some(PowerState::Running),
        (PowerState::Starting, Trigger::StartFailed) => Some(PowerState::Crashed),
        (PowerState::Running, Trigger::Stop) => Some(PowerState::Stopping),
        (PowerState::Stopping, Trigger::StopSucceeded) => Some(PowerState::Offline),
        (PowerState::Stopping, Trigger::StopFailed) => Some(PowerState::Running),
        (PowerState::Running, Trigger::ContainerExited) => Some(PowerState::Crashed),
        (PowerState::Crashed, Trigger::Restart) => Some(PowerState::Starting),
        (PowerState::Removed, Trigger::Remove) => None,
        (_, Trigger::Remove) => Some(PowerState::Removed),
        _ => None,
    }
}

/// Replays `ts` from `s`: the state reached, or `None` at the first trigger
/// that is not admitted.
pub fn replay(s: PowerState, ts: &Vec<Trigger>) -> (r: Option<PowerState>)
    ensures
        r == run(s, ts@),
{
    let mut cur = s;
    let mut i: usize = 0;
    assert(ts@.subrange(0, ts@.len() as int) =~= ts@);
    while i < ts.len()
        invariant
            i <= ts@.len(),
            run(s, ts@) == run(cur, ts@.subrange(i as int, ts@.len() as int)),
        decreases ts@.len() - i,
    {
        let ghost rest = ts@.subrange(i as int, ts@.len() as int);
        assert(rest.drop_first() =~= ts@.subrange(i + 1, ts@.len() as int));
        match transition(cur, ts[i]) {
            Some(n) => {
                cur = n;
            },
            None => {
                return None;
            },
        }
        i = i + 1;
    }
    Some(cur)
}

/// Replaying a sequence of triggers in two parts reaches the same state as
/// replaying it whole: the state reached depends on the start and the
/// triggers alone, one step after the other.
pub proof fn lemma_run_append(s: PowerState, a: Seq<Trigger>, b: Seq<Trigger>)
    ensures
        run(s, a + b) == (match run(s, a) {
            Some(m) => run(m, b),
            None => None,
        }),
    decreases a.len(),
{
    if a.len() == 0 {
        assert(a + b =~= b);
    } else {
        assert((a + b).drop_first() =~= a.drop_first() + b);
        assert((a + b)[0] == a[0]);
        if let Some(n) = next_state(s, a[0]) {
            lemma_run_append(n, a.drop_first(), b);
        }
    }
}

/// Removal is admitted from every state but `Removed`, and nothing leaves
/// `Removed`.
pub proof fn lemma_removed_terminal(s: PowerState, t: Trigger)
    ensures
        s != PowerState::Removed ==> next_state(s, Trigger::Remove) == Some(PowerState::Removed),
        next_state(PowerState::Removed, t) is None,
{
}

} // verus!
