//! The guest's own startup path: announce readiness, hand control to the
//! host, and stay parked.
//!
//! The decisions live here as a pure step function; the code that prints the
//! banner and executes the host-notification instruction performs the actions
//! that it returns.
use vstd::prelude::*;

verus! {

/// The event code that tells the host the guest is ready and waiting for
/// requests.
pub const WAITING_FOR_REQUESTS: u32 = 0x10001;

/// Where the guest's own thread of control stands.
#[derive(Clone, Copy, Debug, PartialEq, Eq, Structural)]
pub enum Phase {
    /// The image is loaded and the counter is at zero.
    Starting,
    /// The readiness banner has been emitted.
    Announcing,
    /// Control has gone to the host and never comes back.
    Parked,
}

/// What the guest does on one step of its startup path.
#[derive(Clone, Copy, Debug, PartialEq, Eq, Structural)]
pub enum Action {
    /// Emit the readiness banner on the diagnostic channel.
    PrintReadiness,
    /// Execute the host-notification instruction with `event` in its data
    /// register; it does not return.
    NotifyHost { event: u32 },
    /// Nothing is left for the guest to do.
    Idle,
}

/// One step of the startup path: the next phase and the action to perform.
pub open spec fn step(phase: Phase) -> (Phase, Action) {
    match phase {
        Phase::Starting => (Phase::Announcing, Action::PrintReadiness),
        Phase::Announcing => (Phase::Parked, Action::NotifyHost { event: WAITING_FOR_REQUESTS }),
        Phase::Parked => (Phase::Parked, Action::Idle),
    }
}

/// The phase reached from `phase` after `n` steps.
pub open spec fn phase_after(phase: Phase, n: nat) -> Phase
    decreases n,
{
    if n == 0 {
        phase
    } else {
        phase_after(step(phase).0, (n - 1) as nat)
    }
}

/// The actions performed during the first `n` steps from `phase`, in order.
pub open spec fn actions_from(phase: Phase, n: nat) -> Seq<Action>
    decreases n,
{
    if n == 0 {
        Seq::empty()
    } else {
        seq![step(phase).1] + actions_from(step(phase).0, (n - 1) as nat)
    }
}

/// Decides the next phase and the action that leads to it.
pub fn next_step(phase: Phase) -> (r: (Phase, Action))
    ensures
        r == step(phase),
{
    match phase {
        Phase::Starting => (Phase::Announcing, Action::PrintReadiness),
        Phase::Announcing => (Phase::Parked, Action::NotifyHost { event: WAITING_FOR_REQUESTS }),
        Phase::Parked => (Phase::Parked, Action::Idle),
    }
}

/// The one line of text emitted when the guest is ready.
pub fn readiness_message() -> (r: &'static str)
    ensures
        r@ == "Hello, Storage World!"@,
{
    "Hello, Storage World!"
}

/// Once parked, the guest never leaves that phase and performs no further
/// action, however many steps are taken.
pub proof fn lemma_parked_is_terminal(n: nat)
    ensures
        phase_after(Phase::Parked, n) == Phase::Parked,
        forall|i: int| 0 <= i < n ==> actions_from(Phase::Parked, n)[i] == Action::Idle,
        actions_from(Phase::Parked, n).len() == n,
    decreases n,
{
    if n > 0 {
        lemma_parked_is_terminal((n - 1) as nat);
        let rest = actions_from(Phase::Parked, (n - 1) as nat);
        assert(actions_from(Phase::Parked, n) == seq![Action::Idle] + rest);
    }
}

/// From a fresh start the guest emits the readiness banner exactly once, then
/// notifies the host with the waiting-for-requests event code, and after that
/// control transfer performs nothing more.
pub proof fn lemma_startup_announces_once_then_parks(n: nat)
    requires
        n >= 2,
    ensures
        phase_after(Phase::Starting, n) == Phase::Parked,
        actions_from(Phase::Starting, n).len() == n,
        actions_from(Phase::Starting, n)[0] == Action::PrintReadiness,
        actions_from(Phase::Starting, n)[1] == (Action::NotifyHost { event: WAITING_FOR_REQUESTS }),
        forall|i: int| 2 <= i < n ==> actions_from(Phase::Starting, n)[i] == Action::Idle,
        forall|i: int|
            0 <= i < n ==> (#[trigger] actions_from(Phase::Starting, n)[i] == Action::PrintReadiness
                <==> i == 0),
{
    let m = (n - 2) as nat;
    lemma_parked_is_terminal(m);
    lemma_startup_shape(n);
    let tail = actions_from(Phase::Parked, m);
    let all = actions_from(Phase::Starting, n);
    assert forall|i: int| 2 <= i < n implies all[i] == Action::Idle by {
        assert(all[i] == tail[i - 2]);
    }
}

/// Two steps take a fresh guest to the parked phase, past the banner and the
/// host notification.
proof fn lemma_startup_shape(n: nat)
    requires
        n >= 2,
    ensures
        phase_after(Phase::Starting, n) == phase_after(Phase::Parked, (n - 2) as nat),
        actions_from(Phase::Starting, n) == seq![Action::PrintReadiness] + (seq![
            Action::NotifyHost { event: WAITING_FOR_REQUESTS },
        ] + actions_from(Phase::Parked, (n - 2) as nat)),
{
    assert(phase_after(Phase::Starting, n) == phase_after(Phase::Announcing, (n - 1) as nat));
    assert(actions_from(Phase::Starting, n) == seq![Action::PrintReadiness] + actions_from(
        Phase::Announcing,
        (n - 1) as nat,
    ));
}

} // verus!
