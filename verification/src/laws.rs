//! Laws of the supervisor's lifecycle, stated over the transition functions
//! of [`crate::supervisor`] and proved once for every endpoint, state and
//! outcome.

use vstd::prelude::*;

use crate::endpoint::EndpointModel;
use crate::event::failure_event;
use crate::event::success_event;
use crate::state::StateModel;
use crate::supervisor::SupervisorModel;
use crate::supervisor::after_connect;
use crate::supervisor::after_resolve;
use crate::supervisor::attempts_started;
use crate::supervisor::connect_launches;
use crate::supervisor::initial;
use crate::supervisor::wf;

verus! {

/// The supervisor after `n` consecutive calls of `connect` with nothing
/// resolved in between.
pub open spec fn after_connects(m: SupervisorModel, n: nat) -> SupervisorModel
    decreases n,
{
    if n == 0 {
        m
    } else {
        after_connect(after_connects(m, (n - 1) as nat))
    }
}

/// Every construction starts unconnected with nothing recorded, and its
/// first `connect` always launches the attempt and moves the state to
/// `Connecting`: no input is refused and no external trigger is needed.
pub proof fn lemma_first_connect_launches(endpoint: EndpointModel)
    ensures
        initial(endpoint).state is Unconnected,
        initial(endpoint).events.len() == 0,
        connect_launches(initial(endpoint)),
        after_connect(initial(endpoint)).state is Connecting,
        attempts_started(after_connect(initial(endpoint))) == 1,
{
}

/// Idempotence of `connect`: while an attempt is pending, or once the
/// connection is established, a call of `connect` launches nothing and
/// changes nothing.
pub proof fn lemma_connect_is_guarded(m: SupervisorModel)
    requires
        m.state is Connecting || m.state is Connected,
    ensures
        !connect_launches(m),
        after_connect(m) == m,
{
}

/// Idempotence of `connect`, over a whole burst: however many times
/// `connect` is called while an attempt is pending, the supervisor is
/// unchanged and still exactly one attempt has been started.
pub proof fn lemma_pending_connects_change_nothing(m: SupervisorModel, n: nat)
    requires
        m.state is Connecting,
    ensures
        after_connects(m, n) == m,
        attempts_started(after_connects(m, n)) == attempts_started(m),
    decreases n,
{
    if n > 0 {
        lemma_pending_connects_change_nothing(m, (n - 1) as nat);
    }
}

/// Launch accounting: a call of `connect` starts one attempt exactly when
/// the launch guard lets it through, and records no event.
pub proof fn lemma_connect_accounting(m: SupervisorModel)
    ensures
        after_connect(m).events == m.events,
        connect_launches(m) ==> attempts_started(after_connect(m)) == attempts_started(m) + 1,
        !connect_launches(m) ==> attempts_started(after_connect(m)) == attempts_started(m),
{
}

/// Success path: when the pending attempt resolves `Ok`, the state reports
/// `Connected` and exactly one event, at debug severity, is appended to the
/// record. No further attempt is started by resolving.
pub proof fn lemma_success_path(m: SupervisorModel)
    requires
        m.state is Connecting,
    ensures
        after_resolve(m, Ok(())).state is Connected,
        after_resolve(m, Ok(())).events == m.events.push(success_event()),
        attempts_started(after_resolve(m, Ok(()))) == attempts_started(m),
{
}

/// Failure path: when the pending attempt resolves with an error, the state
/// reports `Failed` carrying exactly the error's detail, and exactly one
/// event, at warning severity and carrying that same detail, is appended to
/// the record. No further attempt is started by resolving.
pub proof fn lemma_failure_path(m: SupervisorModel, reason: Seq<char>)
    requires
        m.state is Connecting,
    ensures
        after_resolve(m, Err(reason)).state == (StateModel::Failed { reason }),
        after_resolve(m, Err(reason)).events == m.events.push(failure_event(reason)),
        attempts_started(after_resolve(m, Err(reason))) == attempts_started(m),
{
}

/// Pending is stable: an attempt that never resolves leaves the supervisor
/// in `Connecting` forever. Queries do not transition, and any number of
/// further `connect` calls leave the state exactly as it is; only a
/// resolution moves it on.
pub proof fn lemma_no_spurious_transition(m: SupervisorModel, n: nat)
    requires
        m.state is Connecting,
    ensures
        after_connects(m, n).state is Connecting,
        after_connects(m, n).events == m.events,
{
    lemma_pending_connects_change_nothing(m, n);
}

/// Re-attempt: from any failure, `connect` launches a fresh attempt, and the
/// terminal state that attempt reaches is a function of the new outcome
/// alone — the previous attempt's reason plays no part in it.
pub proof fn lemma_reattempt_after_failure(m: SupervisorModel, outcome: Result<(), Seq<char>>)
    requires
        m.state is Failed,
    ensures
        connect_launches(m),
        after_connect(m).state is Connecting,
        after_resolve(after_connect(m), outcome).state == (match outcome {
            Ok(_) => StateModel::Connected,
            Err(reason) => StateModel::Failed { reason },
        }),
{
}

/// The state/record agreement of [`wf`] holds of every reachable
/// supervisor: it holds at construction and each transition preserves it.
pub proof fn lemma_wf_invariant(endpoint: EndpointModel, m: SupervisorModel, outcome: Result<(), Seq<char>>)
    ensures
        wf(initial(endpoint)),
        wf(m) ==> wf(after_connect(m)),
        m.state is Connecting && wf(m) ==> wf(after_resolve(m, outcome)),
{
}

} // verus!
