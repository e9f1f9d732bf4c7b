//! The node's lifecycle: in which order its parts are brought up and taken
//! down, and what a failure at each point leads to.
//!
//! The lifecycle is a state machine. It names the next action; the caller
//! performs it and reports how it went. The HTTP server is started only once
//! the identity, the endpoint, the store and the router are all up, and on
//! the way down every shutdown step is taken, whatever the steps before it
//! reported.

use vstd::prelude::*;

use crate::identity::{is_corrupt, provisioned, IdentityError, KeyFileView, KeyProvision};

verus! {

/// Why startup was aborted.
#[derive(Debug, Clone, Copy, PartialEq, Eq, Structural)]
pub enum StartupError {
    /// The first step failed: the key file is corrupt, or no key could be
    /// had.
    IdentityUnavailable,
    /// The endpoint, the store or the router did not come up.
    StartupFailure,
}

/// Where the node stands: what it is doing, or how it ended.
#[derive(Debug, Clone, Copy, PartialEq, Eq, Structural)]
pub enum Phase {
    LoadingIdentity,
    BindingEndpoint,
    OpeningStore,
    StartingRouter,
    ReadingIdentity,
    Serving,
    ClosingToPeers,
    StoppingRouter,
    StoppingStore,
    /// The node served and has been taken down.
    Stopped,
    /// Startup failed; the node never served.
    Aborted(StartupError),
}

/// How the action that was asked for went.
#[derive(Debug, Clone, Copy, PartialEq, Eq, Structural)]
pub enum Outcome {
    Succeeded,
    Failed,
}

/// How the process ends.
#[derive(Debug, Clone, Copy, PartialEq, Eq, Structural)]
pub enum ExitStatus {
    /// The node served, and the server and every shutdown step succeeded.
    Success,
    /// Startup was aborted, so the node never served.
    Aborted(StartupError),
    /// The node served, but the server or a shutdown step reported an error.
    Unclean,
}

/// What the caller is asked to do next.
#[derive(Debug, Clone, Copy, PartialEq, Eq, Structural)]
pub enum Action {
    /// Obtain the secret key from the key file, or a new one.
    LoadIdentity,
    /// Bind the network endpoint with that key, discoverable by peers.
    BindEndpoint,
    /// Open the persistent content store.
    OpenStore,
    /// Start the router with the store's protocol handler.
    StartRouter,
    /// Read the public identity back from the router.
    ReadIdentity,
    /// Serve HTTP until the server ends or the process is told to terminate.
    ServeHttp,
    /// Stop accepting new connections from peers.
    StopAccepting,
    /// Shut the router down.
    ShutDownRouter,
    /// Shut the store's background work down.
    ShutDownStore,
    /// End the process.
    Exit(ExitStatus),
}

/// A lifecycle's state: the phase, and whether all went well since the node
/// began to serve.
#[derive(Debug, Clone, Copy, PartialEq, Eq, Structural)]
pub struct LifecycleState {
    pub phase: Phase,
    pub clean: bool,
}

/// The number of startup steps that come before the HTTP server.
pub const STARTUP_STEPS: usize = 5;

/// The number of steps from the first startup step to the last shutdown step.
pub const ALL_STEPS: usize = 9;

/// The state in which every node begins.
pub open spec fn initial() -> LifecycleState {
    LifecycleState { phase: Phase::LoadingIdentity, clean: true }
}

/// The action that a state asks for.
pub open spec fn action_of(state: LifecycleState) -> Action {
    match state.phase {
        Phase::LoadingIdentity => Action::LoadIdentity,
        Phase::BindingEndpoint => Action::BindEndpoint,
        Phase::OpeningStore => Action::OpenStore,
        Phase::StartingRouter => Action::StartRouter,
        Phase::ReadingIdentity => Action::ReadIdentity,
        Phase::Serving => Action::ServeHttp,
        Phase::ClosingToPeers => Action::StopAccepting,
        Phase::StoppingRouter => Action::ShutDownRouter,
        Phase::StoppingStore => Action::ShutDownStore,
        Phase::Stopped => Action::Exit(
            if state.clean {
                ExitStatus::Success
            } else {
                ExitStatus::Unclean
            },
        ),
        Phase::Aborted(error) => Action::Exit(ExitStatus::Aborted(error)),
    }
}

/// The phase that follows `phase` where startup and shutdown go on.
pub open spec fn following(phase: Phase) -> Phase {
    match phase {
        Phase::LoadingIdentity => Phase::BindingEndpoint,
        Phase::BindingEndpoint => Phase::OpeningStore,
        Phase::OpeningStore => Phase::StartingRouter,
        Phase::StartingRouter => Phase::ReadingIdentity,
        Phase::ReadingIdentity => Phase::Serving,
        Phase::Serving => Phase::ClosingToPeers,
        Phase::ClosingToPeers => Phase::StoppingRouter,
        Phase::StoppingRouter => Phase::StoppingStore,
        Phase::StoppingStore => Phase::Stopped,
        Phase::Stopped => Phase::Stopped,
        Phase::Aborted(error) => Phase::Aborted(error),
    }
}

/// The error that a failure in the startup step `phase` stands for.
pub open spec fn failure_in(phase: Phase) -> StartupError {
    if phase == Phase::LoadingIdentity {
        StartupError::IdentityUnavailable
    } else {
        StartupError::StartupFailure
    }
}

/// Whether `phase` is one of the five startup steps.
pub open spec fn in_startup(phase: Phase) -> bool {
    phase == Phase::LoadingIdentity || phase == Phase::BindingEndpoint || phase
        == Phase::OpeningStore || phase == Phase::StartingRouter || phase
        == Phase::ReadingIdentity
}

/// Whether the node has ended in `phase`.
pub open spec fn is_final(phase: Phase) -> bool {
    phase == Phase::Stopped || phase is Aborted
}

/// The state after the action of `state` went as `outcome` says.
///
/// A failed startup step aborts. From serving on every step is followed by
/// the next, and a failure is only remembered. A node that has ended stays
/// as it is.
pub open spec fn next(state: LifecycleState, outcome: Outcome) -> LifecycleState {
    if is_final(state.phase) {
        state
    } else if in_startup(state.phase) {
        if outcome == Outcome::Succeeded {
            LifecycleState { phase: following(state.phase), clean: state.clean }
        } else {
            LifecycleState { phase: Phase::Aborted(failure_in(state.phase)), clean: state.clean }
        }
    } else {
        LifecycleState {
            phase: following(state.phase),
            clean: state.clean && outcome == Outcome::Succeeded,
        }
    }
}

/// The state that a node is in after its actions went as `outcomes` say, one
/// after the other.
pub open spec fn run(outcomes: Seq<Outcome>) -> LifecycleState
    decreases outcomes.len(),
{
    if outcomes.len() == 0 {
        initial()
    } else {
        next(run(outcomes.drop_last()), outcomes.last())
    }
}

/// The actions that a node is asked for while its actions go as `outcomes`
/// say: the first one, and one more after each outcome.
pub open spec fn actions(outcomes: Seq<Outcome>) -> Seq<Action> {
    Seq::new(outcomes.len() + 1, |i: int| action_of(run(outcomes.take(i))))
}

/// Whether each of `outcomes` is a success.
pub open spec fn all_succeeded(outcomes: Seq<Outcome>) -> bool {
    forall|i: int| 0 <= i < outcomes.len() ==> outcomes[i] == Outcome::Succeeded
}

/// The phase of a node that has taken `steps` steps without being aborted.
pub open spec fn phase_after(steps: int) -> Phase {
    if steps <= 0 {
        Phase::LoadingIdentity
    } else if steps == 1 {
        Phase::BindingEndpoint
    } else if steps == 2 {
        Phase::OpeningStore
    } else if steps == 3 {
        Phase::StartingRouter
    } else if steps == 4 {
        Phase::ReadingIdentity
    } else if steps == 5 {
        Phase::Serving
    } else if steps == 6 {
        Phase::ClosingToPeers
    } else if steps == 7 {
        Phase::StoppingRouter
    } else if steps == 8 {
        Phase::StoppingStore
    } else {
        Phase::Stopped
    }
}

/// The outcomes of the startup steps among `outcomes`: the first five, or
/// all where there are fewer.
pub open spec fn startup_part(outcomes: Seq<Outcome>) -> Seq<Outcome> {
    if outcomes.len() <= STARTUP_STEPS {
        outcomes
    } else {
        outcomes.take(STARTUP_STEPS as int)
    }
}

/// The outcomes of the server and of the shutdown steps among `outcomes`:
/// the sixth to the ninth, as far as they are there.
pub open spec fn serving_part(outcomes: Seq<Outcome>) -> Seq<Outcome> {
    if outcomes.len() <= STARTUP_STEPS {
        Seq::empty()
    } else if outcomes.len() <= ALL_STEPS {
        outcomes.skip(STARTUP_STEPS as int)
    } else {
        outcomes.subrange(STARTUP_STEPS as int, ALL_STEPS as int)
    }
}

/// The node's lifecycle.
pub struct NodeLifecycle {
    state: LifecycleState,
}

impl View for NodeLifecycle {
    type V = LifecycleState;

    closed spec fn view(&self) -> LifecycleState {
        self.state
    }
}

impl NodeLifecycle {
    /// A node before its first step.
    pub fn new() -> (lifecycle: NodeLifecycle)
        ensures
            lifecycle@ == initial(),
    {
        NodeLifecycle { state: LifecycleState { phase: Phase::LoadingIdentity, clean: true } }
    }

    /// The phase that the node is in.
    pub fn phase(&self) -> (phase: Phase)
        ensures
            phase == self@.phase,
    {
        self.state.phase
    }

    /// The action that the node asks for now.
    pub fn pending(&self) -> (action: Action)
        ensures
            action == action_of(self@),
    {
        match self.state.phase {
            Phase::LoadingIdentity => Action::LoadIdentity,
            Phase::BindingEndpoint => Action::BindEndpoint,
            Phase::OpeningStore => Action::OpenStore,
            Phase::StartingRouter => Action::StartRouter,
            Phase::ReadingIdentity => Action::ReadIdentity,
            Phase::Serving => Action::ServeHttp,
            Phase::ClosingToPeers => Action::StopAccepting,
            Phase::StoppingRouter => Action::ShutDownRouter,
            Phase::StoppingStore => Action::ShutDownStore,
            Phase::Stopped => if self.state.clean {
                Action::Exit(ExitStatus::Success)
            } else {
                Action::Exit(ExitStatus::Unclean)
            },
            Phase::Aborted(error) => Action::Exit(ExitStatus::Aborted(error)),
        }
    }

    /// Takes in how the pending action went, and names the action that
    /// follows.
    pub fn advance(&mut self, outcome: Outcome) -> (action: Action)
        ensures
            final(self)@ == next(old(self)@, outcome),
            action == action_of(final(self)@),
    {
        let succeeded = match outcome {
            Outcome::Succeeded => true,
            Outcome::Failed => false,
        };
        let clean = self.state.clean;
        let state = match self.state.phase {
            Phase::LoadingIdentity => startup_step(
                Phase::BindingEndpoint,
                StartupError::IdentityUnavailable,
                succeeded,
                clean,
            ),
            Phase::BindingEndpoint => startup_step(
                Phase::OpeningStore,
                StartupError::StartupFailure,
                succeeded,
                clean,
            ),
            Phase::OpeningStore => startup_step(
                Phase::StartingRouter,
                StartupError::StartupFailure,
                succeeded,
                clean,
            ),
            Phase::StartingRouter => startup_step(
                Phase::ReadingIdentity,
                StartupError::StartupFailure,
                succeeded,
                clean,
            ),
            Phase::ReadingIdentity => startup_step(
                Phase::Serving,
                StartupError::StartupFailure,
                succeeded,
                clean,
            ),
            Phase::Serving => LifecycleState {
                phase: Phase::ClosingToPeers,
                clean: clean && succeeded,
            },
            Phase::ClosingToPeers => LifecycleState {
                phase: Phase::StoppingRouter,
                clean: clean && succeeded,
            },
            Phase::StoppingRouter => LifecycleState {
                phase: Phase::StoppingStore,
                clean: clean && succeeded,
            },
            Phase::StoppingStore => LifecycleState {
                phase: Phase::Stopped,
                clean: clean && succeeded,
            },
            Phase::Stopped => LifecycleState { phase: Phase::Stopped, clean },
            Phase::Aborted(error) => LifecycleState { phase: Phase::Aborted(error), clean },
        };
        self.state = state;
        self.pending()
    }
}

/// The state after a startup step: on to `then` where it succeeded, aborted
/// with `error` where it did not.
fn startup_step(then: Phase, error: StartupError, succeeded: bool, clean: bool) -> (state:
    LifecycleState)
    ensures
        state == (LifecycleState {
            phase: if succeeded {
                then
            } else {
                Phase::Aborted(error)
            },
            clean,
        }),
{
    if succeeded {
        LifecycleState { phase: then, clean }
    } else {
        LifecycleState { phase: Phase::Aborted(error), clean }
    }
}

/// How a step went that ended in `result`: succeeded with `Ok`, failed with
/// `Err`.
pub open spec fn step_outcome<T, E>(result: Result<T, E>) -> Outcome {
    if result is Ok {
        Outcome::Succeeded
    } else {
        Outcome::Failed
    }
}

/// How a step went that ended in `result`.
pub fn outcome_of<T, E>(result: &Result<T, E>) -> (outcome: Outcome)
    ensures
        outcome == step_outcome(*result),
{
    match result {
        Ok(_) => Outcome::Succeeded,
        Err(_) => Outcome::Failed,
    }
}

proof fn all_succeeded_push(outcomes: Seq<Outcome>, last: Outcome)
    ensures
        all_succeeded(outcomes.push(last)) <==> all_succeeded(outcomes) && last
            == Outcome::Succeeded,
{
    let pushed = outcomes.push(last);
    if all_succeeded(pushed) {
        assert(pushed[outcomes.len() as int] == Outcome::Succeeded);
        assert forall|i: int| 0 <= i < outcomes.len() implies outcomes[i]
            == Outcome::Succeeded by {
            assert(pushed[i] == outcomes[i]);
        }
    }
}

/// The error with which startup is aborted where one of `outcomes` is a
/// failed startup step: the identity's, where the very first step failed.
pub open spec fn abort_error(outcomes: Seq<Outcome>) -> StartupError {
    if outcomes.len() > 0 && outcomes[0] == Outcome::Failed {
        StartupError::IdentityUnavailable
    } else {
        StartupError::StartupFailure
    }
}

/// The state after any outcomes, in closed form.
///
/// Where a startup step failed, the node is aborted. Otherwise its phase is
/// given by the number of steps taken, and it is clean as long as the server
/// and the shutdown steps so far succeeded.
pub proof fn run_in_closed_form(outcomes: Seq<Outcome>)
    ensures
        !all_succeeded(startup_part(outcomes)) ==> run(outcomes) == (LifecycleState {
            phase: Phase::Aborted(abort_error(outcomes)),
            clean: true,
        }),
        all_succeeded(startup_part(outcomes)) ==> run(outcomes) == (LifecycleState {
            phase: phase_after(outcomes.len() as int),
            clean: all_succeeded(serving_part(outcomes)),
        }),
    decreases outcomes.len(),
{
    if outcomes.len() > 0 {
        let before = outcomes.drop_last();
        let last = outcomes.last();
        run_in_closed_form(before);
        assert(outcomes =~= before.push(last));
        if outcomes.len() <= STARTUP_STEPS {
            all_succeeded_push(before, last);
            assert(serving_part(outcomes) =~= serving_part(before));
            if before.len() > 0 {
                assert(before[0] == outcomes[0]);
            }
        } else {
            assert(before[0] == outcomes[0]);
            assert(startup_part(outcomes) =~= startup_part(before));
            if outcomes.len() <= ALL_STEPS {
                assert(serving_part(outcomes) =~= serving_part(before).push(last));
                all_succeeded_push(serving_part(before), last);
            } else {
                assert(serving_part(outcomes) =~= serving_part(before));
            }
        }
    }
}

/// The HTTP server is started only after all five startup steps, and only
/// where each of them succeeded.
pub proof fn serving_needs_every_startup_step(outcomes: Seq<Outcome>, i: int)
    requires
        0 <= i <= outcomes.len(),
        actions(outcomes)[i] == Action::ServeHttp,
    ensures
        i == STARTUP_STEPS,
        all_succeeded(outcomes.take(STARTUP_STEPS as int)),
{
    let taken = outcomes.take(i);
    run_in_closed_form(taken);
    assert(startup_part(taken) =~= outcomes.take(STARTUP_STEPS as int));
}

/// A failed startup step is fatal: the HTTP server is never started, and
/// after the failure nothing is asked for but to end the process as aborted,
/// for want of an identity where the first step failed, and as a startup
/// failure otherwise.
pub proof fn failed_startup_is_fatal(outcomes: Seq<Outcome>, failed: int, i: int)
    requires
        0 <= failed < outcomes.len(),
        failed < STARTUP_STEPS,
        outcomes[failed] == Outcome::Failed,
        0 <= i <= outcomes.len(),
    ensures
        actions(outcomes)[i] != Action::ServeHttp,
        i > failed ==> actions(outcomes)[i] == Action::Exit(
            ExitStatus::Aborted(abort_error(outcomes)),
        ),
{
    let taken = outcomes.take(i);
    run_in_closed_form(taken);
    if i > failed {
        assert(startup_part(taken)[failed] == Outcome::Failed);
        assert(taken[0] == outcomes[0]);
    }
}

/// Startup goes in one order: identity, endpoint, store, router, identity
/// read back, and then the HTTP server.
pub proof fn startup_is_in_order(outcomes: Seq<Outcome>)
    requires
        outcomes.len() >= STARTUP_STEPS,
        all_succeeded(outcomes.take(STARTUP_STEPS as int)),
    ensures
        actions(outcomes)[0] == Action::LoadIdentity,
        actions(outcomes)[1] == Action::BindEndpoint,
        actions(outcomes)[2] == Action::OpenStore,
        actions(outcomes)[3] == Action::StartRouter,
        actions(outcomes)[4] == Action::ReadIdentity,
        actions(outcomes)[5] == Action::ServeHttp,
{
    let startup = outcomes.take(STARTUP_STEPS as int);
    assert forall|i: int| 0 <= i <= STARTUP_STEPS implies run(outcomes.take(i)).phase
        == phase_after(i) by {
        let taken = outcomes.take(i);
        run_in_closed_form(taken);
        assert forall|j: int| 0 <= j < startup_part(taken).len() implies startup_part(taken)[j]
            == Outcome::Succeeded by {
            assert(startup_part(taken)[j] == startup[j]);
        }
    }
    assert(run(outcomes.take(0)).phase == phase_after(0));
    assert(run(outcomes.take(1)).phase == phase_after(1));
    assert(run(outcomes.take(2)).phase == phase_after(2));
    assert(run(outcomes.take(3)).phase == phase_after(3));
    assert(run(outcomes.take(4)).phase == phase_after(4));
    assert(run(outcomes.take(5)).phase == phase_after(5));
}

/// Once the node has served, shutdown is taken in full and in order: peers
/// are turned away, the router is shut down, the store is shut down, each
/// step whatever the steps before it reported. The process then ends in
/// success exactly where the server and all three steps succeeded.
pub proof fn shutdown_is_complete(outcomes: Seq<Outcome>)
    requires
        outcomes.len() >= ALL_STEPS,
        all_succeeded(outcomes.take(STARTUP_STEPS as int)),
    ensures
        actions(outcomes)[6] == Action::StopAccepting,
        actions(outcomes)[7] == Action::ShutDownRouter,
        actions(outcomes)[8] == Action::ShutDownStore,
        actions(outcomes)[9] == Action::Exit(
            if all_succeeded(outcomes.subrange(STARTUP_STEPS as int, ALL_STEPS as int)) {
                ExitStatus::Success
            } else {
                ExitStatus::Unclean
            },
        ),
{
    let startup = outcomes.take(STARTUP_STEPS as int);
    assert forall|i: int| STARTUP_STEPS < i <= ALL_STEPS implies run(outcomes.take(i)).phase
        == phase_after(i) && run(outcomes.take(i)).clean == all_succeeded(
        serving_part(outcomes.take(i)),
    ) by {
        let taken = outcomes.take(i);
        run_in_closed_form(taken);
        assert(startup_part(taken) =~= startup);
    }
    assert(run(outcomes.take(6)).phase == phase_after(6));
    assert(run(outcomes.take(7)).phase == phase_after(7));
    assert(run(outcomes.take(8)).phase == phase_after(8));
    assert(run(outcomes.take(9)).phase == phase_after(9));
    assert(serving_part(outcomes.take(9)) =~= outcomes.subrange(
        STARTUP_STEPS as int,
        ALL_STEPS as int,
    ));
}

/// A node that has ended stays ended: further outcomes change nothing.
pub proof fn ended_node_stays(state: LifecycleState, outcome: Outcome)
    requires
        is_final(state.phase),
    ensures
        next(state, outcome) == state,
{
}

/// A corrupt key file keeps the node from ever serving: with a key file of
/// any length but 32, or one that cannot be read, the first step fails, and
/// whatever is reported afterwards, the HTTP server is not started.
pub proof fn corrupt_key_file_never_serves(
    file: KeyFileView,
    provision: Result<KeyProvision, IdentityError>,
    later: Seq<Outcome>,
    i: int,
)
    requires
        is_corrupt(file),
        provisioned(file, provision),
        0 <= i <= later.len() + 1,
    ensures
        step_outcome(provision) == Outcome::Failed,
        actions(seq![step_outcome(provision)] + later)[i] != Action::ServeHttp,
        i >= 1 ==> actions(seq![step_outcome(provision)] + later)[i] == Action::Exit(
            ExitStatus::Aborted(StartupError::IdentityUnavailable),
        ),
{
    let outcomes = seq![step_outcome(provision)] + later;
    assert(outcomes[0] == Outcome::Failed);
    failed_startup_is_fatal(outcomes, 0, i);
}

} // verus!
